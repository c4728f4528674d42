//! Clock-mode control core for an STM32L4 board: clock-tree arithmetic and
//! register-write plans, a debounce filter for the user button, the cyclic
//! clock-mode sequencer and the listen-session state machine that ties them
//! together.

pub mod clock;
pub mod tree;
pub mod mode;
pub mod debounce;
pub mod listen;
pub mod control;
