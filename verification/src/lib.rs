//! A minimal cooperative task executor with a timer, and a few small
//! text and arithmetic utilities, all with machine-checked contracts.
pub mod adder;
pub mod executor;
pub mod generic_types;
pub mod minigrep;
pub mod poll;
pub mod run_loop;
pub mod timer;
