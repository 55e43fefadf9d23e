//! A cooperative two-thread kernel, modelled as a verified state machine.

pub mod console;
pub mod context;
pub mod frame;
pub mod kernel;
pub mod laws;
pub mod layout;
