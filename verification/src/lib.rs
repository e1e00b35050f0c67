//! Decision logic of a network-connected single-outlet controller.
//!
//! The crate holds no I/O. Each component is a state machine or a guarded
//! value whose functions take what a collaborator reported and return what
//! to ask of it next; the program around the crate performs those requests.

pub mod actuator;
pub mod bootstrap;
pub mod network;
pub mod registration;
pub mod write_handler;
