//! An interactive debugger front-end for the Maikor byte-code virtual
//! machine: mode switching, command-line editing, command dispatch with
//! before/after register diffing, and register/flag formatting, with the
//! VM, the assembly parser and the terminal as external collaborators.

pub mod debugger;
pub mod diff;
pub mod dispatch;
pub mod dump;
pub mod flags;
pub mod machine;
pub mod text;
pub mod vm;
