//! Terminal raw-mode control, console-size probing and single-line prompting,
//! written as decision logic over plain values, each function with a proved contract.
//!
//! The operating-system calls themselves (reading and applying a terminal
//! mode, the window-size query, the interactive read) are made by the caller;
//! every rule about what to read, what to store, what to apply and what to
//! report lives here.

pub mod console;
pub mod error;
pub mod mode;
pub mod prompt;
pub mod raw;
pub mod stdin_guard;
pub mod store;
