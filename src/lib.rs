//! Printing categorised, user-facing diagnostics from command-line programs.
//!
//! Every diagnostic is one line of the shape `program:label: message`, where
//! the program name and the severity label may be wrapped in ANSI colour
//! codes. The library computes these lines; writing them to standard error is
//! left to the caller.
pub mod colour;
pub mod location;
pub mod printer;
pub mod severity;
