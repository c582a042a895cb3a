//! Choosing an external text editor and preparing its invocation on a file.
//!
//! The editor is resolved by a strict precedence chain (environment value,
//! configured value, then a probe of well-known editors in a fixed order),
//! its command string is split into words the way a POSIX shell would, and the
//! target path is appended as the final argument. What the child process
//! reports when it finishes is turned into success or a specific error.
//!
//! Reading the environment, creating directories and spawning processes are
//! left to the caller; every decision in between is made and proved here.
pub mod error;
pub mod launch;
pub mod resolve;
pub mod tokenize;
