//! Verified core of a process-injection and inline-hook toolkit.
//!
//! The crate models the decision logic of a remote module loader, an inline
//! hook engine (5-byte relative-jump patches and trampolines), a process
//! directory, a module lifecycle controller and an actuation bridge.  All
//! machine-code encoding, buffer-sizing and control decisions live here with
//! contracts; the operating-system calls and device I/O that act on these
//! decisions live in the unverified front end.

pub mod bridge;
pub mod error;
pub mod lifecycle;
pub mod patch;
pub mod loader;
pub mod process;
