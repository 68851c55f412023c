//! Verified core of a small installer for the `via` binary.
//!
//! The library resolves the host platform to a download URL, a binary
//! filename and an installation directory, and drives the install procedure
//! as a step-by-step decision function. All real I/O (directory creation,
//! the HTTP fetch, the file write and the permission change) is performed by
//! an unverified driver that carries out the actions this library emits and
//! reports each outcome back as an event.

pub mod errors;
pub mod platform;
pub mod machine;
pub mod diskmodel;
