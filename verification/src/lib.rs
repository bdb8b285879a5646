//! Trusted core of a host-side filesystem passthrough service.
//!
//! The crate gathers the safety-critical decision logic of the daemon:
//! escape-proof path resolution requests, stable cross-mount file identity
//! with a per-mount anchor cache, ordered per-operation privilege switching,
//! and the process supervision helpers used at startup and shutdown.

pub mod credentials;
pub mod file_handle;
pub mod mount_fd;
pub mod oslib;
pub mod util;

pub use oslib::OsError;
