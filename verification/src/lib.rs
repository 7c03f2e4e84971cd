//! Verified core of a desktop application shell's native backend.
//!
//! The library holds the backend's logic: resolving a relative path against
//! the directory of a base path, turning image bytes into a `data:` URI with
//! a MIME type derived from the file extension, deciding the startup-file
//! payload, and managing the single-slot file-watch session.  File and
//! process I/O stay with the surrounding application, which hands the
//! library plain values.

pub mod encoding;
pub mod errors;
pub mod mime;
pub mod paths;
pub mod startup;
pub mod watch;
