//! Version identification for a dynamically linked SDL library.
//!
//! The crate answers three questions about the native library linked into
//! the current process: its numeric (major, minor, patch) version, the
//! source-control revision string of its build, and its integer revision
//! counter. The foreign calls themselves live outside this crate; the
//! types, the decimal rendering of a version triple, and the decoding of
//! the NUL-terminated revision bytes are verified here.

pub mod decimal;
pub mod revision;
pub mod version;
