//! Verified core of a small content-delivery service.
//!
//! The service serves files from a fixed resource root over three HTTP
//! endpoints: one returns a file's raw bytes, one the lowercase hexadecimal
//! SHA-1 digest of its content, and one its byte size as a decimal string.
//! Everything with an invariant lives here: the path-traversal screen on the
//! user-supplied filename, the resolution of that filename under the resource
//! root, the rendering of digests and sizes, and the mapping from filesystem
//! outcomes to HTTP replies. The surrounding process — the listener, the
//! routes, the filesystem calls themselves — is plain I/O and stays outside.

pub mod config;
pub mod digest;
pub mod handler;
pub mod render;
pub mod validate;
