//! The Xenon File Protocol: a protocol for listing directories, downloading
//! files and reading file metadata over HTTP, with JSON for everything but
//! the bytes of a file.
//!
//! A server exposes one or more mounts, each a named root with a backing
//! store and a policy of its own. A client reads from a mount through three
//! endpoints:
//!
//!  - `GET /:mount/dir/:path` lists a directory,
//!  - `GET /:mount/file/:path` downloads a file, or a part of it,
//!  - `GET /:mount/metadata/:path` gives the metadata of a resource.
//!
//! This crate holds the data model of the protocol, its JSON form, and the
//! rules by which a server answers: which status, which headers and which
//! body follow from what the mount said about a request. It does no I/O.

/// The endpoints: what a server answers, and when.
pub mod api;
/// Directory listings.
pub mod dir;
/// The kinds of resources.
pub mod file;
/// JSON values.
pub mod json;
/// File metadata: timestamps, size and permissions.
pub mod metadata;
/// Decimal numbers as text.
pub mod text;
/// The JSON form of the data model.
pub mod wire;
