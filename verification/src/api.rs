//! The three read endpoints of the protocol: what a server answers, given
//! what the mount said about the request.
//!
//! A request names a mount and a path. The server asks the mount to authorize
//! the request and to resolve the path, then asks the backing store for the
//! entries, the size or the metadata. The functions of this module take those
//! answers and decide status, headers and body.

/// What goes wrong, and how it is reported.
pub mod error;
/// One request, from its arrival to its response.
pub mod exchange;
/// GET `/:mount/dir/:path`
pub mod get_dir;
/// GET `/:mount/file/:path`
pub mod get_file;
/// GET `/:mount/metadata/:path`
pub mod get_metadata;
/// Mounts, and what a mount says about a request.
pub mod mounts;
/// The `Range` header of a request and the `Content-Range` header of a response.
pub mod range;
/// What a server answers.
pub mod response;
