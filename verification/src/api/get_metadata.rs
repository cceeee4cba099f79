//! # GET `/:mount/metadata/:path`
//!
//! Gives the metadata of the resource at the path in the mount, as one JSON
//! object.
//!
//! ## Status codes
//!
//!  - `200 OK`: the metadata follows. There is no other success: no empty
//!    and no partial answer.
//!  - `401 Unauthorized`, `403 Forbidden`: the mount's policy refused.
//!  - `404 Not Found`: there is nothing at the path.
//!  - `500 Internal Server Error`: the metadata could not be read or could
//!    not be written; the description says which.
//!
//! ## The object
//!
//!  - `created`, `updated`, `accessed`: timestamps in RFC 3339 form; each is
//!    left out where it is unknown.
//!  - `permissions`: an object with `read`, `write` and `execute`, which say
//!    what the server can do with the resource, and `owner` and `group`,
//!    which are left out where they are unknown.
//!  - `size`: the size in bytes, as a text of decimal digits.
//!
//! An owner is `{"uid": .., "name": ..}` on a Unix-like host and
//! `{"sid": .., "domain": .., "name": ..}` on Windows; a group has `gid` in
//! place of `uid`.

use crate::api::error::ErrorKind;
use crate::api::mounts::{Authorization, Resolution};
use crate::api::response::{failed, Response, ResponseView};
use crate::json::{Json, JsonValue};
use crate::metadata::{Metadata, MetadataView};
use crate::wire::{json_view, metadata_json};
use vstd::prelude::*;

verus! {

/// What is said of metadata that cannot be written.
pub open spec fn unwritable_metadata() -> Seq<char> {
    "the resource has a timestamp that cannot be written"@
}

/// The response for metadata that was read: `body` is its JSON form, or
/// `None` where it cannot be written.
pub open spec fn metadata_answer(body: Option<JsonValue>) -> ResponseView {
    match body {
        Some(body) => ResponseView::Json(body),
        None => failed(ErrorKind::Internal, unwritable_metadata()),
    }
}

/// What reading the metadata gave, as a mathematical value: the metadata, or
/// the description of what went wrong.
pub open spec fn metadata_outcome(metadata: Result<Metadata, String>) -> Result<
    MetadataView,
    Seq<char>,
> {
    match metadata {
        Ok(metadata) => Ok(metadata@),
        Err(cause) => Err(cause@),
    }
}

/// The response for a resource of which `metadata` is what reading its
/// metadata gave: the metadata, or the description of what went wrong.
pub open spec fn after_probe(metadata: Result<MetadataView, Seq<char>>) -> ResponseView {
    match metadata {
        Ok(metadata) => metadata_answer(metadata_json(metadata)),
        Err(cause) => failed(ErrorKind::Internal, cause),
    }
}

/// The response to a request for metadata.
///
/// `auth` is what the mount's policy said of the request, `resolution` what
/// the mount found at the path, and `metadata` what reading the metadata
/// gave.
pub open spec fn metadata_response(
    auth: Authorization,
    resolution: Resolution,
    metadata: Result<MetadataView, Seq<char>>,
) -> ResponseView {
    match auth.refusal() {
        Some(kind) => failed(kind, Seq::empty()),
        None => if resolution == Resolution::NotFound {
            failed(ErrorKind::NotFound, Seq::empty())
        } else {
            after_probe(metadata)
        },
    }
}

/// Answers for metadata that was read: `body` is its JSON form, or `None`
/// where it cannot be written. The one gives `200` with `body`, the other
/// `500`.
pub fn metadata_body_response(body: Option<Json>) -> (response: Response)
    ensures
        response@ == metadata_answer(json_view(body)),
{
    match body {
        Some(body) => Response::Json(body),
        None => Response::failure(
            ErrorKind::Internal,
            "the resource has a timestamp that cannot be written",
        ),
    }
}

/// Answers for a resource of which `metadata` is what reading its metadata
/// gave: the metadata, or the description of what went wrong.
///
/// Metadata that could not be read is `500`, with the description given.
/// Metadata that was read is `200` with its object, and `500` where it cannot
/// be written.
pub fn respond_to_probe(metadata: Result<Metadata, String>) -> (response: Response)
    ensures
        response@ == after_probe(metadata_outcome(metadata)),
        response@.conforms(),
{
    match metadata {
        Ok(metadata) => {
            let body = metadata.to_json();
            proof {
                lemma_unwritable_is_described();
            }
            metadata_body_response(body)
        },
        Err(cause) => Response::failure(ErrorKind::Internal, cause.as_str()),
    }
}

/// Answers a request for metadata.
///
/// `auth` is what the mount's policy said of the request, `resolution` what
/// the mount found at the path, and `metadata` what reading the metadata
/// gave: the metadata, or the description of what went wrong.
///
/// A refusal of the policy comes first, whatever the path holds. Nothing at
/// the path is `404`; a file, a directory and a symbolic link all have
/// metadata. Metadata that could not be read is `500`, with the description
/// given. Metadata that was read is `200` with its object.
pub fn get_metadata(
    auth: Authorization,
    resolution: Resolution,
    metadata: Result<Metadata, String>,
) -> (response: Response)
    ensures
        response@ == metadata_response(auth, resolution, metadata_outcome(metadata)),
        response@.conforms(),
{
    if let Some(kind) = auth.refused() {
        return Response::of_kind(kind);
    }
    match resolution {
        Resolution::NotFound => {
            return Response::of_kind(ErrorKind::NotFound);
        },
        _ => {},
    }
    respond_to_probe(metadata)
}

/// The description of metadata that cannot be written is not empty.
pub proof fn lemma_unwritable_is_described()
    ensures
        unwritable_metadata().len() > 0,
{
    reveal_strlit("the resource has a timestamp that cannot be written");
}

/// Metadata that was read and can be written is answered with `200` and its
/// JSON form, and nothing else is answered with success.
pub proof fn lemma_metadata_success(
    auth: Authorization,
    resolution: Resolution,
    metadata: Result<MetadataView, Seq<char>>,
)
    ensures
        ({
            let response = metadata_response(auth, resolution, metadata);
            &&& response is Error || response is Json
            &&& response is Json ==> {
                &&& response.status_code() == 200
                &&& auth == Authorization::Allowed
                &&& resolution != Resolution::NotFound
                &&& metadata matches Ok(found)
                &&& metadata_json(found) == Some(response->Json_0)
            }
        }),
{
}

/// A request for metadata is answered with one of five status codes: `200`,
/// `401`, `403`, `404` and `500`.
pub proof fn lemma_metadata_statuses(
    auth: Authorization,
    resolution: Resolution,
    metadata: Result<MetadataView, Seq<char>>,
)
    ensures
        ({
            let status = metadata_response(auth, resolution, metadata).status_code();
            status == 200 || status == 401 || status == 403 || status == 404 || status == 500
        }),
{
}

/// A request that the policy refuses gets `401` where credentials are
/// missing or invalid and `403` where they do not suffice, whatever the path
/// holds; one that the policy allows gets `404` where the path holds nothing.
pub proof fn lemma_metadata_refusals(
    auth: Authorization,
    resolution: Resolution,
    metadata: Result<MetadataView, Seq<char>>,
)
    ensures
        ({
            let response = metadata_response(auth, resolution, metadata);
            &&& auth == Authorization::Unauthorized ==> response.status_code() == 401
            &&& auth == Authorization::Forbidden ==> response.status_code() == 403
            &&& auth == Authorization::Allowed && resolution == Resolution::NotFound
                ==> response.status_code() == 404
        }),
{
}

} // verus!
