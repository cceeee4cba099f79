//! # GET `/:mount/dir/:path`
//!
//! Lists the directory at the path in the mount, as a JSON array of entries
//! in the order in which the backing store yielded them.
//!
//! ## Status codes
//!
//!  - `200 OK`: the listing follows.
//!  - `204 No Content`: the directory is empty; there is no body. An empty
//!    array is never sent.
//!  - `401 Unauthorized`, `403 Forbidden`: the mount's policy refused.
//!  - `404 Not Found`: there is no directory at the path.
//!  - `500 Internal Server Error`: the directory could not be read, or an
//!    entry could not be written; the description says which.

use crate::api::error::ErrorKind;
use crate::api::mounts::{Authorization, Resolution};
use crate::api::response::{failed, Response, ResponseView};
use crate::dir::{listing_view, DirectoryListEntryView, DirectoryListing};
use crate::json::{Json, JsonValue};
use crate::wire::{entry_json, json_view, listing_json, listing_to_json};
use vstd::prelude::*;

verus! {

/// What is said of a listing that cannot be written.
pub open spec fn unwritable_listing() -> Seq<char> {
    "an entry of the directory has a timestamp that cannot be written"@
}

/// The response for a directory that was read: `count` is the number of its
/// entries and `body` their JSON form, or `None` where they cannot be
/// written.
pub open spec fn listing_answer(count: nat, body: Option<JsonValue>) -> ResponseView {
    if count == 0 {
        ResponseView::Empty
    } else {
        match body {
            Some(body) => ResponseView::Json(body),
            None => failed(ErrorKind::Internal, unwritable_listing()),
        }
    }
}

/// What reading a directory gave, as a mathematical value: the entries, or
/// the description of what went wrong.
pub open spec fn listing_outcome(listing: Result<DirectoryListing, String>) -> Result<
    Seq<DirectoryListEntryView>,
    Seq<char>,
> {
    match listing {
        Ok(entries) => Ok(listing_view(entries@)),
        Err(cause) => Err(cause@),
    }
}

/// The response for a directory of which `listing` is what reading it gave:
/// the entries, or the description of what went wrong.
pub open spec fn after_listing(
    listing: Result<Seq<DirectoryListEntryView>, Seq<char>>,
) -> ResponseView {
    match listing {
        Ok(entries) => listing_answer(entries.len(), listing_json(entries)),
        Err(cause) => failed(ErrorKind::Internal, cause),
    }
}

/// The response to a request for a listing.
///
/// `auth` is what the mount's policy said of the request, `resolution` what
/// the mount found at the path, and `listing` what reading the directory
/// gave.
pub open spec fn dir_response(
    auth: Authorization,
    resolution: Resolution,
    listing: Result<Seq<DirectoryListEntryView>, Seq<char>>,
) -> ResponseView {
    match auth.refusal() {
        Some(kind) => failed(kind, Seq::empty()),
        None => if resolution != Resolution::Directory {
            failed(ErrorKind::NotFound, Seq::empty())
        } else {
            after_listing(listing)
        },
    }
}

/// Answers for a directory that was read: `count` is the number of its
/// entries and `body` their JSON form, or `None` where they cannot be
/// written.
///
/// No entries give `204` and no body, whatever `body` is. Entries that were
/// written give `200` with `body`, and entries that cannot be written `500`.
pub fn listing_response(count: usize, body: Option<Json>) -> (response: Response)
    ensures
        response@ == listing_answer(count as nat, json_view(body)),
{
    if count == 0 {
        Response::Empty
    } else {
        match body {
            Some(body) => Response::Json(body),
            None => Response::failure(
                ErrorKind::Internal,
                "an entry of the directory has a timestamp that cannot be written",
            ),
        }
    }
}

/// Answers for a directory of which `listing` is what reading it gave: the
/// entries in the order of the backing store, or the description of what
/// went wrong.
///
/// A directory that could not be read is `500`, with the description given.
/// An empty directory is `204` without a body; any other is `200` with the
/// array of its entries, in their order, and `500` where an entry cannot be
/// written.
pub fn respond_to_listing(listing: Result<DirectoryListing, String>) -> (response: Response)
    ensures
        response@ == after_listing(listing_outcome(listing)),
        response@.conforms(),
{
    match listing {
        Ok(entries) => {
            let body = listing_to_json(&entries);
            proof {
                lemma_unwritable_is_described();
            }
            listing_response(entries.len(), body)
        },
        Err(cause) => Response::failure(ErrorKind::Internal, cause.as_str()),
    }
}

/// Answers a request for a listing.
///
/// `auth` is what the mount's policy said of the request, `resolution` what
/// the mount found at the path, and `listing` what reading the directory
/// gave: the entries in the order of the backing store, or the description of
/// what went wrong.
///
/// A refusal of the policy comes first, whatever the path holds. Anything but
/// a directory at the path is `404`. A directory that could not be read is
/// `500`, with the description given. An empty directory is `204` without a
/// body; any other is `200` with the array of its entries, in their order.
pub fn get_dir(
    auth: Authorization,
    resolution: Resolution,
    listing: Result<DirectoryListing, String>,
) -> (response: Response)
    ensures
        response@ == dir_response(auth, resolution, listing_outcome(listing)),
        response@.conforms(),
{
    if let Some(kind) = auth.refused() {
        return Response::of_kind(kind);
    }
    match resolution {
        Resolution::Directory => {},
        _ => {
            return Response::of_kind(ErrorKind::NotFound);
        },
    }
    respond_to_listing(listing)
}

/// The description of a listing that cannot be written is not empty.
pub proof fn lemma_unwritable_is_described()
    ensures
        unwritable_listing().len() > 0,
{
    reveal_strlit("an entry of the directory has a timestamp that cannot be written");
}

/// A directory without entries is answered with `204` and no body, never
/// with an empty array.
pub proof fn lemma_empty_directory()
    ensures
        dir_response(Authorization::Allowed, Resolution::Directory, Ok(Seq::empty()))
            == ResponseView::Empty,
        ResponseView::Empty.status_code() == 204,
        ResponseView::Empty.json_body() is None,
        ResponseView::Empty.has_no_body(),
{
}

/// A directory with entries is answered with `200` and an array that has as
/// many items as the directory has entries, the item at each place being the
/// JSON form of the entry at that place. Where an entry cannot be written,
/// the answer is `500`.
pub proof fn lemma_listing_in_order(entries: Seq<DirectoryListEntryView>)
    requires
        entries.len() > 0,
    ensures
        ({
            let response = dir_response(Authorization::Allowed, Resolution::Directory, Ok(entries));
            match response {
                ResponseView::Json(JsonValue::Array(items)) => {
                    &&& response.status_code() == 200
                    &&& items.len() == entries.len()
                    &&& forall|i: int|
                        0 <= i < entries.len() ==> entry_json(#[trigger] entries[i]) == Some(
                            items[i],
                        )
                },
                ResponseView::Error(error) => {
                    &&& error.kind == ErrorKind::Internal
                    &&& exists|i: int| 0 <= i < entries.len() && entry_json(entries[i]) is None
                },
                _ => false,
            }
        }),
{
}

/// A request for a listing is answered with one of six status codes: `200`,
/// `204`, `401`, `403`, `404` and `500`.
pub proof fn lemma_dir_statuses(
    auth: Authorization,
    resolution: Resolution,
    listing: Result<Seq<DirectoryListEntryView>, Seq<char>>,
)
    ensures
        ({
            let status = dir_response(auth, resolution, listing).status_code();
            status == 200 || status == 204 || status == 401 || status == 403 || status == 404
                || status == 500
        }),
{
}

/// A request that the policy refuses gets `401` where credentials are
/// missing or invalid and `403` where they do not suffice, whatever the path
/// holds; one that the policy allows gets `404` where the path holds no
/// directory.
pub proof fn lemma_dir_refusals(
    auth: Authorization,
    resolution: Resolution,
    listing: Result<Seq<DirectoryListEntryView>, Seq<char>>,
)
    ensures
        ({
            let response = dir_response(auth, resolution, listing);
            &&& auth == Authorization::Unauthorized ==> response.status_code() == 401
            &&& auth == Authorization::Forbidden ==> response.status_code() == 403
            &&& auth == Authorization::Allowed && resolution != Resolution::Directory
                ==> response.status_code() == 404
        }),
{
}

} // verus!
