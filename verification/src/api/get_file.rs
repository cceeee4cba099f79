//! # GET `/:mount/file/:path`
//!
//! Downloads the file at the path in the mount. With a `Range` header, the
//! part of the file that the header asks for.
//!
//! ## Status codes
//!
//!  - `200 OK`: the whole file follows, and `Content-Length` is its size.
//!  - `204 No Content`: the file is empty; there is no body.
//!  - `206 Partial Content`: the part that the `Range` header asks for
//!    follows, and `Content-Range` says which part it is.
//!  - `401 Unauthorized`, `403 Forbidden`: the mount's policy refused.
//!  - `404 Not Found`: there is no file at the path.
//!  - `413 Request Entity Too Large`: the request asks for more bytes than
//!    the server transfers at once.
//!  - `416 Range Not Satisfiable`: the range asks for no byte of the file.
//!  - `500 Internal Server Error`: the file could not be opened for reading;
//!    the description says why.
//!
//! A range that ends past the last byte of the file is served up to the last
//! byte. The limit of the server is held against the number of bytes that
//! would be served. The file is opened only when bytes of it are to be
//! served, and before the status is sent: no failure follows a status of
//! success.

use crate::api::error::ErrorKind;
use crate::api::mounts::{Authorization, Resolution};
use crate::api::range::{
    content_range_text, ByteRange, RangeRequest, ServedRangeView,
};
use crate::api::response::{failed, Response, ResponseView};
use crate::text::decimal_text;
use vstd::prelude::*;

verus! {

/// Whether a request for `span` bytes asks for more than the server
/// transfers at once, `limit` being that number where the server has one.
pub open spec fn exceeds(span: nat, limit: Option<u64>) -> bool {
    limit matches Some(most) && span > most
}

/// What is served of a file of `size` bytes to an authorized request that the
/// limit of the server admits.
pub open spec fn file_content(size: u64, range: RangeRequest) -> ResponseView {
    match range {
        RangeRequest::Whole => if size == 0 {
            ResponseView::Empty
        } else {
            ResponseView::Whole { size }
        },
        RangeRequest::Span(range) => match range.served(size) {
            Some(served) => ResponseView::Partial(served),
            None => failed(ErrorKind::RangeNotSatisfiable, Seq::empty()),
        },
        RangeRequest::Unsupported => failed(ErrorKind::RangeNotSatisfiable, Seq::empty()),
    }
}

/// The response to an authorized request for a file, provided that the file
/// can be opened where bytes of it are to be served.
///
/// `resolution` is what the mount found at the path, `range` what the request
/// says of the part it wants, and `limit` the greatest number of bytes that
/// the server transfers at once, where it has such a limit.
pub open spec fn file_plan(
    resolution: Resolution,
    range: RangeRequest,
    limit: Option<u64>,
) -> ResponseView {
    match resolution {
        Resolution::File { size } => if exceeds(range.span(size), limit) {
            failed(ErrorKind::EntityTooLarge, Seq::empty())
        } else {
            file_content(size, range)
        },
        _ => failed(ErrorKind::NotFound, Seq::empty()),
    }
}

/// Whether the body of a response holds bytes of a file.
pub open spec fn serves_bytes(response: ResponseView) -> bool {
    response is Whole || response is Partial
}

/// What opening the file gave, as a mathematical value: success, or the
/// description of what went wrong.
pub open spec fn opening_outcome(access: Result<(), String>) -> Result<(), Seq<char>> {
    match access {
        Ok(()) => Ok(()),
        Err(cause) => Err(cause@),
    }
}

/// The response that becomes of `planned` once the file was opened, `access`
/// being what opening it gave. A response that serves no bytes of the file
/// stays as it is; one that serves some is kept where the file was opened
/// and gives way to a failure where it was not.
pub open spec fn after_opening(
    planned: ResponseView,
    access: Result<(), Seq<char>>,
) -> ResponseView {
    match access {
        Err(cause) => if serves_bytes(planned) {
            failed(ErrorKind::Internal, cause)
        } else {
            planned
        },
        Ok(_) => planned,
    }
}

/// The response to a request for a file.
///
/// `auth` is what the mount's policy said of the request, `resolution` what
/// the mount found at the path, `range` what the request says of the part it
/// wants, `limit` the greatest number of bytes that the server transfers at
/// once, where it has such a limit, and `access` what opening the file for
/// reading gave.
pub open spec fn file_response(
    auth: Authorization,
    resolution: Resolution,
    range: RangeRequest,
    limit: Option<u64>,
    access: Result<(), Seq<char>>,
) -> ResponseView {
    match auth.refusal() {
        Some(kind) => failed(kind, Seq::empty()),
        None => after_opening(file_plan(resolution, range, limit), access),
    }
}

/// Plans the answer to an authorized request for a file: the response that
/// is sent provided that the file can be opened where bytes of it are to be
/// served.
///
/// Anything but a file at the path is `404`. A request for more bytes than
/// the limit is `413`. A request for a range gets `206` with the bytes of the
/// file that the range asks for, and `416` where it asks for none; a request
/// without a range gets `200` with the whole file, and `204` where the file
/// is empty.
pub fn plan_file(
    resolution: Resolution,
    range: RangeRequest,
    limit: Option<u64>,
) -> (response: Response)
    ensures
        response@ == file_plan(resolution, range, limit),
        response@.conforms(),
{
    let size = match resolution {
        Resolution::File { size } => size,
        _ => {
            return Response::of_kind(ErrorKind::NotFound);
        },
    };
    if let Some(most) = limit {
        if range.length_in(size) > most {
            return Response::of_kind(ErrorKind::EntityTooLarge);
        }
    }
    match range {
        RangeRequest::Whole => if size == 0 {
            Response::Empty
        } else {
            Response::Whole { size }
        },
        RangeRequest::Span(range) => match range.serve(size) {
            Some(served) => Response::Partial(served),
            None => Response::of_kind(ErrorKind::RangeNotSatisfiable),
        },
        RangeRequest::Unsupported => Response::of_kind(ErrorKind::RangeNotSatisfiable),
    }
}

/// Settles the answer that was planned, `access` being what opening the file
/// for reading gave: success, or the description of what went wrong.
///
/// A response that serves no bytes of the file is sent as planned. One that
/// serves some is sent where the file was opened, and gives way to `500`,
/// with the description given, where it was not.
pub fn respond_to_opening(planned: Response, access: Result<(), String>) -> (response: Response)
    ensures
        response@ == after_opening(planned@, opening_outcome(access)),
        planned@.conforms() ==> response@.conforms(),
{
    match access {
        Ok(()) => planned,
        Err(cause) => if planned.serves_bytes() {
            Response::failure(ErrorKind::Internal, cause.as_str())
        } else {
            planned
        },
    }
}

/// Answers a request for a file.
///
/// `auth` is what the mount's policy said of the request, `resolution` what
/// the mount found at the path, `range` what the request says of the part it
/// wants, `limit` the greatest number of bytes that the server transfers at
/// once, where it has such a limit, and `access` what opening the file for
/// reading gave.
///
/// A refusal of the policy comes first, whatever the path holds. Anything but
/// a file at the path is `404`. A request for more bytes than the limit is
/// `413`. A request for a range gets `206` with the bytes of the file that
/// the range asks for, and `416` where it asks for none; a request without a
/// range gets `200` with the whole file, and `204` where the file is empty.
/// Where the file could not be opened, `200` and `206` give way to `500`.
pub fn get_file(
    auth: Authorization,
    resolution: Resolution,
    range: RangeRequest,
    limit: Option<u64>,
    access: Result<(), String>,
) -> (response: Response)
    ensures
        response@ == file_response(auth, resolution, range, limit, opening_outcome(access)),
        response@.conforms(),
{
    if let Some(kind) = auth.refused() {
        return Response::of_kind(kind);
    }
    respond_to_opening(plan_file(resolution, range, limit), access)
}

/// A request for the first byte alone of a file that is not empty is served
/// that one byte: `206`, with `Content-Range: bytes 0-0/<size>` and a body of
/// one byte, the first of the file.
///
/// A server whose limit is no byte at all serves nothing, so the limit must
/// admit one byte; and the file must have been opened.
pub proof fn lemma_first_byte(size: u64, limit: Option<u64>, content: Seq<u8>)
    requires
        size > 0,
        !exceeds(1, limit),
        content.len() == size,
    ensures
        ResponseView::Partial(ServedRangeView { first: 0, last: 0, size }).file_body(content)
            == Some(seq![content[0]]),
        file_response(
            Authorization::Allowed,
            Resolution::File { size },
            RangeRequest::Span(ByteRange { start: 0, end: Some(0) }),
            limit,
            Ok(()),
        ) == ResponseView::Partial(ServedRangeView { first: 0, last: 0, size }),
        ResponseView::Partial(ServedRangeView { first: 0, last: 0, size }).status_code() == 206,
        ResponseView::Partial(ServedRangeView { first: 0, last: 0, size }).file_bytes() == Some(
            1int,
        ),
        ResponseView::Partial(ServedRangeView { first: 0, last: 0, size }).content_range() == Some(
            "bytes 0-0/"@ + decimal_text(size as nat),
        ),
{
    reveal_strlit("bytes ");
    reveal_strlit("-");
    reveal_strlit("/");
    reveal_strlit("bytes 0-0/");
    let served = ServedRangeView { first: 0, last: 0, size };
    assert(decimal_text(0) =~= seq!['0']);
    assert(content_range_text(served) =~= "bytes 0-0/"@ + decimal_text(size as nat));
    assert(content.subrange(0, 1) =~= seq![content[0]]);
}

/// A range is refused with `416` where the file is empty or the range starts
/// at or past the end of the file, whatever the limit of the server and
/// whether or not the file can be opened.
pub proof fn lemma_range_outside_file(
    size: u64,
    range: ByteRange,
    limit: Option<u64>,
    access: Result<(), Seq<char>>,
)
    requires
        size == 0 || range.start >= size,
    ensures
        file_response(
            Authorization::Allowed,
            Resolution::File { size },
            RangeRequest::Span(range),
            limit,
            access,
        ) == failed(ErrorKind::RangeNotSatisfiable, Seq::empty()),
        failed(ErrorKind::RangeNotSatisfiable, Seq::empty()).status_code() == 416,
{
}

/// When a request for a range of a file is answered with `416`, and when
/// with `206`: the one where the range asks for no byte of the file, the
/// other where it asks for some, the limit of the server admits them, and
/// the file was opened.
pub proof fn lemma_range_statuses(
    size: u64,
    range: ByteRange,
    limit: Option<u64>,
    access: Result<(), Seq<char>>,
)
    ensures
        ({
            let response = file_response(
                Authorization::Allowed,
                Resolution::File { size },
                RangeRequest::Span(range),
                limit,
                access,
            );
            &&& response.status_code() == 416 <==> !range.satisfiable(size)
            &&& response.status_code() == 413 <==> exceeds(range.span(size), limit)
            &&& response.status_code() == 206 <==> range.satisfiable(size) && !exceeds(
                range.span(size),
                limit,
            ) && access is Ok
            &&& response.status_code() == 500 <==> range.satisfiable(size) && !exceeds(
                range.span(size),
                limit,
            ) && access is Err
            &&& response.status_code() == 206 ==> response.file_bytes() == Some(
                range.span(size) as int,
            )
        }),
{
}

/// A request without a range gets `204` and no body for an empty file, and
/// `200` with all the bytes for any other file that the limit of the server
/// admits, `Content-Length` being the size of the file.
pub proof fn lemma_whole_file(
    size: u64,
    limit: Option<u64>,
    access: Result<(), Seq<char>>,
    content: Seq<u8>,
)
    requires
        content.len() == size,
    ensures
        ({
            let response = file_response(
                Authorization::Allowed,
                Resolution::File { size },
                RangeRequest::Whole,
                limit,
                access,
            );
            &&& size == 0 ==> response == ResponseView::Empty && response.status_code() == 204
                && response.has_no_body()
            &&& size > 0 && !exceeds(size as nat, limit) && access is Ok ==> response == (
            ResponseView::Whole { size }) && response.status_code() == 200
                && response.file_bytes() == Some(size as int) && response.file_body(content)
                == Some(content)
        }),
{
}

/// A request for a file is answered with one of nine status codes: `200`,
/// `204`, `206`, `401`, `403`, `404`, `413`, `416` and `500`.
pub proof fn lemma_file_statuses(
    auth: Authorization,
    resolution: Resolution,
    range: RangeRequest,
    limit: Option<u64>,
    access: Result<(), Seq<char>>,
)
    ensures
        ({
            let status = file_response(auth, resolution, range, limit, access).status_code();
            status == 200 || status == 204 || status == 206 || status == 401 || status == 403
                || status == 404 || status == 413 || status == 416 || status == 500
        }),
{
}

/// A request that the policy refuses gets `401` where credentials are
/// missing or invalid and `403` where they do not suffice, whatever it asks
/// for; one that the policy allows gets `404` where the path holds no file.
pub proof fn lemma_file_refusals(
    auth: Authorization,
    resolution: Resolution,
    range: RangeRequest,
    limit: Option<u64>,
    access: Result<(), Seq<char>>,
)
    ensures
        ({
            let response = file_response(auth, resolution, range, limit, access);
            &&& auth == Authorization::Unauthorized ==> response.status_code() == 401
            &&& auth == Authorization::Forbidden ==> response.status_code() == 403
            &&& auth == Authorization::Allowed && !(resolution is File) ==> response.status_code()
                == 404
        }),
{
}

} // verus!
