use crate::api::error::{error_json, failure, ApiError, ApiErrorView, ErrorKind};
use crate::api::range::{content_range_text, ServedRange, ServedRangeView};
use crate::json::{Json, JsonValue};
use vstd::prelude::*;
use vstd::slice::slice_subrange;

verus! {

/// What a server answers to a request.
///
/// The variant fixes the status code and says what the body is, so that the
/// two cannot disagree: only a failure has the status of a failure, and only
/// a failure has an error body.
#[derive(Debug, PartialEq, Eq)]
pub enum Response {
    /// `200 OK` with a JSON body: a listing or the metadata of a resource.
    Json(Json),
    /// `200 OK` with all the bytes of a file of `size` bytes.
    Whole { size: u64 },
    /// `206 Partial Content` with the bytes of a part of a file.
    Partial(ServedRange),
    /// `204 No Content`: an empty directory or an empty file. No body.
    Empty,
    /// The status of the failure, with its JSON error body.
    Error(ApiError),
}

/// What a [`Response`] is, as a mathematical value.
pub enum ResponseView {
    Json(JsonValue),
    Whole { size: u64 },
    Partial(ServedRangeView),
    Empty,
    Error(ApiErrorView),
}

impl View for Response {
    type V = ResponseView;

    open spec fn view(&self) -> ResponseView {
        match self {
            Response::Json(json) => ResponseView::Json(json@),
            Response::Whole { size } => ResponseView::Whole { size: *size },
            Response::Partial(served) => ResponseView::Partial(served@),
            Response::Empty => ResponseView::Empty,
            Response::Error(error) => ResponseView::Error(error@),
        }
    }
}

impl ResponseView {
    /// The HTTP status code of the response.
    pub open spec fn status_code(self) -> u16 {
        match self {
            ResponseView::Json(_) => 200,
            ResponseView::Whole { .. } => 200,
            ResponseView::Partial(_) => 206,
            ResponseView::Empty => 204,
            ResponseView::Error(error) => error.kind.status_code(),
        }
    }

    /// The JSON body of the response, if its body is JSON: what was found, or
    /// the error body of a failure.
    pub open spec fn json_body(self) -> Option<JsonValue> {
        match self {
            ResponseView::Json(json) => Some(json),
            ResponseView::Error(error) => Some(error_json(error)),
            _ => None,
        }
    }

    /// The number of bytes of the file that the body holds, if the body holds
    /// bytes of a file. It is the value of `Content-Length` then.
    pub open spec fn file_bytes(self) -> Option<int> {
        match self {
            ResponseView::Whole { size } => Some(size as int),
            ResponseView::Partial(served) => Some(served.length()),
            _ => None,
        }
    }

    /// The bytes of the body, if the response serves the file whose bytes
    /// are `content`: all of them, or those of the part that is served.
    pub open spec fn file_body(self, content: Seq<u8>) -> Option<Seq<u8>> {
        match self {
            ResponseView::Whole { size } => if content.len() == size {
                Some(content)
            } else {
                None
            },
            ResponseView::Partial(served) => if content.len() == served.size && served.valid() {
                Some(content.subrange(served.first as int, served.last + 1))
            } else {
                None
            },
            _ => None,
        }
    }

    /// The value of the `Content-Range` header, which a response has exactly
    /// when it serves a part of a file.
    pub open spec fn content_range(self) -> Option<Seq<char>> {
        match self {
            ResponseView::Partial(served) => Some(content_range_text(served)),
            _ => None,
        }
    }

    /// Whether the response has no body at all.
    pub open spec fn has_no_body(self) -> bool {
        self is Empty
    }

    /// Whether the response is one that the protocol allows: no success with
    /// an empty array or an empty file for a body, which `204 No Content` is
    /// for; a part of a file that lies within the file; and a description with
    /// every failure.
    pub open spec fn conforms(self) -> bool {
        match self {
            ResponseView::Json(json) => !(json matches JsonValue::Array(items) && items.len()
                == 0),
            ResponseView::Whole { size } => size > 0,
            ResponseView::Partial(served) => served.valid(),
            ResponseView::Empty => true,
            ResponseView::Error(error) => error.description.len() > 0,
        }
    }
}

/// The response to a failure of kind `kind` of which `detail` is known.
pub open spec fn failed(kind: ErrorKind, detail: Seq<char>) -> ResponseView {
    ResponseView::Error(failure(kind, detail))
}

/// Status and body agree: the status is one of success exactly when the
/// response is no failure, and the body is an error body exactly when the
/// response is a failure.
pub proof fn lemma_status_matches_body(response: ResponseView)
    ensures
        200 <= response.status_code() < 300 <==> !(response is Error),
        400 <= response.status_code() < 600 <==> response is Error,
        response matches ResponseView::Error(error) ==> response.json_body() == Some(
            error_json(error),
        ),
{
}

/// The body of a response that serves a file has as many bytes as
/// `Content-Length` says.
pub proof fn lemma_file_body_length(response: ResponseView, content: Seq<u8>)
    ensures
        response.file_body(content) matches Some(body) ==> response.file_bytes() == Some(
            body.len() as int,
        ),
{
}

impl Clone for Response {
    /// A copy that denotes the same response.
    fn clone(&self) -> (copy: Self)
        ensures
            copy@ == self@,
    {
        match self {
            Response::Json(json) => Response::Json(json.clone()),
            Response::Whole { size } => Response::Whole { size: *size },
            Response::Partial(served) => Response::Partial(*served),
            Response::Empty => Response::Empty,
            Response::Error(error) => Response::Error(error.clone()),
        }
    }
}

impl Response {
    /// The response to a failure of kind `kind` of which `detail` is known.
    /// Where `detail` is empty, the description is the usual one of that kind.
    pub fn failure(kind: ErrorKind, detail: &str) -> (response: Response)
        ensures
            response@ == failed(kind, detail@),
            response@.conforms(),
    {
        Response::Error(ApiError::new(kind, detail))
    }

    /// The response to a failure of kind `kind`, with the usual description
    /// of that kind.
    pub fn of_kind(kind: ErrorKind) -> (response: Response)
        ensures
            response@ == failed(kind, Seq::empty()),
            response@.conforms(),
    {
        Response::Error(ApiError::of_kind(kind))
    }

    /// The HTTP status code of this response.
    pub fn status(&self) -> (status: u16)
        ensures
            status == self@.status_code(),
    {
        match self {
            Response::Json(_) => 200,
            Response::Whole { .. } => 200,
            Response::Partial(_) => 206,
            Response::Empty => 204,
            Response::Error(error) => error.status(),
        }
    }

    /// Whether the body of this response holds bytes of a file.
    pub fn serves_bytes(&self) -> (serves: bool)
        ensures
            serves == (self@ is Whole || self@ is Partial),
    {
        match self {
            Response::Whole { .. } => true,
            Response::Partial(_) => true,
            _ => false,
        }
    }

    /// Whether this response reports success.
    pub fn is_success(&self) -> (success: bool)
        ensures
            success == !(self@ is Error),
    {
        match self {
            Response::Error(_) => false,
            _ => true,
        }
    }

    /// The JSON body of this response, if its body is JSON: what was found,
    /// or the error body of a failure.
    pub fn json_body(&self) -> (body: Option<Json>)
        ensures
            crate::wire::json_view(body) == self@.json_body(),
    {
        match self {
            Response::Json(json) => Some(json.clone()),
            Response::Error(error) => Some(error.to_json()),
            _ => None,
        }
    }

    /// The number of bytes of the file that the body holds, if the body holds
    /// bytes of a file: the value of the `Content-Length` header then. The
    /// length of a JSON body is that of the text it is sent as.
    pub fn content_length(&self) -> (length: Option<u64>)
        ensures
            match length {
                Some(length) => self@.file_bytes() == Some(length as int),
                None => self@.file_bytes() is None,
            },
    {
        match self {
            Response::Whole { size } => Some(*size),
            Response::Partial(served) => Some(served.length()),
            _ => None,
        }
    }

    /// The bytes of the body, if this response serves the file whose bytes
    /// are `content`: all of them, or those of the part that is served. The
    /// result is `None` for every other response, and where `content` has not
    /// the size that the response was made for.
    pub fn file_body<'a>(&self, content: &'a [u8]) -> (body: Option<&'a [u8]>)
        ensures
            match body {
                Some(body) => self@.file_body(content@) == Some(body@),
                None => self@.file_body(content@) is None,
            },
    {
        match self {
            Response::Whole { size } => if content.len() as u64 == *size {
                Some(content)
            } else {
                None
            },
            Response::Partial(served) => {
                let first = served.first();
                let last = served.last();
                if content.len() as u64 == served.size() {
                    Some(slice_subrange(content, first as usize, last as usize + 1))
                } else {
                    None
                }
            },
            _ => None,
        }
    }

    /// The value of the `Content-Range` header, which a response has exactly
    /// when it serves a part of a file.
    pub fn content_range(&self) -> (header: Option<String>)
        ensures
            crate::wire::text_view(header) == self@.content_range(),
    {
        match self {
            Response::Partial(served) => Some(served.content_range()),
            _ => None,
        }
    }
}

} // verus!
