use crate::json::{find, lemma_object_view, members_view, Json, JsonValue};
use crate::text::same_text;
use crate::wire::{
    distinct_names, lemma_lookup_field, object, object_members, push_field, text_at, text_in,
    Fields,
};
use vstd::prelude::*;

verus! {

/// The ways in which a request fails.
#[derive(Debug, Copy, Clone, PartialEq, Eq, Hash, Structural)]
pub enum ErrorKind {
    /// Credentials are missing or invalid.
    Unauthorized,
    /// The credentials are valid but do not grant access.
    Forbidden,
    /// The mount or the path does not exist.
    NotFound,
    /// The requested span exceeds the server's transfer limit.
    EntityTooLarge,
    /// The requested range lies outside the file, or the file is empty.
    RangeNotSatisfiable,
    /// Any other failure, those of the backing store included.
    Internal,
}

impl ErrorKind {
    /// The HTTP status code of this kind of failure.
    pub open spec fn status_code(self) -> u16 {
        match self {
            ErrorKind::Unauthorized => 401,
            ErrorKind::Forbidden => 403,
            ErrorKind::NotFound => 404,
            ErrorKind::EntityTooLarge => 413,
            ErrorKind::RangeNotSatisfiable => 416,
            ErrorKind::Internal => 500,
        }
    }

    /// The short code of this kind of failure in an error body.
    pub open spec fn code(self) -> Seq<char> {
        match self {
            ErrorKind::Unauthorized => "unauthorized"@,
            ErrorKind::Forbidden => "forbidden"@,
            ErrorKind::NotFound => "not_found"@,
            ErrorKind::EntityTooLarge => "entity_too_large"@,
            ErrorKind::RangeNotSatisfiable => "range_not_satisfiable"@,
            ErrorKind::Internal => "internal"@,
        }
    }

    /// The kind of failure that the short code `code` stands for.
    pub open spec fn of_code(code: Seq<char>) -> Option<ErrorKind> {
        if code == "unauthorized"@ {
            Some(ErrorKind::Unauthorized)
        } else if code == "forbidden"@ {
            Some(ErrorKind::Forbidden)
        } else if code == "not_found"@ {
            Some(ErrorKind::NotFound)
        } else if code == "entity_too_large"@ {
            Some(ErrorKind::EntityTooLarge)
        } else if code == "range_not_satisfiable"@ {
            Some(ErrorKind::RangeNotSatisfiable)
        } else if code == "internal"@ {
            Some(ErrorKind::Internal)
        } else {
            None
        }
    }

    /// What is said of this kind of failure where nothing more is known.
    pub open spec fn usual_description(self) -> Seq<char> {
        match self {
            ErrorKind::Unauthorized => "credentials are missing or invalid"@,
            ErrorKind::Forbidden => "the credentials do not grant access to this resource"@,
            ErrorKind::NotFound => "no such mount or path"@,
            ErrorKind::EntityTooLarge => "the requested span exceeds the transfer limit"@,
            ErrorKind::RangeNotSatisfiable => "the requested range lies outside the file"@,
            ErrorKind::Internal => "internal server error"@,
        }
    }

    /// The description of a failure of this kind of which `detail` is known:
    /// `detail` itself, or the usual description where `detail` is empty.
    pub open spec fn describe(self, detail: Seq<char>) -> Seq<char> {
        if detail.len() == 0 {
            self.usual_description()
        } else {
            detail
        }
    }

    /// The HTTP status code of this kind of failure.
    pub fn status(self) -> (status: u16)
        ensures
            status == self.status_code(),
    {
        match self {
            ErrorKind::Unauthorized => 401,
            ErrorKind::Forbidden => 403,
            ErrorKind::NotFound => 404,
            ErrorKind::EntityTooLarge => 413,
            ErrorKind::RangeNotSatisfiable => 416,
            ErrorKind::Internal => 500,
        }
    }

    /// The short code of this kind of failure in an error body.
    pub fn as_str(self) -> (code: &'static str)
        ensures
            code@ == self.code(),
    {
        match self {
            ErrorKind::Unauthorized => "unauthorized",
            ErrorKind::Forbidden => "forbidden",
            ErrorKind::NotFound => "not_found",
            ErrorKind::EntityTooLarge => "entity_too_large",
            ErrorKind::RangeNotSatisfiable => "range_not_satisfiable",
            ErrorKind::Internal => "internal",
        }
    }

    /// The kind of failure that the short code `code` stands for.
    pub fn from_code(code: &str) -> (kind: Option<ErrorKind>)
        ensures
            kind == ErrorKind::of_code(code@),
    {
        if same_text(code, "unauthorized") {
            Some(ErrorKind::Unauthorized)
        } else if same_text(code, "forbidden") {
            Some(ErrorKind::Forbidden)
        } else if same_text(code, "not_found") {
            Some(ErrorKind::NotFound)
        } else if same_text(code, "entity_too_large") {
            Some(ErrorKind::EntityTooLarge)
        } else if same_text(code, "range_not_satisfiable") {
            Some(ErrorKind::RangeNotSatisfiable)
        } else if same_text(code, "internal") {
            Some(ErrorKind::Internal)
        } else {
            None
        }
    }

    /// What is said of this kind of failure where nothing more is known.
    pub fn usual(self) -> (description: &'static str)
        ensures
            description@ == self.usual_description(),
            description@.len() > 0,
    {
        proof {
            lemma_usual_description_nonempty(self);
        }
        match self {
            ErrorKind::Unauthorized => "credentials are missing or invalid",
            ErrorKind::Forbidden => "the credentials do not grant access to this resource",
            ErrorKind::NotFound => "no such mount or path",
            ErrorKind::EntityTooLarge => "the requested span exceeds the transfer limit",
            ErrorKind::RangeNotSatisfiable => "the requested range lies outside the file",
            ErrorKind::Internal => "internal server error",
        }
    }
}

/// The usual description of a failure is not empty.
pub proof fn lemma_usual_description_nonempty(kind: ErrorKind)
    ensures
        kind.usual_description().len() > 0,
{
    reveal_strlit("credentials are missing or invalid");
    reveal_strlit("the credentials do not grant access to this resource");
    reveal_strlit("no such mount or path");
    reveal_strlit("the requested span exceeds the transfer limit");
    reveal_strlit("the requested range lies outside the file");
    reveal_strlit("internal server error");
}

/// The six short codes differ from each other, so that each is read back as
/// the kind that it was written for.
pub proof fn lemma_code_round_trip(kind: ErrorKind)
    ensures
        ErrorKind::of_code(kind.code()) == Some(kind),
{
    reveal_strlit("unauthorized");
    reveal_strlit("forbidden");
    reveal_strlit("not_found");
    reveal_strlit("entity_too_large");
    reveal_strlit("range_not_satisfiable");
    reveal_strlit("internal");
    assert("unauthorized"@.len() == 12);
    assert("forbidden"@.len() == 9 && "forbidden"@[0] == 'f');
    assert("not_found"@.len() == 9 && "not_found"@[0] == 'n');
    assert("entity_too_large"@.len() == 16);
    assert("range_not_satisfiable"@.len() == 21);
    assert("internal"@.len() == 8);
}

/// A failure: its kind, and a description for people to read.
///
/// The description is never empty.
#[derive(Debug, PartialEq, Eq, Hash)]
pub struct ApiError {
    kind: ErrorKind,
    description: String,
}

/// What an [`ApiError`] is, as a mathematical value.
pub struct ApiErrorView {
    pub kind: ErrorKind,
    pub description: Seq<char>,
}

impl View for ApiError {
    type V = ApiErrorView;

    closed spec fn view(&self) -> ApiErrorView {
        ApiErrorView { kind: self.kind, description: self.description@ }
    }
}

impl Clone for ApiError {
    /// A copy that denotes the same failure.
    fn clone(&self) -> (copy: Self)
        ensures
            copy@ == self@,
    {
        proof {
            use_type_invariant(self);
        }
        ApiError { kind: self.kind, description: self.description.clone() }
    }
}

/// The failure of kind `kind` of which `detail` is known.
pub open spec fn failure(kind: ErrorKind, detail: Seq<char>) -> ApiErrorView {
    ApiErrorView { kind, description: kind.describe(detail) }
}

/// The fields of an error body: the short code under `error`, then the
/// description.
pub open spec fn error_fields(error: ApiErrorView) -> Fields {
    seq![
        ("error"@, Some(JsonValue::Text(error.kind.code()))),
        ("description"@, Some(JsonValue::Text(error.description))),
    ]
}

/// The JSON body of a failure.
pub open spec fn error_json(error: ApiErrorView) -> JsonValue {
    object(error_fields(error))
}

/// The failure that a JSON value denotes: an object whose `error` is one of
/// the six short codes and whose `description` is a text that is not empty.
pub open spec fn error_of(json: JsonValue) -> Option<ApiErrorView> {
    match json {
        JsonValue::Object(members) => match (
            text_at(members, "error"@),
            text_at(members, "description"@),
        ) {
            (Some(code), Some(description)) => match ErrorKind::of_code(code) {
                Some(kind) => if description.len() > 0 {
                    Some(ApiErrorView { kind, description })
                } else {
                    None
                },
                None => None,
            },
            _ => None,
        },
        _ => None,
    }
}

/// A failure with a description is read back from its JSON body.
pub proof fn lemma_error_round_trip(error: ApiErrorView)
    requires
        error.description.len() > 0,
    ensures
        error_of(error_json(error)) == Some(error),
{
    let fields = error_fields(error);
    reveal_strlit("error");
    reveal_strlit("description");
    assert("error"@.len() == 5);
    assert("description"@.len() == 11);
    assert(distinct_names(fields));
    lemma_lookup_field(fields, 0);
    lemma_lookup_field(fields, 1);
    lemma_code_round_trip(error.kind);
}

impl ApiError {
    #[verifier::type_invariant]
    spec fn described(self) -> bool {
        self.description@.len() > 0
    }

    /// The failure of kind `kind` of which `detail` is known. Where `detail`
    /// is empty, the description is the usual one of that kind.
    pub fn new(kind: ErrorKind, detail: &str) -> (error: ApiError)
        ensures
            error@ == failure(kind, detail@),
            error@.description.len() > 0,
    {
        let description = if detail.is_empty() {
            String::from_str(kind.usual())
        } else {
            String::from_str(detail)
        };
        ApiError { kind, description }
    }

    /// The failure of kind `kind` with its usual description.
    pub fn of_kind(kind: ErrorKind) -> (error: ApiError)
        ensures
            error@ == failure(kind, Seq::empty()),
            error@.description.len() > 0,
    {
        ApiError { kind, description: String::from_str(kind.usual()) }
    }

    /// The kind of this failure.
    pub fn kind(&self) -> (kind: ErrorKind)
        ensures
            kind == self@.kind,
    {
        self.kind
    }

    /// The HTTP status code of this failure.
    pub fn status(&self) -> (status: u16)
        ensures
            status == self@.kind.status_code(),
    {
        self.kind.status()
    }

    /// The description of this failure, which is never empty.
    pub fn description(&self) -> (description: &str)
        ensures
            description@ == self@.description,
            description@.len() > 0,
    {
        proof {
            use_type_invariant(self);
        }
        self.description.as_str()
    }

    /// Writes this failure as the JSON body of its response:
    /// `{"error": .., "description": ..}`.
    pub fn to_json(&self) -> (json: Json)
        ensures
            json@ == error_json(self@),
    {
        let mut members: Vec<(String, Json)> = Vec::new();
        let ghost none: Fields = Seq::empty();
        assert(members_view(members@) =~= object_members(none));
        let code = Json::Text(String::from_str(self.kind.as_str()));
        push_field(&mut members, Ghost(none), "error", Some(code));
        let ghost one = none.push(("error"@, Some(JsonValue::Text(self@.kind.code()))));
        let description = Json::Text(self.description.clone());
        push_field(&mut members, Ghost(one), "description", Some(description));
        proof {
            lemma_object_view(members);
            assert(one.push(("description"@, Some(JsonValue::Text(self@.description))))
                =~= error_fields(self@));
        }
        Json::Object(members)
    }

    /// Reads a failure from the JSON body of a response.
    ///
    /// `error` must be one of the six short codes, `description` a text that
    /// is not empty. Members under other names are passed over.
    pub fn from_json(json: &Json) -> (error: Option<ApiError>)
        ensures
            match error {
                Some(error) => error_of(json@) == Some(error@),
                None => error_of(json@) is None,
            },
    {
        let members = match json {
            Json::Object(members) => members,
            _ => {
                return None;
            },
        };
        proof {
            lemma_object_view(*members);
        }
        let code = match text_in(members, "error") {
            Some(code) => code,
            None => {
                return None;
            },
        };
        let description = match text_in(members, "description") {
            Some(description) => description,
            None => {
                return None;
            },
        };
        let kind = match ErrorKind::from_code(code) {
            Some(kind) => kind,
            None => {
                return None;
            },
        };
        if description.is_empty() {
            return None;
        }
        Some(ApiError { kind, description: String::from_str(description) })
    }
}

} // verus!
