//! One request, from its arrival to its response.
//!
//! The server does the work that lies outside this library: it asks the
//! mount's policy, asks the mount what the path holds, reads the directory or
//! the metadata, opens the file. What it is to do next, and what it is to
//! answer in the end, is decided here, one step at a time: the server reports
//! what it learned, and is told what to do with it.
//!
//! The mount is not asked about the path before its policy has allowed the
//! request, and nothing is read or opened that the path was not found to
//! hold.

use crate::api::error::ErrorKind;
use crate::api::get_dir::{after_listing, dir_response, listing_outcome, respond_to_listing};
use crate::api::get_file::{
    after_opening, file_plan, file_response, opening_outcome, plan_file, respond_to_opening,
    serves_bytes,
};
use crate::api::get_metadata::{
    after_probe, metadata_outcome, metadata_response, respond_to_probe,
};
use crate::api::mounts::{Authorization, Resolution};
use crate::api::range::RangeRequest;
use crate::api::response::{failed, Response, ResponseView};
use crate::dir::{DirectoryListEntryView, DirectoryListing};
use crate::metadata::{Metadata, MetadataView};
use vstd::prelude::*;

verus! {

/// What a request asks for.
#[derive(Debug, Copy, Clone, PartialEq, Eq, Hash)]
pub enum Endpoint {
    /// The listing of a directory.
    Directory,
    /// The bytes of a file, or of the part that `range` asks for. `limit` is
    /// the greatest number of bytes that the server transfers at once, where
    /// it has such a limit.
    File { range: RangeRequest, limit: Option<u64> },
    /// The metadata of a resource.
    Metadata,
}

/// How far the handling of a request has come.
#[derive(Debug, Copy, Clone, PartialEq, Eq, Hash)]
pub enum Progress {
    /// The mount's policy is being asked.
    Authorizing,
    /// The mount is being asked what the path holds.
    Resolving,
    /// The directory or the metadata is being read, or the file is being
    /// opened; the mount found `found` at the path.
    Reading { found: Resolution },
    /// The response has been decided.
    Done,
}

/// What the server learned from the work it was told to do.
#[derive(Debug, PartialEq, Eq)]
pub enum Event {
    /// What the mount's policy said of the request.
    Authorized(Authorization),
    /// What the mount found at the path.
    Resolved(Resolution),
    /// What reading the directory gave: the entries in the order of the
    /// backing store, or the description of what went wrong.
    Listed(Result<DirectoryListing, String>),
    /// What reading the metadata gave: the metadata, or the description of
    /// what went wrong.
    Probed(Result<Metadata, String>),
    /// What opening the file for reading gave: success, or the description
    /// of what went wrong.
    Opened(Result<(), String>),
}

/// What the server is to do next.
#[derive(Debug, PartialEq, Eq)]
pub enum Action {
    /// Ask the mount's policy, and report `Authorized`.
    Authorize,
    /// Ask the mount what the path holds, and report `Resolved`.
    Resolve,
    /// Read the entries of the directory, and report `Listed`.
    ReadDirectory,
    /// Read the metadata of the resource, and report `Probed`.
    ReadMetadata,
    /// Open the file for reading, and report `Opened`.
    OpenFile,
    /// Send this response. The request is done.
    Respond(Response),
}

/// What an [`Event`] is, as a mathematical value.
pub enum EventView {
    Authorized(Authorization),
    Resolved(Resolution),
    Listed(Result<Seq<DirectoryListEntryView>, Seq<char>>),
    Probed(Result<MetadataView, Seq<char>>),
    Opened(Result<(), Seq<char>>),
}

/// What an [`Action`] is, as a mathematical value.
pub enum ActionView {
    Authorize,
    Resolve,
    ReadDirectory,
    ReadMetadata,
    OpenFile,
    Respond(ResponseView),
}

impl View for Event {
    type V = EventView;

    open spec fn view(&self) -> EventView {
        match *self {
            Event::Authorized(auth) => EventView::Authorized(auth),
            Event::Resolved(resolution) => EventView::Resolved(resolution),
            Event::Listed(listing) => EventView::Listed(listing_outcome(listing)),
            Event::Probed(metadata) => EventView::Probed(metadata_outcome(metadata)),
            Event::Opened(access) => EventView::Opened(opening_outcome(access)),
        }
    }
}

impl View for Action {
    type V = ActionView;

    open spec fn view(&self) -> ActionView {
        match self {
            Action::Authorize => ActionView::Authorize,
            Action::Resolve => ActionView::Resolve,
            Action::ReadDirectory => ActionView::ReadDirectory,
            Action::ReadMetadata => ActionView::ReadMetadata,
            Action::OpenFile => ActionView::OpenFile,
            Action::Respond(response) => ActionView::Respond(response@),
        }
    }
}

/// What is said where the server reports something that it was not told to
/// find out.
pub open spec fn out_of_turn() -> Seq<char> {
    "the server reported what it was not asked for"@
}

/// The response that ends a request whose handling went out of turn.
pub open spec fn out_of_turn_response() -> ResponseView {
    failed(ErrorKind::Internal, out_of_turn())
}

/// What follows the answer of the mount's policy: the response of the
/// refusal, or the question what the path holds.
pub open spec fn after_authorization(auth: Authorization) -> (Progress, ActionView) {
    match auth.refusal() {
        Some(kind) => (Progress::Done, ActionView::Respond(failed(kind, Seq::empty()))),
        None => (Progress::Resolving, ActionView::Resolve),
    }
}

/// What follows the answer of the mount about the path: a file is opened
/// where bytes of it are to be served, and answered for at once where none
/// are; a directory is read where the listing is asked for, and anything that
/// is there where the metadata is; what the path does not hold is not found.
pub open spec fn after_resolution(endpoint: Endpoint, resolution: Resolution) -> (
    Progress,
    ActionView,
) {
    match endpoint {
        Endpoint::File { range, limit } => if serves_bytes(file_plan(resolution, range, limit)) {
            (Progress::Reading { found: resolution }, ActionView::OpenFile)
        } else {
            (Progress::Done, ActionView::Respond(file_plan(resolution, range, limit)))
        },
        Endpoint::Directory => if resolution == Resolution::Directory {
            (Progress::Reading { found: resolution }, ActionView::ReadDirectory)
        } else {
            (Progress::Done, ActionView::Respond(failed(ErrorKind::NotFound, Seq::empty())))
        },
        Endpoint::Metadata => if resolution == Resolution::NotFound {
            (Progress::Done, ActionView::Respond(failed(ErrorKind::NotFound, Seq::empty())))
        } else {
            (Progress::Reading { found: resolution }, ActionView::ReadMetadata)
        },
    }
}

/// What follows what the server read or opened, `found` being what the mount
/// found at the path: the response, which ends the request.
pub open spec fn after_reading(
    endpoint: Endpoint,
    found: Resolution,
    event: EventView,
) -> ResponseView {
    match (endpoint, event) {
        (Endpoint::Directory, EventView::Listed(listing)) => after_listing(listing),
        (Endpoint::Metadata, EventView::Probed(metadata)) => after_probe(metadata),
        (Endpoint::File { range, limit }, EventView::Opened(access)) => after_opening(
            file_plan(found, range, limit),
            access,
        ),
        _ => out_of_turn_response(),
    }
}

/// What follows from `event` for a request for `endpoint` whose handling has
/// come as far as `progress`: how far it has come then, and what the server
/// is to do next.
///
/// An event that is not the answer to what the server was told to do ends the
/// request with an internal failure.
pub open spec fn next(endpoint: Endpoint, progress: Progress, event: EventView) -> (
    Progress,
    ActionView,
) {
    match (progress, event) {
        (Progress::Authorizing, EventView::Authorized(auth)) => after_authorization(auth),
        (Progress::Resolving, EventView::Resolved(resolution)) => after_resolution(
            endpoint,
            resolution,
        ),
        (Progress::Reading { found }, event) => (
            Progress::Done,
            ActionView::Respond(after_reading(endpoint, found, event)),
        ),
        _ => (Progress::Done, ActionView::Respond(out_of_turn_response())),
    }
}

/// The response to a request for `endpoint` of which the mount's policy says
/// `auth`, at whose path the mount finds `resolution`, and for which reading
/// gives `read`, as far as the handling of the request gets to ask for each.
pub open spec fn outcome(
    endpoint: Endpoint,
    auth: Authorization,
    resolution: Resolution,
    read: EventView,
) -> ResponseView {
    let first = next(endpoint, Progress::Authorizing, EventView::Authorized(auth));
    match first.1 {
        ActionView::Respond(response) => response,
        _ => {
            let second = next(endpoint, first.0, EventView::Resolved(resolution));
            match second.1 {
                ActionView::Respond(response) => response,
                _ => match next(endpoint, second.0, read).1 {
                    ActionView::Respond(response) => response,
                    _ => out_of_turn_response(),
                },
            }
        },
    }
}

/// The handling of one request.
#[derive(Debug, Copy, Clone, PartialEq, Eq, Hash)]
pub struct Exchange {
    endpoint: Endpoint,
    progress: Progress,
}

/// What an [`Exchange`] is, as a mathematical value.
pub struct ExchangeView {
    pub endpoint: Endpoint,
    pub progress: Progress,
}

impl View for Exchange {
    type V = ExchangeView;

    closed spec fn view(&self) -> ExchangeView {
        ExchangeView { endpoint: self.endpoint, progress: self.progress }
    }
}

impl Exchange {
    /// Begins the handling of a request for `endpoint`. The first thing to do
    /// is to ask the mount's policy.
    pub fn start(endpoint: Endpoint) -> (begun: (Exchange, Action))
        ensures
            begun.0@ == (ExchangeView { endpoint, progress: Progress::Authorizing }),
            begun.1@ == ActionView::Authorize,
    {
        (Exchange { endpoint, progress: Progress::Authorizing }, Action::Authorize)
    }

    /// What the request asks for.
    pub fn endpoint(&self) -> (endpoint: Endpoint)
        ensures
            endpoint == self@.endpoint,
    {
        self.endpoint
    }

    /// How far the handling of the request has come.
    pub fn progress(&self) -> (progress: Progress)
        ensures
            progress == self@.progress,
    {
        self.progress
    }

    /// Whether the response has been decided.
    pub fn is_done(&self) -> (done: bool)
        ensures
            done == (self@.progress == Progress::Done),
    {
        match self.progress {
            Progress::Done => true,
            _ => false,
        }
    }

    /// Takes what the server learned, and tells what it is to do next.
    ///
    /// A refusal of the policy ends the request with `401` or `403` before
    /// the mount is asked about the path. A path that does not hold what the
    /// request asks for ends it with `404` before anything is read. A file is
    /// opened only where bytes of it are to be served. An event that is not
    /// the answer to what the server was told to do ends the request with
    /// `500`.
    pub fn handle(self, event: Event) -> (then: (Exchange, Action))
        ensures
            then.0@.endpoint == self@.endpoint,
            (then.0@.progress, then.1@) == next(self@.endpoint, self@.progress, event@),
            then.1@ matches ActionView::Respond(response) ==> response.conforms(),
    {
        let endpoint = self.endpoint;
        let (progress, action) = match (self.progress, event) {
            (Progress::Authorizing, Event::Authorized(auth)) => match auth.refused() {
                Some(kind) => (Progress::Done, Action::Respond(Response::of_kind(kind))),
                None => (Progress::Resolving, Action::Resolve),
            },
            (Progress::Resolving, Event::Resolved(resolution)) => match endpoint {
                Endpoint::File { range, limit } => {
                    let planned = plan_file(resolution, range, limit);
                    if planned.serves_bytes() {
                        (Progress::Reading { found: resolution }, Action::OpenFile)
                    } else {
                        (Progress::Done, Action::Respond(planned))
                    }
                },
                Endpoint::Directory => match resolution {
                    Resolution::Directory => (
                        Progress::Reading { found: resolution },
                        Action::ReadDirectory,
                    ),
                    _ => (Progress::Done, Action::Respond(Response::of_kind(ErrorKind::NotFound))),
                },
                Endpoint::Metadata => match resolution {
                    Resolution::NotFound => (
                        Progress::Done,
                        Action::Respond(Response::of_kind(ErrorKind::NotFound)),
                    ),
                    _ => (Progress::Reading { found: resolution }, Action::ReadMetadata),
                },
            },
            (Progress::Reading { found }, event) => {
                let response = match (endpoint, event) {
                    (Endpoint::Directory, Event::Listed(listing)) => respond_to_listing(listing),
                    (Endpoint::Metadata, Event::Probed(metadata)) => respond_to_probe(metadata),
                    (Endpoint::File { range, limit }, Event::Opened(access)) => respond_to_opening(
                        plan_file(found, range, limit),
                        access,
                    ),
                    _ => Exchange::went_out_of_turn(),
                };
                (Progress::Done, Action::Respond(response))
            },
            _ => (Progress::Done, Action::Respond(Exchange::went_out_of_turn())),
        };
        (Exchange { endpoint, progress }, action)
    }

    /// The response that ends a request whose handling went out of turn.
    fn went_out_of_turn() -> (response: Response)
        ensures
            response@ == out_of_turn_response(),
            response@.conforms(),
    {
        Response::failure(ErrorKind::Internal, "the server reported what it was not asked for")
    }
}

/// The response at the end of the handling of a request for a listing is the
/// one that the answers of the mount and the reading of the directory call
/// for.
pub proof fn lemma_outcome_of_listing(
    auth: Authorization,
    resolution: Resolution,
    listing: Result<Seq<DirectoryListEntryView>, Seq<char>>,
)
    ensures
        outcome(Endpoint::Directory, auth, resolution, EventView::Listed(listing)) == dir_response(
            auth,
            resolution,
            listing,
        ),
{
}

/// The response at the end of the handling of a request for a file is the
/// one that the answers of the mount and the opening of the file call for.
pub proof fn lemma_outcome_of_file(
    range: RangeRequest,
    limit: Option<u64>,
    auth: Authorization,
    resolution: Resolution,
    access: Result<(), Seq<char>>,
)
    ensures
        outcome(Endpoint::File { range, limit }, auth, resolution, EventView::Opened(access))
            == file_response(auth, resolution, range, limit, access),
{
}

/// The response at the end of the handling of a request for metadata is the
/// one that the answers of the mount and the reading of the metadata call
/// for.
pub proof fn lemma_outcome_of_metadata(
    auth: Authorization,
    resolution: Resolution,
    metadata: Result<MetadataView, Seq<char>>,
)
    ensures
        outcome(Endpoint::Metadata, auth, resolution, EventView::Probed(metadata))
            == metadata_response(auth, resolution, metadata),
{
}

/// The server is told to ask the mount about the path only after the policy
/// has allowed the request, and to read only what the mount has found: a
/// directory for a listing, anything that is there for metadata, and a file
/// of which bytes are to be served. It is never told to ask the policy twice.
pub proof fn lemma_nothing_before_its_turn(endpoint: Endpoint, progress: Progress, event: EventView)
    ensures
        ({
            let action = next(endpoint, progress, event).1;
            &&& !(action is Authorize)
            &&& action is Resolve ==> progress == Progress::Authorizing && event
                == EventView::Authorized(Authorization::Allowed)
            &&& action is ReadDirectory ==> endpoint == Endpoint::Directory && progress
                == Progress::Resolving && event == EventView::Resolved(Resolution::Directory)
            &&& action is ReadMetadata ==> {
                &&& endpoint == Endpoint::Metadata
                &&& progress == Progress::Resolving
                &&& event matches EventView::Resolved(resolution)
                &&& resolution != Resolution::NotFound
            }
            &&& action is OpenFile ==> {
                &&& endpoint matches Endpoint::File { range, limit }
                &&& progress == Progress::Resolving
                &&& event matches EventView::Resolved(resolution)
                &&& resolution is File
                &&& serves_bytes(file_plan(resolution, range, limit))
            }
        }),
{
}

/// The handling of a request is done exactly when the server is told to
/// respond, and is over after three steps at most.
pub proof fn lemma_done_with_response(endpoint: Endpoint, progress: Progress, event: EventView)
    ensures
        ({
            let then = next(endpoint, progress, event);
            &&& then.0 == Progress::Done <==> then.1 is Respond
            &&& progress == Progress::Authorizing ==> then.0 == Progress::Resolving || then.0
                == Progress::Done
            &&& progress == Progress::Resolving ==> then.0 is Reading || then.0 == Progress::Done
            &&& progress is Reading ==> then.0 == Progress::Done
        }),
{
}

} // verus!
