use xfp_protocol::api::error::ErrorKind;
use xfp_protocol::api::exchange::{Action, Endpoint, Event, Exchange, Progress};
use xfp_protocol::api::get_dir::{get_dir, respond_to_listing};
use xfp_protocol::api::get_file::{get_file, plan_file, respond_to_opening};
use xfp_protocol::api::get_metadata::{get_metadata, respond_to_probe};
use xfp_protocol::api::mounts::{Authorization, Resolution};
use xfp_protocol::api::range::{ByteRange, RangeRequest};
use xfp_protocol::api::response::Response;
use xfp_protocol::dir::DirectoryListEntry;
use xfp_protocol::metadata::Metadata;

fn listing() -> Vec<DirectoryListEntry> {
    vec![
        DirectoryListEntry::default().with_name("b".to_string()),
        DirectoryListEntry::default().with_name("a".to_string()),
    ]
}

fn file_endpoint() -> Endpoint {
    Endpoint::File { range: RangeRequest::Span(ByteRange::closed(0, 0)), limit: None }
}

fn status_of(action: &Action) -> Option<u16> {
    match action {
        Action::Respond(response) => Some(response.status()),
        _ => None,
    }
}

/// Runs a request to its response, with the given answers of the mount.
fn run(
    endpoint: Endpoint,
    auth: Authorization,
    resolution: Resolution,
    entries: Result<Vec<DirectoryListEntry>, String>,
    metadata: Result<Metadata, String>,
    access: Result<(), String>,
) -> (Response, Vec<&'static str>) {
    let mut asked = Vec::new();
    let (mut exchange, mut action) = Exchange::start(endpoint);
    loop {
        assert_eq!(exchange.endpoint(), endpoint);
        let event = match action {
            Action::Authorize => {
                asked.push("authorize");
                Event::Authorized(auth)
            }
            Action::Resolve => {
                asked.push("resolve");
                Event::Resolved(resolution)
            }
            Action::ReadDirectory => {
                asked.push("read directory");
                Event::Listed(entries.clone())
            }
            Action::ReadMetadata => {
                asked.push("read metadata");
                Event::Probed(metadata.clone())
            }
            Action::OpenFile => {
                asked.push("open file");
                Event::Opened(access.clone())
            }
            Action::Respond(response) => {
                assert!(exchange.is_done());
                return (response, asked);
            }
        };
        assert!(!exchange.is_done());
        (exchange, action) = exchange.handle(event);
    }
}

#[test]
fn a_request_begins_with_the_policy() {
    for endpoint in [Endpoint::Directory, file_endpoint(), Endpoint::Metadata] {
        let (exchange, action) = Exchange::start(endpoint);
        assert_eq!(action, Action::Authorize);
        assert_eq!(exchange.progress(), Progress::Authorizing);
        assert_eq!(exchange.endpoint(), endpoint);
        assert!(!exchange.is_done());
    }
}

#[test]
fn a_refusal_ends_the_request_before_the_path_is_looked_at() {
    for endpoint in [Endpoint::Directory, file_endpoint(), Endpoint::Metadata] {
        for (auth, status) in [(Authorization::Unauthorized, 401), (Authorization::Forbidden, 403)] {
            let (response, asked) =
                run(endpoint, auth, Resolution::NotFound, Ok(listing()), Ok(Metadata::default()), Ok(()));
            assert_eq!(response.status(), status);
            assert_eq!(asked, vec!["authorize"]);
        }
    }
}

#[test]
fn a_listing_takes_three_steps() {
    let (response, asked) = run(
        Endpoint::Directory,
        Authorization::Allowed,
        Resolution::Directory,
        Ok(listing()),
        Err("not asked".to_string()),
        Ok(()),
    );
    assert_eq!(asked, vec!["authorize", "resolve", "read directory"]);
    assert_eq!(response, get_dir(Authorization::Allowed, Resolution::Directory, Ok(listing())));
    assert_eq!(response.status(), 200);
}

#[test]
fn an_empty_listing_through_the_steps() {
    let (response, _) = run(
        Endpoint::Directory,
        Authorization::Allowed,
        Resolution::Directory,
        Ok(vec![]),
        Ok(Metadata::default()),
        Ok(()),
    );
    assert_eq!(response, Response::Empty);
}

#[test]
fn nothing_is_read_where_there_is_no_directory() {
    for resolution in [Resolution::NotFound, Resolution::File { size: 1 }, Resolution::Symlink] {
        let (response, asked) = run(
            Endpoint::Directory,
            Authorization::Allowed,
            resolution,
            Ok(listing()),
            Ok(Metadata::default()),
            Ok(()),
        );
        assert_eq!(response.status(), 404);
        assert_eq!(asked, vec!["authorize", "resolve"]);
    }
}

#[test]
fn a_file_is_opened_before_it_is_served() {
    let (response, asked) = run(
        file_endpoint(),
        Authorization::Allowed,
        Resolution::File { size: 10 },
        Ok(listing()),
        Ok(Metadata::default()),
        Ok(()),
    );
    assert_eq!(asked, vec!["authorize", "resolve", "open file"]);
    assert_eq!(response.status(), 206);
    let (response, asked) = run(
        Endpoint::File { range: RangeRequest::Whole, limit: None },
        Authorization::Allowed,
        Resolution::File { size: 10 },
        Ok(listing()),
        Ok(Metadata::default()),
        Ok(()),
    );
    assert_eq!(asked, vec!["authorize", "resolve", "open file"]);
    assert_eq!(response, Response::Whole { size: 10 });
}

#[test]
fn a_file_that_cannot_be_opened_is_500_with_the_cause() {
    for endpoint in [file_endpoint(), Endpoint::File { range: RangeRequest::Whole, limit: Some(10) }] {
        let (response, asked) = run(
            endpoint,
            Authorization::Allowed,
            Resolution::File { size: 10 },
            Ok(listing()),
            Ok(Metadata::default()),
            Err("permission denied".to_string()),
        );
        assert_eq!(asked, vec!["authorize", "resolve", "open file"]);
        assert_eq!(response, Response::failure(ErrorKind::Internal, "permission denied"));
        assert_eq!(response.status(), 500);
    }
}

#[test]
fn a_file_is_not_opened_where_no_byte_is_served() {
    for resolution in [Resolution::File { size: 0 }, Resolution::NotFound, Resolution::Directory] {
        let (response, asked) = run(
            file_endpoint(),
            Authorization::Allowed,
            resolution,
            Ok(listing()),
            Ok(Metadata::default()),
            Err("never asked".to_string()),
        );
        assert_eq!(asked, vec!["authorize", "resolve"]);
        assert_eq!(
            response,
            get_file(
                Authorization::Allowed,
                resolution,
                RangeRequest::Span(ByteRange::closed(0, 0)),
                None,
                Err("never asked".to_string())
            )
        );
    }
    let (response, asked) = run(
        Endpoint::File { range: RangeRequest::Whole, limit: Some(5) },
        Authorization::Allowed,
        Resolution::File { size: 6 },
        Ok(vec![]),
        Ok(Metadata::default()),
        Err("never asked".to_string()),
    );
    assert_eq!(response.status(), 413);
    assert_eq!(asked, vec!["authorize", "resolve"]);
    let (response, asked) = run(
        Endpoint::File { range: RangeRequest::Whole, limit: None },
        Authorization::Allowed,
        Resolution::File { size: 0 },
        Ok(vec![]),
        Ok(Metadata::default()),
        Err("never asked".to_string()),
    );
    assert_eq!(response, Response::Empty);
    assert_eq!(asked, vec!["authorize", "resolve"]);
}

#[test]
fn the_steps_agree_with_the_answer_in_one() {
    let ranges = [
        RangeRequest::Whole,
        RangeRequest::Span(ByteRange::closed(0, 0)),
        RangeRequest::Span(ByteRange::closed(3, 1)),
        RangeRequest::Span(ByteRange::from(4)),
        RangeRequest::Unsupported,
    ];
    for auth in [Authorization::Allowed, Authorization::Forbidden, Authorization::Unauthorized] {
        for resolution in [
            Resolution::File { size: 0 },
            Resolution::File { size: 4 },
            Resolution::File { size: 9 },
            Resolution::Directory,
            Resolution::Symlink,
            Resolution::NotFound,
        ] {
            for range in ranges {
                for limit in [None, Some(0), Some(5)] {
                    for access in [Ok(()), Err("locked".to_string())] {
                        let (response, _) = run(
                            Endpoint::File { range, limit },
                            auth,
                            resolution,
                            Ok(vec![]),
                            Ok(Metadata::default()),
                            access.clone(),
                        );
                        assert_eq!(response, get_file(auth, resolution, range, limit, access));
                    }
                }
            }
        }
    }
}

#[test]
fn a_planned_answer_is_settled_by_the_opening() {
    let planned = plan_file(Resolution::File { size: 3 }, RangeRequest::Whole, None);
    assert_eq!(planned, Response::Whole { size: 3 });
    assert_eq!(respond_to_opening(planned.clone(), Ok(())), planned);
    assert_eq!(
        respond_to_opening(planned, Err("gone".to_string())),
        Response::failure(ErrorKind::Internal, "gone")
    );
    let empty = plan_file(Resolution::File { size: 0 }, RangeRequest::Whole, None);
    assert_eq!(respond_to_opening(empty, Err("gone".to_string())), Response::Empty);
    let refused = plan_file(Resolution::File { size: 3 }, RangeRequest::Whole, Some(2));
    assert_eq!(refused.status(), 413);
    assert_eq!(respond_to_opening(refused.clone(), Err("gone".to_string())), refused);
    let missing = plan_file(Resolution::Symlink, RangeRequest::Whole, None);
    assert_eq!(missing.status(), 404);
}

#[test]
fn metadata_takes_three_steps() {
    let metadata = Metadata::default().with_size(77);
    for resolution in [Resolution::File { size: 77 }, Resolution::Directory, Resolution::Symlink] {
        let (response, asked) = run(
            Endpoint::Metadata,
            Authorization::Allowed,
            resolution,
            Ok(vec![]),
            Ok(metadata.clone()),
            Ok(()),
        );
        assert_eq!(asked, vec!["authorize", "resolve", "read metadata"]);
        assert_eq!(response, get_metadata(Authorization::Allowed, resolution, Ok(metadata.clone())));
        assert_eq!(response.status(), 200);
    }
}

#[test]
fn no_metadata_is_read_where_there_is_nothing() {
    let (response, asked) = run(
        Endpoint::Metadata,
        Authorization::Allowed,
        Resolution::NotFound,
        Ok(vec![]),
        Ok(Metadata::default()),
        Ok(()),
    );
    assert_eq!(response.status(), 404);
    assert_eq!(asked, vec!["authorize", "resolve"]);
}

#[test]
fn a_failed_read_is_500_with_its_cause() {
    let (response, _) = run(
        Endpoint::Directory,
        Authorization::Allowed,
        Resolution::Directory,
        Err("unreadable".to_string()),
        Ok(Metadata::default()),
        Ok(()),
    );
    assert_eq!(response, Response::failure(ErrorKind::Internal, "unreadable"));
    let (response, _) = run(
        Endpoint::Metadata,
        Authorization::Allowed,
        Resolution::Symlink,
        Ok(vec![]),
        Err("unreachable host".to_string()),
        Ok(()),
    );
    assert_eq!(response, Response::failure(ErrorKind::Internal, "unreachable host"));
}

#[test]
fn an_event_out_of_turn_is_500() {
    let (exchange, _) = Exchange::start(Endpoint::Directory);
    let (exchange, action) = exchange.handle(Event::Resolved(Resolution::Directory));
    assert_eq!(status_of(&action), Some(500));
    assert!(exchange.is_done());

    let (exchange, _) = Exchange::start(Endpoint::Directory);
    let (exchange, action) = exchange.handle(Event::Listed(Ok(listing())));
    assert_eq!(status_of(&action), Some(500));
    assert!(exchange.is_done());

    let (exchange, _) = Exchange::start(Endpoint::Metadata);
    let (exchange, action) = exchange.handle(Event::Authorized(Authorization::Allowed));
    assert_eq!(action, Action::Resolve);
    let (exchange, action) = exchange.handle(Event::Authorized(Authorization::Allowed));
    assert_eq!(status_of(&action), Some(500));
    assert!(exchange.is_done());

    let (exchange, _) = Exchange::start(Endpoint::Metadata);
    let (exchange, _) = exchange.handle(Event::Authorized(Authorization::Allowed));
    let (exchange, action) = exchange.handle(Event::Resolved(Resolution::Directory));
    assert_eq!(action, Action::ReadMetadata);
    assert_eq!(exchange.progress(), Progress::Reading { found: Resolution::Directory });
    let (exchange, action) = exchange.handle(Event::Listed(Ok(listing())));
    assert_eq!(status_of(&action), Some(500));
    assert!(exchange.is_done());

    let (exchange, _) = Exchange::start(Endpoint::Directory);
    let (exchange, _) = exchange.handle(Event::Authorized(Authorization::Allowed));
    let (exchange, _) = exchange.handle(Event::Resolved(Resolution::Directory));
    let (exchange, action) = exchange.handle(Event::Probed(Ok(Metadata::default())));
    assert_eq!(status_of(&action), Some(500));
    assert!(exchange.is_done());

    let (exchange, _) = Exchange::start(Endpoint::Directory);
    let (exchange, _) = exchange.handle(Event::Authorized(Authorization::Allowed));
    let (exchange, _) = exchange.handle(Event::Resolved(Resolution::Directory));
    let (exchange, action) = exchange.handle(Event::Opened(Ok(())));
    assert_eq!(status_of(&action), Some(500));
    assert!(exchange.is_done());

    let (exchange, _) = Exchange::start(file_endpoint());
    let (exchange, _) = exchange.handle(Event::Authorized(Authorization::Allowed));
    let (exchange, action) = exchange.handle(Event::Resolved(Resolution::File { size: 5 }));
    assert_eq!(action, Action::OpenFile);
    assert_eq!(exchange.progress(), Progress::Reading { found: Resolution::File { size: 5 } });
    let (exchange, action) = exchange.handle(Event::Listed(Ok(vec![])));
    assert_eq!(status_of(&action), Some(500));
    assert!(exchange.is_done());
}

#[test]
fn an_event_after_the_response_is_500() {
    let (exchange, _) = Exchange::start(file_endpoint());
    let (exchange, _) = exchange.handle(Event::Authorized(Authorization::Forbidden));
    assert!(exchange.is_done());
    let (exchange, action) = exchange.handle(Event::Resolved(Resolution::File { size: 1 }));
    assert_eq!(status_of(&action), Some(500));
    assert!(exchange.is_done());
}

#[test]
fn answers_after_reading() {
    assert_eq!(respond_to_listing(Ok(vec![])), Response::Empty);
    assert_eq!(respond_to_listing(Ok(listing())).status(), 200);
    assert_eq!(respond_to_listing(Err("x".to_string())), Response::failure(ErrorKind::Internal, "x"));
    assert_eq!(respond_to_probe(Ok(Metadata::default())).status(), 200);
    assert_eq!(
        respond_to_probe(Ok(Metadata::default())).json_body(),
        Metadata::default().to_json()
    );
    assert_eq!(respond_to_probe(Err("x".to_string())), Response::failure(ErrorKind::Internal, "x"));
}
