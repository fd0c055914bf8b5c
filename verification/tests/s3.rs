use game_zone::s3::{
    advance, reply, ErrorReply, FetchFailure, ObjectResponse, Retrieval, RetrievalEvent,
    DEFAULT_CONTENT_TYPE, NOT_FOUND_BODY, OBJECT_BUCKET, OBJECT_KEY,
};
use game_zone::HttpStatus;

#[test]
fn the_image_location() {
    assert_eq!(OBJECT_BUCKET, "askama-game-zone");
    assert_eq!(OBJECT_KEY, "IMG_6740.jpeg");
}

#[test]
fn fetched_object_is_read_then_built_then_found() {
    let s = advance(
        Retrieval::Fetching,
        RetrievalEvent::Fetched { content_type: Some("image/jpeg".to_string()) },
    );
    assert_eq!(s, Retrieval::Reading { content_type: Some("image/jpeg".to_string()) });
    let s = advance(s, RetrievalEvent::BodyRead { body: vec![1, 2, 3] });
    assert_eq!(
        s,
        Retrieval::Building {
            response: ObjectResponse { content_type: "image/jpeg".to_string(), body: vec![1, 2, 3] }
        }
    );
    let s = advance(s, RetrievalEvent::Built);
    assert_eq!(s, Retrieval::Found);
    assert_eq!(reply(&s), None);
}

#[test]
fn missing_content_type_defaults_to_octet_stream() {
    let s = advance(
        Retrieval::Reading { content_type: None },
        RetrievalEvent::BodyRead { body: Vec::new() },
    );
    assert_eq!(
        s,
        Retrieval::Building {
            response: ObjectResponse { content_type: DEFAULT_CONTENT_TYPE.to_string(), body: Vec::new() }
        }
    );
    assert_eq!(DEFAULT_CONTENT_TYPE, "application/octet-stream");
}

#[test]
fn no_such_key_is_answered_not_found() {
    let s = advance(Retrieval::Fetching, RetrievalEvent::FetchFailed { failure: FetchFailure::NoSuchKey });
    assert_eq!(s, Retrieval::Missing);
    assert_eq!(
        reply(&s),
        Some(ErrorReply { status: HttpStatus::NotFound, body: NOT_FOUND_BODY.to_string() })
    );
    assert_eq!(NOT_FOUND_BODY, "Object not found");
}

#[test]
fn service_error_is_answered_with_its_message() {
    let s = advance(
        Retrieval::Fetching,
        RetrievalEvent::FetchFailed { failure: FetchFailure::Service { detail: "AccessDenied".to_string() } },
    );
    assert_eq!(s, Retrieval::Failed { message: "S3 service error: AccessDenied".to_string() });
    assert_eq!(
        reply(&s),
        Some(ErrorReply {
            status: HttpStatus::InternalServerError,
            body: "S3 service error: AccessDenied".to_string()
        })
    );
}

#[test]
fn other_fetch_error() {
    let s = advance(
        Retrieval::Fetching,
        RetrievalEvent::FetchFailed { failure: FetchFailure::Other { detail: "timeout".to_string() } },
    );
    assert_eq!(s, Retrieval::Failed { message: "S3 error: timeout".to_string() });
}

#[test]
fn body_read_error() {
    let s = advance(
        Retrieval::Reading { content_type: None },
        RetrievalEvent::BodyFailed { detail: "eof".to_string() },
    );
    assert_eq!(s, Retrieval::Failed { message: "Failed to read S3 object body: eof".to_string() });
}

#[test]
fn response_build_error() {
    let s = advance(
        Retrieval::Building {
            response: ObjectResponse { content_type: "x".to_string(), body: Vec::new() },
        },
        RetrievalEvent::BuildFailed { detail: "bad header".to_string() },
    );
    assert_eq!(s, Retrieval::Failed { message: "Failed to construct response: bad header".to_string() });
}

#[test]
fn unasked_event_leaves_the_state() {
    assert_eq!(advance(Retrieval::Fetching, RetrievalEvent::Built), Retrieval::Fetching);
    assert_eq!(
        advance(Retrieval::Reading { content_type: None }, RetrievalEvent::Built),
        Retrieval::Reading { content_type: None }
    );
}

#[test]
fn finished_states_stay() {
    assert_eq!(advance(Retrieval::Missing, RetrievalEvent::Built), Retrieval::Missing);
    assert_eq!(advance(Retrieval::Found, RetrievalEvent::BodyRead { body: vec![1] }), Retrieval::Found);
    assert_eq!(
        advance(
            Retrieval::Failed { message: "m".to_string() },
            RetrievalEvent::FetchFailed { failure: FetchFailure::NoSuchKey }
        ),
        Retrieval::Failed { message: "m".to_string() }
    );
}

#[test]
fn unfinished_states_have_no_error_reply() {
    assert_eq!(reply(&Retrieval::Fetching), None);
    assert_eq!(reply(&Retrieval::Reading { content_type: None }), None);
}
