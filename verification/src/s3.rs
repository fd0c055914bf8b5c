//! Serving the stored image: the decisions taken between the calls to S3.
//!
//! A retrieval starts in `Retrieval::Fetching`. The caller performs the work
//! that the state asks for (fetch the object, read its body, build the
//! response) and hands the outcome back to `advance` as an event, until the
//! state is `Found`, `Missing` or `Failed`; `reply` then says how a retrieval
//! that did not end in `Found` is answered.
use vstd::prelude::*;

use crate::HttpStatus;

verus! {

/// The bucket that holds the image.
pub const OBJECT_BUCKET: &'static str = "askama-game-zone";

/// The key of the image in its bucket.
pub const OBJECT_KEY: &'static str = "IMG_6740.jpeg";

/// The content type served where S3 gives none.
pub const DEFAULT_CONTENT_TYPE: &'static str = "application/octet-stream";

/// The body of the answer to a missing object.
pub const NOT_FOUND_BODY: &'static str = "Object not found";

/// Why fetching the object failed.
#[derive(Debug, PartialEq, Eq)]
pub enum FetchFailure {
    /// S3 answered that the key does not exist.
    NoSuchKey,
    /// Another error answered by S3, with its description.
    Service { detail: String },
    /// An error before S3 answered, with its description.
    Other { detail: String },
}

/// A `200 OK` answer carrying the object.
#[derive(Debug, PartialEq, Eq)]
pub struct ObjectResponse {
    pub content_type: String,
    pub body: Vec<u8>,
}

/// Where a retrieval stands.
#[derive(Debug, PartialEq, Eq)]
pub enum Retrieval {
    /// Fetch the object.
    Fetching,
    /// Read the body of the fetched object.
    Reading { content_type: Option<String> },
    /// Build the answer.
    Building { response: ObjectResponse },
    /// The answer is built.
    Found,
    /// There is no such object.
    Missing,
    /// The retrieval failed, with the message it is answered with.
    Failed { message: String },
}

/// The outcome of the work that a state asked for.
#[derive(Debug, PartialEq, Eq)]
pub enum RetrievalEvent {
    Fetched { content_type: Option<String> },
    FetchFailed { failure: FetchFailure },
    BodyRead { body: Vec<u8> },
    BodyFailed { detail: String },
    Built,
    BuildFailed { detail: String },
}

/// An answer other than the object.
#[derive(Debug, PartialEq, Eq)]
pub struct ErrorReply {
    pub status: HttpStatus,
    pub body: String,
}

/// A `Retrieval`, as plain values.
pub enum RetrievalView {
    Fetching,
    Reading { reported_type: Option<Seq<char>> },
    Building { content_type: Seq<char>, body: Seq<u8> },
    Found,
    Missing,
    Failed { message: Seq<char> },
}

/// A `RetrievalEvent`, as plain values.
pub enum EventView {
    Fetched { content_type: Option<Seq<char>> },
    NoSuchKey,
    ServiceFailed { detail: Seq<char> },
    OtherFailed { detail: Seq<char> },
    BodyRead { body: Seq<u8> },
    BodyFailed { detail: Seq<char> },
    Built,
    BuildFailed { detail: Seq<char> },
}

pub open spec fn opt_string_view(o: Option<String>) -> Option<Seq<char>> {
    match o {
        Some(s) => Some(s@),
        None => None,
    }
}

impl View for Retrieval {
    type V = RetrievalView;

    open spec fn view(&self) -> RetrievalView {
        match self {
            Retrieval::Fetching => RetrievalView::Fetching,
            Retrieval::Reading { content_type } => RetrievalView::Reading {
                reported_type: opt_string_view(*content_type),
            },
            Retrieval::Building { response } => RetrievalView::Building {
                content_type: response.content_type@,
                body: response.body@,
            },
            Retrieval::Found => RetrievalView::Found,
            Retrieval::Missing => RetrievalView::Missing,
            Retrieval::Failed { message } => RetrievalView::Failed { message: message@ },
        }
    }
}

impl View for RetrievalEvent {
    type V = EventView;

    open spec fn view(&self) -> EventView {
        match self {
            RetrievalEvent::Fetched { content_type } => EventView::Fetched {
                content_type: opt_string_view(*content_type),
            },
            RetrievalEvent::FetchFailed { failure } => match failure {
                FetchFailure::NoSuchKey => EventView::NoSuchKey,
                FetchFailure::Service { detail } => EventView::ServiceFailed { detail: detail@ },
                FetchFailure::Other { detail } => EventView::OtherFailed { detail: detail@ },
            },
            RetrievalEvent::BodyRead { body } => EventView::BodyRead { body: body@ },
            RetrievalEvent::BodyFailed { detail } => EventView::BodyFailed { detail: detail@ },
            RetrievalEvent::Built => EventView::Built,
            RetrievalEvent::BuildFailed { detail } => EventView::BuildFailed { detail: detail@ },
        }
    }
}

/// The content type served: the one S3 gave, or the default.
pub open spec fn served_content_type(content_type: Option<Seq<char>>) -> Seq<char> {
    match content_type {
        Some(c) => c,
        None => DEFAULT_CONTENT_TYPE@,
    }
}

/// The next state of a retrieval. An event that the state did not ask for
/// leaves the state as it is.
pub open spec fn next_retrieval(state: RetrievalView, event: EventView) -> RetrievalView {
    match (state, event) {
        (RetrievalView::Fetching, EventView::Fetched { content_type }) =>
            RetrievalView::Reading { reported_type: content_type },
        (RetrievalView::Fetching, EventView::NoSuchKey) => RetrievalView::Missing,
        (RetrievalView::Fetching, EventView::ServiceFailed { detail }) =>
            RetrievalView::Failed { message: "S3 service error: "@ + detail },
        (RetrievalView::Fetching, EventView::OtherFailed { detail }) =>
            RetrievalView::Failed { message: "S3 error: "@ + detail },
        (RetrievalView::Reading { reported_type }, EventView::BodyRead { body }) =>
            RetrievalView::Building { content_type: served_content_type(reported_type), body },
        (RetrievalView::Reading { reported_type }, EventView::BodyFailed { detail }) =>
            RetrievalView::Failed { message: "Failed to read S3 object body: "@ + detail },
        (RetrievalView::Building { content_type, body }, EventView::Built) => RetrievalView::Found,
        (RetrievalView::Building { content_type, body }, EventView::BuildFailed { detail }) =>
            RetrievalView::Failed { message: "Failed to construct response: "@ + detail },
        (s, e) => s,
    }
}

/// Whether the retrieval has come to an end.
pub open spec fn is_finished(state: RetrievalView) -> bool {
    state is Found || state is Missing || state is Failed
}

/// A finished retrieval stays as it is, whatever event comes.
pub proof fn lemma_finished_is_final(state: RetrievalView, event: EventView)
    requires
        is_finished(state),
    ensures
        next_retrieval(state, event) == state,
{
}

/// A built response always finds the object, whatever its body.
pub proof fn lemma_built_response_is_found(content_type: Seq<char>, body: Seq<u8>)
    ensures
        next_retrieval(RetrievalView::Building { content_type, body }, EventView::Built)
            == RetrievalView::Found,
{
}

/// A retrieval becomes `Missing` only from `Fetching`, on S3's answer that
/// the key does not exist; and `Found` only from `Building`, once the
/// response is built.
pub proof fn lemma_missing_and_found_only_by_their_events(state: RetrievalView, event: EventView)
    ensures
        next_retrieval(state, event) is Missing ==> state is Missing || (state is Fetching
            && event is NoSuchKey),
        next_retrieval(state, event) is Found ==> state is Found || (state is Building
            && event is Built),
{
}

/// A read body is served with the content type that S3 gave, or
/// `application/octet-stream` where it gave none, and with the body as it
/// was read.
pub proof fn lemma_read_body_is_served(reported: Option<Seq<char>>, body: Seq<u8>)
    ensures
        next_retrieval(RetrievalView::Reading { reported_type: reported }, EventView::BodyRead { body })
            == (RetrievalView::Building {
            content_type: match reported {
                Some(c) => c,
                None => "application/octet-stream"@,
            },
            body,
        }),
{
}

/// Whether an event moves the retrieval on (a finished one counts as moved).
pub open spec fn moves_on(state: RetrievalView, event: EventView) -> bool {
    is_finished(state) || next_retrieval(state, event) != state
}

/// A retrieval takes at most three steps: from `Fetching`, three events that
/// each move it on bring it to a finished state; and it finds the object only
/// after reading its body, with the content type that S3 gave, or the default
/// where it gave none.
pub proof fn lemma_retrieval_finishes(fetched: EventView, read: EventView, built: EventView)
    requires
        moves_on(RetrievalView::Fetching, fetched),
        moves_on(next_retrieval(RetrievalView::Fetching, fetched), read),
        moves_on(next_retrieval(next_retrieval(RetrievalView::Fetching, fetched), read), built),
    ensures
        ({
            let s1 = next_retrieval(RetrievalView::Fetching, fetched);
            let s2 = next_retrieval(s1, read);
            let s3 = next_retrieval(s2, built);
            &&& is_finished(s3)
            &&& s3 is Found ==> {
                &&& fetched matches EventView::Fetched { content_type }
                &&& read matches EventView::BodyRead { body }
                &&& s2 == (RetrievalView::Building {
                    content_type: served_content_type(content_type),
                    body,
                })
            }
        }),
{
}

fn concat(prefix: &str, detail: String) -> (s: String)
    ensures
        s@ == prefix@ + detail@,
{
    let mut s = String::new();
    s.append(prefix);
    s.append(detail.as_str());
    s
}

/// Takes a retrieval one step further.
pub fn advance(state: Retrieval, event: RetrievalEvent) -> (next: Retrieval)
    ensures
        next@ == next_retrieval(state@, event@),
{
    match state {
        Retrieval::Fetching => match event {
            RetrievalEvent::Fetched { content_type } => Retrieval::Reading { content_type },
            RetrievalEvent::FetchFailed { failure } => match failure {
                FetchFailure::NoSuchKey => Retrieval::Missing,
                FetchFailure::Service { detail } => Retrieval::Failed {
                    message: concat("S3 service error: ", detail),
                },
                FetchFailure::Other { detail } => Retrieval::Failed {
                    message: concat("S3 error: ", detail),
                },
            },
            _ => Retrieval::Fetching,
        },
        Retrieval::Reading { content_type } => match event {
            RetrievalEvent::BodyRead { body } => {
                let content_type = match content_type {
                    Some(c) => c,
                    None => DEFAULT_CONTENT_TYPE.to_owned(),
                };
                Retrieval::Building { response: ObjectResponse { content_type, body } }
            },
            RetrievalEvent::BodyFailed { detail } => Retrieval::Failed {
                message: concat("Failed to read S3 object body: ", detail),
            },
            _ => Retrieval::Reading { content_type },
        },
        Retrieval::Building { response } => match event {
            RetrievalEvent::Built => Retrieval::Found,
            RetrievalEvent::BuildFailed { detail } => Retrieval::Failed {
                message: concat("Failed to construct response: ", detail),
            },
            _ => Retrieval::Building { response },
        },
        Retrieval::Found => Retrieval::Found,
        Retrieval::Missing => Retrieval::Missing,
        Retrieval::Failed { message } => Retrieval::Failed { message },
    }
}

/// How a finished retrieval that did not find the object is answered:
/// `404` with "Object not found" for a missing object, `500` with the
/// message for a failure; `None` for any other state.
pub fn reply(state: &Retrieval) -> (r: Option<ErrorReply>)
    ensures
        match state@ {
            RetrievalView::Missing => r matches Some(e) && e.status == HttpStatus::NotFound
                && e.body@ == NOT_FOUND_BODY@,
            RetrievalView::Failed { message } => r matches Some(e)
                && e.status == HttpStatus::InternalServerError && e.body@ == message,
            _ => r is None,
        },
{
    match state {
        Retrieval::Missing => Some(ErrorReply {
            status: HttpStatus::NotFound,
            body: NOT_FOUND_BODY.to_owned(),
        }),
        Retrieval::Failed { message } => Some(ErrorReply {
            status: HttpStatus::InternalServerError,
            body: message.clone(),
        }),
        _ => None,
    }
}

} // verus!
