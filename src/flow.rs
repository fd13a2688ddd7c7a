use vstd::prelude::*;
use crate::record::{InferenceRequest, InferenceResponse, record_text};

verus! {

pub const STATUS_OK: u16 = 200;
pub const STATUS_NOT_FOUND: u16 = 404;
pub const STATUS_INTERNAL: u16 = 500;
pub const STATUS_UNAVAILABLE: u16 = 503;
pub const STATUS_GATEWAY_TIMEOUT: u16 = 504;

pub open spec fn not_found_text() -> Seq<char> {
    "no record under this identifier"@
}

pub open spec fn unavailable_text() -> Seq<char> {
    "store or stream unreachable"@
}

pub open spec fn timeout_text() -> Seq<char> {
    "stream publish timed out"@
}

pub open spec fn unexpected_text() -> Seq<char> {
    "unexpected event for this request"@
}

/// An HTTP answer: a status code and a body.
pub struct Reply {
    pub status: u16,
    pub body: String,
}

pub struct ReplyView {
    pub status: u16,
    pub body: Seq<char>,
}

impl View for Reply {
    type V = ReplyView;

    open spec fn view(&self) -> ReplyView {
        ReplyView { status: self.status, body: self.body@ }
    }
}

/// What the caller is to do next with the store, the stream or the client.
pub enum Action {
    /// Write `value` under `key` in the store, overwriting what is there.
    StoreSet { key: String, value: String },
    /// Look up `key` in the store.
    StoreGet { key: String },
    /// Publish `payload` on the stream topic `topic`, keyed by `key`.
    Publish { topic: String, key: String, payload: String },
    /// Answer the client; the request is over.
    Respond(Reply),
}

pub enum ActionView {
    StoreSet { key: Seq<char>, value: Seq<char> },
    StoreGet { key: Seq<char> },
    Publish { topic: Seq<char>, key: Seq<char>, payload: Seq<char> },
    Respond(ReplyView),
}

impl View for Action {
    type V = ActionView;

    open spec fn view(&self) -> ActionView {
        match self {
            Action::StoreSet { key, value } => ActionView::StoreSet { key: key@, value: value@ },
            Action::StoreGet { key } => ActionView::StoreGet { key: key@ },
            Action::Publish { topic, key, payload } => ActionView::Publish {
                topic: topic@,
                key: key@,
                payload: payload@,
            },
            Action::Respond(r) => ActionView::Respond(r@),
        }
    }
}

/// What came back from the store or the stream.
pub enum Event {
    /// The store acknowledged a write.
    Stored,
    /// The store answered a lookup: the value, or `None` where the key is absent.
    Fetched(Option<String>),
    /// The broker acknowledged a publish.
    Published,
    /// The store or the broker could not be reached.
    Unreachable,
    /// The broker did not acknowledge a publish within its bound.
    TimedOut,
}

pub enum EventView {
    Stored,
    Fetched(Option<Seq<char>>),
    Published,
    Unreachable,
    TimedOut,
}

impl View for Event {
    type V = EventView;

    open spec fn view(&self) -> EventView {
        match self {
            Event::Stored => EventView::Stored,
            Event::Fetched(Some(v)) => EventView::Fetched(Some(v@)),
            Event::Fetched(None) => EventView::Fetched(None),
            Event::Published => EventView::Published,
            Event::Unreachable => EventView::Unreachable,
            Event::TimedOut => EventView::TimedOut,
        }
    }
}

/// Where a request stands while it waits for the store or the stream.
pub enum Flow {
    /// A create waits for its store write; the publish comes next.
    Storing { key: String, body: String, topic: String },
    /// A create waits for the broker's acknowledgment.
    Publishing { body: String },
    /// A read waits for its lookup.
    Fetching,
    /// An update waits for its store write.
    Overwriting { body: String },
    /// The request has been answered.
    Finished,
}

pub enum FlowView {
    Storing { key: Seq<char>, body: Seq<char>, topic: Seq<char> },
    Publishing { body: Seq<char> },
    Fetching,
    Overwriting { body: Seq<char> },
    Finished,
}

impl View for Flow {
    type V = FlowView;

    open spec fn view(&self) -> FlowView {
        match self {
            Flow::Storing { key, body, topic } => FlowView::Storing {
                key: key@,
                body: body@,
                topic: topic@,
            },
            Flow::Publishing { body } => FlowView::Publishing { body: body@ },
            Flow::Fetching => FlowView::Fetching,
            Flow::Overwriting { body } => FlowView::Overwriting { body: body@ },
            Flow::Finished => FlowView::Finished,
        }
    }
}

pub open spec fn respond(status: u16, body: Seq<char>) -> ActionView {
    ActionView::Respond(ReplyView { status, body })
}

/// A create under `id`: write the record, then publish it on the topic named
/// by the model, keyed by `id`.
pub open spec fn create_start(id: Seq<char>, data: Seq<char>, model: Seq<char>) -> (FlowView, ActionView) {
    let body = record_text(id, data, model);
    (FlowView::Storing { key: id, body, topic: model }, ActionView::StoreSet { key: id, value: body })
}

/// A read of `id`: look it up.
pub open spec fn read_start(id: Seq<char>) -> (FlowView, ActionView) {
    (FlowView::Fetching, ActionView::StoreGet { key: id })
}

/// An update of `id`: overwrite the record, whether or not it was there.
pub open spec fn update_start(id: Seq<char>, data: Seq<char>, model: Seq<char>) -> (FlowView, ActionView) {
    let body = record_text(id, data, model);
    (FlowView::Overwriting { body }, ActionView::StoreSet { key: id, value: body })
}

/// The answer to an event that the waiting flow does not expect.
pub open spec fn fault_step(e: EventView) -> (FlowView, ActionView) {
    match e {
        EventView::Unreachable => (FlowView::Finished, respond(STATUS_UNAVAILABLE, unavailable_text())),
        _ => (FlowView::Finished, respond(STATUS_INTERNAL, unexpected_text())),
    }
}

/// The next state and action of a flow after an event.
pub open spec fn step_spec(f: FlowView, e: EventView) -> (FlowView, ActionView) {
    match f {
        FlowView::Storing { key, body, topic } => match e {
            EventView::Stored => (
                FlowView::Publishing { body },
                ActionView::Publish { topic, key, payload: body },
            ),
            _ => fault_step(e),
        },
        FlowView::Publishing { body } => match e {
            EventView::Published => (FlowView::Finished, respond(STATUS_OK, body)),
            EventView::TimedOut => (FlowView::Finished, respond(STATUS_GATEWAY_TIMEOUT, timeout_text())),
            _ => fault_step(e),
        },
        FlowView::Fetching => match e {
            EventView::Fetched(Some(v)) => (FlowView::Finished, respond(STATUS_OK, v)),
            EventView::Fetched(None) => (FlowView::Finished, respond(STATUS_NOT_FOUND, not_found_text())),
            _ => fault_step(e),
        },
        FlowView::Overwriting { body } => match e {
            EventView::Stored => (FlowView::Finished, respond(STATUS_OK, body)),
            _ => fault_step(e),
        },
        FlowView::Finished => (FlowView::Finished, respond(STATUS_INTERNAL, unexpected_text())),
    }
}

fn reply(status: u16, body: &str) -> (r: Action)
    ensures
        r@ == respond(status, body@),
{
    Action::Respond(Reply { status, body: body.to_owned() })
}

fn fault(event: Event) -> (r: (Flow, Action))
    ensures
        (r.0@, r.1@) == fault_step(event@),
{
    match event {
        Event::Unreachable => (Flow::Finished, reply(STATUS_UNAVAILABLE, "store or stream unreachable")),
        _ => (Flow::Finished, reply(STATUS_INTERNAL, "unexpected event for this request")),
    }
}

/// Starts a create under the identifier `uuid`: the first action writes the
/// record to the store.
pub fn begin_create(req: &InferenceRequest, uuid: String) -> (r: (Flow, Action))
    ensures
        (r.0@, r.1@) == create_start(uuid@, req.data@, req.model@),
{
    let record = InferenceResponse::from_request(uuid, req);
    let body = record.to_json();
    let key = record.uuid.clone();
    let action = Action::StoreSet { key: record.uuid, value: body.clone() };
    (Flow::Storing { key, body, topic: record.model }, action)
}

/// Relies on `uuid::Uuid::new_v4` and the `Display` impl of `Uuid`: a random
/// version 4 identifier in its hyphenated form, which is 36 characters long.
#[verifier::external_body]
fn fresh_identifier() -> (r: String)
    ensures
        r@.len() == 36,
{
    uuid::Uuid::new_v4().to_string()
}

/// Starts a create under a freshly drawn random identifier: the first action
/// writes the record to the store under that identifier.
pub fn post_inference(req: &InferenceRequest) -> (r: (Flow, Action))
    ensures
        exists|id: Seq<char>|
            id.len() == 36 && #[trigger] create_start(id, req.data@, req.model@) == (r.0@, r.1@),
{
    let uuid = fresh_identifier();
    let ghost id = uuid@;
    let r = begin_create(req, uuid);
    assert(create_start(id, req.data@, req.model@) == (r.0@, r.1@));
    r
}

/// Starts a read of the record under `uuid`.
pub fn get_inference(uuid: String) -> (r: (Flow, Action))
    ensures
        (r.0@, r.1@) == read_start(uuid@),
{
    (Flow::Fetching, Action::StoreGet { key: uuid })
}

/// Starts an update of the record under `uuid`: the record is overwritten
/// whether or not it was there before.
pub fn patch_inference(uuid: String, req: &InferenceRequest) -> (r: (Flow, Action))
    ensures
        (r.0@, r.1@) == update_start(uuid@, req.data@, req.model@),
{
    let record = InferenceResponse::from_request(uuid, req);
    let body = record.to_json();
    (Flow::Overwriting { body: body.clone() }, Action::StoreSet { key: record.uuid, value: body })
}

impl Flow {
    /// Moves the flow on by one event, and says what to do next.
    pub fn step(self, event: Event) -> (r: (Flow, Action))
        ensures
            (r.0@, r.1@) == step_spec(self@, event@),
    {
        match self {
            Flow::Storing { key, body, topic } => match event {
                Event::Stored => (
                    Flow::Publishing { body: body.clone() },
                    Action::Publish { topic, key, payload: body },
                ),
                _ => fault(event),
            },
            Flow::Publishing { body } => match event {
                Event::Published => (Flow::Finished, Action::Respond(Reply { status: STATUS_OK, body })),
                Event::TimedOut => (Flow::Finished, reply(STATUS_GATEWAY_TIMEOUT, "stream publish timed out")),
                _ => fault(event),
            },
            Flow::Fetching => match event {
                Event::Fetched(Some(v)) => (Flow::Finished, Action::Respond(Reply { status: STATUS_OK, body: v })),
                Event::Fetched(None) => (Flow::Finished, reply(STATUS_NOT_FOUND, "no record under this identifier")),
                _ => fault(event),
            },
            Flow::Overwriting { body } => match event {
                Event::Stored => (Flow::Finished, Action::Respond(Reply { status: STATUS_OK, body })),
                _ => fault(event),
            },
            Flow::Finished => (Flow::Finished, reply(STATUS_INTERNAL, "unexpected event for this request")),
        }
    }
}

} // verus!
