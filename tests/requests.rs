use std::collections::HashMap;

use inference_gateway::flow::{
    begin_create, get_inference, patch_inference, post_inference, Action, Event, Flow, Reply,
};
use inference_gateway::record::{InferenceRequest, InferenceResponse};

/// A store and a broker that are reachable and acknowledge everything.
struct Backends {
    store: HashMap<String, String>,
    published: Vec<(String, String, String)>,
    writes: usize,
}

impl Backends {
    fn new() -> Backends {
        Backends { store: HashMap::new(), published: Vec::new(), writes: 0 }
    }

    fn serve(&mut self, start: (Flow, Action)) -> Reply {
        let (mut flow, mut action) = start;
        loop {
            let event = match action {
                Action::StoreSet { key, value } => {
                    self.writes += 1;
                    self.store.insert(key, value);
                    Event::Stored
                }
                Action::StoreGet { key } => Event::Fetched(self.store.get(&key).cloned()),
                Action::Publish { topic, key, payload } => {
                    self.published.push((topic, key, payload));
                    Event::Published
                }
                Action::Respond(reply) => return reply,
            };
            let next = flow.step(event);
            flow = next.0;
            action = next.1;
        }
    }
}

fn request(data: &str, model: &str) -> InferenceRequest {
    InferenceRequest::new(data.to_string(), model.to_string())
}

fn field(body: &str, name: &str) -> String {
    let value: serde_json::Value = serde_json::from_str(body).unwrap();
    value.get(name).and_then(|v| v.as_str()).unwrap().to_string()
}

fn created_id(start: &(Flow, Action)) -> String {
    match &start.1 {
        Action::StoreSet { key, .. } => key.clone(),
        _ => panic!("a create starts with a store write"),
    }
}

#[test]
fn create_read_update_read() {
    let mut backends = Backends::new();
    let start = post_inference(&request("x", "m1"));
    let id = created_id(&start);
    let created = backends.serve(start);
    assert_eq!(created.status, 200);
    assert_eq!(field(&created.body, "uuid"), id);
    assert_eq!(field(&created.body, "data"), "x");
    assert_eq!(field(&created.body, "model"), "m1");

    let read = backends.serve(get_inference(id.clone()));
    assert_eq!(read.status, 200);
    assert_eq!(field(&read.body, "data"), "x");
    assert_eq!(field(&read.body, "model"), "m1");

    let patched = backends.serve(patch_inference(id.clone(), &request("y", "m2")));
    assert_eq!(patched.status, 200);
    assert_eq!(field(&patched.body, "uuid"), id);
    assert_eq!(field(&patched.body, "data"), "y");
    assert_eq!(field(&patched.body, "model"), "m2");

    let reread = backends.serve(get_inference(id));
    assert_eq!(reread.status, 200);
    assert_eq!(field(&reread.body, "data"), "y");
    assert_eq!(field(&reread.body, "model"), "m2");
}

#[test]
fn fresh_identifiers_differ() {
    let a = created_id(&post_inference(&request("x", "m1")));
    let b = created_id(&post_inference(&request("x", "m1")));
    assert_eq!(a.len(), 36);
    assert_eq!(b.len(), 36);
    assert_ne!(a, b);
}

#[test]
fn create_writes_and_publishes_once_under_one_key() {
    let mut backends = Backends::new();
    let reply = backends.serve(begin_create(&request("payload", "topic-a"), "id-1".to_string()));
    let expected = "{\"uuid\":\"id-1\",\"data\":\"payload\",\"model\":\"topic-a\"}";
    assert_eq!(reply.status, 200);
    assert_eq!(reply.body, expected);
    assert_eq!(backends.writes, 1);
    assert_eq!(backends.store.get("id-1").map(|s| s.as_str()), Some(expected));
    assert_eq!(
        backends.published,
        vec![("topic-a".to_string(), "id-1".to_string(), expected.to_string())]
    );
}

#[test]
fn read_of_unknown_identifier_is_not_found() {
    let mut backends = Backends::new();
    let reply = backends.serve(get_inference("missing".to_string()));
    assert_eq!(reply.status, 404);
    assert_ne!(reply.body, "");
}

#[test]
fn read_returns_stored_text_verbatim() {
    let mut backends = Backends::new();
    backends.store.insert("k".to_string(), "raw text".to_string());
    let reply = backends.serve(get_inference("k".to_string()));
    assert_eq!(reply.status, 200);
    assert_eq!(reply.body, "raw text");
}

#[test]
fn update_of_absent_identifier_inserts() {
    let mut backends = Backends::new();
    let reply = backends.serve(patch_inference("new".to_string(), &request("d", "m")));
    assert_eq!(reply.status, 200);
    assert_eq!(backends.writes, 1);
    assert!(backends.published.is_empty());
    assert_eq!(
        backends.store.get("new").map(|s| s.as_str()),
        Some("{\"uuid\":\"new\",\"data\":\"d\",\"model\":\"m\"}")
    );
}

#[test]
fn record_text_escapes_fields() {
    let record = InferenceResponse::from_request("a\"b".to_string(), &request("line\nbreak", "m\\1"));
    assert_eq!(record.to_json(), "{\"uuid\":\"a\\\"b\",\"data\":\"line\\nbreak\",\"model\":\"m\\\\1\"}");
    let back: serde_json::Value = serde_json::from_str(&record.to_json()).unwrap();
    assert_eq!(back.get("data").and_then(|v| v.as_str()), Some("line\nbreak"));
}

#[test]
fn unreachable_store_gives_503() {
    let (flow, _) = begin_create(&request("x", "m1"), "id".to_string());
    let (flow, action) = flow.step(Event::Unreachable);
    assert!(matches!(flow, Flow::Finished));
    match action {
        Action::Respond(r) => assert_eq!(r.status, 503),
        _ => panic!("expected an answer"),
    }
}

#[test]
fn publish_timeout_gives_504() {
    let (flow, _) = begin_create(&request("x", "m1"), "id".to_string());
    let (flow, action) = flow.step(Event::Stored);
    assert!(matches!(action, Action::Publish { .. }));
    let (_, action) = flow.step(Event::TimedOut);
    match action {
        Action::Respond(r) => assert_eq!(r.status, 504),
        _ => panic!("expected an answer"),
    }
}

#[test]
fn unreachable_store_on_read_and_update_gives_503() {
    for (flow, _) in vec![get_inference("k".to_string()), patch_inference("k".to_string(), &request("d", "m"))] {
        match flow.step(Event::Unreachable).1 {
            Action::Respond(r) => assert_eq!(r.status, 503),
            _ => panic!("expected an answer"),
        }
    }
}

#[test]
fn unexpected_event_gives_500() {
    let (flow, _) = get_inference("k".to_string());
    match flow.step(Event::Published).1 {
        Action::Respond(r) => assert_eq!(r.status, 500),
        _ => panic!("expected an answer"),
    }
    match Flow::Finished.step(Event::Stored).1 {
        Action::Respond(r) => assert_eq!(r.status, 500),
        _ => panic!("expected an answer"),
    }
}
