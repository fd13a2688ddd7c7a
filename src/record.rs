use vstd::prelude::*;

verus! {

#[verifier::external_type_specification]
#[verifier::external_body]
pub struct ExJsonError(serde_json::Error);

/// The JSON string literal (quotes and escapes included) that stands for `s`.
pub uninterp spec fn json_quoted(s: Seq<char>) -> Seq<char>;

/// Relies on `serde_json::to_string` applied to a `str`: it writes the JSON
/// string literal for the characters into a `Vec`, a write that cannot fail.
#[verifier::external_body]
fn json_quote(s: &str) -> (r: Result<String, serde_json::Error>)
    ensures
        r is Ok,
        r->Ok_0@ == json_quoted(s@),
{
    serde_json::to_string(s)
}

/// The serialized form of a record: a JSON object with the fields `uuid`,
/// `data` and `model`, in that order.
pub open spec fn record_text(uuid: Seq<char>, data: Seq<char>, model: Seq<char>) -> Seq<char> {
    "{\"uuid\":"@ + json_quoted(uuid) + ",\"data\":"@ + json_quoted(data) + ",\"model\":"@
        + json_quoted(model) + "}"@
}

/// The body of a create or update request.
pub struct InferenceRequest {
    pub data: String,
    pub model: String,
}

/// A stored record: its identifier, its payload and the model that selects
/// the stream topic.
pub struct InferenceResponse {
    pub uuid: String,
    pub data: String,
    pub model: String,
}

impl InferenceRequest {
    pub fn new(data: String, model: String) -> (r: InferenceRequest)
        ensures
            r.data@ == data@,
            r.model@ == model@,
    {
        InferenceRequest { data, model }
    }
}

impl InferenceResponse {
    pub open spec fn text(&self) -> Seq<char> {
        record_text(self.uuid@, self.data@, self.model@)
    }

    /// The record under `uuid` that carries the request's payload and model.
    pub fn from_request(uuid: String, req: &InferenceRequest) -> (r: InferenceResponse)
        ensures
            r.uuid@ == uuid@,
            r.data@ == req.data@,
            r.model@ == req.model@,
    {
        InferenceResponse { uuid, data: req.data.clone(), model: req.model.clone() }
    }

    /// The serialized form of the record.
    pub fn to_json(&self) -> (r: String)
        ensures
            r@ == self.text(),
    {
        let mut out = "{\"uuid\":".to_owned();
        out.append(json_quote(self.uuid.as_str()).unwrap().as_str());
        out.append(",\"data\":");
        out.append(json_quote(self.data.as_str()).unwrap().as_str());
        out.append(",\"model\":");
        out.append(json_quote(self.model.as_str()).unwrap().as_str());
        out.append("}");
        out
    }
}

} // verus!
