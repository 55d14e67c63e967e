use vstd::prelude::*;

verus! {

/// serde_json's JSON value, carried unread as the result of a response.
#[verifier::external_type_specification]
#[verifier::external_body]
pub struct ExJsonValue(serde_json::Value);

/// Parameters of one chat request.
#[derive(Debug, Clone, PartialEq)]
pub struct ChatParams {
    pub message: String,
    pub session_key: Option<String>,
    pub model: Option<String>,
    pub thinking: Option<String>,
}

/// One increment of a streamed reply; every field may be absent.
#[derive(Debug, Clone, PartialEq)]
pub struct StreamChunk {
    pub request_id: Option<String>,
    pub content: Option<String>,
    pub done: Option<bool>,
    pub msg_type: Option<String>,
}

/// Structured error carried by a response.
#[derive(Debug, Clone, PartialEq)]
pub struct GatewayError {
    pub code: i32,
    pub message: String,
}

/// Terminal reply to a request; `result` is carried as the gateway sent it.
#[derive(Debug, Clone, PartialEq)]
pub struct GatewayResponse {
    pub id: Option<String>,
    pub result: Option<serde_json::Value>,
    pub error: Option<GatewayError>,
}

} // verus!
