use vstd::prelude::*;
use crate::dispatch::GatewayEvent;
use crate::state::GatewayState;
use crate::types::ChatParams;
use crate::wire::{
    encode_request, endpoint_address, endpoint_text, is_plain_char, json_string_text,
    lemma_plain_text_unescaped, parse_url, parsed_url, request_text, url_accepts,
};

verus! {

/// Failures that a command reports to its caller.
#[derive(Debug)]
pub enum CommandError {
    /// The endpoint address is not a URL.
    InvalidUrl(url::ParseError),
    /// The transport handshake failed; the text describes why.
    ConnectionFailed(String),
    /// No producer handle is installed.
    NotConnected,
    /// The request could not be encoded.
    SerializationError(serde_json::Error),
    /// The outbound queue is closed; the text describes why.
    SendFailed(String),
}

/// A request ready for the outbound queue.
#[derive(Debug)]
pub struct OutboundRequest {
    /// The correlation id, which replies to the request carry.
    pub id: String,
    /// The text frame to enqueue.
    pub frame: String,
}

/// A random (version 4) UUID in hyphenated lower-case form.
pub open spec fn is_request_id(s: Seq<char>) -> bool {
    &&& s.len() == 36
    &&& s[14] == '4'
    &&& forall|i: int|
        0 <= i < 36 ==> if i == 8 || i == 13 || i == 18 || i == 23 {
            s[i] == '-'
        } else {
            ('0' <= #[trigger] s[i] <= '9') || ('a' <= s[i] <= 'f')
        }
}

/// Relies on uuid::Uuid::new_v4 and its `Display`: a random version 4 UUID,
/// written as 36 lower-case hyphenated characters.
#[verifier::external_body]
fn new_request_id() -> (r: String)
    ensures
        is_request_id(r@),
{
    uuid::Uuid::new_v4().to_string()
}

/// The state that a connect leaves: connected, with `sender` installed.
pub open spec fn connected_by<H>(s: GatewayState<H>, sender: H) -> bool {
    s.connected_spec() && s.sender_spec() == Some(sender)
}

/// The state that a disconnect leaves: not connected, with no sender.
pub open spec fn disconnected<H>(s: GatewayState<H>) -> bool {
    !s.connected_spec() && s.sender_spec() is None
}

/// Parses the endpoint address for `url` with the credential `token`.
pub fn connect_target(url: &str, token: &str) -> (r: Result<url::Url, CommandError>)
    ensures
        r is Ok <==> url_accepts(endpoint_text(url@, token@)),
        r matches Ok(u) ==> u == parsed_url(endpoint_text(url@, token@)),
        r matches Err(e) ==> e is InvalidUrl,
{
    let address = endpoint_address(url, token);
    match parse_url(address.as_str()) {
        Ok(u) => Ok(u),
        Err(e) => Err(CommandError::InvalidUrl(e)),
    }
}

/// Installs the producer handle of a newly opened stream and marks the state
/// connected; returns the event that announces the connection.
pub fn connect<H>(state: &mut GatewayState<H>, sender: H) -> (r: GatewayEvent)
    ensures
        connected_by(*final(state), sender),
        r is Connected,
{
    state.set_sender(Some(sender));
    state.set_connected(true);
    GatewayEvent::Connected
}

/// Drops the producer handle and marks the state disconnected.
pub fn disconnect<H>(state: &mut GatewayState<H>)
    ensures
        disconnected(*final(state)),
{
    state.set_sender(None);
    state.set_connected(false);
}

/// Builds a chat request under a fresh correlation id.
///
/// Fails with `NotConnected` exactly when no producer handle is installed,
/// and succeeds otherwise.
pub fn send_message<H>(state: &GatewayState<H>, params: &ChatParams) -> (r: Result<
    OutboundRequest,
    CommandError,
>)
    ensures
        state.sender_spec() is None <==> r matches Err(CommandError::NotConnected),
        state.sender_spec() is Some ==> r is Ok,
        r matches Ok(q) ==> is_request_id(q.id@) && q.frame@ == request_text(q.id@, *params),
        r matches Ok(q) ==> json_string_text(q.id@) == seq!['"'] + q.id@ + seq!['"'],
{
    if state.current_sender().is_none() {
        return Err(CommandError::NotConnected);
    }
    let id = new_request_id();
    proof {
        let v = id@;
        assert forall|i: int| 0 <= i < v.len() implies is_plain_char(#[trigger] v[i]) by {
            if i == 8 || i == 13 || i == 18 || i == 23 {
            } else {
                assert(('0' <= v[i] <= '9') || ('a' <= v[i] <= 'f'));
            }
        }
        lemma_plain_text_unescaped(v);
    }
    match encode_request(id.as_str(), params) {
        Ok(frame) => Ok(OutboundRequest { id, frame }),
        Err(e) => Err(CommandError::SerializationError(e)),
    }
}

/// The connected flag.
pub fn get_connection_status<H>(state: &GatewayState<H>) -> (r: bool)
    ensures
        r == state.connected_spec(),
{
    state.is_connected()
}

/// Right after a connect the status reads true and a sender is installed;
/// right after a disconnect the status reads false and none is installed.
pub proof fn lemma_status_follows_commands<H>(
    after_connect: GatewayState<H>,
    sender: H,
    after_disconnect: GatewayState<H>,
)
    requires
        connected_by(after_connect, sender),
        disconnected(after_disconnect),
    ensures
        after_connect.connected_spec(),
        after_connect.sender_spec() is Some,
        !after_disconnect.connected_spec(),
        after_disconnect.sender_spec() is None,
{
}

} // verus!
