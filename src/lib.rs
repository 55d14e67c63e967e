//! Client side of a gateway connection: one duplex text stream that carries
//! correlated chat requests out and streamed chunks and responses back.
//!
//! The library holds the decisions of the connection: the connection state and
//! the commands on it, the encoding of outbound requests, and the
//! classification of inbound frames into events for the host. The transport,
//! the tasks and the host's event sink are driven by the caller.

pub mod types;
pub mod state;
pub mod wire;
pub mod dispatch;
pub mod commands;
pub mod pump;

pub use types::{ChatParams, GatewayError, GatewayResponse, StreamChunk};
pub use state::GatewayState;
pub use dispatch::{GatewayEvent, InboundDispatcher, InboundFrame, TextFrame};
pub use commands::{
    connect, connect_target, disconnect, get_connection_status, send_message, CommandError,
    OutboundRequest,
};
pub use pump::{OutboundPump, PumpStep};
pub use wire::{assemble_request, encode_request, endpoint_address, optional_json};
