use vstd::prelude::*;
use crate::types::{GatewayResponse, StreamChunk};

verus! {

/// An event for the host, under its topic (see `GatewayEvent::topic`).
#[derive(Debug, Clone, PartialEq)]
pub enum GatewayEvent {
    Connected,
    Disconnected,
    Error(String),
    Stream(String),
    Complete,
    Response(GatewayResponse),
    Message(String),
}

/// A text frame with the outcome of reading it as each inbound shape.
///
/// `chunk` is the frame read as a stream chunk, `response` the frame read as a
/// response; either is `None` where the text does not have that shape.
#[derive(Debug, Clone, PartialEq)]
pub struct TextFrame {
    pub raw: String,
    pub chunk: Option<StreamChunk>,
    pub response: Option<GatewayResponse>,
}

/// What the read half of the stream produced.
#[derive(Debug, Clone, PartialEq)]
pub enum InboundFrame {
    Text(TextFrame),
    Close,
    ReadError(String),
    Other,
}

/// Events of a stream chunk: its content when non-empty, then completion.
pub open spec fn chunk_events(c: StreamChunk) -> Seq<GatewayEvent> {
    let content = match c.content {
        Some(t) => if t@.len() > 0 {
            seq![GatewayEvent::Stream(t)]
        } else {
            Seq::empty()
        },
        None => Seq::empty(),
    };
    if c.done == Some(true) {
        content.push(GatewayEvent::Complete)
    } else {
        content
    }
}

/// Events of a text frame: a chunk reading wins over a response reading,
/// and a frame of neither shape is passed on as it is.
pub open spec fn text_events(t: TextFrame) -> Seq<GatewayEvent> {
    match t.chunk {
        Some(c) => chunk_events(c),
        None => match t.response {
            Some(r) => seq![GatewayEvent::Response(r)],
            None => seq![GatewayEvent::Message(t.raw)],
        },
    }
}

/// Events of an inbound frame.
pub open spec fn frame_events(f: InboundFrame) -> Seq<GatewayEvent> {
    match f {
        InboundFrame::Text(t) => text_events(t),
        InboundFrame::Close => seq![GatewayEvent::Disconnected],
        InboundFrame::ReadError(e) => seq![GatewayEvent::Error(e)],
        InboundFrame::Other => Seq::empty(),
    }
}

/// Whether reading goes on after the frame.
pub open spec fn frame_continues(f: InboundFrame) -> bool {
    !(f is Close || f is ReadError)
}

/// The topic under which an event is emitted.
pub open spec fn topic_text(e: GatewayEvent) -> Seq<char> {
    match e {
        GatewayEvent::Connected => "gateway:connected"@,
        GatewayEvent::Disconnected => "gateway:disconnected"@,
        GatewayEvent::Error(_) => "gateway:error"@,
        GatewayEvent::Stream(_) => "gateway:stream"@,
        GatewayEvent::Complete => "gateway:complete"@,
        GatewayEvent::Response(_) => "gateway:response"@,
        GatewayEvent::Message(_) => "gateway:message"@,
    }
}

impl GatewayEvent {
    pub fn topic(&self) -> (r: &'static str)
        ensures
            r@ == topic_text(*self),
    {
        match self {
            GatewayEvent::Connected => "gateway:connected",
            GatewayEvent::Disconnected => "gateway:disconnected",
            GatewayEvent::Error(_) => "gateway:error",
            GatewayEvent::Stream(_) => "gateway:stream",
            GatewayEvent::Complete => "gateway:complete",
            GatewayEvent::Response(_) => "gateway:response",
            GatewayEvent::Message(_) => "gateway:message",
        }
    }
}

/// Events of a stream chunk.
pub fn classify_chunk(c: StreamChunk) -> (r: Vec<GatewayEvent>)
    ensures
        r@ == chunk_events(c),
{
    let ghost c0 = c;
    let mut events: Vec<GatewayEvent> = Vec::new();
    match c.content {
        Some(t) => {
            if !t.as_str().is_empty() {
                events.push(GatewayEvent::Stream(t));
            }
        },
        None => {},
    }
    if c.done == Some(true) {
        events.push(GatewayEvent::Complete);
    }
    proof {
        assert(events@ =~= chunk_events(c0));
    }
    events
}

/// Events of a text frame.
pub fn classify_text(t: TextFrame) -> (r: Vec<GatewayEvent>)
    ensures
        r@ == text_events(t),
{
    match t.chunk {
        Some(c) => classify_chunk(c),
        None => match t.response {
            Some(resp) => vec![GatewayEvent::Response(resp)],
            None => vec![GatewayEvent::Message(t.raw)],
        },
    }
}

/// A text frame that reads as a stream chunk yields only stream and
/// completion events, whatever else it reads as: never a response, never a
/// raw message.
pub proof fn lemma_chunk_reading_wins(t: TextFrame)
    requires
        t.chunk is Some,
    ensures
        forall|i: int|
            0 <= i < text_events(t).len() ==> {
                let e = #[trigger] text_events(t)[i];
                e is Stream || e is Complete
            },
{
}

/// A close frame yields exactly one disconnect event and ends reading.
pub proof fn lemma_close_ends_reading()
    ensures
        frame_events(InboundFrame::Close) == seq![GatewayEvent::Disconnected],
        !frame_continues(InboundFrame::Close),
{
}

/// The read side of one connection: it turns frames into events until the
/// stream closes or fails, and reads nothing after that.
pub struct InboundDispatcher {
    stopped: bool,
}

impl InboundDispatcher {
    pub closed spec fn stopped_spec(&self) -> bool {
        self.stopped
    }

    /// A dispatcher that has read nothing yet.
    pub fn new() -> (r: Self)
        ensures
            !r.stopped_spec(),
    {
        InboundDispatcher { stopped: false }
    }

    /// Whether the dispatcher has stopped reading.
    pub fn is_stopped(&self) -> (r: bool)
        ensures
            r == self.stopped_spec(),
    {
        self.stopped
    }

    /// Handles one frame: the events to emit, in order.
    pub fn on_frame(&mut self, frame: InboundFrame) -> (r: Vec<GatewayEvent>)
        requires
            !old(self).stopped_spec(),
        ensures
            r@ == frame_events(frame),
            final(self).stopped_spec() == !frame_continues(frame),
    {
        match frame {
            InboundFrame::Text(t) => classify_text(t),
            InboundFrame::Close => {
                self.stopped = true;
                vec![GatewayEvent::Disconnected]
            },
            InboundFrame::ReadError(e) => {
                self.stopped = true;
                vec![GatewayEvent::Error(e)]
            },
            InboundFrame::Other => Vec::new(),
        }
    }
}

} // verus!
