use vstd::prelude::*;
use crate::dispatch::GatewayEvent;

verus! {

/// What the outbound pump does next.
#[derive(Debug, Clone, PartialEq)]
pub enum PumpStep {
    /// Write this frame to the stream.
    Write(String),
    /// The queue is closed: stop.
    Stop,
}

/// The write side of one connection: it drains the outbound queue into the
/// stream, one frame per item, until the queue closes or a write fails.
pub struct OutboundPump {
    stopped: bool,
    handed: Ghost<Seq<Seq<char>>>,
}

/// The frames handed to the stream after `log`, once `items` have been taken
/// from the queue in turn.
pub open spec fn handed_after(log: Seq<Seq<char>>, items: Seq<Seq<char>>) -> Seq<Seq<char>>
    decreases items.len(),
{
    if items.len() == 0 {
        log
    } else {
        handed_after(log, items.drop_last()).push(items.last())
    }
}

/// Frames reach the stream in the order in which they were taken from the
/// queue: none is dropped, repeated or moved.
pub proof fn lemma_pump_keeps_order(log: Seq<Seq<char>>, items: Seq<Seq<char>>)
    ensures
        handed_after(log, items) == log + items,
    decreases items.len(),
{
    if items.len() > 0 {
        lemma_pump_keeps_order(log, items.drop_last());
        assert(log + items =~= (log + items.drop_last()).push(items.last()));
    } else {
        assert(log + items =~= log);
    }
}

impl OutboundPump {
    pub closed spec fn stopped_spec(&self) -> bool {
        self.stopped
    }

    /// The frames handed to the stream so far, oldest first.
    pub closed spec fn handed_spec(&self) -> Seq<Seq<char>> {
        self.handed@
    }

    /// A pump that has handed on nothing yet.
    pub fn new() -> (r: Self)
        ensures
            !r.stopped_spec(),
            r.handed_spec() == Seq::<Seq<char>>::empty(),
    {
        OutboundPump { stopped: false, handed: Ghost(Seq::empty()) }
    }

    /// Whether the pump has stopped.
    pub fn is_stopped(&self) -> (r: bool)
        ensures
            r == self.stopped_spec(),
    {
        self.stopped
    }

    /// Handles what the queue gave: an item to write, or `None` once the
    /// queue is closed.
    pub fn on_item(&mut self, item: Option<String>) -> (r: PumpStep)
        requires
            !old(self).stopped_spec(),
        ensures
            match item {
                Some(m) => {
                    &&& r == PumpStep::Write(m)
                    &&& !final(self).stopped_spec()
                    &&& final(self).handed_spec() == old(self).handed_spec().push(m@)
                },
                None => {
                    &&& r is Stop
                    &&& final(self).stopped_spec()
                    &&& final(self).handed_spec() == old(self).handed_spec()
                },
            },
    {
        match item {
            Some(m) => {
                proof {
                    self.handed = Ghost(self.handed@.push(m@));
                }
                PumpStep::Write(m)
            },
            None => {
                self.stopped = true;
                PumpStep::Stop
            },
        }
    }

    /// Handles a failed write: the pump stops and reports the failure.
    pub fn on_write_failed(&mut self, description: String) -> (r: GatewayEvent)
        requires
            !old(self).stopped_spec(),
        ensures
            r == GatewayEvent::Error(description),
            final(self).stopped_spec(),
            final(self).handed_spec() == old(self).handed_spec(),
    {
        self.stopped = true;
        GatewayEvent::Error(description)
    }
}

} // verus!
