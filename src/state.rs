use vstd::prelude::*;

verus! {

/// Whether a connection is up, and the producer handle of its outbound queue.
///
/// `H` is the handle type of the queue; the state only holds it. Presence of
/// the handle, not the flag, decides whether a send may be attempted: the two
/// can disagree after the stream has failed in the background.
pub struct GatewayState<H> {
    connected: bool,
    sender: Option<H>,
}

impl<H> GatewayState<H> {
    /// The value of the connected flag.
    pub closed spec fn connected_spec(&self) -> bool {
        self.connected
    }

    /// The installed producer handle, if any.
    pub closed spec fn sender_spec(&self) -> Option<H> {
        self.sender
    }

    /// A state with no connection.
    pub fn new() -> (r: Self)
        ensures
            !r.connected_spec(),
            r.sender_spec() is None,
    {
        GatewayState { connected: false, sender: None }
    }

    pub fn is_connected(&self) -> (r: bool)
        ensures
            r == self.connected_spec(),
    {
        self.connected
    }

    pub fn current_sender(&self) -> (r: Option<&H>)
        ensures
            r is Some <==> self.sender_spec() is Some,
            r is Some ==> *r->Some_0 == self.sender_spec()->Some_0,
    {
        self.sender.as_ref()
    }

    pub fn set_connected(&mut self, connected: bool)
        ensures
            final(self).connected_spec() == connected,
            final(self).sender_spec() == old(self).sender_spec(),
    {
        self.connected = connected;
    }

    pub fn set_sender(&mut self, sender: Option<H>)
        ensures
            final(self).connected_spec() == old(self).connected_spec(),
            final(self).sender_spec() == sender,
    {
        self.sender = sender;
    }
}

impl<H> Default for GatewayState<H> {
    fn default() -> (r: Self)
        ensures
            !r.connected_spec(),
            r.sender_spec() is None,
    {
        Self::new()
    }
}

} // verus!
