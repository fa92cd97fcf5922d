//! The two message queues of the WebSocket bridge and the bookkeeping of its
//! connection loop.
use vstd::prelude::*;

use crate::log_buffer::texts;

verus! {

/// Pause before a new connection attempt after a failure or a lost connection.
pub const RECONNECT_DELAY_MS: u64 = 2000;

/// Messages waiting to be handed on, oldest first; each is handed out once.
pub struct MessageQueue {
    messages: Vec<String>,
}

impl View for MessageQueue {
    type V = Seq<Seq<char>>;

    closed spec fn view(&self) -> Seq<Seq<char>> {
        texts(self.messages@)
    }
}

impl MessageQueue {
    /// An empty queue.
    pub fn new() -> (queue: MessageQueue)
        ensures
            queue@ == Seq::<Seq<char>>::empty(),
    {
        let queue = MessageQueue { messages: Vec::new() };
        assert(queue@ =~= Seq::<Seq<char>>::empty());
        queue
    }

    /// Number of messages waiting.
    pub fn len(&self) -> (n: usize)
        ensures
            n == self@.len(),
    {
        self.messages.len()
    }

    /// Adds a message after all those already waiting.
    pub fn push(&mut self, msg: String)
        ensures
            final(self)@ == old(self)@.push(msg@),
    {
        self.messages.push(msg);
        assert(texts(self.messages@) =~= texts(old(self).messages@).push(msg@));
    }

    /// Hands out every waiting message, oldest first, and leaves the queue empty.
    pub fn drain(&mut self) -> (msgs: Vec<String>)
        ensures
            texts(msgs@) == old(self)@,
            final(self)@ == Seq::<Seq<char>>::empty(),
    {
        let mut msgs: Vec<String> = Vec::new();
        std::mem::swap(&mut msgs, &mut self.messages);
        assert(texts(self.messages@) =~= Seq::<Seq<char>>::empty());
        msgs
    }
}

/// What the connection loop learns from the socket.
pub enum SocketEvent {
    /// A connection attempt succeeded.
    Connected,
    /// A connection attempt failed.
    ConnectFailed,
    /// Messages were queued for sending.
    SendRequested,
    /// A text frame arrived.
    TextReceived(String),
    /// A frame of another kind (binary, ping, ...) arrived.
    OtherReceived,
    /// Reading from the socket failed.
    ReceiveFailed,
    /// The peer closed the connection.
    Closed,
}

/// What the connection loop does next.
pub enum SocketAction {
    /// Send everything in the outgoing queue, then wait for the next event.
    FlushOutgoing,
    /// Add this text to the incoming queue, then wait for the next event.
    StoreIncoming(String),
    /// Wait for the next event.
    Wait,
    /// Drop the connection, wait `RECONNECT_DELAY_MS`, then connect again.
    Reconnect,
}

/// The connection state that the bridge reports.
#[derive(Debug, Clone, Copy, PartialEq, Eq, Structural)]
pub struct LinkState {
    pub connected: bool,
}

/// Whether the connection is up after `event`, given whether it was before.
pub open spec fn connected_after(connected: bool, event: SocketEvent) -> bool {
    match event {
        SocketEvent::Connected => true,
        SocketEvent::ConnectFailed | SocketEvent::ReceiveFailed | SocketEvent::Closed => false,
        _ => connected,
    }
}

impl LinkState {
    /// Not connected.
    pub fn new() -> (state: LinkState)
        ensures
            !state.connected,
    {
        LinkState { connected: false }
    }

    /// Updates the connection state on `event` and decides the loop's next step:
    /// after a new connection or a send request the outgoing queue is flushed, a
    /// text frame goes to the incoming queue, other frames are ignored, and any
    /// failure or close leads to a delayed reconnection.
    pub fn on_event(&mut self, event: SocketEvent) -> (action: SocketAction)
        ensures
            final(self).connected == connected_after(old(self).connected, event),
            match event {
                SocketEvent::Connected | SocketEvent::SendRequested => action is FlushOutgoing,
                SocketEvent::TextReceived(text) => action matches SocketAction::StoreIncoming(t) && t@
                    == text@,
                SocketEvent::OtherReceived => action is Wait,
                SocketEvent::ConnectFailed | SocketEvent::ReceiveFailed | SocketEvent::Closed => action is Reconnect,
            },
    {
        match event {
            SocketEvent::Connected => {
                self.connected = true;
                SocketAction::FlushOutgoing
            },
            SocketEvent::SendRequested => SocketAction::FlushOutgoing,
            SocketEvent::TextReceived(text) => SocketAction::StoreIncoming(text),
            SocketEvent::OtherReceived => SocketAction::Wait,
            SocketEvent::ConnectFailed | SocketEvent::ReceiveFailed | SocketEvent::Closed => {
                self.connected = false;
                SocketAction::Reconnect
            },
        }
    }
}

} // verus!
