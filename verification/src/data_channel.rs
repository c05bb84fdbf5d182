//! Model of a negotiated data channel.
//!
//! Creation is the one synchronous operation of the session facade: the
//! engine either hands back a live channel or refuses on the spot. A channel
//! carries a label chosen at creation, a transport state the engine drives,
//! an outbox of frames handed to the transport in sending order, and an
//! optional message handler for frames arriving from the peer. Frames leave
//! the outbox oldest first and are delivered to the handler exactly as they
//! were sent, byte for byte.

use vstd::prelude::*;
use crate::events::HandlerId;

verus! {

/// Transport state of a channel, driven by the engine.
#[derive(Clone, Copy, PartialEq, Eq, Structural, Debug)]
pub enum DataChannelState {
    Connecting,
    Open,
    Closing,
    Closed,
}

/// Creation-time options of a channel.
#[derive(Debug)]
pub struct DataChannelInit {
    pub ordered: bool,
    pub protocol: String,
    pub negotiated: bool,
}

impl Default for DataChannelInit {
    /// An ordered, in-band negotiated channel with an empty subprotocol.
    fn default() -> (r: Self)
        ensures
            r.ordered,
            r.protocol@ == Seq::<char>::empty(),
            !r.negotiated,
    {
        DataChannelInit { ordered: true, protocol: String::new(), negotiated: false }
    }
}

/// One frame: its payload and whether it was sent as binary.
#[derive(Debug)]
pub struct Message {
    pub data: Vec<u8>,
    pub binary: bool,
}

/// A live data-channel resource.
#[derive(Debug)]
pub struct DataChannel {
    pub label: String,
    pub init: DataChannelInit,
    pub state: DataChannelState,
    /// Frames handed to the transport, oldest first.
    pub outbox: Vec<Message>,
    /// Handler invoked for each frame arriving from the peer.
    pub message_handler: Option<HandlerId>,
}

impl DataChannel {
    /// A fresh channel as the engine hands it out: still connecting, nothing
    /// sent, no handler registered.
    pub fn new(label: String, init: DataChannelInit) -> (r: DataChannel)
        ensures
            r.label == label,
            r.init == init,
            r.state is Connecting,
            r.outbox@ == Seq::<Message>::empty(),
            r.message_handler is None,
    {
        DataChannel { label, init, state: DataChannelState::Connecting, outbox: Vec::new(), message_handler: None }
    }

    /// The label chosen at creation.
    pub fn label(&self) -> (r: &String)
        ensures
            r == self.label,
    {
        &self.label
    }

    /// Records the engine's report that the transport is established: a
    /// connecting channel becomes open; any other state is kept.
    pub fn open_by_transport(&mut self)
        ensures
            old(self).state is Connecting ==> *final(self) == (DataChannel {
                state: DataChannelState::Open,
                ..*old(self)
            }),
            !(old(self).state is Connecting) ==> *final(self) == *old(self),
    {
        if matches!(self.state, DataChannelState::Connecting) {
            self.state = DataChannelState::Open;
        }
    }

    /// Hands a frame to the transport. Accepted exactly while the channel is
    /// open; an accepted frame is appended behind every earlier one, so
    /// frames leave in sending order.
    pub fn send(&mut self, data: Vec<u8>, binary: bool) -> (accepted: bool)
        ensures
            accepted == (old(self).state is Open),
            accepted ==> *final(self) == (DataChannel {
                outbox: final(self).outbox,
                ..*old(self)
            }) && final(self).outbox@ == old(self).outbox@.push(Message { data, binary }),
            !accepted ==> *final(self) == *old(self),
    {
        if matches!(self.state, DataChannelState::Open) {
            self.outbox.push(Message { data, binary });
            true
        } else {
            false
        }
    }

    /// Takes the oldest frame out of the outbox for transfer to the peer;
    /// `None` when nothing is waiting.
    pub fn pop_transit(&mut self) -> (r: Option<Message>)
        ensures
            old(self).outbox@.len() == 0 ==> r is None && *final(self) == *old(self),
            old(self).outbox@.len() > 0 ==> r == Some(old(self).outbox@[0]) && *final(self) == (
            DataChannel { outbox: final(self).outbox, ..*old(self) }) && final(self).outbox@ == old(
                self,
            ).outbox@.drop_first(),
    {
        if self.outbox.len() > 0 {
            let m = self.outbox.remove(0);
            assert(final(self).outbox@ =~= old(self).outbox@.drop_first());
            Some(m)
        } else {
            None
        }
    }

    /// Stores `handler` as the channel's message handler, replacing any
    /// previous one; nothing is invoked by the registration itself.
    pub fn on_message(&mut self, handler: HandlerId)
        ensures
            *final(self) == (DataChannel { message_handler: Some(handler), ..*old(self) }),
    {
        self.message_handler = Some(handler);
    }

    /// Pairs a frame arriving from the peer with the registered message
    /// handler: the handler receives the frame exactly as it was sent. With
    /// no handler registered the frame is dropped silently.
    pub fn deliver(&self, msg: Message) -> (r: Option<(HandlerId, Message)>)
        ensures
            self.message_handler is None ==> r is None,
            self.message_handler matches Some(h) ==> r == Some((h, msg)),
    {
        match self.message_handler {
            Some(h) => Some((h, msg)),
            None => None,
        }
    }

    /// Closes the channel: terminal, whatever the previous state.
    pub fn close(&mut self)
        ensures
            *final(self) == (DataChannel { state: DataChannelState::Closed, ..*old(self) }),
    {
        self.state = DataChannelState::Closed;
    }
}

} // verus!
