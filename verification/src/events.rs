//! The event hub: one independently replaceable handler slot per
//! connection-lifecycle event kind.
//!
//! The native engine delivers events from its own threads; application code
//! registers and replaces handlers at will. Registration stores the handler
//! and returns, invoking neither the old nor the new handler. Dispatch reads
//! the slot of the event's kind exactly once and pairs the event with the
//! occupant it found, or drops the event silently when the slot is empty:
//! the observer is optional by design.
//!
//! Handlers are held here as opaque tokens ([`HandlerId`]); whatever drives
//! this table maps each token to the actual callback and supplies the
//! per-slot locking. The table fixes what that wrapper must deliver: which
//! handler an event reaches, with which payload, and in which order.

use vstd::prelude::*;
use crate::data_channel::DataChannel;
use crate::protocol::{IceConnectionState, IceGatheringState, PeerConnectionState, SignalingState};
use crate::sdp::IceCandidate;

verus! {

/// Opaque token standing for one registered callback.
pub type HandlerId = u64;

/// A media stream announced by the engine.
#[derive(Debug)]
pub struct MediaStream {
    pub id: String,
}

/// A receiver of an incoming media track.
#[derive(Debug)]
pub struct RtpReceiver {
    pub id: String,
}

/// A transceiver pairing an incoming and an outgoing track.
#[derive(Debug)]
pub struct RtpTransceiver {
    pub mid: String,
}

/// The engine's report that the selected candidate pair changed.
#[derive(Debug)]
pub struct CandidatePairChangeEvent {
    pub reason: String,
    pub last_data_received_ms: i64,
    pub estimated_disconnected_time_ms: i64,
}

/// The event kinds the engine delivers, one handler slot each.
#[derive(Clone, Copy, PartialEq, Eq, Structural, Debug)]
pub enum EventKind {
    SignalingChange,
    AddStream,
    RemoveStream,
    DataChannelOpened,
    RenegotiationNeeded,
    NegotiationNeededEvent,
    IceConnectionChange,
    StandardizedIceConnectionChange,
    ConnectionChange,
    IceGatheringChange,
    IceCandidateDiscovered,
    IceCandidateError,
    IceCandidatesRemoved,
    IceConnectionReceivingChange,
    IceSelectedCandidatePairChanged,
    AddTrack,
    Track,
    RemoveTrack,
    InterestingUsage,
}

/// One delivered event with its payload.
#[derive(Debug)]
pub enum Event {
    SignalingChange(SignalingState),
    AddStream(MediaStream),
    RemoveStream(MediaStream),
    DataChannelOpened(DataChannel),
    RenegotiationNeeded,
    NegotiationNeededEvent(u32),
    IceConnectionChange(IceConnectionState),
    StandardizedIceConnectionChange(IceConnectionState),
    ConnectionChange(PeerConnectionState),
    IceGatheringChange(IceGatheringState),
    IceCandidateDiscovered(IceCandidate),
    IceCandidateError { address: String, port: i32, url: String, error_code: i32, error_text: String },
    IceCandidatesRemoved(Vec<IceCandidate>),
    IceConnectionReceivingChange(bool),
    IceSelectedCandidatePairChanged(CandidatePairChangeEvent),
    AddTrack { receiver: RtpReceiver, streams: Vec<MediaStream> },
    Track(RtpTransceiver),
    RemoveTrack(RtpReceiver),
    InterestingUsage(i32),
}

impl Event {
    /// The kind whose slot this event is dispatched through.
    pub open spec fn kind(self) -> EventKind {
        match self {
            Event::SignalingChange(..) => EventKind::SignalingChange,
            Event::AddStream(..) => EventKind::AddStream,
            Event::RemoveStream(..) => EventKind::RemoveStream,
            Event::DataChannelOpened(..) => EventKind::DataChannelOpened,
            Event::RenegotiationNeeded => EventKind::RenegotiationNeeded,
            Event::NegotiationNeededEvent(..) => EventKind::NegotiationNeededEvent,
            Event::IceConnectionChange(..) => EventKind::IceConnectionChange,
            Event::StandardizedIceConnectionChange(..) => EventKind::StandardizedIceConnectionChange,
            Event::ConnectionChange(..) => EventKind::ConnectionChange,
            Event::IceGatheringChange(..) => EventKind::IceGatheringChange,
            Event::IceCandidateDiscovered(..) => EventKind::IceCandidateDiscovered,
            Event::IceCandidateError { .. } => EventKind::IceCandidateError,
            Event::IceCandidatesRemoved(..) => EventKind::IceCandidatesRemoved,
            Event::IceConnectionReceivingChange(..) => EventKind::IceConnectionReceivingChange,
            Event::IceSelectedCandidatePairChanged(..) => EventKind::IceSelectedCandidatePairChanged,
            Event::AddTrack { .. } => EventKind::AddTrack,
            Event::Track(..) => EventKind::Track,
            Event::RemoveTrack(..) => EventKind::RemoveTrack,
            Event::InterestingUsage(..) => EventKind::InterestingUsage,
        }
    }

    /// Executable form of [`Event::kind`].
    pub fn kind_of(&self) -> (k: EventKind)
        ensures
            k == self.kind(),
    {
        match self {
            Event::SignalingChange(..) => EventKind::SignalingChange,
            Event::AddStream(..) => EventKind::AddStream,
            Event::RemoveStream(..) => EventKind::RemoveStream,
            Event::DataChannelOpened(..) => EventKind::DataChannelOpened,
            Event::RenegotiationNeeded => EventKind::RenegotiationNeeded,
            Event::NegotiationNeededEvent(..) => EventKind::NegotiationNeededEvent,
            Event::IceConnectionChange(..) => EventKind::IceConnectionChange,
            Event::StandardizedIceConnectionChange(..) => EventKind::StandardizedIceConnectionChange,
            Event::ConnectionChange(..) => EventKind::ConnectionChange,
            Event::IceGatheringChange(..) => EventKind::IceGatheringChange,
            Event::IceCandidateDiscovered(..) => EventKind::IceCandidateDiscovered,
            Event::IceCandidateError { .. } => EventKind::IceCandidateError,
            Event::IceCandidatesRemoved(..) => EventKind::IceCandidatesRemoved,
            Event::IceConnectionReceivingChange(..) => EventKind::IceConnectionReceivingChange,
            Event::IceSelectedCandidatePairChanged(..) => EventKind::IceSelectedCandidatePairChanged,
            Event::AddTrack { .. } => EventKind::AddTrack,
            Event::Track(..) => EventKind::Track,
            Event::RemoveTrack(..) => EventKind::RemoveTrack,
            Event::InterestingUsage(..) => EventKind::InterestingUsage,
        }
    }
}

/// One handler invocation owed to application code: which handler, with
/// which event.
#[derive(Debug)]
pub struct Invocation {
    pub handler: HandlerId,
    pub event: Event,
}

/// The single invocation (or none) that dispatching `e` against a slot
/// occupied as `slot` produces.
pub open spec fn invocation_for(slot: Option<HandlerId>, e: Event) -> Option<Invocation> {
    match slot {
        Some(h) => Some(Invocation { handler: h, event: e }),
        None => None,
    }
}

/// The handler table: one slot per event kind, each at most one occupant.
#[derive(Debug)]
pub struct EventHub {
    pub signaling_change: Option<HandlerId>,
    pub add_stream: Option<HandlerId>,
    pub remove_stream: Option<HandlerId>,
    pub data_channel_opened: Option<HandlerId>,
    pub renegotiation_needed: Option<HandlerId>,
    pub negotiation_needed_event: Option<HandlerId>,
    pub ice_connection_change: Option<HandlerId>,
    pub standardized_ice_connection_change: Option<HandlerId>,
    pub connection_change: Option<HandlerId>,
    pub ice_gathering_change: Option<HandlerId>,
    pub ice_candidate_discovered: Option<HandlerId>,
    pub ice_candidate_error: Option<HandlerId>,
    pub ice_candidates_removed: Option<HandlerId>,
    pub ice_connection_receiving_change: Option<HandlerId>,
    pub ice_selected_candidate_pair_changed: Option<HandlerId>,
    pub add_track: Option<HandlerId>,
    pub track: Option<HandlerId>,
    pub remove_track: Option<HandlerId>,
    pub interesting_usage: Option<HandlerId>,
}

/// The table after storing `id` in the slot of kind `k`.
pub open spec fn registered(h: EventHub, k: EventKind, id: HandlerId) -> EventHub {
    match k {
        EventKind::SignalingChange => EventHub { signaling_change: Some(id), ..h },
        EventKind::AddStream => EventHub { add_stream: Some(id), ..h },
        EventKind::RemoveStream => EventHub { remove_stream: Some(id), ..h },
        EventKind::DataChannelOpened => EventHub { data_channel_opened: Some(id), ..h },
        EventKind::RenegotiationNeeded => EventHub { renegotiation_needed: Some(id), ..h },
        EventKind::NegotiationNeededEvent => EventHub { negotiation_needed_event: Some(id), ..h },
        EventKind::IceConnectionChange => EventHub { ice_connection_change: Some(id), ..h },
        EventKind::StandardizedIceConnectionChange => EventHub {
            standardized_ice_connection_change: Some(id),
            ..h
        },
        EventKind::ConnectionChange => EventHub { connection_change: Some(id), ..h },
        EventKind::IceGatheringChange => EventHub { ice_gathering_change: Some(id), ..h },
        EventKind::IceCandidateDiscovered => EventHub { ice_candidate_discovered: Some(id), ..h },
        EventKind::IceCandidateError => EventHub { ice_candidate_error: Some(id), ..h },
        EventKind::IceCandidatesRemoved => EventHub { ice_candidates_removed: Some(id), ..h },
        EventKind::IceConnectionReceivingChange => EventHub {
            ice_connection_receiving_change: Some(id),
            ..h
        },
        EventKind::IceSelectedCandidatePairChanged => EventHub {
            ice_selected_candidate_pair_changed: Some(id),
            ..h
        },
        EventKind::AddTrack => EventHub { add_track: Some(id), ..h },
        EventKind::Track => EventHub { track: Some(id), ..h },
        EventKind::RemoveTrack => EventHub { remove_track: Some(id), ..h },
        EventKind::InterestingUsage => EventHub { interesting_usage: Some(id), ..h },
    }
}

impl EventHub {
    /// The occupant of the slot of kind `k`.
    pub open spec fn slot_spec(self, k: EventKind) -> Option<HandlerId> {
        match k {
            EventKind::SignalingChange => self.signaling_change,
            EventKind::AddStream => self.add_stream,
            EventKind::RemoveStream => self.remove_stream,
            EventKind::DataChannelOpened => self.data_channel_opened,
            EventKind::RenegotiationNeeded => self.renegotiation_needed,
            EventKind::NegotiationNeededEvent => self.negotiation_needed_event,
            EventKind::IceConnectionChange => self.ice_connection_change,
            EventKind::StandardizedIceConnectionChange => self.standardized_ice_connection_change,
            EventKind::ConnectionChange => self.connection_change,
            EventKind::IceGatheringChange => self.ice_gathering_change,
            EventKind::IceCandidateDiscovered => self.ice_candidate_discovered,
            EventKind::IceCandidateError => self.ice_candidate_error,
            EventKind::IceCandidatesRemoved => self.ice_candidates_removed,
            EventKind::IceConnectionReceivingChange => self.ice_connection_receiving_change,
            EventKind::IceSelectedCandidatePairChanged => self.ice_selected_candidate_pair_changed,
            EventKind::AddTrack => self.add_track,
            EventKind::Track => self.track,
            EventKind::RemoveTrack => self.remove_track,
            EventKind::InterestingUsage => self.interesting_usage,
        }
    }

    /// A table with every slot empty.
    pub fn new() -> (r: EventHub)
        ensures
            forall|k: EventKind| r.slot_spec(k) is None,
    {
        EventHub {
            signaling_change: None,
            add_stream: None,
            remove_stream: None,
            data_channel_opened: None,
            renegotiation_needed: None,
            negotiation_needed_event: None,
            ice_connection_change: None,
            standardized_ice_connection_change: None,
            connection_change: None,
            ice_gathering_change: None,
            ice_candidate_discovered: None,
            ice_candidate_error: None,
            ice_candidates_removed: None,
            ice_connection_receiving_change: None,
            ice_selected_candidate_pair_changed: None,
            add_track: None,
            track: None,
            remove_track: None,
            interesting_usage: None,
        }
    }

    /// Stores `id` in the slot of kind `k`, replacing (not queueing behind)
    /// any previous occupant. Returns immediately; no handler, old or new, is
    /// invoked by the registration itself, and every other slot is untouched.
    pub fn register(&mut self, k: EventKind, id: HandlerId)
        ensures
            *final(self) == registered(*old(self), k, id),
            final(self).slot_spec(k) == Some(id),
            forall|k2: EventKind| k2 != k ==> final(self).slot_spec(k2) == old(self).slot_spec(k2),
    {
        match k {
            EventKind::SignalingChange => self.signaling_change = Some(id),
            EventKind::AddStream => self.add_stream = Some(id),
            EventKind::RemoveStream => self.remove_stream = Some(id),
            EventKind::DataChannelOpened => self.data_channel_opened = Some(id),
            EventKind::RenegotiationNeeded => self.renegotiation_needed = Some(id),
            EventKind::NegotiationNeededEvent => self.negotiation_needed_event = Some(id),
            EventKind::IceConnectionChange => self.ice_connection_change = Some(id),
            EventKind::StandardizedIceConnectionChange => self.standardized_ice_connection_change =
                Some(id),
            EventKind::ConnectionChange => self.connection_change = Some(id),
            EventKind::IceGatheringChange => self.ice_gathering_change = Some(id),
            EventKind::IceCandidateDiscovered => self.ice_candidate_discovered = Some(id),
            EventKind::IceCandidateError => self.ice_candidate_error = Some(id),
            EventKind::IceCandidatesRemoved => self.ice_candidates_removed = Some(id),
            EventKind::IceConnectionReceivingChange => self.ice_connection_receiving_change = Some(
                id,
            ),
            EventKind::IceSelectedCandidatePairChanged => self.ice_selected_candidate_pair_changed =
                Some(id),
            EventKind::AddTrack => self.add_track = Some(id),
            EventKind::Track => self.track = Some(id),
            EventKind::RemoveTrack => self.remove_track = Some(id),
            EventKind::InterestingUsage => self.interesting_usage = Some(id),
        }
    }

    /// The occupant of the slot of kind `k`.
    pub fn slot(&self, k: EventKind) -> (r: Option<HandlerId>)
        ensures
            r == self.slot_spec(k),
    {
        match k {
            EventKind::SignalingChange => self.signaling_change,
            EventKind::AddStream => self.add_stream,
            EventKind::RemoveStream => self.remove_stream,
            EventKind::DataChannelOpened => self.data_channel_opened,
            EventKind::RenegotiationNeeded => self.renegotiation_needed,
            EventKind::NegotiationNeededEvent => self.negotiation_needed_event,
            EventKind::IceConnectionChange => self.ice_connection_change,
            EventKind::StandardizedIceConnectionChange => self.standardized_ice_connection_change,
            EventKind::ConnectionChange => self.connection_change,
            EventKind::IceGatheringChange => self.ice_gathering_change,
            EventKind::IceCandidateDiscovered => self.ice_candidate_discovered,
            EventKind::IceCandidateError => self.ice_candidate_error,
            EventKind::IceCandidatesRemoved => self.ice_candidates_removed,
            EventKind::IceConnectionReceivingChange => self.ice_connection_receiving_change,
            EventKind::IceSelectedCandidatePairChanged => self.ice_selected_candidate_pair_changed,
            EventKind::AddTrack => self.add_track,
            EventKind::Track => self.track,
            EventKind::RemoveTrack => self.remove_track,
            EventKind::InterestingUsage => self.interesting_usage,
        }
    }

    /// Empties every slot: the teardown on session close. Callbacks arriving
    /// afterwards dispatch to nobody and are dropped silently.
    pub fn clear(&mut self)
        ensures
            forall|k: EventKind| final(self).slot_spec(k) is None,
    {
        *self = EventHub::new();
    }

    /// Dispatches one event: reads the slot of the event's kind exactly once
    /// and pairs the event, unchanged, with the occupant found there; an
    /// empty slot drops the event silently.
    pub fn dispatch(&self, e: Event) -> (r: Option<Invocation>)
        ensures
            r == invocation_for(self.slot_spec(e.kind()), e),
    {
        let k = e.kind_of();
        match self.slot(k) {
            Some(h) => Some(Invocation { handler: h, event: e }),
            None => None,
        }
    }

    /// The invocations a sequence of events produces, in delivery order.
    pub open spec fn dispatched(self, evs: Seq<Event>) -> Seq<Invocation>
        decreases evs.len(),
    {
        if evs.len() == 0 {
            Seq::empty()
        } else {
            let rest = self.dispatched(evs.drop_last());
            match invocation_for(self.slot_spec(evs.last().kind()), evs.last()) {
                Some(i) => rest.push(i),
                None => rest,
            }
        }
    }

    /// Dispatches a batch of events in order, as the engine's delivery thread
    /// does: each event reaches the occupant of its slot, unchanged, and the
    /// produced invocations keep the production order.
    pub fn dispatch_all(&self, events: Vec<Event>) -> (r: Vec<Invocation>)
        ensures
            r@ == self.dispatched(events@),
    {
        let ghost orig = events@;
        let mut events = events;
        let mut out: Vec<Invocation> = Vec::new();
        let ghost mut done: int = 0;
        proof {
            assert(orig.take(0) =~= Seq::<Event>::empty());
        }
        while events.len() > 0
            invariant
                0 <= done <= orig.len(),
                events@ == orig.skip(done),
                out@ == self.dispatched(orig.take(done)),
            decreases events.len(),
        {
            let e = events.remove(0);
            proof {
                assert(e == orig[done]);
                assert(events@ =~= orig.skip(done + 1));
                assert(orig.take(done + 1).drop_last() =~= orig.take(done));
                assert(orig.take(done + 1).last() == orig[done]);
            }
            match self.dispatch(e) {
                Some(i) => out.push(i),
                None => (),
            }
            proof {
                done = done + 1;
            }
        }
        proof {
            assert(orig.take(done) =~= orig);
        }
        out
    }
}

/// Law: replacing a handler during an in-flight dispatch of the same kind
/// never brings one event to both the old and the new handler. A dispatch
/// reads its slot exactly once and produces at most one invocation: captured
/// before the replacement it reaches only the previous occupant; captured
/// after, only the new one.
pub proof fn lemma_replacement_never_doubles(h: EventHub, e: Event, fresh: HandlerId)
    ensures
        invocation_for(h.slot_spec(e.kind()), e) matches Some(i) ==> Some(i.handler)
            == h.slot_spec(e.kind()) && i.event == e,
        invocation_for(registered(h, e.kind(), fresh).slot_spec(e.kind()), e) == Some(
            Invocation { handler: fresh, event: e },
        ),
{
    lemma_registered_slot(h, e.kind(), fresh);
}

/// Law: registration fills exactly its own slot and leaves every other slot
/// alone; slots are independent.
pub proof fn lemma_registered_slot(h: EventHub, k: EventKind, id: HandlerId)
    ensures
        registered(h, k, id).slot_spec(k) == Some(id),
        forall|k2: EventKind| k2 != k ==> registered(h, k, id).slot_spec(k2) == h.slot_spec(k2),
{
}

/// Law: events bound for one slot are delivered in production order. When a
/// slot is occupied and a batch of events all of its kind is dispatched,
/// every event reaches that occupant, unchanged and in order: first in,
/// first delivered.
pub proof fn lemma_single_slot_fifo(h: EventHub, evs: Seq<Event>, k: EventKind, id: HandlerId)
    requires
        h.slot_spec(k) == Some(id),
        forall|i: int| 0 <= i < evs.len() ==> (#[trigger] evs[i]).kind() == k,
    ensures
        h.dispatched(evs).len() == evs.len(),
        forall|i: int|
            0 <= i < evs.len() ==> #[trigger] h.dispatched(evs)[i] == (Invocation {
                handler: id,
                event: evs[i],
            }),
    decreases evs.len(),
{
    if evs.len() > 0 {
        lemma_single_slot_fifo(h, evs.drop_last(), k, id);
        assert(evs.last().kind() == k);
        assert(h.dispatched(evs) == h.dispatched(evs.drop_last()).push(
            Invocation { handler: id, event: evs.last() },
        ));
    }
}

} // verus!
