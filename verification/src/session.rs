//! The session facade: the public surface of one peer connection.
//!
//! Every asynchronous operation follows the same shape: the caller issues it
//! (a fresh ticket joins the session's in-flight set, and the engine is asked
//! to do the work), suspends on a one-shot completion, and later settles the
//! engine's reply into a typed result. The facade imposes no serialization
//! across concurrent operations — nothing prevents issuing an offer while a
//! description application is still pending; the engine alone judges whether
//! a call is legal in the current signaling state and reports a conflict
//! through the completion.
//!
//! Close is idempotent. The first close tears the handler slots down,
//! notifies the registered state-change handlers of the terminal state, and
//! abandons every in-flight operation, so each awaiting caller resolves with
//! the distinct closed failure rather than hanging. A second close changes
//! nothing and notifies nobody.

use vstd::prelude::*;
use crate::completion::{abandoned_state, Completion};
use crate::data_channel::{DataChannel, DataChannelInit};
use crate::error::{RtcError, RtcErrorType, SdpError};
use crate::events::{registered, invocation_for, Event, EventHub, EventKind, HandlerId, Invocation};
use crate::protocol::{PeerConnectionState, SignalingState};
use crate::sdp::{IceCandidate, SessionDescription};

verus! {

/// Identifies one in-flight asynchronous operation from issue to settlement.
pub type OpTicket = u64;

/// What one close call did: the in-flight operations it abandoned and the
/// handler invocations the terminal state change produced.
#[derive(Debug)]
pub struct CloseReport {
    pub abandoned: Vec<OpTicket>,
    pub notifications: Vec<Invocation>,
}

/// The tickets a close of `s` abandons: everything in flight on the first
/// close, nothing on a later one.
pub open spec fn close_abandons(s: Session) -> Seq<OpTicket> {
    if s.closed {
        Seq::empty()
    } else {
        s.pending@
    }
}

/// The handler invocations a close of `s` produces: the terminal signaling
/// and connection state changes on the first close, dispatched through the
/// slots still registered at that moment; nothing on a later close, since the
/// session's state did not change.
pub open spec fn close_notices(s: Session) -> Seq<Invocation> {
    if s.closed {
        Seq::empty()
    } else {
        s.hub.dispatched(
            seq![
                Event::SignalingChange(SignalingState::Closed),
                Event::ConnectionChange(PeerConnectionState::Closed),
            ],
        )
    }
}

/// One peer connection: the handler table, the set of in-flight operations,
/// and whether the session has been closed.
#[derive(Debug)]
pub struct Session {
    pub hub: EventHub,
    pub closed: bool,
    pub next_ticket: u64,
    pub pending: Vec<OpTicket>,
}

impl Session {
    /// Well-formedness: every in-flight ticket was issued (is below the
    /// counter) and no ticket is in flight twice.
    pub open spec fn wf(self) -> bool {
        &&& forall|i: int| 0 <= i < self.pending@.len() ==> self.pending@[i] < self.next_ticket
        &&& self.pending@.no_duplicates()
    }

    /// A fresh session: open, nothing in flight, every handler slot empty.
    pub fn new() -> (r: Session)
        ensures
            r.wf(),
            !r.closed,
            r.pending@ == Seq::<OpTicket>::empty(),
            r.next_ticket == 0,
            forall|k: EventKind| r.hub.slot_spec(k) is None,
    {
        Session { hub: EventHub::new(), closed: false, next_ticket: 0, pending: Vec::new() }
    }

    /// Issues a fresh ticket for one asynchronous operation and records it in
    /// flight. Everything else — in particular the handler table and the
    /// closed flag — is untouched: issuing never invokes a handler.
    fn begin_operation(&mut self) -> (t: OpTicket)
        requires
            old(self).wf(),
            old(self).next_ticket < u64::MAX,
        ensures
            final(self).wf(),
            t == old(self).next_ticket,
            !old(self).pending@.contains(t),
            final(self).pending@ == old(self).pending@.push(t),
            final(self).next_ticket == old(self).next_ticket + 1,
            final(self).hub == old(self).hub,
            final(self).closed == old(self).closed,
    {
        let t = self.next_ticket;
        assert(!self.pending@.contains(t));
        self.next_ticket = self.next_ticket + 1;
        self.pending.push(t);
        t
    }

    /// Issues an offer creation. The engine builds the offer on its own
    /// thread and delivers it, or its refusal, through the completion that
    /// carries this ticket; `settle_op` turns that reply into the result.
    /// May be called in any state, including to renegotiate: the engine is
    /// the arbiter.
    pub fn create_offer(&mut self) -> (t: OpTicket)
        requires
            old(self).wf(),
            old(self).next_ticket < u64::MAX,
        ensures
            final(self).wf(),
            t == old(self).next_ticket,
            !old(self).pending@.contains(t),
            final(self).pending@ == old(self).pending@.push(t),
            final(self).next_ticket == old(self).next_ticket + 1,
            final(self).hub == old(self).hub,
            final(self).closed == old(self).closed,
    {
        self.begin_operation()
    }

    /// Issues an answer creation; meaningful once a remote offer has been
    /// applied, but not checked here: the engine reports a conflict if the
    /// signaling state does not admit an answer.
    pub fn create_answer(&mut self) -> (t: OpTicket)
        requires
            old(self).wf(),
            old(self).next_ticket < u64::MAX,
        ensures
            final(self).wf(),
            t == old(self).next_ticket,
            !old(self).pending@.contains(t),
            final(self).pending@ == old(self).pending@.push(t),
            final(self).next_ticket == old(self).next_ticket + 1,
            final(self).hub == old(self).hub,
            final(self).closed == old(self).closed,
    {
        self.begin_operation()
    }

    /// Issues a local description application. The description is consumed:
    /// its ownership is released to the engine, which is why it is returned
    /// beside the ticket for the engine call and not kept here. A caller that
    /// wants to keep the description clones it first.
    pub fn set_local_description(&mut self, desc: SessionDescription) -> (r: (
        OpTicket,
        SessionDescription,
    ))
        requires
            old(self).wf(),
            old(self).next_ticket < u64::MAX,
        ensures
            final(self).wf(),
            r.0 == old(self).next_ticket,
            !old(self).pending@.contains(r.0),
            final(self).pending@ == old(self).pending@.push(r.0),
            final(self).next_ticket == old(self).next_ticket + 1,
            final(self).hub == old(self).hub,
            final(self).closed == old(self).closed,
            r.1 == desc,
    {
        let t = self.begin_operation();
        (t, desc)
    }

    /// Issues a remote description application; the description is released
    /// to the engine exactly as in `set_local_description`.
    pub fn set_remote_description(&mut self, desc: SessionDescription) -> (r: (
        OpTicket,
        SessionDescription,
    ))
        requires
            old(self).wf(),
            old(self).next_ticket < u64::MAX,
        ensures
            final(self).wf(),
            r.0 == old(self).next_ticket,
            !old(self).pending@.contains(r.0),
            final(self).pending@ == old(self).pending@.push(r.0),
            final(self).next_ticket == old(self).next_ticket + 1,
            final(self).hub == old(self).hub,
            final(self).closed == old(self).closed,
            r.1 == desc,
    {
        let t = self.begin_operation();
        (t, desc)
    }

    /// Issues a candidate addition; the candidate is released to the engine.
    /// A syntactically invalid candidate is the engine's to refuse: its
    /// refusal comes back through the completion and `settle_op` surfaces it
    /// as the engine-reported failure, never as a crash.
    pub fn add_ice_candidate(&mut self, candidate: IceCandidate) -> (r: (OpTicket, IceCandidate))
        requires
            old(self).wf(),
            old(self).next_ticket < u64::MAX,
        ensures
            final(self).wf(),
            r.0 == old(self).next_ticket,
            !old(self).pending@.contains(r.0),
            final(self).pending@ == old(self).pending@.push(r.0),
            final(self).next_ticket == old(self).next_ticket + 1,
            final(self).hub == old(self).hub,
            final(self).closed == old(self).closed,
            r.1 == candidate,
    {
        let t = self.begin_operation();
        (t, candidate)
    }

    /// Settles one asynchronous operation with the reply its completion
    /// carried, taking its ticket out of the in-flight set. The mapping is
    /// total and exact: a delivered success is the success, a delivered
    /// engine failure is surfaced verbatim as the engine-reported error, and
    /// no reply at all — the completion was abandoned, for example by a close
    /// — is the distinct closed failure, so callers can tell "the engine
    /// refused" apart from "nobody ever answered".
    pub fn settle_op<T>(&mut self, ticket: OpTicket, reply: Option<Result<T, RtcError>>) -> (r:
        Result<T, SdpError>)
        requires
            old(self).wf(),
        ensures
            final(self).wf(),
            final(self).pending@ == old(self).pending@.remove_value(ticket),
            final(self).hub == old(self).hub,
            final(self).closed == old(self).closed,
            final(self).next_ticket == old(self).next_ticket,
            !old(self).pending@.contains(ticket) ==> final(self).pending@ == old(self).pending@,
            old(self).pending@.contains(ticket) ==> final(self).pending@.len() == old(
                self,
            ).pending@.len() - 1,
            !final(self).pending@.contains(ticket),
            reply matches Some(Ok(v)) ==> r == Ok::<T, SdpError>(v),
            reply matches Some(Err(e)) ==> r == Err::<T, SdpError>(SdpError::RTCError(e)),
            reply is None ==> (r matches Err(SdpError::RecvError(m)) && m@ == "channel closed"@),
    {
        let ghost orig = self.pending@;
        let mut i: usize = 0;
        while i < self.pending.len() && self.pending[i] != ticket
            invariant
                i <= self.pending@.len(),
                self.pending@ == orig,
                forall|j: int| 0 <= j < i ==> orig[j] != ticket,
            decreases self.pending@.len() - i,
        {
            i = i + 1;
        }
        proof {
            orig.index_of_first_ensures(ticket);
        }
        if i < self.pending.len() {
            let _ = self.pending.remove(i);
            proof {
                assert(orig.index_of_first(ticket) == Some(i as int));
                orig.remove_ensures(i as int);
                assert forall|j: int| 0 <= j < self.pending@.len() implies self.pending@[j]
                    != ticket by {
                    if j >= i {
                        assert(self.pending@[j] == orig[j + 1]);
                    }
                }
                assert(!self.pending@.contains(ticket));
            }
        } else {
            proof {
                assert(!orig.contains(ticket));
            }
        }
        match reply {
            Some(Ok(v)) => Ok(v),
            Some(Err(e)) => Err(SdpError::RTCError(e)),
            None => Err(SdpError::RecvError("channel closed".to_owned())),
        }
    }

    /// Creates a data channel with the given label and options: the one
    /// synchronous operation, answered on the spot rather than bridged. The
    /// engine refuses it on a closed session and hands back a live,
    /// still-connecting channel otherwise.
    pub fn create_data_channel(&mut self, label: &str, init: DataChannelInit) -> (r: Result<
        DataChannel,
        RtcError,
    >)
        ensures
            *final(self) == *old(self),
            !old(self).closed ==> (r matches Ok(dc) && dc.label@ == label@ && dc.init == init
                && dc.state is Connecting && dc.outbox@.len() == 0 && dc.message_handler is None),
            old(self).closed ==> (r matches Err(e) && e.error_type == RtcErrorType::InvalidState
                && e.message@ == "cannot create a data channel on a closed session"@),
    {
        if self.closed {
            Err(
                RtcError::new(
                    RtcErrorType::InvalidState,
                    "cannot create a data channel on a closed session".to_owned(),
                ),
            )
        } else {
            Ok(DataChannel::new(label.to_owned(), init))
        }
    }

    /// Closes the session. Idempotent: the first call notifies the
    /// registered state-change handlers of the terminal state, tears every
    /// handler slot down, and abandons every in-flight operation — each
    /// awaiting caller's completion is to be abandoned, so it resolves with
    /// the closed failure instead of hanging. A second call changes nothing,
    /// abandons nothing and notifies nobody: the session was already in the
    /// closed state, so no "changed" event is produced for it.
    pub fn close(&mut self) -> (r: CloseReport)
        ensures
            final(self).closed,
            r.abandoned@ == close_abandons(*old(self)),
            r.notifications@ == close_notices(*old(self)),
            old(self).closed ==> *final(self) == *old(self),
            !old(self).closed ==> final(self).pending@ == Seq::<OpTicket>::empty() && (forall|
                k: EventKind,
            | final(self).hub.slot_spec(k) is None) && final(self).next_ticket == old(
                self,
            ).next_ticket,
    {
        if self.closed {
            CloseReport { abandoned: Vec::new(), notifications: Vec::new() }
        } else {
            let ghost ev_sig = Event::SignalingChange(SignalingState::Closed);
            let ghost ev_conn = Event::ConnectionChange(PeerConnectionState::Closed);
            let mut notifications: Vec<Invocation> = Vec::new();
            match self.hub.dispatch(Event::SignalingChange(SignalingState::Closed)) {
                Some(i) => notifications.push(i),
                None => (),
            }
            match self.hub.dispatch(Event::ConnectionChange(PeerConnectionState::Closed)) {
                Some(i) => notifications.push(i),
                None => (),
            }
            proof {
                reveal_with_fuel(EventHub::dispatched, 3);
                let evs = seq![ev_sig, ev_conn];
                let evs1 = seq![ev_sig];
                assert(evs.drop_last() =~= evs1);
                assert(evs1.drop_last() =~= Seq::<Event>::empty());
                assert(evs.last() == ev_conn);
                assert(evs1.last() == ev_sig);
                assert(notifications@ == self.hub.dispatched(evs));
            }
            self.hub.clear();
            self.closed = true;
            let mut abandoned: Vec<OpTicket> = Vec::new();
            core::mem::swap(&mut abandoned, &mut self.pending);
            CloseReport { abandoned, notifications }
        }
    }

    /// Relays one event arriving from the engine's delivery thread through
    /// the handler table. After a close the slots are empty, so a late
    /// callback dispatches to nobody: tolerated as a no-op, never a crash.
    pub fn deliver_event(&self, e: Event) -> (r: Option<Invocation>)
        ensures
            r == invocation_for(self.hub.slot_spec(e.kind()), e),
    {
        self.hub.dispatch(e)
    }

    /// Stores the signaling-state-changed handler, replacing any previous one.
    pub fn on_signaling_change(&mut self, handler: HandlerId)
        ensures
            final(self).hub == registered(old(self).hub, EventKind::SignalingChange, handler),
            final(self).closed == old(self).closed,
            final(self).pending == old(self).pending,
            final(self).next_ticket == old(self).next_ticket,
    {
        self.hub.register(EventKind::SignalingChange, handler);
    }

    /// Stores the stream-added handler, replacing any previous one.
    pub fn on_add_stream(&mut self, handler: HandlerId)
        ensures
            final(self).hub == registered(old(self).hub, EventKind::AddStream, handler),
            final(self).closed == old(self).closed,
            final(self).pending == old(self).pending,
            final(self).next_ticket == old(self).next_ticket,
    {
        self.hub.register(EventKind::AddStream, handler);
    }

    /// Stores the stream-removed handler, replacing any previous one.
    pub fn on_remove_stream(&mut self, handler: HandlerId)
        ensures
            final(self).hub == registered(old(self).hub, EventKind::RemoveStream, handler),
            final(self).closed == old(self).closed,
            final(self).pending == old(self).pending,
            final(self).next_ticket == old(self).next_ticket,
    {
        self.hub.register(EventKind::RemoveStream, handler);
    }

    /// Stores the data-channel-opened handler, replacing any previous one.
    pub fn on_data_channel(&mut self, handler: HandlerId)
        ensures
            final(self).hub == registered(old(self).hub, EventKind::DataChannelOpened, handler),
            final(self).closed == old(self).closed,
            final(self).pending == old(self).pending,
            final(self).next_ticket == old(self).next_ticket,
    {
        self.hub.register(EventKind::DataChannelOpened, handler);
    }

    /// Stores the renegotiation-needed handler, replacing any previous one.
    pub fn on_renegotiation_needed(&mut self, handler: HandlerId)
        ensures
            final(self).hub == registered(old(self).hub, EventKind::RenegotiationNeeded, handler),
            final(self).closed == old(self).closed,
            final(self).pending == old(self).pending,
            final(self).next_ticket == old(self).next_ticket,
    {
        self.hub.register(EventKind::RenegotiationNeeded, handler);
    }

    /// Stores the ice-connection-state-changed handler, replacing any
    /// previous one.
    pub fn on_ice_connection_change(&mut self, handler: HandlerId)
        ensures
            final(self).hub == registered(old(self).hub, EventKind::IceConnectionChange, handler),
            final(self).closed == old(self).closed,
            final(self).pending == old(self).pending,
            final(self).next_ticket == old(self).next_ticket,
    {
        self.hub.register(EventKind::IceConnectionChange, handler);
    }

    /// Stores the standardized ice-connection-state-changed handler,
    /// replacing any previous one.
    pub fn on_standardized_ice_connection_change(&mut self, handler: HandlerId)
        ensures
            final(self).hub == registered(
                old(self).hub,
                EventKind::StandardizedIceConnectionChange,
                handler,
            ),
            final(self).closed == old(self).closed,
            final(self).pending == old(self).pending,
            final(self).next_ticket == old(self).next_ticket,
    {
        self.hub.register(EventKind::StandardizedIceConnectionChange, handler);
    }

    /// Stores the connection-state-changed handler, replacing any previous
    /// one.
    pub fn on_connection_change(&mut self, handler: HandlerId)
        ensures
            final(self).hub == registered(old(self).hub, EventKind::ConnectionChange, handler),
            final(self).closed == old(self).closed,
            final(self).pending == old(self).pending,
            final(self).next_ticket == old(self).next_ticket,
    {
        self.hub.register(EventKind::ConnectionChange, handler);
    }

    /// Stores the ice-gathering-state-changed handler, replacing any previous
    /// one.
    pub fn on_ice_gathering_change(&mut self, handler: HandlerId)
        ensures
            final(self).hub == registered(old(self).hub, EventKind::IceGatheringChange, handler),
            final(self).closed == old(self).closed,
            final(self).pending == old(self).pending,
            final(self).next_ticket == old(self).next_ticket,
    {
        self.hub.register(EventKind::IceGatheringChange, handler);
    }

    /// Stores the candidate-discovered handler, replacing any previous one.
    pub fn on_ice_candidate(&mut self, handler: HandlerId)
        ensures
            final(self).hub == registered(
                old(self).hub,
                EventKind::IceCandidateDiscovered,
                handler,
            ),
            final(self).closed == old(self).closed,
            final(self).pending == old(self).pending,
            final(self).next_ticket == old(self).next_ticket,
    {
        self.hub.register(EventKind::IceCandidateDiscovered, handler);
    }

    /// Stores the candidate-error handler, replacing any previous one.
    pub fn on_ice_candidate_error(&mut self, handler: HandlerId)
        ensures
            final(self).hub == registered(old(self).hub, EventKind::IceCandidateError, handler),
            final(self).closed == old(self).closed,
            final(self).pending == old(self).pending,
            final(self).next_ticket == old(self).next_ticket,
    {
        self.hub.register(EventKind::IceCandidateError, handler);
    }

    /// Stores the candidates-removed handler, replacing any previous one.
    pub fn on_ice_candidates_removed(&mut self, handler: HandlerId)
        ensures
            final(self).hub == registered(old(self).hub, EventKind::IceCandidatesRemoved, handler),
            final(self).closed == old(self).closed,
            final(self).pending == old(self).pending,
            final(self).next_ticket == old(self).next_ticket,
    {
        self.hub.register(EventKind::IceCandidatesRemoved, handler);
    }

    /// Stores the ice-connection-receiving-changed handler, replacing any
    /// previous one.
    pub fn on_ice_connection_receiving_change(&mut self, handler: HandlerId)
        ensures
            final(self).hub == registered(
                old(self).hub,
                EventKind::IceConnectionReceivingChange,
                handler,
            ),
            final(self).closed == old(self).closed,
            final(self).pending == old(self).pending,
            final(self).next_ticket == old(self).next_ticket,
    {
        self.hub.register(EventKind::IceConnectionReceivingChange, handler);
    }

    /// Stores the selected-candidate-pair-changed handler, replacing any
    /// previous one.
    pub fn on_ice_selected_candidate_pair_changed(&mut self, handler: HandlerId)
        ensures
            final(self).hub == registered(
                old(self).hub,
                EventKind::IceSelectedCandidatePairChanged,
                handler,
            ),
            final(self).closed == old(self).closed,
            final(self).pending == old(self).pending,
            final(self).next_ticket == old(self).next_ticket,
    {
        self.hub.register(EventKind::IceSelectedCandidatePairChanged, handler);
    }

    /// Stores the track-added handler, replacing any previous one.
    pub fn on_add_track(&mut self, handler: HandlerId)
        ensures
            final(self).hub == registered(old(self).hub, EventKind::AddTrack, handler),
            final(self).closed == old(self).closed,
            final(self).pending == old(self).pending,
            final(self).next_ticket == old(self).next_ticket,
    {
        self.hub.register(EventKind::AddTrack, handler);
    }

    /// Stores the track-changed handler, replacing any previous one.
    pub fn on_track(&mut self, handler: HandlerId)
        ensures
            final(self).hub == registered(old(self).hub, EventKind::Track, handler),
            final(self).closed == old(self).closed,
            final(self).pending == old(self).pending,
            final(self).next_ticket == old(self).next_ticket,
    {
        self.hub.register(EventKind::Track, handler);
    }

    /// Stores the track-removed handler, replacing any previous one.
    pub fn on_remove_track(&mut self, handler: HandlerId)
        ensures
            final(self).hub == registered(old(self).hub, EventKind::RemoveTrack, handler),
            final(self).closed == old(self).closed,
            final(self).pending == old(self).pending,
            final(self).next_ticket == old(self).next_ticket,
    {
        self.hub.register(EventKind::RemoveTrack, handler);
    }

    /// Stores the interesting-usage handler, replacing any previous one.
    pub fn on_interesting_usage(&mut self, handler: HandlerId)
        ensures
            final(self).hub == registered(old(self).hub, EventKind::InterestingUsage, handler),
            final(self).closed == old(self).closed,
            final(self).pending == old(self).pending,
            final(self).next_ticket == old(self).next_ticket,
    {
        self.hub.register(EventKind::InterestingUsage, handler);
    }
}

/// The reply a description application's completion delivers. The engine's
/// completion callback always carries an error value, success included; it
/// resolves the bridge with success exactly when the engine reported no
/// failure, and with the engine's error verbatim otherwise.
pub fn set_description_reply(error: RtcError) -> (r: Result<(), RtcError>)
    ensures
        error.error_type == RtcErrorType::NoFailure ==> r is Ok,
        error.error_type != RtcErrorType::NoFailure ==> r == Err::<(), RtcError>(error),
{
    if error.ok() {
        Ok(())
    } else {
        Err(error)
    }
}

/// Law: what the first close delivers, slot by slot: the terminal signaling
/// state change to whoever holds the signaling-change slot, then the terminal
/// connection state change to whoever holds the connection-change slot, in
/// that order; an empty slot contributes nothing.
pub proof fn lemma_close_notices_unfolded(s: Session)
    requires
        !s.closed,
    ensures
        close_notices(s) == ({
            let first = match invocation_for(
                s.hub.slot_spec(EventKind::SignalingChange),
                Event::SignalingChange(SignalingState::Closed),
            ) {
                Some(i) => seq![i],
                None => Seq::<Invocation>::empty(),
            };
            match invocation_for(
                s.hub.slot_spec(EventKind::ConnectionChange),
                Event::ConnectionChange(PeerConnectionState::Closed),
            ) {
                Some(i) => first.push(i),
                None => first,
            }
        }),
{
    reveal_with_fuel(EventHub::dispatched, 3);
    let ev_sig = Event::SignalingChange(SignalingState::Closed);
    let ev_conn = Event::ConnectionChange(PeerConnectionState::Closed);
    let evs = seq![ev_sig, ev_conn];
    let evs1 = seq![ev_sig];
    assert(evs.drop_last() =~= evs1);
    assert(evs1.drop_last() =~= Seq::<Event>::empty());
    assert(evs.last() == ev_conn);
    assert(evs1.last() == ev_sig);
    if s.hub.slot_spec(EventKind::SignalingChange) is Some {
        assert(s.hub.dispatched(evs1) =~= seq![
            Invocation {
                handler: s.hub.slot_spec(EventKind::SignalingChange)->Some_0,
                event: ev_sig,
            },
        ]);
    }
}

/// Law: an operation in flight when the session closes is abandoned by that
/// close: its ticket is in the close report, so its completion is abandoned
/// and the awaiting caller resolves with the closed failure instead of
/// hanging.
pub proof fn lemma_close_abandons_in_flight(s: Session, t: OpTicket)
    requires
        !s.closed,
        s.pending@.contains(t),
    ensures
        close_abandons(s).contains(t),
{
}

/// Law: the whole abandonment path of one operation in flight at close. The
/// close report carries the operation's ticket, so its completion is
/// abandoned; the abandoned completion is settled — the awaiting caller
/// resumes, it never hangs — and its outcome is the dropped resolver, which
/// `settle_op` surfaces as the distinct closed failure, never as success.
pub proof fn lemma_abandoned_operation_resolves<T>(s: Session, t: OpTicket, c: Completion<T>)
    requires
        !s.closed,
        s.pending@.contains(t),
        c is Pending,
    ensures
        close_abandons(s).contains(t),
        abandoned_state(c).is_settled(),
        abandoned_state(c) is Dropped,
        !(abandoned_state(c) matches Completion::Resolved(_)),
{
}

/// Law: a close of an already-closed session abandons nothing and notifies
/// nobody — in particular, no handler sees a "changed" event for the closed
/// state the session was already in.
pub proof fn lemma_second_close_silent(s: Session)
    requires
        s.closed,
    ensures
        close_abandons(s) == Seq::<OpTicket>::empty(),
        close_notices(s) == Seq::<Invocation>::empty(),
{
}

} // verus!
