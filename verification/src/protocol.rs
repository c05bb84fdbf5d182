//! Connection-lifecycle states and the offer/answer signaling state machine.
//!
//! The native engine owns these state machines and is the sole arbiter of
//! whether a description may be applied in the current state; this core only
//! relays the states and the engine's verdicts. The transition function here
//! records the protocol the engine follows, so that callers can reason about
//! legal call sequences: `stable -> have-local-offer -> stable` on the local
//! offer path, `stable -> have-remote-offer -> stable` on the remote one,
//! provisional-answer variants analogous, and a terminal `Closed` reachable
//! from every state and irreversible.

use vstd::prelude::*;
use crate::sdp::SdpType;

verus! {

/// The negotiation-protocol state machine, as the engine reports it through
/// the signaling-state-changed event.
#[derive(Clone, Copy, PartialEq, Eq, Structural, Debug)]
pub enum SignalingState {
    Stable,
    HaveLocalOffer,
    HaveLocalPrAnswer,
    HaveRemoteOffer,
    HaveRemotePrAnswer,
    Closed,
}

/// Aggregate connection state, delivered through the connection-state-changed
/// event. `Connected` is the terminal-success state of a negotiation.
#[derive(Clone, Copy, PartialEq, Eq, Structural, Debug)]
pub enum PeerConnectionState {
    New,
    Connecting,
    Connected,
    Disconnected,
    Failed,
    Closed,
}

/// Transport-establishment state of the candidate pairs, delivered through
/// the ice-connection-state-changed event.
#[derive(Clone, Copy, PartialEq, Eq, Structural, Debug)]
pub enum IceConnectionState {
    New,
    Checking,
    Connected,
    Completed,
    Failed,
    Disconnected,
    Closed,
}

/// Candidate-gathering progress, delivered through the
/// ice-gathering-state-changed event.
#[derive(Clone, Copy, PartialEq, Eq, Structural, Debug)]
pub enum IceGatheringState {
    New,
    Gathering,
    Complete,
}

/// Which peer a description is applied for: one's own (`set_local_description`)
/// or the remote peer's (`set_remote_description`).
#[derive(Clone, Copy, PartialEq, Eq, Structural, Debug)]
pub enum SdpSide {
    Local,
    Remote,
}

/// The signaling state the engine moves to when a description of the given
/// type is applied on the given side, or `None` where the engine refuses the
/// application in the current state (reported to the caller as a
/// signaling-state conflict through the completion). `Closed` refuses
/// everything: it is terminal.
pub open spec fn signaling_after(s: SignalingState, side: SdpSide, kind: SdpType) -> Option<
    SignalingState,
> {
    match (side, kind) {
        (SdpSide::Local, SdpType::Offer) => match s {
            SignalingState::Stable | SignalingState::HaveLocalOffer => Some(
                SignalingState::HaveLocalOffer,
            ),
            _ => None,
        },
        (SdpSide::Remote, SdpType::Offer) => match s {
            SignalingState::Stable | SignalingState::HaveRemoteOffer => Some(
                SignalingState::HaveRemoteOffer,
            ),
            _ => None,
        },
        (SdpSide::Local, SdpType::Answer) => match s {
            SignalingState::HaveRemoteOffer | SignalingState::HaveLocalPrAnswer => Some(
                SignalingState::Stable,
            ),
            _ => None,
        },
        (SdpSide::Remote, SdpType::Answer) => match s {
            SignalingState::HaveLocalOffer | SignalingState::HaveRemotePrAnswer => Some(
                SignalingState::Stable,
            ),
            _ => None,
        },
        (SdpSide::Local, SdpType::PrAnswer) => match s {
            SignalingState::HaveRemoteOffer | SignalingState::HaveLocalPrAnswer => Some(
                SignalingState::HaveLocalPrAnswer,
            ),
            _ => None,
        },
        (SdpSide::Remote, SdpType::PrAnswer) => match s {
            SignalingState::HaveLocalOffer | SignalingState::HaveRemotePrAnswer => Some(
                SignalingState::HaveRemotePrAnswer,
            ),
            _ => None,
        },
        (_, SdpType::Rollback) => match s {
            SignalingState::HaveLocalOffer
            | SignalingState::HaveRemoteOffer
            | SignalingState::HaveLocalPrAnswer
            | SignalingState::HaveRemotePrAnswer => Some(SignalingState::Stable),
            _ => None,
        },
    }
}

/// Executable form of [`signaling_after`], usable by callers that track the
/// relayed state themselves.
pub fn apply_description(s: SignalingState, side: SdpSide, kind: SdpType) -> (r: Option<
    SignalingState,
>)
    ensures
        r == signaling_after(s, side, kind),
{
    match (side, kind) {
        (SdpSide::Local, SdpType::Offer) => match s {
            SignalingState::Stable | SignalingState::HaveLocalOffer => Some(
                SignalingState::HaveLocalOffer,
            ),
            _ => None,
        },
        (SdpSide::Remote, SdpType::Offer) => match s {
            SignalingState::Stable | SignalingState::HaveRemoteOffer => Some(
                SignalingState::HaveRemoteOffer,
            ),
            _ => None,
        },
        (SdpSide::Local, SdpType::Answer) => match s {
            SignalingState::HaveRemoteOffer | SignalingState::HaveLocalPrAnswer => Some(
                SignalingState::Stable,
            ),
            _ => None,
        },
        (SdpSide::Remote, SdpType::Answer) => match s {
            SignalingState::HaveLocalOffer | SignalingState::HaveRemotePrAnswer => Some(
                SignalingState::Stable,
            ),
            _ => None,
        },
        (SdpSide::Local, SdpType::PrAnswer) => match s {
            SignalingState::HaveRemoteOffer | SignalingState::HaveLocalPrAnswer => Some(
                SignalingState::HaveLocalPrAnswer,
            ),
            _ => None,
        },
        (SdpSide::Remote, SdpType::PrAnswer) => match s {
            SignalingState::HaveLocalOffer | SignalingState::HaveRemotePrAnswer => Some(
                SignalingState::HaveRemotePrAnswer,
            ),
            _ => None,
        },
        (_, SdpType::Rollback) => match s {
            SignalingState::HaveLocalOffer
            | SignalingState::HaveRemoteOffer
            | SignalingState::HaveLocalPrAnswer
            | SignalingState::HaveRemotePrAnswer => Some(SignalingState::Stable),
            _ => None,
        },
    }
}

/// Law: the closed signaling state is terminal. No description application is
/// accepted from it, so it is irreversible.
pub proof fn lemma_closed_terminal(side: SdpSide, kind: SdpType)
    ensures
        signaling_after(SignalingState::Closed, side, kind) is None,
{
}

/// Law: the canonical offer/answer exchange is accepted step by step and
/// returns both peers to the stable state. Peer `a` creates an offer and
/// applies it locally; peer `b` applies it remotely, answers, and applies the
/// answer locally; peer `a` applies the answer remotely. Every transition is
/// accepted and both peers end stable, the state in which the engine can
/// complete the connection.
pub proof fn lemma_offer_answer_handshake()
    ensures
        signaling_after(SignalingState::Stable, SdpSide::Local, SdpType::Offer) == Some(
            SignalingState::HaveLocalOffer,
        ),
        signaling_after(SignalingState::Stable, SdpSide::Remote, SdpType::Offer) == Some(
            SignalingState::HaveRemoteOffer,
        ),
        signaling_after(SignalingState::HaveRemoteOffer, SdpSide::Local, SdpType::Answer) == Some(
            SignalingState::Stable,
        ),
        signaling_after(SignalingState::HaveLocalOffer, SdpSide::Remote, SdpType::Answer) == Some(
            SignalingState::Stable,
        ),
{
}

/// Law: the provisional-answer variant of the exchange is accepted step by
/// step too: the answering peer may hold a provisional answer and still
/// settle with the final one, and both peers end stable.
pub proof fn lemma_provisional_answer_path()
    ensures
        signaling_after(SignalingState::HaveRemoteOffer, SdpSide::Local, SdpType::PrAnswer) == Some(
            SignalingState::HaveLocalPrAnswer,
        ),
        signaling_after(SignalingState::HaveLocalPrAnswer, SdpSide::Local, SdpType::Answer) == Some(
            SignalingState::Stable,
        ),
        signaling_after(SignalingState::HaveLocalOffer, SdpSide::Remote, SdpType::PrAnswer) == Some(
            SignalingState::HaveRemotePrAnswer,
        ),
        signaling_after(SignalingState::HaveRemotePrAnswer, SdpSide::Remote, SdpType::Answer)
            == Some(SignalingState::Stable),
{
}

} // verus!
