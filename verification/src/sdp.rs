//! Negotiation payloads exchanged between peers.
//!
//! A [`SessionDescription`] is produced by offer/answer creation and consumed
//! exactly once by a description application: passing one into a `set_*` call
//! releases its ownership to the engine. Neither type is implicitly
//! copyable; a caller that wants to both keep and apply a description makes
//! an explicit clone first.

use vstd::prelude::*;

verus! {

/// Role of a description in the negotiation.
#[derive(Clone, Copy, PartialEq, Eq, Structural, Debug)]
pub enum SdpType {
    Offer,
    PrAnswer,
    Answer,
    Rollback,
}

/// A negotiation payload: its role plus the serialized description the
/// engine produced or the remote peer sent.
#[derive(Debug)]
pub struct SessionDescription {
    pub sdp_type: SdpType,
    pub sdp: String,
}

impl SessionDescription {
    /// Builds a description with the given role and serialized content.
    pub fn new(sdp_type: SdpType, sdp: String) -> (r: SessionDescription)
        ensures
            r.sdp_type == sdp_type,
            r.sdp == sdp,
    {
        SessionDescription { sdp_type, sdp }
    }

    /// The description's role.
    pub fn sdp_type(&self) -> (r: SdpType)
        ensures
            r == self.sdp_type,
    {
        self.sdp_type
    }
}

impl Clone for SessionDescription {
    /// The explicit, independent copy a caller makes before releasing the
    /// original to the engine.
    fn clone(&self) -> (r: Self)
        ensures
            r.sdp_type == self.sdp_type,
            r.sdp@ == self.sdp@,
    {
        SessionDescription { sdp_type: self.sdp_type, sdp: self.sdp.clone() }
    }
}

/// A discovered transport address, delivered through the candidate-discovered
/// event and consumed by `add_ice_candidate`. Each candidate is independent
/// of the others from the same peer.
#[derive(Debug)]
pub struct IceCandidate {
    pub sdp_mid: String,
    pub sdp_mline_index: u16,
    pub candidate: String,
}

impl IceCandidate {
    /// Builds a candidate from its media-section identifiers and its
    /// serialized transport address.
    pub fn new(sdp_mid: String, sdp_mline_index: u16, candidate: String) -> (r: IceCandidate)
        ensures
            r.sdp_mid == sdp_mid,
            r.sdp_mline_index == sdp_mline_index,
            r.candidate == candidate,
    {
        IceCandidate { sdp_mid, sdp_mline_index, candidate }
    }
}

impl Clone for IceCandidate {
    /// An explicit, independent copy of the candidate.
    fn clone(&self) -> (r: Self)
        ensures
            r.sdp_mid@ == self.sdp_mid@,
            r.sdp_mline_index == self.sdp_mline_index,
            r.candidate@ == self.candidate@,
    {
        IceCandidate {
            sdp_mid: self.sdp_mid.clone(),
            sdp_mline_index: self.sdp_mline_index,
            candidate: self.candidate.clone(),
        }
    }
}

} // verus!
