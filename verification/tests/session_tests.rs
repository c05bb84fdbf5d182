use rtc_bridge::data_channel::DataChannelInit;
use rtc_bridge::error::{RtcError, RtcErrorType, SdpError};
use rtc_bridge::events::{Event, EventKind};
use rtc_bridge::protocol::{PeerConnectionState, SignalingState};
use rtc_bridge::sdp::{IceCandidate, SdpType, SessionDescription};
use rtc_bridge::session::{set_description_reply, Session};

#[test]
fn settle_delivers_engine_success() {
    let mut s = Session::new();
    let t = s.create_offer();
    let offer = SessionDescription::new(SdpType::Offer, "v=0 offer".to_string());
    let r = s.settle_op(t, Some(Ok(offer)));
    let d = r.unwrap();
    assert!(matches!(d.sdp_type, SdpType::Offer));
    assert_eq!(d.sdp, "v=0 offer");
}

#[test]
fn settle_surfaces_engine_failure_verbatim() {
    let mut s = Session::new();
    let t = s.create_answer();
    let engine_error = RtcError::new(
        RtcErrorType::InvalidState,
        "no remote offer to answer".to_string(),
    );
    let r: Result<SessionDescription, SdpError> = s.settle_op(t, Some(Err(engine_error)));
    match r {
        Err(SdpError::RTCError(e)) => {
            assert!(matches!(e.error_type, RtcErrorType::InvalidState));
            assert_eq!(e.message, "no remote offer to answer");
        }
        _ => panic!("engine failure must surface as the engine-reported error"),
    }
}

#[test]
fn settle_without_reply_is_the_closed_failure() {
    let mut s = Session::new();
    let t = s.create_offer();
    let r: Result<SessionDescription, SdpError> = s.settle_op(t, None);
    match r {
        Err(SdpError::RecvError(m)) => assert_eq!(m, "channel closed"),
        _ => panic!("abandonment must surface as the distinct closed failure"),
    }
}

#[test]
fn invalid_candidate_resolves_with_engine_failure_not_crash() {
    let mut s = Session::new();
    let bogus = IceCandidate::new("0".to_string(), 0, "not a candidate line".to_string());
    let (t, released) = s.add_ice_candidate(bogus);
    assert_eq!(released.candidate, "not a candidate line");
    // The engine parses the released candidate and reports the syntax error
    // through the completion; settling surfaces it as a typed failure.
    let verdict = RtcError::new(RtcErrorType::SyntaxError, "cannot parse candidate".to_string());
    let r: Result<(), SdpError> = s.settle_op(t, Some(Err(verdict)));
    match r {
        Err(SdpError::RTCError(e)) => {
            assert!(matches!(e.error_type, RtcErrorType::SyntaxError));
            assert_eq!(e.message, "cannot parse candidate");
        }
        _ => panic!("a malformed candidate must resolve with the engine's failure"),
    }
}

#[test]
fn descriptions_are_released_to_the_engine_on_application() {
    let mut s = Session::new();
    let desc = SessionDescription::new(SdpType::Offer, "v=0".to_string());
    let kept = desc.clone();
    let (t1, released) = s.set_local_description(desc);
    assert_eq!(released.sdp, kept.sdp);
    let (t2, _released_again) = s.set_remote_description(kept);
    assert_ne!(t1, t2);
}

#[test]
fn close_abandons_in_flight_operations() {
    let mut s = Session::new();
    let t1 = s.create_offer();
    let desc = SessionDescription::new(SdpType::Offer, "v=0".to_string());
    let (t2, _released) = s.set_local_description(desc);
    let report = s.close();
    assert_eq!(report.abandoned, vec![t1, t2]);
    // Each abandoned ticket settles with the closed failure, never a hang.
    let r: Result<(), SdpError> = s.settle_op(t1, None);
    assert!(matches!(r, Err(SdpError::RecvError(_))));
}

#[test]
fn close_notifies_terminal_state_and_tears_slots_down() {
    let mut s = Session::new();
    s.on_signaling_change(21);
    s.on_connection_change(22);
    s.on_ice_candidate(23);
    let report = s.close();
    assert_eq!(report.notifications.len(), 2);
    assert_eq!(report.notifications[0].handler, 21);
    assert!(matches!(
        report.notifications[0].event,
        Event::SignalingChange(SignalingState::Closed)
    ));
    assert_eq!(report.notifications[1].handler, 22);
    assert!(matches!(
        report.notifications[1].event,
        Event::ConnectionChange(PeerConnectionState::Closed)
    ));
    // Slots are torn down: a late engine callback dispatches to nobody.
    let late = s.deliver_event(Event::SignalingChange(SignalingState::Closed));
    assert!(late.is_none());
}

#[test]
fn second_close_is_a_silent_no_op() {
    let mut s = Session::new();
    s.on_signaling_change(31);
    s.on_connection_change(32);
    let t = s.create_offer();
    let first = s.close();
    assert_eq!(first.abandoned, vec![t]);
    assert_eq!(first.notifications.len(), 2);
    let second = s.close();
    assert!(second.abandoned.is_empty());
    assert!(
        second.notifications.is_empty(),
        "no handler may see a changed event for a state the session was already in"
    );
}

#[test]
fn data_channel_creation_succeeds_on_open_session() {
    let mut s = Session::new();
    let dc = s.create_data_channel("test_dc", DataChannelInit::default()).unwrap();
    assert_eq!(dc.label().as_str(), "test_dc");
}

#[test]
fn data_channel_creation_fails_on_closed_session() {
    let mut s = Session::new();
    s.close();
    let r = s.create_data_channel("late", DataChannelInit::default());
    match r {
        Err(e) => {
            assert!(matches!(e.error_type, RtcErrorType::InvalidState));
            assert!(!e.ok());
            assert_eq!(e.message, "cannot create a data channel on a closed session");
        }
        Ok(_) => panic!("a closed session must refuse data-channel creation"),
    }
}

#[test]
fn handler_registration_replaces_and_never_invokes() {
    let mut s = Session::new();
    s.on_ice_candidate(1);
    s.on_ice_candidate(2);
    let candidate = IceCandidate::new("0".to_string(), 0, "candidate:1".to_string());
    let inv = s.deliver_event(Event::IceCandidateDiscovered(candidate)).unwrap();
    assert_eq!(inv.handler, 2, "registration replaces, it does not queue behind");
}

#[test]
fn set_description_completion_reply_follows_the_engine_verdict() {
    let fine = RtcError::new(RtcErrorType::NoFailure, String::new());
    assert!(set_description_reply(fine).is_ok());
    let conflict = RtcError::new(RtcErrorType::InvalidState, "wrong state".to_string());
    let r = set_description_reply(conflict);
    let e = r.unwrap_err();
    assert!(matches!(e.error_type, RtcErrorType::InvalidState));
    assert_eq!(e.message, "wrong state");
}

#[test]
fn events_without_handlers_are_dropped_silently() {
    let s = Session::new();
    let r = s.deliver_event(Event::RenegotiationNeeded);
    assert!(r.is_none());
}

#[test]
fn every_handler_slot_is_independent() {
    let mut s = Session::new();
    s.on_signaling_change(1);
    s.on_add_stream(2);
    s.on_remove_stream(3);
    s.on_data_channel(4);
    s.on_renegotiation_needed(5);
    s.on_ice_connection_change(6);
    s.on_standardized_ice_connection_change(7);
    s.on_connection_change(8);
    s.on_ice_gathering_change(9);
    s.on_ice_candidate(10);
    s.on_ice_candidate_error(11);
    s.on_ice_candidates_removed(12);
    s.on_ice_connection_receiving_change(13);
    s.on_ice_selected_candidate_pair_changed(14);
    s.on_add_track(15);
    s.on_track(16);
    s.on_remove_track(17);
    s.on_interesting_usage(18);
    assert_eq!(s.hub.slot(EventKind::SignalingChange), Some(1));
    assert_eq!(s.hub.slot(EventKind::AddStream), Some(2));
    assert_eq!(s.hub.slot(EventKind::RemoveStream), Some(3));
    assert_eq!(s.hub.slot(EventKind::DataChannelOpened), Some(4));
    assert_eq!(s.hub.slot(EventKind::RenegotiationNeeded), Some(5));
    assert_eq!(s.hub.slot(EventKind::IceConnectionChange), Some(6));
    assert_eq!(s.hub.slot(EventKind::StandardizedIceConnectionChange), Some(7));
    assert_eq!(s.hub.slot(EventKind::ConnectionChange), Some(8));
    assert_eq!(s.hub.slot(EventKind::IceGatheringChange), Some(9));
    assert_eq!(s.hub.slot(EventKind::IceCandidateDiscovered), Some(10));
    assert_eq!(s.hub.slot(EventKind::IceCandidateError), Some(11));
    assert_eq!(s.hub.slot(EventKind::IceCandidatesRemoved), Some(12));
    assert_eq!(s.hub.slot(EventKind::IceConnectionReceivingChange), Some(13));
    assert_eq!(s.hub.slot(EventKind::IceSelectedCandidatePairChanged), Some(14));
    assert_eq!(s.hub.slot(EventKind::AddTrack), Some(15));
    assert_eq!(s.hub.slot(EventKind::Track), Some(16));
    assert_eq!(s.hub.slot(EventKind::RemoveTrack), Some(17));
    assert_eq!(s.hub.slot(EventKind::InterestingUsage), Some(18));
    assert_eq!(s.hub.slot(EventKind::NegotiationNeededEvent), None);
}
