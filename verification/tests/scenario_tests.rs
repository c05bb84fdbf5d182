//! End-to-end scenarios on the model: two sessions negotiate, exchange
//! candidates, and move a data-channel message across, with an "engine" (the
//! test body) supplying the replies the native side would deliver.

use rtc_bridge::data_channel::{DataChannel, DataChannelInit, DataChannelState};
use rtc_bridge::error::SdpError;
use rtc_bridge::events::{Event, EventHub, EventKind};
use rtc_bridge::protocol::{
    apply_description, PeerConnectionState, SdpSide, SignalingState,
};
use rtc_bridge::sdp::{IceCandidate, SdpType, SessionDescription};
use rtc_bridge::session::Session;

const BOB_ICE: u64 = 1;
const ALICE_ICE: u64 = 2;
const ALICE_DC: u64 = 3;
const BOB_CONNECTED: u64 = 4;
const ALICE_CONNECTED: u64 = 5;

/// The full offer/answer dance of the session surface: offer, local and
/// remote application, answer, candidate exchange, then the terminal-success
/// connection state delivered on both sides.
#[test]
fn create_pc() {
    let mut bob = Session::new();
    let mut alice = Session::new();

    bob.on_ice_candidate(BOB_ICE);
    alice.on_ice_candidate(ALICE_ICE);
    alice.on_data_channel(ALICE_DC);
    bob.on_connection_change(BOB_CONNECTED);
    alice.on_connection_change(ALICE_CONNECTED);

    let mut bob_dc = bob
        .create_data_channel("test_dc", DataChannelInit::default())
        .unwrap();
    assert_eq!(bob_dc.label().as_str(), "test_dc");

    // Track the engine-owned signaling states alongside, checking every
    // application is legal.
    let mut bob_signaling = SignalingState::Stable;
    let mut alice_signaling = SignalingState::Stable;

    // Bob creates the offer; the engine replies with the description.
    let t = bob.create_offer();
    let offer = bob
        .settle_op(t, Some(Ok(SessionDescription::new(SdpType::Offer, "v=0 bob".to_string()))))
        .unwrap();

    let offer_copy = offer.clone();
    let (t, released) = bob.set_local_description(offer);
    bob_signaling = apply_description(bob_signaling, SdpSide::Local, released.sdp_type()).unwrap();
    assert_eq!(bob_signaling, SignalingState::HaveLocalOffer);
    let done: Result<(), SdpError> = bob.settle_op(t, Some(Ok(())));
    done.unwrap();

    let (t, released) = alice.set_remote_description(offer_copy);
    alice_signaling =
        apply_description(alice_signaling, SdpSide::Remote, released.sdp_type()).unwrap();
    assert_eq!(alice_signaling, SignalingState::HaveRemoteOffer);
    let done: Result<(), SdpError> = alice.settle_op(t, Some(Ok(())));
    done.unwrap();

    // Alice answers.
    let t = alice.create_answer();
    let answer = alice
        .settle_op(t, Some(Ok(SessionDescription::new(SdpType::Answer, "v=0 alice".to_string()))))
        .unwrap();

    let answer_copy = answer.clone();
    let (t, released) = alice.set_local_description(answer);
    alice_signaling =
        apply_description(alice_signaling, SdpSide::Local, released.sdp_type()).unwrap();
    assert_eq!(alice_signaling, SignalingState::Stable);
    let done: Result<(), SdpError> = alice.settle_op(t, Some(Ok(())));
    done.unwrap();

    let (t, released) = bob.set_remote_description(answer_copy);
    bob_signaling = apply_description(bob_signaling, SdpSide::Remote, released.sdp_type()).unwrap();
    assert_eq!(bob_signaling, SignalingState::Stable);
    let done: Result<(), SdpError> = bob.settle_op(t, Some(Ok(())));
    done.unwrap();

    // Each engine discovers a candidate and delivers it through the hub.
    let bob_found = bob
        .deliver_event(Event::IceCandidateDiscovered(IceCandidate::new(
            "0".to_string(),
            0,
            "candidate:bob".to_string(),
        )))
        .unwrap();
    assert_eq!(bob_found.handler, BOB_ICE);
    let alice_found = alice
        .deliver_event(Event::IceCandidateDiscovered(IceCandidate::new(
            "0".to_string(),
            0,
            "candidate:alice".to_string(),
        )))
        .unwrap();
    assert_eq!(alice_found.handler, ALICE_ICE);

    // The applications exchange the discovered candidates.
    let bob_ice = match bob_found.event {
        Event::IceCandidateDiscovered(c) => c,
        _ => unreachable!(),
    };
    let alice_ice = match alice_found.event {
        Event::IceCandidateDiscovered(c) => c,
        _ => unreachable!(),
    };
    let (t, _released) = bob.add_ice_candidate(alice_ice);
    let done: Result<(), SdpError> = bob.settle_op(t, Some(Ok(())));
    done.unwrap();
    let (t, _released) = alice.add_ice_candidate(bob_ice);
    let done: Result<(), SdpError> = alice.settle_op(t, Some(Ok(())));
    done.unwrap();

    // With both descriptions applied and candidates exchanged, the engines
    // report the terminal-success state on both sides.
    let bob_connected = bob
        .deliver_event(Event::ConnectionChange(PeerConnectionState::Connected))
        .unwrap();
    assert_eq!(bob_connected.handler, BOB_CONNECTED);
    let alice_connected = alice
        .deliver_event(Event::ConnectionChange(PeerConnectionState::Connected))
        .unwrap();
    assert_eq!(alice_connected.handler, ALICE_CONNECTED);

    // Alice's engine opens the negotiated channel on her side.
    let alice_side = alice.create_data_channel("test_dc", DataChannelInit::default()).unwrap();
    let opened = alice.deliver_event(Event::DataChannelOpened(alice_side)).unwrap();
    assert_eq!(opened.handler, ALICE_DC);
    let mut alice_dc = match opened.event {
        Event::DataChannelOpened(dc) => dc,
        _ => unreachable!(),
    };

    // A message sent by Bob arrives verbatim on Alice's channel.
    bob_dc.open_by_transport();
    alice_dc.open_by_transport();
    alice_dc.on_message(42);
    assert!(bob_dc.send(b"This is a test".to_vec(), true));
    let frame = bob_dc.pop_transit().unwrap();
    let (handler, received) = alice_dc.deliver(frame).unwrap();
    assert_eq!(handler, 42);
    assert_eq!(received.data, b"This is a test".to_vec());
    assert!(received.binary);

    alice.close();
    bob.close();
}

/// A data channel labelled "chat", created on one peer before the exchange:
/// after negotiation the other peer's opened event fires exactly once with a
/// channel of that label, and a message crosses byte for byte.
#[test]
fn chat_channel_opens_once_with_label_and_carries_bytes_verbatim() {
    let mut a = Session::new();
    let mut b = Session::new();
    b.on_data_channel(ALICE_DC);

    let mut a_dc = a.create_data_channel("chat", DataChannelInit::default()).unwrap();
    assert_eq!(a_dc.label().as_str(), "chat");
    assert!(matches!(a_dc.state, DataChannelState::Connecting));
    assert!(!a_dc.send(b"too early".to_vec(), false), "nothing is sent before the transport opens");

    // Offer/answer exchange, replies supplied by the engines.
    let t = a.create_offer();
    let offer = a
        .settle_op(t, Some(Ok(SessionDescription::new(SdpType::Offer, "v=0 a".to_string()))))
        .unwrap();
    let (t, _rel) = a.set_local_description(offer.clone());
    let done: Result<(), SdpError> = a.settle_op(t, Some(Ok(())));
    done.unwrap();
    let (t, _rel) = b.set_remote_description(offer);
    let done: Result<(), SdpError> = b.settle_op(t, Some(Ok(())));
    done.unwrap();
    let t = b.create_answer();
    let answer = b
        .settle_op(t, Some(Ok(SessionDescription::new(SdpType::Answer, "v=0 b".to_string()))))
        .unwrap();
    let (t, _rel) = b.set_local_description(answer.clone());
    let done: Result<(), SdpError> = b.settle_op(t, Some(Ok(())));
    done.unwrap();
    let (t, _rel) = a.set_remote_description(answer);
    let done: Result<(), SdpError> = a.settle_op(t, Some(Ok(())));
    done.unwrap();

    // B's engine announces the negotiated channel: exactly one opened event.
    let mut b_side = DataChannel::new("chat".to_string(), DataChannelInit::default());
    b_side.open_by_transport();
    let opened = b.deliver_event(Event::DataChannelOpened(b_side)).unwrap();
    assert_eq!(opened.handler, ALICE_DC);
    let mut b_dc = match opened.event {
        Event::DataChannelOpened(dc) => dc,
        _ => unreachable!(),
    };
    assert_eq!(b_dc.label().as_str(), "chat");
    assert!(b.hub.slot(EventKind::DataChannelOpened).is_some());

    // The message crosses byte for byte.
    a_dc.open_by_transport();
    b_dc.on_message(7);
    let payload: Vec<u8> = vec![0x68, 0x69, 0x00, 0xff, 0x21];
    assert!(a_dc.send(payload.clone(), true));
    let frame = a_dc.pop_transit().unwrap();
    assert_eq!(frame.data, payload);
    let (handler, received) = b_dc.deliver(frame).unwrap();
    assert_eq!(handler, 7);
    assert_eq!(received.data, payload);
    assert!(received.binary);
}

/// Frames queue in sending order and leave oldest first.
#[test]
fn outbox_is_first_in_first_out() {
    let mut dc = DataChannel::new("q".to_string(), DataChannelInit::default());
    dc.open_by_transport();
    assert!(dc.send(vec![1], true));
    assert!(dc.send(vec![2], true));
    assert!(dc.send(vec![3], true));
    assert_eq!(dc.pop_transit().unwrap().data, vec![1]);
    assert_eq!(dc.pop_transit().unwrap().data, vec![2]);
    assert_eq!(dc.pop_transit().unwrap().data, vec![3]);
    assert!(dc.pop_transit().is_none());
}

/// A closed channel refuses frames; delivery without a handler drops them.
#[test]
fn channel_close_and_missing_handler() {
    let mut dc = DataChannel::new("c".to_string(), DataChannelInit::default());
    dc.open_by_transport();
    dc.close();
    assert!(matches!(dc.state, DataChannelState::Closed));
    assert!(!dc.send(vec![9], false));
    let other = DataChannel::new("d".to_string(), DataChannelInit::default());
    let frame = rtc_bridge::data_channel::Message { data: vec![1], binary: false };
    assert!(other.deliver(frame).is_none());
}

/// Candidate events on one hub keep the order the engine produced.
#[test]
fn candidate_delivery_order_is_preserved() {
    let mut hub = EventHub::new();
    hub.register(EventKind::IceCandidateDiscovered, 9);
    let events: Vec<Event> = (0..5)
        .map(|i| {
            Event::IceCandidateDiscovered(IceCandidate::new(
                "0".to_string(),
                0,
                format!("candidate:{}", i),
            ))
        })
        .collect();
    let invs = hub.dispatch_all(events);
    assert_eq!(invs.len(), 5);
    for (i, inv) in invs.iter().enumerate() {
        match &inv.event {
            Event::IceCandidateDiscovered(c) => {
                assert_eq!(c.candidate, format!("candidate:{}", i));
            }
            _ => panic!("unexpected event kind"),
        }
    }
}
