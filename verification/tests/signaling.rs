use sandbox_backend::signaling::sample_duration_ms;
use sandbox_backend::signaling::{stops_streams, PeerState};
use sandbox_backend::signaling::ice_servers;
use sandbox_backend::signaling::{
    connection_session_id, signaling_action, signaling_reply, socket_step, SignalingAction, SignalingMessage, SocketEvent,
    SocketStep,
};

#[test]
fn actions_of_messages() {
    assert!(matches!(signaling_action(SignalingMessage::RequestOffer), SignalingAction::CreateOffer));
    match signaling_action(SignalingMessage::Answer { sdp: "v=0".to_string() }) {
        SignalingAction::ApplyAnswer { sdp } => assert_eq!(sdp, "v=0"),
        other => panic!("unexpected {:?}", other),
    }
    match signaling_action(SignalingMessage::IceCandidate {
        candidate: "candidate:1".to_string(),
        sdp_mid: Some("0".to_string()),
        sdp_mline_index: Some(0),
    }) {
        SignalingAction::AddIceCandidate { candidate, sdp_mid, sdp_mline_index } => {
            assert_eq!(candidate, "candidate:1");
            assert_eq!(sdp_mid.as_deref(), Some("0"));
            assert_eq!(sdp_mline_index, Some(0));
        }
        other => panic!("unexpected {:?}", other),
    }
}

#[test]
fn input_messages() {
    assert!(matches!(signaling_action(SignalingMessage::MouseMove { x: 3, y: -4 }), SignalingAction::PointerMove { x: 3, y: -4 }));
    assert!(matches!(
        signaling_action(SignalingMessage::MouseDown { button: 2 }),
        SignalingAction::MouseButton { button: 2, pressed: true }
    ));
    assert!(matches!(
        signaling_action(SignalingMessage::MouseUp { button: 0 }),
        SignalingAction::MouseButton { button: 0, pressed: false }
    ));
    match signaling_action(SignalingMessage::KeyUp { key: "a".to_string(), code: "KeyA".to_string() }) {
        SignalingAction::Keyboard { key, code, pressed } => {
            assert_eq!((key.as_str(), code.as_str(), pressed), ("a", "KeyA", false));
        }
        other => panic!("unexpected {:?}", other),
    }
}

#[test]
fn ignored_messages() {
    for m in [
        SignalingMessage::MouseScroll,
        SignalingMessage::Resize { width: 10, height: 10 },
        SignalingMessage::Offer { sdp: String::new() },
        SignalingMessage::Error { message: String::new() },
    ] {
        assert!(matches!(signaling_action(m), SignalingAction::Nothing));
    }
}

#[test]
fn replies() {
    match signaling_reply(Ok(Some("v=0 offer".to_string()))) {
        Some(SignalingMessage::Offer { sdp }) => assert_eq!(sdp, "v=0 offer"),
        other => panic!("unexpected {:?}", other),
    }
    assert!(signaling_reply(Ok(None)).is_none());
    match signaling_reply(Err("Peer connection not found".to_string())) {
        Some(SignalingMessage::Error { message }) => assert_eq!(message, "Peer connection not found"),
        other => panic!("unexpected {:?}", other),
    }
}

#[test]
fn socket_steps() {
    assert_eq!(socket_step(SocketEvent::Text), SocketStep::HandleText);
    assert_eq!(socket_step(SocketEvent::Close), SocketStep::Finish { releases: 2 });
    assert_eq!(socket_step(SocketEvent::OtherFrame), SocketStep::ReadOn);
    assert_eq!(socket_step(SocketEvent::Failed), SocketStep::Finish { releases: 1 });
    assert_eq!(socket_step(SocketEvent::Ended), SocketStep::Finish { releases: 1 });
}

#[test]
fn session_ids() {
    assert_eq!(connection_session_id(Some("abc".to_string())), "abc");
    let fresh = connection_session_id(None);
    assert_eq!(fresh.len(), 36);
    let b = fresh.as_bytes();
    assert_eq!((b[8], b[13], b[18], b[23]), (b'-', b'-', b'-', b'-'));
    for (i, c) in b.iter().enumerate() {
        if ![8, 13, 18, 23].contains(&i) {
            assert!(c.is_ascii_digit() || (b'a'..=b'f').contains(c));
        }
    }
    assert_eq!(b[14], b'4');
    assert!([b'8', b'9', b'a', b'b'].contains(&b[19]));
    assert_ne!(connection_session_id(None), fresh);
}

#[test]
fn ice_server_defaults_and_overrides() {
    let d = ice_servers(None, None, None);
    assert_eq!(d.len(), 2);
    assert_eq!(d[0].urls, vec!["stun:stun.l.google.com:19302".to_string()]);
    assert_eq!((d[0].username.as_str(), d[0].credential.as_str(), d[0].password_credential), ("", "", false));
    assert_eq!(d[1].urls, vec!["turn:localhost:3478".to_string()]);
    assert_eq!((d[1].username.as_str(), d[1].credential.as_str(), d[1].password_credential), ("sandbox", "dev_turn_secret", true));
    let o = ice_servers(Some("turn:relay:3478"), Some("u"), Some("p"));
    assert_eq!(o[1].urls, vec!["turn:relay:3478".to_string()]);
    assert_eq!((o[1].username.as_str(), o[1].credential.as_str()), ("u", "p"));
}

#[test]
fn peer_states_that_stop_streams() {
    for s in [PeerState::Failed, PeerState::Disconnected, PeerState::Closed] {
        assert!(stops_streams(s));
    }
    for s in [PeerState::Unspecified, PeerState::New, PeerState::Connecting, PeerState::Connected] {
        assert!(!stops_streams(s));
    }
}

#[test]
fn sample_durations() {
    assert_eq!(sample_duration_ms(30), 33);
    assert_eq!(sample_duration_ms(0), 1000);
    assert_eq!(sample_duration_ms(120), 8);
}
