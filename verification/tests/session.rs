use eris::protocol::Protocol;
use eris::session::{Inbound, Outbound, Phase, Session};
use eris::state::AppState;

fn text(msg: Protocol) -> Inbound {
    Inbound::Text(msg)
}

fn login(name: &str) -> Inbound {
    text(Protocol::Login { username: name.to_string() })
}

fn system_text(out: &Outbound) -> Option<String> {
    match out {
        Outbound::Broadcast(Protocol::System { message, .. }) => Some(message.clone()),
        Outbound::Reply(Protocol::System { message, .. }) => Some(message.clone()),
        _ => None,
    }
}

/// What a connection in `viewer`'s place would see among `out`: its replies,
/// the broadcasts it lets through, and the messages addressed to it.
fn seen_by(viewer: &Session, own: bool, out: &[Outbound]) -> Vec<String> {
    let mut seen = Vec::new();
    for o in out {
        let msg = match o {
            Outbound::Reply(m) if own => m,
            Outbound::Broadcast(m) if viewer.should_forward(m) => m,
            Outbound::Direct(id, m) if *id == viewer.id => m,
            _ => continue,
        };
        seen.push(format!("{:?}", msg));
    }
    seen
}

#[test]
fn test_websocket_login_integration() {
    let mut state = AppState::new("token".to_string());
    let mut session = Session::new(1);
    let out = session.on_frame(&mut state, login("Tester"));
    match &out[0] {
        Outbound::Reply(Protocol::Identify { id, username }) => {
            assert_eq!(username, "Tester");
            assert_eq!(*id, 1);
        }
        other => panic!("Expected Identify message, got {:?}", other),
    }
    match &out[1] {
        Outbound::Broadcast(Protocol::System { message, severity }) => {
            assert!(message.contains("Tester joined"));
            assert_eq!(severity, "info");
        }
        other => panic!("Expected Join message, got {:?}", other),
    }
    assert!(matches!(out[2], Outbound::Broadcast(Protocol::PeerList { .. })));
    assert_eq!(out.len(), 3);
    assert_eq!(session.phase, Phase::Active);
}

#[test]
fn test_strict_multi_user_flow() {
    let mut state = AppState::new("test_token_123".to_string());
    let mut alice = Session::new(100);
    let mut bob = Session::new(200);

    let out = alice.on_frame(&mut state, login("Alice"));
    assert!(matches!(out[0], Outbound::Reply(Protocol::Identify { .. })));

    let out = bob.on_frame(&mut state, login("Bob"));
    let bob_joined = seen_by(&alice, false, &out).iter().any(|m| m.contains("Bob joined lobby"));
    assert!(bob_joined, "Alice never saw Bob join");

    let out_a = alice.on_frame(&mut state, text(Protocol::JoinChannel { channel: "gaming".to_string() }));
    let out_b = bob.on_frame(&mut state, text(Protocol::JoinChannel { channel: "gaming".to_string() }));
    let mut seen = seen_by(&alice, false, &out_a);
    seen.extend(seen_by(&alice, false, &out_b));
    assert!(seen.iter().any(|m| m.contains("Bob moved to gaming")), "Alice never saw Bob move to gaming");

    let out = bob.on_frame(
        &mut state,
        text(Protocol::ChatMessage {
            channel: "gaming".to_string(),
            author: "Bob".to_string(),
            content: "Hello Alice".to_string(),
        }),
    );
    let alice_received = seen_by(&alice, false, &out).iter().any(|m| m.contains("Hello Alice"));
    assert!(alice_received, "Alice never received Bob's message");
}

#[test]
fn blank_login_is_ignored() {
    let mut state = AppState::new("t".to_string());
    let mut s = Session::new(1);
    assert!(s.on_frame(&mut state, login("  \t\n ")).is_empty());
    assert_eq!(s.phase, Phase::Handshake);
    assert!(!state.has_peer(1));
}

#[test]
fn login_name_is_trimmed() {
    let mut state = AppState::new("t".to_string());
    let mut s = Session::new(1);
    let out = s.on_frame(&mut state, login("  Bob\u{3000}\n"));
    assert_eq!(s.username, "Bob");
    assert_eq!(system_text(&out[1]).unwrap(), "Bob joined lobby");
    assert!(state.is_username_taken("BOB"));
}

#[test]
fn taken_name_is_refused_ignoring_case() {
    let mut state = AppState::new("t".to_string());
    let mut a = Session::new(1);
    a.on_frame(&mut state, login("Alice"));
    let mut b = Session::new(2);
    let out = b.on_frame(&mut state, login(" ALICE "));
    assert_eq!(
        out,
        vec![Outbound::Reply(Protocol::System {
            message: "Username taken".to_string(),
            severity: "error".to_string(),
        })]
    );
    assert_eq!(b.phase, Phase::Handshake);
    assert!(!state.has_peer(2));
    let out = b.on_frame(&mut state, login("Alicia"));
    assert_eq!(b.phase, Phase::Active);
    assert_eq!(out.len(), 3);
}

#[test]
fn handshake_ignores_everything_but_login() {
    let mut state = AppState::new("t".to_string());
    let mut s = Session::new(1);
    for frame in [
        text(Protocol::ChatMessage { channel: "lobby".into(), author: "x".into(), content: "hi".into() }),
        text(Protocol::JoinChannel { channel: "gaming".into() }),
        Inbound::Unreadable,
        Inbound::NonText,
    ] {
        assert!(s.on_frame(&mut state, frame).is_empty());
        assert_eq!(s.phase, Phase::Handshake);
    }
    assert!(state.history.is_empty());
    assert!(s.on_frame(&mut state, Inbound::Ended).is_empty());
    assert_eq!(s.phase, Phase::Closed);
}

#[test]
fn login_replays_lobby_history_after_identify() {
    let mut state = AppState::new("t".to_string());
    let mut a = Session::new(1);
    a.on_frame(&mut state, login("Alice"));
    a.on_frame(&mut state, text(Protocol::ChatMessage { channel: "x".into(), author: "x".into(), content: "first".into() }));
    a.on_frame(&mut state, text(Protocol::JoinChannel { channel: "gaming".into() }));
    a.on_frame(&mut state, text(Protocol::ChatMessage { channel: "lobby".into(), author: "x".into(), content: "second".into() }));
    let mut b = Session::new(2);
    let out = b.on_frame(&mut state, login("Bob"));
    assert_eq!(out.len(), 4);
    assert!(matches!(out[0], Outbound::Reply(Protocol::Identify { id: 2, .. })));
    assert_eq!(
        out[1],
        Outbound::Reply(Protocol::ChatMessage {
            channel: "lobby".to_string(),
            author: "Alice".to_string(),
            content: "first".to_string(),
        })
    );
    assert_eq!(system_text(&out[2]).unwrap(), "Bob joined lobby");
}

#[test]
fn chat_is_stamped_with_sender_and_channel() {
    let mut state = AppState::new("t".to_string());
    let mut a = Session::new(1);
    a.on_frame(&mut state, login("Alice"));
    let out = a.on_frame(
        &mut state,
        text(Protocol::ChatMessage { channel: "elsewhere".into(), author: "Mallory".into(), content: "hi".into() }),
    );
    let expected = Protocol::ChatMessage {
        channel: "lobby".to_string(),
        author: "Alice".to_string(),
        content: "hi".to_string(),
    };
    assert_eq!(state.history, vec![Protocol::ChatMessage {
        channel: "lobby".to_string(),
        author: "Alice".to_string(),
        content: "hi".to_string(),
    }]);
    assert_eq!(out, vec![Outbound::Broadcast(expected)]);
}

#[test]
fn chat_reaches_only_its_channel() {
    let mut state = AppState::new("t".to_string());
    let mut a = Session::new(1);
    let mut b = Session::new(2);
    let mut c = Session::new(3);
    a.on_frame(&mut state, login("A"));
    b.on_frame(&mut state, login("B"));
    c.on_frame(&mut state, login("C"));
    a.on_frame(&mut state, text(Protocol::JoinChannel { channel: "gaming".into() }));
    b.on_frame(&mut state, text(Protocol::JoinChannel { channel: "gaming".into() }));
    let out = a.on_frame(&mut state, text(Protocol::ChatMessage { channel: "lobby".into(), author: "A".into(), content: "gg".into() }));
    let msg = match &out[0] {
        Outbound::Broadcast(m) => m,
        other => panic!("{:?}", other),
    };
    assert!(a.should_forward(msg));
    assert!(b.should_forward(msg));
    assert!(!c.should_forward(msg));
    assert!(c.should_forward(&Protocol::System { message: "x".into(), severity: "info".into() }));
}

#[test]
fn signal_goes_to_target_naming_the_sender() {
    let mut state = AppState::new("t".to_string());
    let mut a = Session::new(1);
    let mut b = Session::new(2);
    a.on_frame(&mut state, login("A"));
    b.on_frame(&mut state, login("B"));
    let data: serde_json::Value = serde_json::from_str(r#"{"sdp":"offer"}"#).unwrap();
    let out = a.on_frame(&mut state, text(Protocol::Signal { target_id: 2, data: data.clone() }));
    assert_eq!(out, vec![Outbound::Direct(2, Protocol::Signal { target_id: 1, data })]);
    let out = a.on_frame(&mut state, text(Protocol::Signal { target_id: 9, data: serde_json::Value::Null }));
    assert!(out.is_empty());
}

#[test]
fn stream_request_goes_to_target_naming_the_sender() {
    let mut state = AppState::new("t".to_string());
    let mut a = Session::new(1);
    let mut b = Session::new(2);
    a.on_frame(&mut state, login("A"));
    b.on_frame(&mut state, login("B"));
    let out = b.on_frame(&mut state, text(Protocol::RequestStream { target_id: 1 }));
    assert_eq!(out, vec![Outbound::Direct(1, Protocol::RequestStream { target_id: 2 })]);
    let out = b.on_frame(&mut state, text(Protocol::RequestStream { target_id: 5 }));
    assert!(out.is_empty());
}

#[test]
fn screen_state_is_recorded_and_announced() {
    let mut state = AppState::new("t".to_string());
    let mut a = Session::new(1);
    a.on_frame(&mut state, login("A"));
    let out = a.on_frame(&mut state, text(Protocol::ScreenState { peer_id: 77, is_sharing: true }));
    assert_eq!(out[0], Outbound::Broadcast(Protocol::ScreenState { peer_id: 1, is_sharing: true }));
    match &out[1] {
        Outbound::Broadcast(Protocol::PeerList { peers }) => {
            assert_eq!(peers.len(), 1);
            assert!(peers[0].is_sharing);
        }
        other => panic!("{:?}", other),
    }
}

#[test]
fn ignored_messages_change_nothing() {
    let mut state = AppState::new("t".to_string());
    let mut a = Session::new(1);
    a.on_frame(&mut state, login("A"));
    assert!(a.on_frame(&mut state, login("Other")).is_empty());
    assert!(a.on_frame(&mut state, text(Protocol::Identify { id: 5, username: "z".into() })).is_empty());
    assert!(a.on_frame(&mut state, Inbound::Unreadable).is_empty());
    assert_eq!(a.username, "A");
    assert_eq!(a.phase, Phase::Active);
}

#[test]
fn disconnect_unregisters_and_announces() {
    let mut state = AppState::new("t".to_string());
    let mut a = Session::new(1);
    let mut b = Session::new(2);
    a.on_frame(&mut state, login("A"));
    b.on_frame(&mut state, login("B"));
    let out = a.on_frame(&mut state, Inbound::NonText);
    assert_eq!(a.phase, Phase::Closed);
    assert!(!state.has_peer(1));
    match &out[..] {
        [Outbound::Broadcast(Protocol::PeerList { peers })] => {
            assert_eq!(peers.len(), 1);
            assert_eq!(peers[0].id, 2);
        }
        other => panic!("{:?}", other),
    }
    assert!(a.on_frame(&mut state, login("A")).is_empty());
    let out = b.close(&mut state);
    assert_eq!(out, vec![Outbound::Broadcast(Protocol::PeerList { peers: vec![] })]);
}

#[test]
fn opened_sessions_carry_version_four_ids() {
    let a = Session::open();
    let b = Session::open();
    assert_eq!((a.id >> 76) & 0xf, 4);
    assert_eq!((b.id >> 76) & 0xf, 4);
    assert_ne!(a.id, b.id);
    assert_eq!(a.phase, Phase::Handshake);
    assert_eq!(a.channel, "lobby");
}

#[test]
fn login_trims_unicode_whitespace_only() {
    let mut state = AppState::new("t".to_string());
    let mut s = Session::new(3);
    s.on_frame(&mut state, login("\u{85}\u{a0}Zoë\u{2009}\u{200b}\u{a0}"));
    assert_eq!(s.username, "Zoë\u{2009}\u{200b}");
}

#[test]
fn everyone_gets_notices_whatever_their_channel() {
    let mut state = AppState::new("t".to_string());
    let mut a = Session::new(1);
    a.on_frame(&mut state, login("A"));
    a.on_frame(&mut state, text(Protocol::JoinChannel { channel: "music".into() }));
    assert!(a.should_forward(&Protocol::PeerList { peers: vec![] }));
    assert!(a.should_forward(&Protocol::ScreenState { peer_id: 2, is_sharing: false }));
    assert!(!a.should_forward(&Protocol::ChatMessage { channel: "lobby".into(), author: "B".into(), content: "x".into() }));
}

#[test]
fn session_and_registry_stay_in_step() {
    let mut state = AppState::new("t".to_string());
    let mut a = Session::new(1);
    a.on_frame(&mut state, login("Ann"));
    let entry = |state: &AppState| {
        let p = state.peers.get(&1).unwrap();
        (p.username.clone(), p.channel.clone())
    };
    assert_eq!(entry(&state), ("Ann".to_string(), "lobby".to_string()));
    a.on_frame(&mut state, text(Protocol::JoinChannel { channel: "music".into() }));
    assert_eq!(entry(&state), (a.username.clone(), a.channel.clone()));
    a.on_frame(&mut state, text(Protocol::ScreenState { peer_id: 1, is_sharing: true }));
    assert_eq!(entry(&state), (a.username.clone(), "music".to_string()));
}
