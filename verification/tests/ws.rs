use eulesia::ws::handler::{
    handle_frame, ws_upgrade, ClientMessage, Incoming, SocketAction, Upgrade, WsQuery,
};
use eulesia::ws::registry::{ConnectionRegistry, ServerMessage};
use tokio::sync::mpsc::unbounded_channel;

fn msg(text: &str) -> ServerMessage {
    ServerMessage { text: text.to_string() }
}

#[test]
fn new_registry_is_empty() {
    let r = ConnectionRegistry::new();
    assert_eq!(r.connected_count(), 0);
    assert!(!r.is_connected(1));
    let d = ConnectionRegistry::default();
    assert_eq!(d.connected_count(), 0);
}

#[test]
fn register_then_send_reaches_the_device() {
    let mut r = ConnectionRegistry::new();
    let (tx, mut rx) = unbounded_channel();
    r.register(1, tx);
    assert!(r.is_connected(1));
    assert_eq!(r.connected_count(), 1);
    assert!(r.send_to_device(1, msg("hello")));
    assert_eq!(rx.try_recv().unwrap().text, "hello");
}

#[test]
fn sending_to_an_unknown_device_fails() {
    let r = ConnectionRegistry::new();
    assert!(!r.send_to_device(3, msg("nobody")));
}

#[test]
fn sending_to_a_closed_connection_fails() {
    let mut r = ConnectionRegistry::new();
    let (tx, rx) = unbounded_channel();
    r.register(1, tx);
    drop(rx);
    assert!(r.is_connected(1));
    assert!(!r.send_to_device(1, msg("late")));
}

#[test]
fn unregister_disconnects_only_that_device() {
    let mut r = ConnectionRegistry::new();
    let (tx1, _rx1) = unbounded_channel();
    let (tx2, _rx2) = unbounded_channel();
    r.register(1, tx1);
    r.register(2, tx2);
    assert_eq!(r.connected_count(), 2);
    r.unregister(1);
    assert!(!r.is_connected(1));
    assert!(r.is_connected(2));
    assert_eq!(r.connected_count(), 1);
    r.unregister(1);
    assert_eq!(r.connected_count(), 1);
    assert!(!r.send_to_device(1, msg("gone")));
}

#[test]
fn registering_again_replaces_the_queue() {
    let mut r = ConnectionRegistry::new();
    let (tx1, mut rx1) = unbounded_channel();
    let (tx2, mut rx2) = unbounded_channel();
    r.register(1, tx1);
    r.register(1, tx2);
    assert_eq!(r.connected_count(), 1);
    assert!(r.send_to_device(1, msg("new")));
    assert!(rx1.try_recv().is_err());
    assert_eq!(rx2.try_recv().unwrap().text, "new");
}

#[test]
fn user_devices_get_a_copy_each_and_others_are_skipped() {
    let mut r = ConnectionRegistry::new();
    let (tx1, mut rx1) = unbounded_channel();
    let (tx2, mut rx2) = unbounded_channel();
    let (tx3, mut rx3) = unbounded_channel();
    r.register(1, tx1);
    r.register(2, tx2);
    r.register(3, tx3);
    r.send_to_user_devices(&[1, 3, 4], &msg("note"));
    assert_eq!(rx1.try_recv().unwrap().text, "note");
    assert!(rx2.try_recv().is_err());
    assert_eq!(rx3.try_recv().unwrap().text, "note");
}

#[test]
fn unregistering_a_fresh_device_restores_the_registry() {
    let mut r = ConnectionRegistry::new();
    let (tx, _rx) = unbounded_channel();
    r.register(5, tx);
    let (tx9, _rx9) = unbounded_channel();
    r.register(9, tx9);
    r.unregister(9);
    assert!(r.is_connected(5));
    assert!(!r.is_connected(9));
    assert_eq!(r.connected_count(), 1);
}

#[test]
fn upgrade_decisions() {
    assert!(matches!(ws_upgrade(Ok(Some(8))), Upgrade::Accept { device_id: 8 }));
    match ws_upgrade(Ok(None)) {
        Upgrade::Reject { status, message } => {
            assert_eq!(status, 400);
            assert_eq!(message, "device_id required");
        },
        _ => panic!("expected a refusal"),
    }
    match ws_upgrade(Err(())) {
        Upgrade::Reject { status, message } => {
            assert_eq!(status, 401);
            assert_eq!(message, "invalid session");
        },
        _ => panic!("expected a refusal"),
    }
}

#[test]
fn ws_query_keeps_its_token() {
    let q = WsQuery::new("abc".to_string());
    assert_eq!(q.token(), "abc");
}

fn step(frame: Incoming) -> SocketAction {
    let mut r = ConnectionRegistry::new();
    handle_frame(&mut r, 1, frame)
}

#[test]
fn frames_and_what_they_do() {
    assert_eq!(step(Incoming::Text(Some(ClientMessage::Ping))), SocketAction::Continue);
    assert_eq!(
        step(Incoming::Text(Some(ClientMessage::TypingStart { conversation_id: 4 }))),
        SocketAction::TypingStarted { conversation_id: 4 }
    );
    assert_eq!(
        step(Incoming::Text(Some(ClientMessage::TypingStop { conversation_id: 4 }))),
        SocketAction::TypingStopped { conversation_id: 4 }
    );
    assert_eq!(step(Incoming::Text(None)), SocketAction::Continue);
    assert_eq!(step(Incoming::Other), SocketAction::Continue);
    assert_eq!(step(Incoming::Close), SocketAction::Disconnect);
    assert_eq!(step(Incoming::Ended), SocketAction::Disconnect);
}

#[test]
fn closing_the_socket_unregisters_the_device() {
    let mut r = ConnectionRegistry::new();
    let (tx, _rx) = unbounded_channel();
    r.register(6, tx);
    assert_eq!(handle_frame(&mut r, 6, Incoming::Text(Some(ClientMessage::Ping))), SocketAction::Continue);
    assert!(r.is_connected(6));
    assert_eq!(handle_frame(&mut r, 6, Incoming::Other), SocketAction::Continue);
    assert!(r.is_connected(6));
    assert_eq!(handle_frame(&mut r, 6, Incoming::Close), SocketAction::Disconnect);
    assert!(!r.is_connected(6));
}

#[test]
fn a_failed_stream_unregisters_the_device() {
    let mut r = ConnectionRegistry::new();
    let (tx, _rx) = unbounded_channel();
    r.register(6, tx);
    assert_eq!(handle_frame(&mut r, 6, Incoming::Ended), SocketAction::Disconnect);
    assert_eq!(r.connected_count(), 0);
}
