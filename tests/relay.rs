use backend::message::{DecodeError, Delivery, MessageKind, WSMessage};
use backend::registry::Registry;
use backend::relay::{HandshakeReply, Relay, UNKNOWN_TYPE_NOTICE};

fn msg(kind: &str, from: &str, to: &str, data: &str) -> WSMessage {
    WSMessage {
        msg_type: kind.to_string(),
        from: from.to_string(),
        to: to.to_string(),
        data: data.to_string(),
    }
}

fn frame_of(m: &WSMessage) -> String {
    format!(
        "{{\"type\":\"{}\",\"from\":\"{}\",\"to\":\"{}\",\"data\":\"{}\"}}",
        m.msg_type, m.from, m.to, m.data
    )
}

fn targets(ds: &[Delivery]) -> Vec<(String, u32)> {
    let mut t: Vec<(String, u32)> = ds.iter().map(|d| (d.user.clone(), d.conn)).collect();
    t.sort();
    t
}

fn relay_with(users: &[(&str, u32)]) -> Relay {
    let mut r = Relay::new();
    for (u, c) in users {
        r.on_open(&format!("/api/ws?user_id={}", u), *c);
    }
    r
}

#[test]
fn broadcast_reaches_every_registered_connection() {
    let r = relay_with(&[("alice", 1), ("bob", 2), ("carol", 3)]);
    let m = msg("broadcast", "alice", "", "hello all");
    let frame = frame_of(&m);
    let d = r.on_message(&frame, Ok(m));
    assert!(d.persist.is_none());
    assert_eq!(
        targets(&d.deliveries),
        vec![("alice".to_string(), 1), ("bob".to_string(), 2), ("carol".to_string(), 3)]
    );
    assert!(d.deliveries.iter().all(|x| x.frame == frame));
}

#[test]
fn chat_between_two_registered_users() {
    let r = relay_with(&[("A", 10), ("B", 20)]);
    let m = msg("chat", "A", "B", "hi B");
    let frame = frame_of(&m);
    let d = r.on_message(&frame, Ok(m));
    let rec = d.persist.expect("a chat is stored");
    assert_eq!((rec.from.as_str(), rec.to.as_str(), rec.content.as_str()), ("A", "B", "hi B"));
    assert_eq!(d.deliveries.len(), 2);
    assert_eq!((d.deliveries[0].user.as_str(), d.deliveries[0].conn), ("A", 10));
    assert_eq!((d.deliveries[1].user.as_str(), d.deliveries[1].conn), ("B", 20));
    assert!(d.deliveries.iter().all(|x| x.frame == frame));
}

#[test]
fn chat_to_offline_receiver_echoes_sender_only() {
    let r = relay_with(&[("A", 10)]);
    let m = msg("chat", "A", "C", "are you there");
    let frame = frame_of(&m);
    let d = r.on_message(&frame, Ok(m));
    let rec = d.persist.expect("a chat is stored");
    assert_eq!(
        (rec.from.as_str(), rec.to.as_str(), rec.content.as_str()),
        ("A", "C", "are you there")
    );
    assert_eq!(d.deliveries.len(), 1);
    assert_eq!((d.deliveries[0].user.as_str(), d.deliveries[0].conn), ("A", 10));
    assert_eq!(d.deliveries[0].frame, frame);
}

#[test]
fn chat_from_unregistered_sender_is_not_delivered() {
    let r = relay_with(&[("B", 20)]);
    let m = msg("chat", "X", "B", "hello");
    let d = r.on_message(&frame_of(&m), Ok(m));
    assert!(d.deliveries.is_empty());
    assert!(d.persist.is_some());
}

#[test]
fn keep_alive_goes_back_to_sender_only() {
    let r = relay_with(&[("U", 5), ("V", 6)]);
    let m = msg("keep-alive", "U", "V", "");
    let frame = frame_of(&m);
    let d = r.on_message(&frame, Ok(m));
    assert!(d.persist.is_none());
    assert_eq!(d.deliveries.len(), 1);
    assert_eq!((d.deliveries[0].user.as_str(), d.deliveries[0].conn), ("U", 5));
    assert_eq!(d.deliveries[0].frame, frame);
}

#[test]
fn keep_alive_from_unregistered_user_goes_nowhere() {
    let r = relay_with(&[("V", 6)]);
    let m = msg("keep-alive", "U", "", "");
    let d = r.on_message(&frame_of(&m), Ok(m));
    assert!(d.deliveries.is_empty());
    assert!(d.persist.is_none());
}

#[test]
fn invalid_frame_is_dropped_and_connection_keeps_working() {
    let mut r = relay_with(&[("A", 1), ("B", 2)]);
    let before = r.connection_count();
    let bad = r.on_message(
        "not json",
        Err(DecodeError { detail: "expected value".to_string() }),
    );
    assert!(bad.deliveries.is_empty());
    assert!(bad.persist.is_none());
    assert_eq!(r.connection_count(), before);
    let m = msg("chat", "A", "B", "after");
    let d = r.on_message(&frame_of(&m), Ok(m));
    assert_eq!(d.deliveries.len(), 2);
    assert!(d.persist.is_some());
    r.on_close();
    assert_eq!(r.connection_count(), before - 1);
}

#[test]
fn unknown_type_broadcasts_notice() {
    let r = relay_with(&[("A", 1), ("B", 2)]);
    let m = msg("typing", "A", "B", "x");
    let d = r.on_message(&frame_of(&m), Ok(m));
    assert!(d.persist.is_none());
    assert_eq!(targets(&d.deliveries), vec![("A".to_string(), 1), ("B".to_string(), 2)]);
    assert!(d.deliveries.iter().all(|x| x.frame == UNKNOWN_TYPE_NOTICE));
    assert_eq!(UNKNOWN_TYPE_NOTICE, "Type unknown");
}

#[test]
fn second_registration_supersedes_first() {
    let mut r = relay_with(&[("A", 1), ("S", 7)]);
    r.on_open("/api/ws?user_id=S", 8);
    assert_eq!(r.lookup("S"), Some(8));
    assert_eq!(r.connection_count(), 3);
    let m = msg("chat", "A", "S", "to the new one");
    let d = r.on_message(&frame_of(&m), Ok(m));
    assert_eq!(d.deliveries.len(), 2);
    assert_eq!((d.deliveries[1].user.as_str(), d.deliveries[1].conn), ("S", 8));
    assert!(d.deliveries.iter().all(|x| x.conn != 7));
}

#[test]
fn close_decrements_counter_and_keeps_registration() {
    let mut r = relay_with(&[("A", 1), ("B", 2)]);
    assert_eq!(r.connection_count(), 2);
    r.on_close();
    assert_eq!(r.connection_count(), 1);
    assert_eq!(r.lookup("A"), Some(1));
    assert_eq!(r.lookup("B"), Some(2));
}

#[test]
fn handshake_path_must_contain_endpoint() {
    let r = Relay::new();
    assert_eq!(r.on_request("/api/ws?user_id=7"), HandshakeReply::Upgrade);
    assert_eq!(r.on_request("/v1/api/ws"), HandshakeReply::Upgrade);
    assert_eq!(r.on_request("/api/w"), HandshakeReply::NotFound);
    assert_eq!(r.on_request("/"), HandshakeReply::NotFound);
    assert_eq!(r.on_request(""), HandshakeReply::NotFound);
}

#[test]
fn open_registers_identity_from_last_token() {
    let mut r = Relay::new();
    assert_eq!(r.on_open("/api/ws?user_id=42", 1), "42");
    assert_eq!(r.on_open("/api/ws", 2), "/api/ws");
    assert_eq!(r.on_open("/api/ws?a=1?name", 3), "name");
    assert_eq!(r.on_open("/api/ws?id=", 4), "");
    assert_eq!(r.lookup("42"), Some(1));
    assert_eq!(r.lookup("/api/ws"), Some(2));
    assert_eq!(r.lookup("name"), Some(3));
    assert_eq!(r.lookup(""), Some(4));
    assert_eq!(r.lookup("user_id"), None);
    assert_eq!(r.connection_count(), 4);
}

#[test]
fn message_kind_classification() {
    assert_eq!(MessageKind::classify("broadcast"), MessageKind::Broadcast);
    assert_eq!(MessageKind::classify("chat"), MessageKind::Chat);
    assert_eq!(MessageKind::classify("keep-alive"), MessageKind::KeepAlive);
    assert_eq!(MessageKind::classify("Chat"), MessageKind::Unknown);
    assert_eq!(MessageKind::classify(""), MessageKind::Unknown);
    assert_eq!(msg("chat", "a", "b", "c").kind(), MessageKind::Chat);
}

#[test]
fn registry_register_lookup_and_broadcast() {
    let mut reg = Registry::new();
    assert_eq!(reg.len(), 0);
    assert!(reg.broadcast_all("x").is_empty());
    reg.register("a", 1);
    reg.register("b", 2);
    reg.register("a", 3);
    assert_eq!(reg.len(), 2);
    assert_eq!(reg.lookup("a"), Some(3));
    assert_eq!(reg.lookup("b"), Some(2));
    assert_eq!(reg.lookup("c"), None);
    let ds = reg.broadcast_all("ping");
    assert_eq!(targets(&ds), vec![("a".to_string(), 3), ("b".to_string(), 2)]);
    assert!(ds.iter().all(|d| d.frame == "ping"));
}
