use chat_websockets::protocol::{format_line, parse_frame, trim_str, Frame};
use chat_websockets::server::ChatServer;
use chat_websockets::session::{
    FrameEffect, Phase, Tick, WsChatSession, CLIENT_TIMEOUT, HEARTBEAT_INTERVAL,
};

/// Feeds a frame to a session and, for a `text` frame, broadcasts it.
fn send(server: &mut ChatServer, session: &mut WsChatSession, frame: &str) -> bool {
    match session.handle_text(frame) {
        FrameEffect::Forward(m) => {
            server.client_message(m.session_id, &m.message, &m.name);
            true
        }
        _ => false,
    }
}

fn active(server: &mut ChatServer, now: u64) -> WsChatSession {
    let mut s = WsChatSession::new(now);
    let id = server.join();
    assert!(s.started(id));
    s
}

#[test]
fn parse_text_frame() {
    match parse_frame("text:hello") {
        Frame::Text(t) => assert_eq!(t, "hello"),
        _ => panic!("expected text"),
    }
}

#[test]
fn parse_keeps_colons_in_payload() {
    match parse_frame("  text:a:b: c \n") {
        Frame::Text(t) => assert_eq!(t, "a:b: c \n"),
        _ => panic!("expected text"),
    }
}

#[test]
fn text_payload_is_verbatim() {
    match parse_frame("text:hi ") {
        Frame::Text(t) => assert_eq!(t, "hi "),
        _ => panic!("expected text"),
    }
    match parse_frame("text: ") {
        Frame::Text(t) => assert_eq!(t, " "),
        _ => panic!("expected text"),
    }
}

#[test]
fn parse_name_frames() {
    match parse_frame("name:  Alice ") {
        Frame::Name(Some(n)) => assert_eq!(n, "Alice"),
        _ => panic!("expected a name"),
    }
    assert!(matches!(parse_frame("name:   "), Frame::Name(None)));
    assert!(matches!(parse_frame("name:"), Frame::Name(None)));
}

#[test]
fn parse_unknown_and_malformed() {
    match parse_frame("foo:bar") {
        Frame::Unknown(c) => assert_eq!(c, "foo"),
        _ => panic!("expected unknown"),
    }
    assert!(matches!(parse_frame("nocolonhere"), Frame::Malformed));
    assert!(matches!(parse_frame(""), Frame::Malformed));
    match parse_frame("Text:x") {
        Frame::Unknown(c) => assert_eq!(c, "Text"),
        _ => panic!("commands are case sensitive"),
    }
}

#[test]
fn trim_handles_unicode_space() {
    assert_eq!(trim_str("\u{3000}\t hi there \u{a0}\r\n"), "hi there");
    assert_eq!(trim_str(" \t "), "");
    assert_eq!(trim_str("x"), "x");
}

#[test]
fn format_line_with_and_without_name() {
    assert_eq!(format_line(&Some("Alice".to_string()), "hi"), "Alice: hi");
    assert_eq!(format_line(&None, "hi"), "anonymous: hi");
    assert_eq!(format_line(&None, ""), "anonymous: ");
}

#[test]
fn join_assigns_distinct_ids() {
    let mut server = ChatServer::new();
    let a = server.join().unwrap();
    let b = server.join().unwrap();
    let c = server.join().unwrap();
    assert_eq!((a, b, c), (1, 2, 3));
    server.disconnect(b);
    let d = server.join().unwrap();
    assert!(d != a && d != c && d != b);
    assert_eq!(server.session_ids(), vec![a, c, d]);
}

#[test]
fn broadcast_reaches_everyone_once() {
    let mut server = ChatServer::new();
    let a = server.join().unwrap();
    let b = server.join().unwrap();
    server.client_message(a, "hey", &None);
    assert_eq!(server.take_pending(a), vec!["anonymous: hey"]);
    assert_eq!(server.take_pending(b), vec!["anonymous: hey"]);
    assert!(server.take_pending(a).is_empty());
    assert!(server.take_pending(b).is_empty());
}

#[test]
fn broadcasts_keep_their_order() {
    let mut server = ChatServer::new();
    let a = server.join().unwrap();
    let b = server.join().unwrap();
    server.client_message(a, "first", &Some("A".to_string()));
    server.client_message(b, "second", &Some("B".to_string()));
    assert_eq!(server.take_pending(a), vec!["A: first", "B: second"]);
    assert_eq!(server.take_pending(b), vec!["A: first", "B: second"]);
}

#[test]
fn disconnect_is_idempotent() {
    let mut server = ChatServer::new();
    let a = server.join().unwrap();
    let b = server.join().unwrap();
    server.disconnect(a);
    assert_eq!(server.session_ids(), vec![b]);
    server.disconnect(a);
    assert_eq!(server.session_ids(), vec![b]);
    server.disconnect(99);
    assert_eq!(server.session_ids(), vec![b]);
}

#[test]
fn take_pending_of_unknown_session_is_empty() {
    let mut server = ChatServer::new();
    let a = server.join().unwrap();
    server.client_message(a, "x", &None);
    assert!(server.take_pending(7).is_empty());
    assert_eq!(server.take_pending(a), vec!["anonymous: x"]);
}

#[test]
fn silent_session_times_out_and_leaves() {
    let mut server = ChatServer::new();
    let mut s = active(&mut server, 1000);
    let other = server.join().unwrap();
    let mut now = 1000;
    loop {
        now += HEARTBEAT_INTERVAL;
        if s.heartbeat(now) == Tick::TimedOut {
            break;
        }
    }
    assert!(now - 1000 > CLIENT_TIMEOUT);
    assert!(now <= 1000 + CLIENT_TIMEOUT + HEARTBEAT_INTERVAL);
    assert_eq!(s.phase, Phase::Closing);
    let d = s.stopping().unwrap();
    server.disconnect(d.id);
    assert_eq!(server.session_ids(), vec![other]);
    assert!(s.stopping().is_none());
    assert_eq!(s.phase, Phase::Terminated);
}

#[test]
fn liveness_keeps_session_alive() {
    let mut server = ChatServer::new();
    let mut s = active(&mut server, 0);
    assert_eq!(s.heartbeat(CLIENT_TIMEOUT), Tick::Ping);
    s.liveness(9000);
    assert_eq!(s.heartbeat(9000 + CLIENT_TIMEOUT), Tick::Ping);
    assert_eq!(s.heartbeat(9001 + CLIENT_TIMEOUT), Tick::TimedOut);
    assert_eq!(s.heartbeat(5), Tick::Ping);
}

#[test]
fn failed_join_terminates_with_one_disconnect() {
    let mut s = WsChatSession::new(0);
    assert!(!s.started(None));
    assert_eq!(s.phase, Phase::Closing);
    let d = s.stopping().unwrap();
    assert_eq!(d.id, 0);
    assert!(d.name.is_none());
    assert!(s.stopping().is_none());
}

#[test]
fn failed_join_leaves_other_sessions_registered() {
    let mut server = ChatServer::new();
    let first = active(&mut server, 0);
    assert!(first.id != 0);
    let mut failed = WsChatSession::new(0);
    assert!(!failed.started(None));
    let d = failed.stopping().unwrap();
    server.disconnect(d.id);
    assert_eq!(server.session_ids(), vec![first.id]);
}

#[test]
fn frames_are_ignored_unless_active() {
    let mut s = WsChatSession::new(0);
    assert!(matches!(s.handle_text("text:early"), FrameEffect::Ignored));
    assert!(matches!(s.handle_text("name:Early"), FrameEffect::Ignored));
    assert!(s.name.is_none());
    assert!(s.started(Some(4)));
    s.close();
    assert!(matches!(s.handle_text("text:late"), FrameEffect::Ignored));
}

#[test]
fn peer_close_then_stop() {
    let mut server = ChatServer::new();
    let mut s = active(&mut server, 0);
    assert!(!send(&mut server, &mut s, "name:Zed"));
    s.close();
    assert_eq!(s.phase, Phase::Closing);
    let d = s.stopping().unwrap();
    assert_eq!(d.name.as_deref(), Some("Zed"));
}

#[test]
fn name_then_text_round_trip() {
    let mut server = ChatServer::new();
    let mut a = active(&mut server, 0);
    let b = active(&mut server, 0);
    assert!(!send(&mut server, &mut a, "name:Alice"));
    assert!(send(&mut server, &mut a, "text:hi"));
    assert_eq!(server.take_pending(b.id), vec!["Alice: hi"]);
    assert_eq!(server.take_pending(a.id), vec!["Alice: hi"]);
}

#[test]
fn text_without_name_is_anonymous() {
    let mut server = ChatServer::new();
    let mut a = active(&mut server, 0);
    let b = active(&mut server, 0);
    assert!(send(&mut server, &mut a, "text:hi"));
    assert_eq!(server.take_pending(b.id), vec!["anonymous: hi"]);
}

#[test]
fn empty_name_clears_name() {
    let mut server = ChatServer::new();
    let mut a = active(&mut server, 0);
    send(&mut server, &mut a, "name:Alice");
    assert_eq!(a.name.as_deref(), Some("Alice"));
    send(&mut server, &mut a, "name:   ");
    assert!(a.name.is_none());
    send(&mut server, &mut a, "text:x");
    assert_eq!(server.take_pending(a.id), vec!["anonymous: x"]);
}

#[test]
fn malformed_frame_changes_nothing() {
    let mut server = ChatServer::new();
    let mut a = active(&mut server, 0);
    let b = active(&mut server, 0);
    let before = server.session_ids();
    assert!(matches!(a.handle_text("nocolonhere"), FrameEffect::Dropped));
    assert_eq!(server.session_ids(), before);
    assert!(server.take_pending(a.id).is_empty());
    assert!(server.take_pending(b.id).is_empty());
    assert!(a.name.is_none());
    assert_eq!(a.phase, Phase::Active);
}

#[test]
fn unknown_command_changes_nothing() {
    let mut server = ChatServer::new();
    let mut a = active(&mut server, 0);
    let b = active(&mut server, 0);
    let before = server.session_ids();
    match a.handle_text("foo:bar") {
        FrameEffect::Unsupported(c) => assert_eq!(c, "foo"),
        _ => panic!("expected an unsupported command"),
    }
    assert_eq!(server.session_ids(), before);
    assert!(server.take_pending(a.id).is_empty());
    assert!(server.take_pending(b.id).is_empty());
    assert_eq!(a.phase, Phase::Active);
}

#[test]
fn late_joiner_gets_no_replay() {
    let mut server = ChatServer::new();
    let mut a = active(&mut server, 0);
    send(&mut server, &mut a, "name:Bob");
    send(&mut server, &mut a, "text:hello");
    let b = active(&mut server, 0);
    assert!(server.take_pending(b.id).is_empty());
    assert_eq!(server.take_pending(a.id), vec!["Bob: hello"]);
    send(&mut server, &mut a, "text:again");
    assert_eq!(server.take_pending(b.id), vec!["Bob: again"]);
}

#[test]
fn many_joins_give_distinct_nonzero_ids() {
    let mut server = ChatServer::new();
    let mut ids = Vec::new();
    for _ in 0..50 {
        ids.push(server.join().unwrap());
    }
    server.disconnect(ids[10]);
    ids.remove(10);
    ids.push(server.join().unwrap());
    for (i, a) in ids.iter().enumerate() {
        assert!(*a != 0);
        for b in &ids[i + 1..] {
            assert!(a != b);
        }
    }
    assert_eq!(server.session_ids(), ids);
}
