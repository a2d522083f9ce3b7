use discidium::api::client::gateway_url;
use discidium::api::connection::{
    inbound, Connection, Handshake, HandshakeError, Inbound, Keepalive, KeepaliveCommand, Phase,
};
use discidium::api::frame::{heartbeat_frame, identify_frame};
use discidium::api::model::{
    decode_text, receive_json, DecodeError, Event, GatewayEvent, ReadyState, ReceiveError,
    WrappedValue,
};
use discidium::api::websocket::{WsEvent, WsMessage};

fn json(text: &str) -> serde_json::Value {
    serde_json::from_str(text).unwrap()
}

fn text(frame: &str) -> WsEvent {
    WsEvent::Message(WsMessage::Text(frame.to_string()))
}

fn none() -> Vec<KeepaliveCommand> {
    vec![]
}

fn ready_state(session_id: &str) -> ReadyState {
    ReadyState {
        session_id: session_id.to_string(),
        payload: WrappedValue(json(&format!(r#"{{"session_id":"{}"}}"#, session_id))),
    }
}

#[test]
fn keepalive_starts_an_interval_before_the_first_heartbeat() {
    let machine = Keepalive::new(41250, 1_000);
    assert_eq!(
        machine,
        Keepalive { interval: 41250, next_tick_at: 42_250, last_sequence: None, running: true }
    );
    assert_eq!(Keepalive::new(1, u64::MAX).next_tick_at, u64::MAX);
}

#[test]
fn heartbeats_go_out_every_interval_within_one_poll() {
    let start = 5_000u64;
    let interval = 450usize;
    let mut machine = Keepalive::new(interval, start);
    let mut beats = vec![];
    let mut now = start;
    while now < start + 5_000 {
        now += 100;
        for frame in machine.poll(&none(), false, now) {
            assert_eq!(frame, heartbeat_frame(None));
            beats.push(now);
        }
    }
    assert_eq!(
        beats,
        vec![5_500, 5_900, 6_400, 6_800, 7_300, 7_700, 8_200, 8_600, 9_100, 9_500, 10_000]
    );
    for (m, at) in beats.iter().enumerate() {
        let due = start + (m as u64 + 1) * interval as u64;
        assert!(due <= *at && *at <= due + 100, "heartbeat {} at {}, due {}", m, at, due);
    }
}

#[test]
fn heartbeats_do_not_drift_with_uneven_polls() {
    let mut machine = Keepalive::new(1_000, 0);
    let mut beats = vec![];
    for now in [10u64, 990, 1_070, 1_500, 1_999, 2_050, 2_940, 3_030, 3_999, 4_000, 4_001] {
        if !machine.poll(&none(), false, now).is_empty() {
            beats.push(now);
        }
    }
    assert_eq!(beats, vec![1_070, 2_050, 3_030, 4_000]);
    assert_eq!(machine.next_tick_at, 5_000);
}

#[test]
fn no_heartbeat_before_the_first_is_due() {
    let mut machine = Keepalive::new(1_000, 0);
    for now in 0..1_000 {
        assert_eq!(machine.tick(now), None);
    }
    assert_eq!(machine.tick(1_000), Some(heartbeat_frame(None)));
    assert_eq!(machine.tick(1_000), None);
}

#[test]
fn heartbeat_after_update_sequence_carries_the_new_number() {
    let mut machine = Keepalive::new(1_000, 0);
    assert_eq!(machine.command(&KeepaliveCommand::UpdateSequence(4), 10), None);
    assert_eq!(machine.command(&KeepaliveCommand::UpdateSequence(9), 20), None);
    assert_eq!(machine.last_sequence, Some(9));
    assert_eq!(machine.next_tick_at, 1_000);
    let frame = machine.tick(1_000).unwrap();
    assert_eq!(frame, heartbeat_frame(Some(9)));
    assert_eq!(json(&frame), json(r#"{"op":1,"d":9}"#));
}

#[test]
fn update_sequence_in_the_poll_of_the_heartbeat_counts() {
    let mut machine = Keepalive::new(1_000, 0);
    machine.command(&KeepaliveCommand::UpdateSequence(1), 0);
    let frames = machine.poll(&vec![KeepaliveCommand::UpdateSequence(2)], false, 1_000);
    assert_eq!(frames, vec![heartbeat_frame(Some(2))]);
    // Also where the number goes down: the machine echoes what it is told.
    let frames = machine.poll(&vec![KeepaliveCommand::UpdateSequence(1)], false, 2_000);
    assert_eq!(frames, vec![heartbeat_frame(Some(1))]);
}

#[test]
fn send_payload_is_written_at_once_and_in_order() {
    let mut machine = Keepalive::new(1_000, 0);
    let commands = vec![
        KeepaliveCommand::SendPayload("first".to_string()),
        KeepaliveCommand::UpdateSequence(7),
        KeepaliveCommand::SendPayload("second".to_string()),
    ];
    assert_eq!(machine.poll(&commands, false, 100), vec!["first", "second"]);
    assert_eq!(
        machine.poll(&commands, false, 1_000),
        vec!["first".to_string(), "second".to_string(), heartbeat_frame(Some(7))]
    );
}

#[test]
fn change_interval_replaces_the_interval_and_the_deadline() {
    let mut machine = Keepalive::new(1_000, 0);
    assert_eq!(machine.command(&KeepaliveCommand::ChangeInterval(300), 950), None);
    assert_eq!(
        machine,
        Keepalive { interval: 300, next_tick_at: 1_250, last_sequence: None, running: true }
    );
    assert_eq!(machine.tick(1_000), None);
    assert!(machine.tick(1_250).is_some());
    assert_eq!(machine.next_tick_at, 1_550);
}

#[test]
fn abort_stops_the_heartbeats_in_the_same_poll() {
    let mut machine = Keepalive::new(1_000, 0);
    let commands = vec![
        KeepaliveCommand::SendPayload("before".to_string()),
        KeepaliveCommand::Abort,
        KeepaliveCommand::SendPayload("after".to_string()),
        KeepaliveCommand::UpdateSequence(5),
        KeepaliveCommand::ChangeInterval(1),
    ];
    // A heartbeat is due at 1000, and still none is written.
    assert_eq!(machine.poll(&commands, false, 1_000), vec!["before"]);
    assert_eq!(
        machine,
        Keepalive { interval: 1_000, next_tick_at: 1_000, last_sequence: None, running: false }
    );
    for now in [1_000u64, 1_100, 2_000, 100_000, u64::MAX] {
        assert!(machine.poll(&commands, false, now).is_empty());
        assert_eq!(machine.tick(now), None);
    }
    assert!(!machine.running);
}

#[test]
fn closed_command_channel_stops_the_heartbeats_like_abort() {
    let mut machine = Keepalive::new(1_000, 0);
    let last = vec![KeepaliveCommand::SendPayload("last words".to_string())];
    assert_eq!(machine.poll(&last, true, 1_000), vec!["last words"]);
    assert!(!machine.running);
    assert!(machine.poll(&none(), false, 5_000).is_empty());
    let mut machine = Keepalive::new(1_000, 0);
    machine.close();
    assert!(!machine.running);
    assert_eq!(machine.tick(5_000), None);
}

#[test]
fn handshake_walks_through_its_phases() {
    let mut handshake = Handshake::new("wss://example/gateway", "t0k3n", "linux");
    assert_eq!(handshake.phase, Phase::AwaitingOpen);
    assert_eq!(handshake.url, "wss://example/gateway");
    assert_eq!(handshake.identify, identify_frame("t0k3n", "linux"));

    let frame = handshake.opened(&WsEvent::Opened).unwrap();
    assert_eq!(frame, identify_frame("t0k3n", "linux"));
    assert_eq!(handshake.phase, Phase::AwaitingHello);

    let hello = receive_json(&text(r#"{"op":10,"d":{"heartbeat_interval":41250}}"#));
    assert_eq!(handshake.greeted(hello).unwrap(), 41250);
    assert_eq!(handshake.phase, Phase::AwaitingReady);

    let ready = decode_text(r#"{"op":0,"s":1,"t":"READY","d":{"session_id":"abc"}}"#).unwrap();
    let (connection, state) = handshake.readied(ready).unwrap();
    assert_eq!(handshake.phase, Phase::Established);
    assert_eq!(state.session_id, "abc");
    assert_eq!(state.payload.0, json(r#"{"session_id":"abc"}"#));
    assert_eq!(connection.session_id, Some("abc".to_string()));
    assert_eq!(connection.last_sequence, 1);
    assert_eq!(connection.identify, identify_frame("t0k3n", "linux"));
    assert_eq!(connection.ws_url, "wss://example/gateway");
}

#[test]
fn handshake_fails_when_the_socket_does_not_open() {
    for event in [WsEvent::Closed, WsEvent::Error("refused".to_string()), text(r#"{"op":10}"#)] {
        let mut handshake = Handshake::new("u", "t", "o");
        assert!(matches!(handshake.opened(&event), Err(HandshakeError::NotOpened)));
        assert_eq!(handshake.phase, Phase::Failed);
    }
}

#[test]
fn handshake_fails_when_the_first_frame_is_no_hello() {
    for frame in [
        r#"{"op":11}"#,
        r#"{"op":0,"s":1,"t":"READY","d":{"session_id":"abc"}}"#,
        r#"{"op":9}"#,
    ] {
        let mut handshake = Handshake::new("u", "t", "o");
        handshake.opened(&WsEvent::Opened).unwrap();
        assert!(matches!(
            handshake.greeted(receive_json(&text(frame))),
            Err(HandshakeError::ExpectedHello)
        ));
        assert_eq!(handshake.phase, Phase::Failed);
    }
}

#[test]
fn handshake_fails_when_the_first_frame_does_not_decode() {
    let mut handshake = Handshake::new("u", "t", "o");
    handshake.opened(&WsEvent::Opened).unwrap();
    assert!(matches!(
        handshake.greeted(receive_json(&text(r#"{"op":99}"#))),
        Err(HandshakeError::Receive(ReceiveError::Decode(DecodeError::UnexpectedOpcode)))
    ));
    assert_eq!(handshake.phase, Phase::Failed);
    let mut handshake = Handshake::new("u", "t", "o");
    handshake.opened(&WsEvent::Opened).unwrap();
    assert!(matches!(
        handshake.greeted(receive_json(&WsEvent::Closed)),
        Err(HandshakeError::Receive(ReceiveError::Closed))
    ));
}

fn awaiting_ready() -> Handshake {
    let mut handshake = Handshake::new("u", "t", "o");
    handshake.opened(&WsEvent::Opened).unwrap();
    handshake.greeted(Ok(GatewayEvent::Hello(10))).unwrap();
    handshake
}

#[test]
fn handshake_fails_when_the_session_is_invalidated() {
    let mut handshake = awaiting_ready();
    assert!(matches!(
        handshake.readied(GatewayEvent::InvalidateSession),
        Err(HandshakeError::SessionInvalidated)
    ));
    assert_eq!(handshake.phase, Phase::Failed);
}

#[test]
fn handshake_fails_when_anything_else_comes_before_ready() {
    let others = vec![
        GatewayEvent::HeartbeatAck,
        GatewayEvent::Heartbeat(1),
        GatewayEvent::Reconnect,
        GatewayEvent::Hello(10),
        GatewayEvent::Dispatch(
            1,
            Event::Unknown("GUILD_CREATE".to_string(), WrappedValue(json("{}"))),
        ),
    ];
    for event in others {
        let mut handshake = awaiting_ready();
        assert!(matches!(handshake.readied(event), Err(HandshakeError::ExpectedReady)));
        assert_eq!(handshake.phase, Phase::Failed);
    }
}

#[test]
fn handshake_steps_out_of_order_change_nothing() {
    let mut handshake = Handshake::new("u", "t", "o");
    assert!(matches!(
        handshake.greeted(Ok(GatewayEvent::Hello(10))),
        Err(HandshakeError::OutOfOrder)
    ));
    assert!(matches!(
        handshake.readied(GatewayEvent::Dispatch(1, Event::Ready(ready_state("abc")))),
        Err(HandshakeError::OutOfOrder)
    ));
    assert_eq!(handshake.phase, Phase::AwaitingOpen);
    handshake.opened(&WsEvent::Opened).unwrap();
    assert!(matches!(handshake.opened(&WsEvent::Opened), Err(HandshakeError::OutOfOrder)));
    assert_eq!(handshake.phase, Phase::AwaitingHello);
    let mut done = awaiting_ready();
    done.readied(GatewayEvent::Dispatch(1, Event::Ready(ready_state("abc")))).unwrap();
    assert!(matches!(done.opened(&WsEvent::Opened), Err(HandshakeError::OutOfOrder)));
    assert!(matches!(
        done.readied(GatewayEvent::Dispatch(2, Event::Ready(ready_state("abc")))),
        Err(HandshakeError::OutOfOrder)
    ));
    assert_eq!(done.phase, Phase::Established);
}

#[test]
fn connection_sequence_only_moves_up() {
    let mut connection = Connection::new("wss://x", "identify".to_string(), 3, &ready_state("abc"));
    assert_eq!(connection.last_sequence, 3);
    let unknown = |s| {
        GatewayEvent::Dispatch(s, Event::Unknown("X".to_string(), WrappedValue(json("1"))))
    };
    assert!(matches!(connection.observe(&unknown(4)), Some(KeepaliveCommand::UpdateSequence(4))));
    assert_eq!(connection.last_sequence, 4);
    assert!(connection.observe(&unknown(4)).is_none());
    assert!(connection.observe(&unknown(2)).is_none());
    assert_eq!(connection.last_sequence, 4);
    assert!(matches!(
        connection.observe(&GatewayEvent::Heartbeat(10)),
        Some(KeepaliveCommand::UpdateSequence(10))
    ));
    assert_eq!(connection.last_sequence, 10);
    for event in [
        GatewayEvent::HeartbeatAck,
        GatewayEvent::Reconnect,
        GatewayEvent::InvalidateSession,
        GatewayEvent::Hello(99),
    ] {
        assert!(connection.observe(&event).is_none());
        assert_eq!(connection.last_sequence, 10);
    }
    assert_eq!(connection.session_id, Some("abc".to_string()));
    assert_eq!(connection.identify, "identify");
    assert_eq!(connection.ws_url, "wss://x");
}

#[test]
fn session_opens_end_to_end() {
    // The REST answer names the gateway.
    let url = gateway_url(&json(r#"{"url":"wss://example/gateway"}"#)).unwrap();
    assert_eq!(url, "wss://example/gateway");

    // The socket opens; the identify frame goes out.
    let mut handshake = Handshake::new(&url, "t0k3n", "linux");
    let identify = handshake.opened(&WsEvent::Opened).unwrap();
    assert_eq!(json(&identify)["op"], 2);
    assert_eq!(json(&identify)["d"]["token"], "t0k3n");

    // The gateway says hello; the keepalive loop starts.
    let started_at = 1_000u64;
    let hello = receive_json(&text(r#"{"op":10,"d":{"heartbeat_interval":10}}"#));
    let interval = handshake.greeted(hello).unwrap();
    assert_eq!(interval, 10);
    let mut keepalive = Keepalive::new(interval, started_at);

    // The gateway says that the session is ready.
    let ready = receive_json(&text(r#"{"op":0,"s":1,"t":"READY","d":{"session_id":"abc"}}"#));
    let (mut connection, state) = handshake.readied(ready.unwrap()).unwrap();
    assert_eq!(state.session_id, "abc");
    assert_eq!(connection.session_id.as_deref(), Some("abc"));
    assert_eq!(connection.last_sequence, 1);

    // The loop polls every 100 ms: the first poll finds the heartbeat due.
    let to_loop = vec![KeepaliveCommand::UpdateSequence(connection.last_sequence)];
    let frames = keepalive.poll(&to_loop, false, started_at + 100);
    assert_eq!(frames.len(), 1);
    assert_eq!(json(&frames[0]), json(r#"{"op":1,"d":1}"#));

    // A later dispatch moves the sequence on, and the heartbeats follow.
    let next = decode_text(r#"{"op":0,"s":2,"t":"TYPING_START","d":{}}"#).unwrap();
    let command = connection.observe(&next).unwrap();
    let frames = keepalive.poll(&vec![command], false, started_at + 200);
    assert_eq!(frames, vec![heartbeat_frame(Some(2))]);
}

#[test]
fn reading_side_forwards_drops_or_ends() {
    assert!(matches!(
        inbound(receive_json(&text(r#"{"op":11}"#))),
        Inbound::Forward(GatewayEvent::HeartbeatAck)
    ));
    assert!(matches!(
        inbound(receive_json(&text(r#"{"op":99}"#))),
        Inbound::Drop(ReceiveError::Decode(DecodeError::UnexpectedOpcode))
    ));
    assert!(matches!(
        inbound(receive_json(&WsEvent::Message(WsMessage::Ping(vec![])))),
        Inbound::Drop(ReceiveError::UnsupportedMessage)
    ));
    assert!(matches!(
        inbound(receive_json(&WsEvent::Opened)),
        Inbound::Drop(ReceiveError::UnexpectedOpen)
    ));
    assert!(matches!(inbound(receive_json(&WsEvent::Closed)), Inbound::End(ReceiveError::Closed)));
    match inbound(receive_json(&WsEvent::Error("broken pipe".to_string()))) {
        Inbound::End(ReceiveError::Transport(reason)) => assert_eq!(reason, "broken pipe"),
        other => panic!("{:?}", other),
    }
}
