use discidium::api::model::{
    Decode, DecodeError, Event, ReadyEvent, ReadyState, Status, UserId, WrappedValue,
};
use discidium::api::state::State;

fn json(text: &str) -> serde_json::Value {
    serde_json::from_str(text).unwrap()
}

fn user(id: &str, name: &str) -> String {
    format!(
        r#"{{"avatar": "a", "bio": "", "desktop": true, "discriminator": "0",
        "email": "e@example.org", "flags": 0, "id": "{}", "mfa_enabled": false,
        "mobile": false, "nsfw_allowed": false, "premium": false, "premium_type": 0,
        "pronouns": "", "purchased_flags": 0, "username": "{}", "verified": true}}"#,
        id, name
    )
}

fn ready(id: &str, name: &str, status: &str) -> String {
    format!(
        r#"{{"v": 9, "session_id": "s-{}", "user": {}, "guilds": [],
        "presences": [{{"activities": [], "client_status": {{}}, "last_modified": 1,
        "status": "{}", "user": {{"discriminator": "1", "id": "77", "username": "friend"}}}}],
        "private_channels": [], "relationships": []}}"#,
        id,
        user(id, name),
        status
    )
}

fn ready_event(body: &str) -> Event {
    Event::Ready(ReadyState {
        session_id: "ignored".to_string(),
        payload: WrappedValue(json(body)),
    })
}

#[test]
fn state_is_taken_from_the_ready_event() {
    let decoded = ReadyEvent::decode(&json(&ready("1", "ada", "online"))).unwrap();
    let state = State::new(decoded.clone());
    assert_eq!(state.presences, decoded.presences);
    assert_eq!(state.private_channels, decoded.private_channels);
    assert_eq!(state.user, decoded.user);
    assert_eq!(state.user.id, UserId(1));
    assert_eq!(state.presences[0].status, Status::Online);
}

#[test]
fn ready_event_replaces_the_state() {
    let mut state = State::new(ReadyEvent::decode(&json(&ready("1", "ada", "online"))).unwrap());
    assert_eq!(state.update(&ready_event(&ready("2", "bob", "dnd"))), Ok(()));
    assert_eq!(state.user.id, UserId(2));
    assert_eq!(state.user.username, "bob");
    assert_eq!(state.presences.len(), 1);
    assert_eq!(state.presences[0].status, Status::Dnd);
    assert!(state.private_channels.is_empty());
}

#[test]
fn ready_event_that_does_not_decode_leaves_the_state() {
    let mut state = State::new(ReadyEvent::decode(&json(&ready("1", "ada", "online"))).unwrap());
    assert_eq!(
        state.update(&ready_event(r#"{"session_id": "abc"}"#)),
        Err(DecodeError::MissingField("guilds"))
    );
    assert_eq!(
        state.update(&ready_event(&ready("2", "bob", "gone"))),
        Err(DecodeError::UnknownStatus)
    );
    assert_eq!(state.user.id, UserId(1));
    assert_eq!(state.presences[0].status, Status::Online);
}

#[test]
fn other_events_leave_the_state() {
    let mut state = State::new(ReadyEvent::decode(&json(&ready("1", "ada", "online"))).unwrap());
    let event = Event::Unknown(
        "PRESENCE_UPDATE".to_string(),
        WrappedValue(json(&ready("2", "bob", "dnd"))),
    );
    assert_eq!(state.update(&event), Ok(()));
    assert_eq!(state.user.id, UserId(1));
    assert_eq!(state.user.username, "ada");
}
