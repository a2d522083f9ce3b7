//! The frames that the client writes to the gateway.

use crate::api::json::{
    bool_value, distinct_keys, entries_of, json_of, json_text, null_value, number_value,
    object_value, print, text_value, Json, JsonNumber,
};
use crate::api::USER_AGENT;
use vstd::prelude::*;

verus! {

/// The opcode of a heartbeat.
pub const OP_HEARTBEAT: u64 = 1;

/// The opcode of an identify frame.
pub const OP_IDENTIFY: u64 = 2;

/// The number of members above which the gateway leaves the offline members
/// of a server out.
pub const LARGE_THRESHOLD: u64 = 50;

/// What a heartbeat carries: the last sequence number seen, or `null`
/// where none was.
pub open spec fn sequence_json(sequence: Option<usize>) -> Json {
    match sequence {
        Some(n) => Json::Number(JsonNumber::Unsigned(n as u64)),
        None => Json::Null,
    }
}

/// The heartbeat frame: `{"op":1,"d":<sequence>}`.
pub open spec fn heartbeat_json(sequence: Option<usize>) -> Json {
    Json::object_of(
        seq![
            ("op"@, Json::Number(JsonNumber::Unsigned(OP_HEARTBEAT))),
            ("d"@, sequence_json(sequence)),
        ],
    )
}

/// The text of the heartbeat frame.
pub open spec fn heartbeat_text(sequence: Option<usize>) -> Seq<char> {
    json_text(heartbeat_json(sequence))
}

/// The properties by which the client describes itself.
pub open spec fn properties_json(os: Seq<char>) -> Json {
    Json::object_of(
        seq![
            ("os"@, Json::Text(os)),
            ("browser"@, Json::Text(USER_AGENT@)),
            ("device"@, Json::Text(USER_AGENT@)),
        ],
    )
}

/// The body of the identify frame.
pub open spec fn identity_json(token: Seq<char>, os: Seq<char>) -> Json {
    Json::object_of(
        seq![
            ("token"@, Json::Text(token)),
            ("properties"@, properties_json(os)),
            ("large_threshold"@, Json::Number(JsonNumber::Unsigned(LARGE_THRESHOLD))),
            ("compress"@, Json::Bool(true)),
        ],
    )
}

/// The identify frame: `{"op":2,"d":{..}}` with the token, the client's
/// properties, the large threshold and the wish for compressed frames.
pub open spec fn identify_json(token: Seq<char>, os: Seq<char>) -> Json {
    Json::object_of(
        seq![
            ("op"@, Json::Number(JsonNumber::Unsigned(OP_IDENTIFY))),
            ("d"@, identity_json(token, os)),
        ],
    )
}

/// The text of the identify frame.
pub open spec fn identify_text(token: Seq<char>, os: Seq<char>) -> Seq<char> {
    json_text(identify_json(token, os))
}

/// The object `{"op":<op>,"d":<body>}`.
fn envelope(op: u64, body: serde_json::Value) -> (r: serde_json::Value)
    ensures
        json_of(r) == Json::object_of(
            seq![("op"@, Json::Number(JsonNumber::Unsigned(op))), ("d"@, json_of(body))],
        ),
{
    proof {
        reveal_strlit("op");
        reveal_strlit("d");
    }
    let mut entries: Vec<(String, serde_json::Value)> = Vec::new();
    entries.push(("op".to_owned(), number_value(op)));
    entries.push(("d".to_owned(), body));
    assert(entries_of(entries@) =~= seq![
        ("op"@, Json::Number(JsonNumber::Unsigned(op))),
        ("d"@, json_of(body)),
    ]);
    assert("op"@.len() != "d"@.len());
    assert(distinct_keys(entries_of(entries@)));
    object_value(entries)
}

/// Writes the heartbeat frame for the last sequence number seen.
pub fn heartbeat_frame(sequence: Option<usize>) -> (r: String)
    ensures
        r@ == heartbeat_text(sequence),
{
    let body = match sequence {
        Some(n) => number_value(n as u64),
        None => null_value(),
    };
    let frame = envelope(OP_HEARTBEAT, body);
    print(&frame)
}

/// Writes the identify frame for a token and the name of the operating
/// system.
pub fn identify_frame(token: &str, os: &str) -> (r: String)
    ensures
        r@ == identify_text(token@, os@),
{
    proof {
        reveal_strlit("os");
        reveal_strlit("browser");
        reveal_strlit("device");
        reveal_strlit("token");
        reveal_strlit("properties");
        reveal_strlit("large_threshold");
        reveal_strlit("compress");
    }
    let mut properties: Vec<(String, serde_json::Value)> = Vec::new();
    properties.push(("os".to_owned(), text_value(os)));
    properties.push(("browser".to_owned(), text_value(USER_AGENT)));
    properties.push(("device".to_owned(), text_value(USER_AGENT)));
    assert(entries_of(properties@) =~= seq![
        ("os"@, Json::Text(os@)),
        ("browser"@, Json::Text(USER_AGENT@)),
        ("device"@, Json::Text(USER_AGENT@)),
    ]);
    assert("os"@.len() == 2 && "browser"@.len() == 7 && "device"@.len() == 6);
    assert(distinct_keys(entries_of(properties@)));
    let properties = object_value(properties);
    let mut identity: Vec<(String, serde_json::Value)> = Vec::new();
    identity.push(("token".to_owned(), text_value(token)));
    identity.push(("properties".to_owned(), properties));
    identity.push(("large_threshold".to_owned(), number_value(LARGE_THRESHOLD)));
    identity.push(("compress".to_owned(), bool_value(true)));
    assert(entries_of(identity@) =~= seq![
        ("token"@, Json::Text(token@)),
        ("properties"@, properties_json(os@)),
        ("large_threshold"@, Json::Number(JsonNumber::Unsigned(LARGE_THRESHOLD))),
        ("compress"@, Json::Bool(true)),
    ]);
    assert("token"@.len() == 5 && "properties"@.len() == 10 && "large_threshold"@.len() == 15
        && "compress"@.len() == 8);
    assert(distinct_keys(entries_of(identity@)));
    let frame = envelope(OP_IDENTIFY, object_value(identity));
    print(&frame)
}

} // verus!
