//! The gateway codec: from a raw frame to a typed gateway event.

use crate::api::json::{json_from_bytes, json_from_text, json_of, parse_bytes, parse_text, Json};
use crate::api::model::value::{
    get_value, object_defect, required, required_defect, required_holds, Decode, DecodeError,
    Otherwise, WrappedValue,
};
use crate::api::text::text_eq;
use crate::api::websocket::{WsEvent, WsMessage};
use crate::api::zlib::{inflate, zlib_inflated};
use vstd::prelude::*;

verus! {

/// What the core reads of a `READY` event: the session's id. The whole
/// body is kept beside it for whoever decodes the account's state.
#[derive(Debug, Clone)]
pub struct ReadyState {
    pub session_id: String,
    pub payload: WrappedValue,
}

impl Decode for ReadyState {
    open spec fn defect(j: Json) -> Option<DecodeError> {
        object_defect(j).otherwise(required_defect::<String>(j, "session_id"))
    }

    open spec fn holds(&self, j: Json) -> bool {
        &&& required_holds(self.session_id, j, "session_id")
        &&& self.payload@ == j
    }

    fn decode(v: &serde_json::Value) -> (r: Result<Self, DecodeError>) {
        if !v.is_object() {
            return Err(DecodeError::NotAnObject);
        }
        let session_id: String = required(v, "session_id")?;
        Ok(ReadyState { session_id, payload: WrappedValue(v.clone()) })
    }
}

/// A named event that the gateway dispatches.
#[derive(Debug, Clone)]
pub enum Event {
    /// The session has started.
    Ready(ReadyState),
    /// Any other event, kept by name with its body as it came.
    Unknown(String, WrappedValue),
}

impl Event {
    /// Whether `kind` names the event that starts a session.
    pub open spec fn is_ready(kind: Seq<char>) -> bool {
        kind == "READY"@
    }

    /// The error that decoding the event `kind` with body `j` gives: only a
    /// `READY` event can have one.
    pub open spec fn defect(kind: Seq<char>, j: Json) -> Option<DecodeError> {
        if Event::is_ready(kind) {
            ReadyState::defect(j)
        } else {
            None
        }
    }

    /// Whether `self` is what the event `kind` with body `j` decodes to.
    pub open spec fn holds(&self, kind: Seq<char>, j: Json) -> bool {
        match self {
            Event::Ready(state) => Event::is_ready(kind) && state.holds(j),
            Event::Unknown(name, raw) => !Event::is_ready(kind) && name@ == kind && raw@ == j,
        }
    }

    /// Decodes the body of a dispatched event by the event's name. An event
    /// that this library does not know never fails: it is kept as it came.
    pub fn decode(kind: &str, value: &serde_json::Value) -> (r: Result<Event, DecodeError>)
        ensures
            r is Ok == Event::defect(kind@, json_of(*value)) is None,
            r matches Ok(event) ==> event.holds(kind@, json_of(*value)),
            r matches Err(e) ==> Event::defect(kind@, json_of(*value)) == Some(e),
    {
        if text_eq(kind, "READY") {
            Ok(Event::Ready(ReadyState::decode(value)?))
        } else {
            Ok(Event::Unknown(kind.to_owned(), WrappedValue(value.clone())))
        }
    }
}

/// A gateway frame, by opcode.
#[derive(Debug, Clone)]
pub enum GatewayEvent {
    /// Opcode 0: an event with its sequence number.
    Dispatch(usize, Event),
    /// Opcode 1: the gateway asks for a heartbeat.
    Heartbeat(usize),
    /// Opcode 7: the gateway asks the client to reconnect.
    Reconnect,
    /// Opcode 9: the session is no longer valid.
    InvalidateSession,
    /// Opcode 10: the gateway greets the client and names the heartbeat
    /// interval in milliseconds.
    Hello(usize),
    /// Opcode 11: the gateway has received a heartbeat.
    HeartbeatAck,
}

/// The opcode of the frame `j`, where `op` is an unsigned integer.
pub open spec fn opcode(j: Json) -> Option<u64> {
    match j.field("op"@) {
        Some(m) => m.as_u64(),
        None => None,
    }
}

/// The name of the event that the frame `j` dispatches.
pub open spec fn event_name(j: Json) -> Seq<char> {
    j.field("t"@)->0.as_text()->0
}

/// The body of the event that the frame `j` dispatches.
pub open spec fn event_body(j: Json) -> Json {
    j.field("d"@)->0
}

/// The defect of a missing member.
pub open spec fn missing_defect(j: Json, key: &'static str) -> Option<DecodeError> {
    if j.field(key@) is Some {
        None
    } else {
        Some(DecodeError::MissingField(key))
    }
}

/// The defect of a dispatch frame: `s`, `t` or `d` is missing or of the
/// wrong type, or the event's body has a defect.
pub open spec fn dispatch_defect(j: Json) -> Option<DecodeError> {
    required_defect::<usize>(j, "s").otherwise(required_defect::<String>(j, "t")).otherwise(
        missing_defect(j, "d"),
    ).otherwise(Event::defect(event_name(j), event_body(j)))
}

/// The defect of a hello frame: `d` is missing or no object, or its
/// `heartbeat_interval` is missing or no unsigned integer.
pub open spec fn hello_defect(j: Json) -> Option<DecodeError> {
    missing_defect(j, "d").otherwise(object_defect(event_body(j))).otherwise(
        required_defect::<usize>(event_body(j), "heartbeat_interval"),
    )
}

impl Decode for GatewayEvent {
    open spec fn defect(j: Json) -> Option<DecodeError> {
        object_defect(j).otherwise(missing_defect(j, "op")).otherwise(
            match opcode(j) {
                Some(op) => if op == 0 {
                    dispatch_defect(j)
                } else if op == 1 {
                    required_defect::<usize>(j, "s")
                } else if op == 7 || op == 9 || op == 11 {
                    None
                } else if op == 10 {
                    hello_defect(j)
                } else {
                    Some(DecodeError::UnexpectedOpcode)
                },
                None => Some(DecodeError::UnexpectedOpcode),
            },
        )
    }

    open spec fn holds(&self, j: Json) -> bool {
        match self {
            GatewayEvent::Dispatch(sequence, event) => {
                &&& opcode(j) == Some(0u64)
                &&& required_holds(*sequence, j, "s")
                &&& event.holds(event_name(j), event_body(j))
            },
            GatewayEvent::Heartbeat(sequence) => {
                &&& opcode(j) == Some(1u64)
                &&& required_holds(*sequence, j, "s")
            },
            GatewayEvent::Reconnect => opcode(j) == Some(7u64),
            GatewayEvent::InvalidateSession => opcode(j) == Some(9u64),
            GatewayEvent::Hello(interval) => {
                &&& opcode(j) == Some(10u64)
                &&& required_holds(*interval, event_body(j), "heartbeat_interval")
            },
            GatewayEvent::HeartbeatAck => opcode(j) == Some(11u64),
        }
    }

    /// Decodes a frame by its opcode.
    fn decode(v: &serde_json::Value) -> (r: Result<Self, DecodeError>) {
        if !v.is_object() {
            return Err(DecodeError::NotAnObject);
        }
        let op = match get_value(v, "op") {
            Some(m) => match m.as_u64() {
                Some(op) => op,
                None => {
                    return Err(DecodeError::UnexpectedOpcode);
                },
            },
            None => {
                return Err(DecodeError::MissingField("op"));
            },
        };
        match op {
            0 => {
                let sequence: usize = required(v, "s")?;
                let name: String = required(v, "t")?;
                let body = match get_value(v, "d") {
                    Some(body) => body,
                    None => {
                        return Err(DecodeError::MissingField("d"));
                    },
                };
                let event = Event::decode(name.as_str(), body)?;
                Ok(GatewayEvent::Dispatch(sequence, event))
            },
            1 => {
                let sequence: usize = required(v, "s")?;
                Ok(GatewayEvent::Heartbeat(sequence))
            },
            7 => Ok(GatewayEvent::Reconnect),
            9 => Ok(GatewayEvent::InvalidateSession),
            10 => {
                let body = match get_value(v, "d") {
                    Some(body) => body,
                    None => {
                        return Err(DecodeError::MissingField("d"));
                    },
                };
                if !body.is_object() {
                    return Err(DecodeError::NotAnObject);
                }
                let interval: usize = required(body, "heartbeat_interval")?;
                Ok(GatewayEvent::Hello(interval))
            },
            11 => Ok(GatewayEvent::HeartbeatAck),
            _ => Err(DecodeError::UnexpectedOpcode),
        }
    }
}

/// The defect of a frame once it is parsed, or `Syntax` where it did not
/// parse.
pub open spec fn parsed_defect(parsed: Option<Json>) -> Option<DecodeError> {
    match parsed {
        Some(j) => GatewayEvent::defect(j),
        None => Some(DecodeError::Syntax),
    }
}

/// Whether `event` is what the parsed frame decodes to.
pub open spec fn parsed_holds(event: GatewayEvent, parsed: Option<Json>) -> bool {
    parsed matches Some(j) && event.holds(j)
}

/// The JSON that a binary frame carries: what its inflated bytes parse to.
pub open spec fn binary_json(bytes: Seq<u8>) -> Option<Json> {
    match zlib_inflated(bytes) {
        Some(plain) => json_from_bytes(plain),
        None => None,
    }
}

/// The defect of a binary frame: it does not inflate, or what it inflates
/// to has a defect.
pub open spec fn binary_defect(bytes: Seq<u8>) -> Option<DecodeError> {
    match zlib_inflated(bytes) {
        Some(plain) => parsed_defect(json_from_bytes(plain)),
        None => Some(DecodeError::Inflate),
    }
}

/// Decodes a text frame: JSON, then a gateway event.
pub fn decode_text(text: &str) -> (r: Result<GatewayEvent, DecodeError>)
    ensures
        r is Ok == parsed_defect(json_from_text(text@)) is None,
        r matches Ok(event) ==> parsed_holds(event, json_from_text(text@)),
        r matches Err(e) ==> parsed_defect(json_from_text(text@)) == Some(e),
{
    match parse_text(text) {
        Ok(value) => GatewayEvent::decode(&value),
        Err(_) => Err(DecodeError::Syntax),
    }
}

/// Decodes a binary frame: a zlib stream of JSON, then a gateway event.
pub fn decode_binary(bytes: &[u8]) -> (r: Result<GatewayEvent, DecodeError>)
    ensures
        r is Ok == binary_defect(bytes@) is None,
        r matches Ok(event) ==> parsed_holds(event, binary_json(bytes@)),
        r matches Err(e) ==> binary_defect(bytes@) == Some(e),
{
    match inflate(bytes) {
        Ok(plain) => match parse_bytes(plain.as_slice()) {
            Ok(value) => GatewayEvent::decode(&value),
            Err(_) => Err(DecodeError::Syntax),
        },
        Err(_) => Err(DecodeError::Inflate),
    }
}

/// Why a socket event carries no gateway event.
#[derive(Debug, Clone)]
pub enum ReceiveError {
    /// The socket reported that it opened, where a frame was expected.
    UnexpectedOpen,
    /// A message that is neither text nor binary.
    UnsupportedMessage,
    /// The socket reported an error.
    Transport(String),
    /// The socket was closed.
    Closed,
    /// The frame could not be decoded.
    Decode(DecodeError),
}

/// Whether `r` is the outcome of receiving `event`: a text or binary message
/// gives what its frame decodes to; everything else is an error that names
/// what came instead.
pub open spec fn received(event: WsEvent, r: Result<GatewayEvent, ReceiveError>) -> bool {
    match event {
        WsEvent::Opened => r matches Err(ReceiveError::UnexpectedOpen),
        WsEvent::Message(WsMessage::Binary(bytes)) => match binary_defect(bytes@) {
            Some(e) => r matches Err(ReceiveError::Decode(d)) && d == e,
            None => r matches Ok(decoded) && parsed_holds(decoded, binary_json(bytes@)),
        },
        WsEvent::Message(WsMessage::Text(text)) => match parsed_defect(json_from_text(text@)) {
            Some(e) => r matches Err(ReceiveError::Decode(d)) && d == e,
            None => r matches Ok(decoded) && parsed_holds(decoded, json_from_text(text@)),
        },
        WsEvent::Message(_) => r matches Err(ReceiveError::UnsupportedMessage),
        WsEvent::Error(reason) => r matches Err(ReceiveError::Transport(s)) && s@ == reason@,
        WsEvent::Closed => r matches Err(ReceiveError::Closed),
    }
}

/// Turns what the socket handed over into a gateway event.
pub fn receive_json(event: &WsEvent) -> (r: Result<GatewayEvent, ReceiveError>)
    ensures
        received(*event, r),
{
    match event {
        WsEvent::Opened => Err(ReceiveError::UnexpectedOpen),
        WsEvent::Message(message) => match message {
            WsMessage::Binary(bytes) => match decode_binary(bytes.as_slice()) {
                Ok(decoded) => Ok(decoded),
                Err(e) => Err(ReceiveError::Decode(e)),
            },
            WsMessage::Text(text) => match decode_text(text.as_str()) {
                Ok(decoded) => Ok(decoded),
                Err(e) => Err(ReceiveError::Decode(e)),
            },
            _ => Err(ReceiveError::UnsupportedMessage),
        },
        WsEvent::Error(reason) => Err(ReceiveError::Transport(reason.clone())),
        WsEvent::Closed => Err(ReceiveError::Closed),
    }
}

} // verus!
