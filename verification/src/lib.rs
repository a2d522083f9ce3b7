//! Client-side protocol logic for a chat platform's REST and gateway API:
//! the rate limiter that guards REST calls, the gateway frame codec, the
//! heartbeat state machine and the session handshake.

pub mod api;
