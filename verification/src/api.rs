//! The platform API: the data model and its decoders, the gateway codec, the
//! rate limiter and the state machines that drive a session.

pub mod client;
pub mod clock;
pub mod connection;
pub mod frame;
pub mod json;
pub mod model;
pub mod ratelimit;
pub mod state;
pub mod text;
pub mod user;
pub mod websocket;
pub mod zlib;

pub use connection::Connection;
pub use model::{
    ApplicationId, AvatarDecorationData, Ban, Channel, ChannelCategory, ChannelId, ChannelType,
    Clan, CurrentUser, Decode, DecodeError, Emoji, EmojiId, Event, GatewayEvent, Group, Member,
    Mention, MessageId, Permission, PermissionOverwrite, PermissionOverwriteMember,
    PermissionOverwriteRole, Presence, PresenceActivity, PresenceActivityAsset,
    PresenceActivityParty, PresenceClientStatus, PrivateChannel, PublicChannel, ReadyEvent,
    ReadyState, ReceiveError, Relationship, RelationshipType, Role, RoleId, Server, ServerId,
    Status, Timestamp, User, UserId, VoiceChannel, WrappedValue,
};
pub use state::State;

use vstd::prelude::*;

verus! {

/// The root of the REST interface.
pub const ENDPOINT_URL: &'static str = "https://discord.com/api/v9/";

/// The root of the content delivery network.
pub const CDN_URL: &'static str = "https://cdn.discordapp.com/";

/// The name under which this client presents itself.
pub const USER_AGENT: &'static str = "discidium";

} // verus!
