//! The platform's object model and its decoders.

pub mod channel;
pub mod gateway;
pub mod ids;
pub mod permission;
pub mod presence;
pub mod ready;
pub mod relationship;
pub mod user;
pub mod value;

pub use channel::{
    Ban, Channel, ChannelCategory, ChannelType, Group, Member, PermissionOverwrite,
    PermissionOverwriteMember, PermissionOverwriteRole, PrivateChannel, PublicChannel, Role,
    Server, VoiceChannel,
};
pub use gateway::{
    decode_binary, decode_text, receive_json, Event, GatewayEvent, ReadyState, ReceiveError,
};
pub use ids::{
    ApplicationId, ChannelId, EmojiId, Mention, MessageId, RoleId, ServerId, UserId,
};
pub use permission::Permission;
pub use presence::{
    Emoji, Presence, PresenceActivity, PresenceActivityAsset, PresenceActivityParty,
    PresenceClientStatus, Status, Timestamp,
};
pub use ready::ReadyEvent;
pub use relationship::{Relationship, RelationshipType};
pub use user::{AvatarDecorationData, Clan, CurrentUser, User};
pub use value::{Decode, DecodeError, WrappedValue};
