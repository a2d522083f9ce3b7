//! Channels of every kind, the servers that hold them, and who may do what
//! in them.

use crate::api::json::Json;
use crate::api::model::ids::{mention_text, ChannelId, Mention, MessageId, RoleId, UserId};
use crate::api::model::permission::Permission;
use crate::api::model::user::{build_image_url, image_url, User};
use crate::api::model::value::{
    object_defect, optional, optional_defect, optional_holds, required,
    required_array, required_array_defect, required_array_holds, required_defect,
    required_holds, Decode, DecodeError, Otherwise,
};
use crate::api::text::{join, joined, text_eq, views};
use std::borrow::Cow;
use vstd::prelude::*;

verus! {

/// What a permission overwrite grants to and takes from one member.
#[derive(Debug, Clone, PartialEq)]
pub struct PermissionOverwriteMember {
    pub allow: Vec<Permission>,
    pub allow_new: Vec<Permission>,
    pub deny: Vec<Permission>,
    pub deny_new: Vec<Permission>,
    pub id: UserId,
}

impl Decode for PermissionOverwriteMember {
    open spec fn defect(j: Json) -> Option<DecodeError> {
        object_defect(j)
            .otherwise(required_defect::<Vec<Permission>>(j, "allow"))
            .otherwise(required_defect::<Vec<Permission>>(j, "allow_new"))
            .otherwise(required_defect::<Vec<Permission>>(j, "deny"))
            .otherwise(required_defect::<Vec<Permission>>(j, "deny_new"))
            .otherwise(required_defect::<UserId>(j, "id"))
    }

    open spec fn holds(&self, j: Json) -> bool {
        &&& required_holds(self.allow, j, "allow")
        &&& required_holds(self.allow_new, j, "allow_new")
        &&& required_holds(self.deny, j, "deny")
        &&& required_holds(self.deny_new, j, "deny_new")
        &&& required_holds(self.id, j, "id")
    }

    fn decode(v: &serde_json::Value) -> (r: Result<Self, DecodeError>) {
        if !v.is_object() {
            return Err(DecodeError::NotAnObject);
        }
        let allow: Vec<Permission> = required(v, "allow")?;
        let allow_new: Vec<Permission> = required(v, "allow_new")?;
        let deny: Vec<Permission> = required(v, "deny")?;
        let deny_new: Vec<Permission> = required(v, "deny_new")?;
        let id: UserId = required(v, "id")?;
        Ok(PermissionOverwriteMember { allow, allow_new, deny, deny_new, id })
    }
}

/// What a permission overwrite grants to and takes from one role.
#[derive(Debug, Clone, PartialEq)]
pub struct PermissionOverwriteRole {
    pub allow: Vec<Permission>,
    pub allow_new: Vec<Permission>,
    pub deny: Vec<Permission>,
    pub deny_new: Vec<Permission>,
    pub id: RoleId,
}

impl Decode for PermissionOverwriteRole {
    open spec fn defect(j: Json) -> Option<DecodeError> {
        object_defect(j)
            .otherwise(required_defect::<Vec<Permission>>(j, "allow"))
            .otherwise(required_defect::<Vec<Permission>>(j, "allow_new"))
            .otherwise(required_defect::<Vec<Permission>>(j, "deny"))
            .otherwise(required_defect::<Vec<Permission>>(j, "deny_new"))
            .otherwise(required_defect::<RoleId>(j, "id"))
    }

    open spec fn holds(&self, j: Json) -> bool {
        &&& required_holds(self.allow, j, "allow")
        &&& required_holds(self.allow_new, j, "allow_new")
        &&& required_holds(self.deny, j, "deny")
        &&& required_holds(self.deny_new, j, "deny_new")
        &&& required_holds(self.id, j, "id")
    }

    fn decode(v: &serde_json::Value) -> (r: Result<Self, DecodeError>) {
        if !v.is_object() {
            return Err(DecodeError::NotAnObject);
        }
        let allow: Vec<Permission> = required(v, "allow")?;
        let allow_new: Vec<Permission> = required(v, "allow_new")?;
        let deny: Vec<Permission> = required(v, "deny")?;
        let deny_new: Vec<Permission> = required(v, "deny_new")?;
        let id: RoleId = required(v, "id")?;
        Ok(PermissionOverwriteRole { allow, allow_new, deny, deny_new, id })
    }
}

/// A change to the permissions of one member or one role in a channel.
#[derive(Debug, Clone, PartialEq)]
pub enum PermissionOverwrite {
    Member(PermissionOverwriteMember),
    Role(PermissionOverwriteRole),
}

/// Whom an overwrite is for.
pub enum OverwriteKind {
    Member,
    Role,
}

/// Whom the overwrite `j` is for, where its `type` says so.
pub open spec fn overwrite_kind(j: Json) -> Option<OverwriteKind> {
    match j.field("type"@) {
        Some(Json::Text(s)) => if s == "member"@ {
            Some(OverwriteKind::Member)
        } else if s == "role"@ {
            Some(OverwriteKind::Role)
        } else {
            None
        },
        _ => None,
    }
}

impl Decode for PermissionOverwrite {
    open spec fn defect(j: Json) -> Option<DecodeError> {
        object_defect(j).otherwise(required_defect::<String>(j, "type")).otherwise(
            match overwrite_kind(j) {
                Some(OverwriteKind::Member) => PermissionOverwriteMember::defect(j),
                Some(OverwriteKind::Role) => PermissionOverwriteRole::defect(j),
                None => Some(DecodeError::UnknownOverwriteType),
            },
        )
    }

    open spec fn holds(&self, j: Json) -> bool {
        match self {
            PermissionOverwrite::Member(m) => overwrite_kind(j) == Some(OverwriteKind::Member)
                && m.holds(j),
            PermissionOverwrite::Role(r) => overwrite_kind(j) == Some(OverwriteKind::Role)
                && r.holds(j),
        }
    }

    fn decode(v: &serde_json::Value) -> (r: Result<Self, DecodeError>) {
        if !v.is_object() {
            return Err(DecodeError::NotAnObject);
        }
        let kind: String = required(v, "type")?;
        if text_eq(kind.as_str(), "member") {
            Ok(PermissionOverwrite::Member(PermissionOverwriteMember::decode(v)?))
        } else if text_eq(kind.as_str(), "role") {
            Ok(PermissionOverwrite::Role(PermissionOverwriteRole::decode(v)?))
        } else {
            Err(DecodeError::UnknownOverwriteType)
        }
    }
}

/// The kinds of channel that the platform knows.
#[derive(Copy, Clone, Hash, Eq, PartialEq, Debug)]
pub enum ChannelType {
    Group,
    Private,
    Public,
    Voice,
    Category,
    News,
    Store,
    NewsThread,
    PublicThread,
    PrivateThread,
    StageVoice,
    Directory,
    Forum,
}

impl ChannelType {
    /// The kind of channel that a type number stands for.
    pub open spec fn of_number(n: u64) -> Option<ChannelType> {
        if n == 0 {
            Some(ChannelType::Public)
        } else if n == 1 {
            Some(ChannelType::Private)
        } else if n == 2 {
            Some(ChannelType::Voice)
        } else if n == 3 {
            Some(ChannelType::Group)
        } else if n == 4 {
            Some(ChannelType::Category)
        } else if n == 5 {
            Some(ChannelType::News)
        } else if n == 6 {
            Some(ChannelType::Store)
        } else if n == 10 {
            Some(ChannelType::NewsThread)
        } else if n == 11 {
            Some(ChannelType::PublicThread)
        } else if n == 12 {
            Some(ChannelType::PrivateThread)
        } else if n == 13 {
            Some(ChannelType::StageVoice)
        } else if n == 14 {
            Some(ChannelType::Directory)
        } else if n == 15 {
            Some(ChannelType::Forum)
        } else {
            None
        }
    }

    /// The kind of channel that a type number stands for.
    pub fn from_number(n: u64) -> (r: Option<ChannelType>)
        ensures
            r == ChannelType::of_number(n),
    {
        match n {
            0 => Some(ChannelType::Public),
            1 => Some(ChannelType::Private),
            2 => Some(ChannelType::Voice),
            3 => Some(ChannelType::Group),
            4 => Some(ChannelType::Category),
            5 => Some(ChannelType::News),
            6 => Some(ChannelType::Store),
            10 => Some(ChannelType::NewsThread),
            11 => Some(ChannelType::PublicThread),
            12 => Some(ChannelType::PrivateThread),
            13 => Some(ChannelType::StageVoice),
            14 => Some(ChannelType::Directory),
            15 => Some(ChannelType::Forum),
            _ => None,
        }
    }
}

impl Decode for ChannelType {
    open spec fn defect(j: Json) -> Option<DecodeError> {
        match j.as_u64() {
            Some(n) => if ChannelType::of_number(n) is Some {
                None
            } else {
                Some(DecodeError::UnknownChannelType)
            },
            None => Some(DecodeError::NotAnInteger),
        }
    }

    open spec fn holds(&self, j: Json) -> bool {
        j.as_u64() matches Some(n) && ChannelType::of_number(n) == Some(*self)
    }

    fn decode(v: &serde_json::Value) -> (r: Result<Self, DecodeError>) {
        match v.as_u64() {
            Some(n) => match ChannelType::from_number(n) {
                Some(kind) => Ok(kind),
                None => Err(DecodeError::UnknownChannelType),
            },
            None => Err(DecodeError::NotAnInteger),
        }
    }
}

/// A heading under which a server groups channels.
#[derive(Debug, Clone, PartialEq)]
pub struct ChannelCategory {
    pub flags: u64,
    pub id: ChannelId,
    pub name: String,
    pub parent_id: Option<ChannelId>,
    pub permission_overwrites: Vec<PermissionOverwrite>,
    pub position: u64,
    pub version: u64,
}

impl Decode for ChannelCategory {
    open spec fn defect(j: Json) -> Option<DecodeError> {
        object_defect(j)
            .otherwise(required_defect::<u64>(j, "flags"))
            .otherwise(required_defect::<ChannelId>(j, "id"))
            .otherwise(required_defect::<String>(j, "name"))
            .otherwise(optional_defect::<ChannelId>(j, "parent_id"))
            .otherwise(required_array_defect::<PermissionOverwrite>(j, "permission_overwrites"))
            .otherwise(required_defect::<u64>(j, "position"))
            .otherwise(required_defect::<u64>(j, "version"))
    }

    open spec fn holds(&self, j: Json) -> bool {
        &&& required_holds(self.flags, j, "flags")
        &&& required_holds(self.id, j, "id")
        &&& required_holds(self.name, j, "name")
        &&& optional_holds(self.parent_id, j, "parent_id")
        &&& required_array_holds(self.permission_overwrites@, j, "permission_overwrites")
        &&& required_holds(self.position, j, "position")
        &&& required_holds(self.version, j, "version")
    }

    fn decode(v: &serde_json::Value) -> (r: Result<Self, DecodeError>) {
        if !v.is_object() {
            return Err(DecodeError::NotAnObject);
        }
        let flags: u64 = required(v, "flags")?;
        let id: ChannelId = required(v, "id")?;
        let name: String = required(v, "name")?;
        let parent_id: Option<ChannelId> = optional(v, "parent_id")?;
        let permission_overwrites: Vec<PermissionOverwrite> =
            required_array(v, "permission_overwrites")?;
        let position: u64 = required(v, "position")?;
        let version: u64 = required(v, "version")?;
        Ok(ChannelCategory { flags, id, name, parent_id, permission_overwrites, position, version })
    }
}

/// A conversation among several users outside any server.
#[derive(Debug, Clone, PartialEq)]
pub struct Group {
    pub blocked_user_warning_dismissed: bool,
    pub flags: u64,
    pub icon: Option<String>,
    pub id: ChannelId,
    pub last_message_id: MessageId,
    pub last_pin_timestamp: Option<String>,
    pub name: Option<String>,
    pub owner_id: UserId,
    pub recipient_flags: u64,
    pub recipients: Vec<User>,
}

impl Decode for Group {
    open spec fn defect(j: Json) -> Option<DecodeError> {
        object_defect(j)
            .otherwise(required_defect::<bool>(j, "blocked_user_warning_dismissed"))
            .otherwise(required_defect::<u64>(j, "flags"))
            .otherwise(optional_defect::<String>(j, "icon"))
            .otherwise(required_defect::<ChannelId>(j, "id"))
            .otherwise(required_defect::<MessageId>(j, "last_message_id"))
            .otherwise(optional_defect::<String>(j, "last_pin_timestamp"))
            .otherwise(optional_defect::<String>(j, "name"))
            .otherwise(required_defect::<UserId>(j, "owner_id"))
            .otherwise(required_defect::<u64>(j, "recipient_flags"))
            .otherwise(required_array_defect::<User>(j, "recipients"))
    }

    open spec fn holds(&self, j: Json) -> bool {
        &&& required_holds(self.blocked_user_warning_dismissed, j, "blocked_user_warning_dismissed")
        &&& required_holds(self.flags, j, "flags")
        &&& optional_holds(self.icon, j, "icon")
        &&& required_holds(self.id, j, "id")
        &&& required_holds(self.last_message_id, j, "last_message_id")
        &&& optional_holds(self.last_pin_timestamp, j, "last_pin_timestamp")
        &&& optional_holds(self.name, j, "name")
        &&& required_holds(self.owner_id, j, "owner_id")
        &&& required_holds(self.recipient_flags, j, "recipient_flags")
        &&& required_array_holds(self.recipients@, j, "recipients")
    }

    fn decode(v: &serde_json::Value) -> (r: Result<Self, DecodeError>) {
        if !v.is_object() {
            return Err(DecodeError::NotAnObject);
        }
        let blocked_user_warning_dismissed: bool = required(v, "blocked_user_warning_dismissed")?;
        let flags: u64 = required(v, "flags")?;
        let icon: Option<String> = optional(v, "icon")?;
        let id: ChannelId = required(v, "id")?;
        let last_message_id: MessageId = required(v, "last_message_id")?;
        let last_pin_timestamp: Option<String> = optional(v, "last_pin_timestamp")?;
        let name: Option<String> = optional(v, "name")?;
        let owner_id: UserId = required(v, "owner_id")?;
        let recipient_flags: u64 = required(v, "recipient_flags")?;
        let recipients: Vec<User> = required_array(v, "recipients")?;
        Ok(Group {
            blocked_user_warning_dismissed,
            flags,
            icon,
            id,
            last_message_id,
            last_pin_timestamp,
            name,
            owner_id,
            recipient_flags,
            recipients,
        })
    }
}

/// The user names of `users`, in order.
pub open spec fn usernames(users: Seq<User>) -> Seq<Seq<char>> {
    Seq::new(users.len(), |i: int| users[i].username@)
}

/// The name under which a group is shown: its own name where it has one;
/// else `Empty Group` where nobody is in it; else the user names of its
/// recipients with `, ` between them.
pub open spec fn group_name(name: Option<Seq<char>>, recipients: Seq<Seq<char>>) -> Seq<char> {
    match name {
        Some(n) => n,
        None => if recipients.len() == 0 {
            "Empty Group"@
        } else {
            joined(recipients, seq![',', ' '])
        },
    }
}

impl Group {
    /// The name under which the group is shown.
    pub fn name(&self) -> (r: Cow<'_, str>)
        ensures
            r@ == group_name(
                match self.name {
                    Some(n) => Some(n@),
                    None => None,
                },
                usernames(self.recipients@),
            ),
    {
        match &self.name {
            Some(name) => Cow::Borrowed(name.as_str()),
            None => {
                if self.recipients.len() == 0 {
                    return Cow::Borrowed("Empty Group");
                }
                let mut names: Vec<String> = Vec::new();
                let mut i: usize = 0;
                while i < self.recipients.len()
                    invariant
                        i <= self.recipients.len(),
                        names@.len() == i,
                        forall|k: int|
                            0 <= k < i ==> (#[trigger] names@[k])@ == self.recipients@[k].username@,
                    decreases self.recipients.len() - i,
                {
                    names.push(self.recipients[i].username.clone());
                    i += 1;
                }
                proof {
                    reveal_strlit(", ");
                }
                assert(", "@ =~= seq![',', ' ']);
                assert(views(names@) =~= usernames(self.recipients@));
                Cow::Owned(join(&names, ", "))
            },
        }
    }

    /// The address of the group's icon, where it has one.
    pub fn icon_url(&self) -> (r: Option<String>)
        ensures
            r is Some == self.icon is Some,
            r matches Some(url) ==> url@ == image_url(
                "channel-icons"@,
                self.id.0 as nat,
                self.icon->0@,
            ),
    {
        match &self.icon {
            Some(hash) => Some(build_image_url("channel-icons", self.id.0, hash.as_str())),
            None => None,
        }
    }
}

/// The defect of the recipient of a private channel: `recipients` is
/// missing, is no array of users, or is empty.
pub open spec fn first_recipient_defect(j: Json) -> Option<DecodeError> {
    required_array_defect::<User>(j, "recipients").otherwise(
        if j.field("recipients"@)->0.as_array()->0.len() == 0 {
            Some(DecodeError::NoRecipient)
        } else {
            None
        },
    )
}

/// Whether `user` is what the first of the `recipients` of `j` decodes to.
pub open spec fn first_recipient_holds(user: User, j: Json) -> bool {
    &&& j.field("recipients"@) matches Some(Json::Array(items))
    &&& items.len() > 0
    &&& user.holds(items[0])
}

/// A conversation between the logged-in user and one other user.
#[derive(Debug, Clone, PartialEq)]
pub struct PrivateChannel {
    pub flags: u64,
    pub id: ChannelId,
    pub is_message_request: bool,
    pub is_message_request_timestamp: Option<String>,
    pub is_spam: bool,
    pub last_message_id: Option<MessageId>,
    pub last_pin_timestamp: Option<String>,
    pub recipient_flags: u64,
    pub recipient: User,
    pub safety_warnings: Vec<String>,
}

impl Decode for PrivateChannel {
    open spec fn defect(j: Json) -> Option<DecodeError> {
        object_defect(j)
            .otherwise(required_defect::<u64>(j, "flags"))
            .otherwise(required_defect::<ChannelId>(j, "id"))
            .otherwise(required_defect::<bool>(j, "is_message_request"))
            .otherwise(optional_defect::<String>(j, "is_message_request_timestamp"))
            .otherwise(required_defect::<bool>(j, "is_spam"))
            .otherwise(optional_defect::<MessageId>(j, "last_message_id"))
            .otherwise(optional_defect::<String>(j, "last_pin_timestamp"))
            .otherwise(required_defect::<u64>(j, "recipient_flags"))
            .otherwise(first_recipient_defect(j))
            .otherwise(required_array_defect::<String>(j, "safety_warnings"))
    }

    open spec fn holds(&self, j: Json) -> bool {
        &&& required_holds(self.flags, j, "flags")
        &&& required_holds(self.id, j, "id")
        &&& required_holds(self.is_message_request, j, "is_message_request")
        &&& optional_holds(self.is_message_request_timestamp, j, "is_message_request_timestamp")
        &&& required_holds(self.is_spam, j, "is_spam")
        &&& optional_holds(self.last_message_id, j, "last_message_id")
        &&& optional_holds(self.last_pin_timestamp, j, "last_pin_timestamp")
        &&& required_holds(self.recipient_flags, j, "recipient_flags")
        &&& first_recipient_holds(self.recipient, j)
        &&& required_array_holds(self.safety_warnings@, j, "safety_warnings")
    }

    fn decode(v: &serde_json::Value) -> (r: Result<Self, DecodeError>) {
        if !v.is_object() {
            return Err(DecodeError::NotAnObject);
        }
        let flags: u64 = required(v, "flags")?;
        let id: ChannelId = required(v, "id")?;
        let is_message_request: bool = required(v, "is_message_request")?;
        let is_message_request_timestamp: Option<String> =
            optional(v, "is_message_request_timestamp")?;
        let is_spam: bool = required(v, "is_spam")?;
        let last_message_id: Option<MessageId> = optional(v, "last_message_id")?;
        let last_pin_timestamp: Option<String> = optional(v, "last_pin_timestamp")?;
        let recipient_flags: u64 = required(v, "recipient_flags")?;
        let mut recipients: Vec<User> = required_array(v, "recipients")?;
        if recipients.len() == 0 {
            return Err(DecodeError::NoRecipient);
        }
        let recipient: User = recipients.remove(0);
        let safety_warnings: Vec<String> = required_array(v, "safety_warnings")?;
        Ok(PrivateChannel {
            flags,
            id,
            is_message_request,
            is_message_request_timestamp,
            is_spam,
            last_message_id,
            last_pin_timestamp,
            recipient_flags,
            recipient,
            safety_warnings,
        })
    }
}

/// A text channel of a server.
#[derive(Debug, Clone, PartialEq)]
pub struct PublicChannel {
    pub flags: u64,
    pub id: ChannelId,
    pub last_message_id: Option<MessageId>,
    pub name: String,
    pub parent_id: Option<ChannelId>,
    pub permission_overwrites: Vec<PermissionOverwrite>,
    pub position: u64,
    pub rate_limit_per_user: u64,
    pub topic: Option<String>,
    pub version: u64,
}

impl Decode for PublicChannel {
    open spec fn defect(j: Json) -> Option<DecodeError> {
        object_defect(j)
            .otherwise(required_defect::<u64>(j, "flags"))
            .otherwise(required_defect::<ChannelId>(j, "id"))
            .otherwise(optional_defect::<MessageId>(j, "last_message_id"))
            .otherwise(required_defect::<String>(j, "name"))
            .otherwise(optional_defect::<ChannelId>(j, "parent_id"))
            .otherwise(required_array_defect::<PermissionOverwrite>(j, "permission_overwrites"))
            .otherwise(required_defect::<u64>(j, "position"))
            .otherwise(required_defect::<u64>(j, "rate_limit_per_user"))
            .otherwise(optional_defect::<String>(j, "topic"))
            .otherwise(required_defect::<u64>(j, "version"))
    }

    open spec fn holds(&self, j: Json) -> bool {
        &&& required_holds(self.flags, j, "flags")
        &&& required_holds(self.id, j, "id")
        &&& optional_holds(self.last_message_id, j, "last_message_id")
        &&& required_holds(self.name, j, "name")
        &&& optional_holds(self.parent_id, j, "parent_id")
        &&& required_array_holds(self.permission_overwrites@, j, "permission_overwrites")
        &&& required_holds(self.position, j, "position")
        &&& required_holds(self.rate_limit_per_user, j, "rate_limit_per_user")
        &&& optional_holds(self.topic, j, "topic")
        &&& required_holds(self.version, j, "version")
    }

    fn decode(v: &serde_json::Value) -> (r: Result<Self, DecodeError>) {
        if !v.is_object() {
            return Err(DecodeError::NotAnObject);
        }
        let flags: u64 = required(v, "flags")?;
        let id: ChannelId = required(v, "id")?;
        let last_message_id: Option<MessageId> = optional(v, "last_message_id")?;
        let name: String = required(v, "name")?;
        let parent_id: Option<ChannelId> = optional(v, "parent_id")?;
        let permission_overwrites: Vec<PermissionOverwrite> =
            required_array(v, "permission_overwrites")?;
        let position: u64 = required(v, "position")?;
        let rate_limit_per_user: u64 = required(v, "rate_limit_per_user")?;
        let topic: Option<String> = optional(v, "topic")?;
        let version: u64 = required(v, "version")?;
        Ok(PublicChannel {
            flags,
            id,
            last_message_id,
            name,
            parent_id,
            permission_overwrites,
            position,
            rate_limit_per_user,
            topic,
            version,
        })
    }
}

impl PublicChannel {
    /// The mention of this channel.
    #[inline(always)]
    pub fn mention(&self) -> (m: Mention)
        ensures
            m@ == mention_text(seq!['<', '#'], self.id.0 as nat),
    {
        self.id.mention()
    }
}

/// A voice channel of a server.
#[derive(Debug, Clone, PartialEq)]
pub struct VoiceChannel {
    pub bitrate: u64,
    pub flags: u64,
    pub id: ChannelId,
    pub last_message_id: Option<MessageId>,
    pub name: String,
    pub parent_id: Option<ChannelId>,
    pub permission_overwrites: Vec<PermissionOverwrite>,
    pub position: u64,
    pub rate_limit_per_user: u64,
    pub rtc_region: Option<String>,
    pub user_limit: u64,
    pub version: u64,
}

impl Decode for VoiceChannel {
    open spec fn defect(j: Json) -> Option<DecodeError> {
        object_defect(j)
            .otherwise(required_defect::<u64>(j, "bitrate"))
            .otherwise(required_defect::<u64>(j, "flags"))
            .otherwise(required_defect::<ChannelId>(j, "id"))
            .otherwise(optional_defect::<MessageId>(j, "last_message_id"))
            .otherwise(required_defect::<String>(j, "name"))
            .otherwise(optional_defect::<ChannelId>(j, "parent_id"))
            .otherwise(required_array_defect::<PermissionOverwrite>(j, "permission_overwrites"))
            .otherwise(required_defect::<u64>(j, "position"))
            .otherwise(required_defect::<u64>(j, "rate_limit_per_user"))
            .otherwise(optional_defect::<String>(j, "rtc_region"))
            .otherwise(required_defect::<u64>(j, "user_limit"))
            .otherwise(required_defect::<u64>(j, "version"))
    }

    open spec fn holds(&self, j: Json) -> bool {
        &&& required_holds(self.bitrate, j, "bitrate")
        &&& required_holds(self.flags, j, "flags")
        &&& required_holds(self.id, j, "id")
        &&& optional_holds(self.last_message_id, j, "last_message_id")
        &&& required_holds(self.name, j, "name")
        &&& optional_holds(self.parent_id, j, "parent_id")
        &&& required_array_holds(self.permission_overwrites@, j, "permission_overwrites")
        &&& required_holds(self.position, j, "position")
        &&& required_holds(self.rate_limit_per_user, j, "rate_limit_per_user")
        &&& optional_holds(self.rtc_region, j, "rtc_region")
        &&& required_holds(self.user_limit, j, "user_limit")
        &&& required_holds(self.version, j, "version")
    }

    fn decode(v: &serde_json::Value) -> (r: Result<Self, DecodeError>) {
        if !v.is_object() {
            return Err(DecodeError::NotAnObject);
        }
        let bitrate: u64 = required(v, "bitrate")?;
        let flags: u64 = required(v, "flags")?;
        let id: ChannelId = required(v, "id")?;
        let last_message_id: Option<MessageId> = optional(v, "last_message_id")?;
        let name: String = required(v, "name")?;
        let parent_id: Option<ChannelId> = optional(v, "parent_id")?;
        let permission_overwrites: Vec<PermissionOverwrite> =
            required_array(v, "permission_overwrites")?;
        let position: u64 = required(v, "position")?;
        let rate_limit_per_user: u64 = required(v, "rate_limit_per_user")?;
        let rtc_region: Option<String> = optional(v, "rtc_region")?;
        let user_limit: u64 = required(v, "user_limit")?;
        let version: u64 = required(v, "version")?;
        Ok(VoiceChannel {
            bitrate,
            flags,
            id,
            last_message_id,
            name,
            parent_id,
            permission_overwrites,
            position,
            rate_limit_per_user,
            rtc_region,
            user_limit,
            version,
        })
    }
}

/// A channel of any kind that this library decodes.
#[derive(Debug, Clone, PartialEq)]
pub enum Channel {
    Group(Group),
    Private(PrivateChannel),
    Public(PublicChannel),
    Voice(VoiceChannel),
    Category(ChannelCategory),
    News,
    Store,
}

/// The kind of the channel `j`, where its `type` is a known number.
pub open spec fn channel_type(j: Json) -> Option<ChannelType> {
    match j.field("type"@) {
        Some(m) => match m.as_u64() {
            Some(n) => ChannelType::of_number(n),
            None => None,
        },
        None => None,
    }
}

impl Decode for Channel {
    open spec fn defect(j: Json) -> Option<DecodeError> {
        object_defect(j).otherwise(required_defect::<ChannelType>(j, "type")).otherwise(
            match channel_type(j) {
                Some(ChannelType::Group) => Group::defect(j),
                Some(ChannelType::Private) => PrivateChannel::defect(j),
                Some(ChannelType::Public) => PublicChannel::defect(j),
                Some(ChannelType::Voice) => VoiceChannel::defect(j),
                Some(ChannelType::Category) => ChannelCategory::defect(j),
                _ => Some(DecodeError::UnsupportedChannelType),
            },
        )
    }

    open spec fn holds(&self, j: Json) -> bool {
        match self {
            Channel::Group(c) => channel_type(j) == Some(ChannelType::Group) && c.holds(j),
            Channel::Private(c) => channel_type(j) == Some(ChannelType::Private) && c.holds(j),
            Channel::Public(c) => channel_type(j) == Some(ChannelType::Public) && c.holds(j),
            Channel::Voice(c) => channel_type(j) == Some(ChannelType::Voice) && c.holds(j),
            Channel::Category(c) => channel_type(j) == Some(ChannelType::Category) && c.holds(j),
            Channel::News => false,
            Channel::Store => false,
        }
    }

    fn decode(v: &serde_json::Value) -> (r: Result<Self, DecodeError>) {
        if !v.is_object() {
            return Err(DecodeError::NotAnObject);
        }
        let kind: ChannelType = required(v, "type")?;
        match kind {
            ChannelType::Group => Ok(Channel::Group(Group::decode(v)?)),
            ChannelType::Private => Ok(Channel::Private(PrivateChannel::decode(v)?)),
            ChannelType::Public => Ok(Channel::Public(PublicChannel::decode(v)?)),
            ChannelType::Voice => Ok(Channel::Voice(VoiceChannel::decode(v)?)),
            ChannelType::Category => Ok(Channel::Category(ChannelCategory::decode(v)?)),
            _ => Err(DecodeError::UnsupportedChannelType),
        }
    }
}

/// A server and its channels.
#[derive(Debug, Clone, PartialEq)]
pub struct Server {
    pub afk_channel_id: Option<ChannelId>,
    pub afk_timeout: u64,
    pub channels: Vec<Channel>,
}

impl Decode for Server {
    open spec fn defect(j: Json) -> Option<DecodeError> {
        object_defect(j)
            .otherwise(optional_defect::<ChannelId>(j, "afk_channel_id"))
            .otherwise(required_defect::<u64>(j, "afk_timeout"))
            .otherwise(required_array_defect::<Channel>(j, "channels"))
    }

    open spec fn holds(&self, j: Json) -> bool {
        &&& optional_holds(self.afk_channel_id, j, "afk_channel_id")
        &&& required_holds(self.afk_timeout, j, "afk_timeout")
        &&& required_array_holds(self.channels@, j, "channels")
    }

    fn decode(v: &serde_json::Value) -> (r: Result<Self, DecodeError>) {
        if !v.is_object() {
            return Err(DecodeError::NotAnObject);
        }
        let afk_channel_id: Option<ChannelId> = optional(v, "afk_channel_id")?;
        let afk_timeout: u64 = required(v, "afk_timeout")?;
        let channels: Vec<Channel> = required_array(v, "channels")?;
        Ok(Server { afk_channel_id, afk_timeout, channels })
    }
}

/// A role of a server. It has no content yet.
pub struct Role {}

/// A ban from a server. It has no content yet.
pub struct Ban {}

/// A member of a server. It has no content yet.
pub struct Member {}

} // verus!
