//! Permissions and the bit sets that carry them.

use crate::api::json::{json_of, Json, JsonNumber};
use crate::api::model::value::{DecodeError, Decode};
use crate::api::text::{parse_decimal, parse_unsigned};
use vstd::prelude::*;

verus! {

/// What a member may do in a server or a channel.
#[derive(Debug, Clone, PartialEq)]
pub enum Permission {
    ViewChannels,
    ManageChannels,
    ManageRoles,
    CreateExpressions,
    ManageExpressinos,
    ViewAuditLog,
    ManagePermissions,
    ManageWebhooks,
    ManageServer,
    CreateInvite,
    ChangeNickname,
    ManageNicknames,
    KickMembers,
    BanMembers,
    TimeoutMembers,
    SendMessages,
    SendMessagesThreads,
    CreatePublicThreads,
    CreatePrivateThreads,
    EmbedLinks,
    AttachFiles,
    AddReactions,
    UseExternalEmoji,
    UseExternalStickers,
    MentionEveryone,
    ManageMessages,
    ManageThreads,
    ReadMessageHistory,
    SendTTSMessages,
    SendVoiceMessages,
    CreatePolls,
    Connect,
    Speak,
    Video,
    UseSoundboard,
    UseExternalSounds,
    UseVoiceActivity,
    PrioritySpeaker,
    MuteMembers,
    DeafenMembers,
    MoveMembers,
    SetVoiceChannelStatus,
    UseApplicationCommands,
    UseActivities,
    UseExternalApps,
    CreateEvents,
    ManageEvents,
    Administrator,
}

/// The permission that a bit of a permission value stands for; `None` for
/// the bits that stand for nothing.
pub open spec fn permission_at(bit: u64) -> Option<Permission> {
    if bit == 50 {
        Some(Permission::UseExternalApps)
    } else if bit == 49 {
        Some(Permission::CreatePolls)
    } else if bit == 48 {
        Some(Permission::SetVoiceChannelStatus)
    } else if bit == 46 {
        Some(Permission::SendVoiceMessages)
    } else if bit == 45 {
        Some(Permission::UseExternalSounds)
    } else if bit == 44 {
        Some(Permission::CreateEvents)
    } else if bit == 42 {
        Some(Permission::UseSoundboard)
    } else if bit == 39 {
        Some(Permission::UseActivities)
    } else if bit == 38 {
        Some(Permission::SendMessagesThreads)
    } else if bit == 37 {
        Some(Permission::UseExternalStickers)
    } else if bit == 36 {
        Some(Permission::CreatePrivateThreads)
    } else if bit == 35 {
        Some(Permission::CreatePublicThreads)
    } else if bit == 34 {
        Some(Permission::ManageThreads)
    } else if bit == 33 {
        Some(Permission::ManageEvents)
    } else if bit == 31 {
        Some(Permission::UseApplicationCommands)
    } else if bit == 29 {
        Some(Permission::ManageWebhooks)
    } else if bit == 28 {
        Some(Permission::ManagePermissions)
    } else if bit == 25 {
        Some(Permission::UseVoiceActivity)
    } else if bit == 24 {
        Some(Permission::MoveMembers)
    } else if bit == 23 {
        Some(Permission::DeafenMembers)
    } else if bit == 22 {
        Some(Permission::MuteMembers)
    } else if bit == 21 {
        Some(Permission::Speak)
    } else if bit == 20 {
        Some(Permission::Connect)
    } else if bit == 18 {
        Some(Permission::UseExternalEmoji)
    } else if bit == 17 {
        Some(Permission::MentionEveryone)
    } else if bit == 16 {
        Some(Permission::ReadMessageHistory)
    } else if bit == 15 {
        Some(Permission::AttachFiles)
    } else if bit == 14 {
        Some(Permission::EmbedLinks)
    } else if bit == 13 {
        Some(Permission::ManageMessages)
    } else if bit == 12 {
        Some(Permission::SendTTSMessages)
    } else if bit == 11 {
        Some(Permission::SendMessages)
    } else if bit == 10 {
        Some(Permission::ViewChannels)
    } else if bit == 9 {
        Some(Permission::Video)
    } else if bit == 8 {
        Some(Permission::PrioritySpeaker)
    } else if bit == 6 {
        Some(Permission::AddReactions)
    } else if bit == 4 {
        Some(Permission::ManageChannels)
    } else if bit == 0 {
        Some(Permission::CreateInvite)
    } else {
        None
    }
}

/// Whether bit number `bit` of `value` is set.
pub open spec fn bit_set(value: u64, bit: u64) -> bool {
    (value >> bit) & 1 == 1
}

/// Whether every bit that is set in `value` stands for a permission.
pub open spec fn known_bits_only(value: u64) -> bool {
    forall|bit: u64| bit < 64 && #[trigger] bit_set(value, bit) ==> permission_at(bit) is Some
}

/// The permissions whose bits, from `from` upward, are set in `value`: the
/// highest bit first.
pub open spec fn permissions_from(value: u64, from: u64) -> Seq<Permission>
    decreases 64 - from,
{
    if from >= 64 {
        Seq::empty()
    } else if bit_set(value, from) && permission_at(from) is Some {
        permissions_from(value, (from + 1) as u64).push(permission_at(from)->0)
    } else {
        permissions_from(value, (from + 1) as u64)
    }
}

/// The number that a permission value carries: an unsigned integer, or a
/// string that spells one in decimal.
pub open spec fn permission_value(j: Json) -> Result<u64, DecodeError> {
    match j {
        Json::Number(JsonNumber::Unsigned(n)) => Ok(n),
        Json::Text(s) => match parse_unsigned(s, u64::MAX as nat) {
            Some(n) => Ok(n as u64),
            None => Err(DecodeError::InvalidNumber),
        },
        _ => Err(DecodeError::NotAnInteger),
    }
}

fn permission_for(bit: u64) -> (r: Option<Permission>)
    ensures
        r == permission_at(bit),
{
    if bit == 50 {
        Some(Permission::UseExternalApps)
    } else if bit == 49 {
        Some(Permission::CreatePolls)
    } else if bit == 48 {
        Some(Permission::SetVoiceChannelStatus)
    } else if bit == 46 {
        Some(Permission::SendVoiceMessages)
    } else if bit == 45 {
        Some(Permission::UseExternalSounds)
    } else if bit == 44 {
        Some(Permission::CreateEvents)
    } else if bit == 42 {
        Some(Permission::UseSoundboard)
    } else if bit == 39 {
        Some(Permission::UseActivities)
    } else if bit == 38 {
        Some(Permission::SendMessagesThreads)
    } else if bit == 37 {
        Some(Permission::UseExternalStickers)
    } else if bit == 36 {
        Some(Permission::CreatePrivateThreads)
    } else if bit == 35 {
        Some(Permission::CreatePublicThreads)
    } else if bit == 34 {
        Some(Permission::ManageThreads)
    } else if bit == 33 {
        Some(Permission::ManageEvents)
    } else if bit == 31 {
        Some(Permission::UseApplicationCommands)
    } else if bit == 29 {
        Some(Permission::ManageWebhooks)
    } else if bit == 28 {
        Some(Permission::ManagePermissions)
    } else if bit == 25 {
        Some(Permission::UseVoiceActivity)
    } else if bit == 24 {
        Some(Permission::MoveMembers)
    } else if bit == 23 {
        Some(Permission::DeafenMembers)
    } else if bit == 22 {
        Some(Permission::MuteMembers)
    } else if bit == 21 {
        Some(Permission::Speak)
    } else if bit == 20 {
        Some(Permission::Connect)
    } else if bit == 18 {
        Some(Permission::UseExternalEmoji)
    } else if bit == 17 {
        Some(Permission::MentionEveryone)
    } else if bit == 16 {
        Some(Permission::ReadMessageHistory)
    } else if bit == 15 {
        Some(Permission::AttachFiles)
    } else if bit == 14 {
        Some(Permission::EmbedLinks)
    } else if bit == 13 {
        Some(Permission::ManageMessages)
    } else if bit == 12 {
        Some(Permission::SendTTSMessages)
    } else if bit == 11 {
        Some(Permission::SendMessages)
    } else if bit == 10 {
        Some(Permission::ViewChannels)
    } else if bit == 9 {
        Some(Permission::Video)
    } else if bit == 8 {
        Some(Permission::PrioritySpeaker)
    } else if bit == 6 {
        Some(Permission::AddReactions)
    } else if bit == 4 {
        Some(Permission::ManageChannels)
    } else if bit == 0 {
        Some(Permission::CreateInvite)
    } else {
        None
    }
}

impl Permission {
    /// The permissions that the set bits of `value` stand for, highest bit
    /// first; an error where a set bit stands for no permission.
    pub fn from_bits(value: u64) -> (r: Result<Vec<Permission>, DecodeError>)
        ensures
            r is Ok == known_bits_only(value),
            r matches Ok(list) ==> list@ == permissions_from(value, 0),
            r matches Err(e) ==> e == DecodeError::UnknownPermission,
    {
        let mut out: Vec<Permission> = Vec::new();
        let mut bit: u64 = 64;
        while bit > 0
            invariant
                bit <= 64,
                out@ == permissions_from(value, bit),
                forall|b: u64|
                    bit <= b < 64 && #[trigger] bit_set(value, b) ==> permission_at(b) is Some,
            decreases bit,
        {
            bit -= 1;
            if (value >> bit) & 1 == 1 {
                match permission_for(bit) {
                    Some(p) => {
                        out.push(p);
                    },
                    None => {
                        assert(bit_set(value, bit) && permission_at(bit) is None);
                        return Err(DecodeError::UnknownPermission);
                    },
                }
            }
        }
        Ok(out)
    }

    /// Decodes a permission value into the permissions it grants.
    pub fn decode(v: &serde_json::Value) -> (r: Result<Vec<Permission>, DecodeError>)
        ensures
            r is Ok == <Vec<Permission> as Decode>::defect(json_of(*v)) is None,
            r matches Ok(list) ==> list.holds(json_of(*v)),
            r matches Err(e) ==> <Vec<Permission> as Decode>::defect(json_of(*v)) == Some(e),
    {
        let value = match v.as_u64() {
            Some(n) => n,
            None => match v.as_str() {
                Some(s) => match parse_decimal(s, u64::MAX) {
                    Some(n) => n,
                    None => {
                        return Err(DecodeError::InvalidNumber);
                    },
                },
                None => {
                    return Err(DecodeError::NotAnInteger);
                },
            },
        };
        Permission::from_bits(value)
    }
}

impl Decode for Vec<Permission> {
    open spec fn defect(j: Json) -> Option<DecodeError> {
        match permission_value(j) {
            Ok(value) => if known_bits_only(value) {
                None
            } else {
                Some(DecodeError::UnknownPermission)
            },
            Err(e) => Some(e),
        }
    }

    open spec fn holds(&self, j: Json) -> bool {
        permission_value(j) matches Ok(value) && self@ == permissions_from(value, 0)
    }

    fn decode(v: &serde_json::Value) -> (r: Result<Self, DecodeError>) {
        Permission::decode(v)
    }
}

} // verus!
