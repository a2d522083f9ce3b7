//! Users and what decorates them.

use crate::api::json::{json_of, Json};
use crate::api::model::ids::{mention_text, Mention, ServerId, UserId};
use crate::api::model::value::{
    get_value, object_defect, optional, optional_defect, optional_holds, required,
    required_defect, required_holds, Decode, DecodeError, Otherwise,
};
use crate::api::text::{decimal, decimal_string, parse_u16, parse_unsigned};
use crate::api::CDN_URL;
use vstd::prelude::*;
use vstd::string::StringExecFns;

verus! {

/// The defect of a discriminator: the member is missing, is no string, or
/// spells no `u16`.
pub open spec fn discriminator_defect(j: Json) -> Option<DecodeError> {
    match j.field("discriminator"@) {
        Some(Json::Text(s)) => if parse_unsigned(s, u16::MAX as nat) is Some {
            None
        } else {
            Some(DecodeError::InvalidNumber)
        },
        Some(_) => Some(DecodeError::NotAString),
        None => Some(DecodeError::MissingField("discriminator")),
    }
}

/// Whether `d` is the number that the discriminator of `j` spells.
pub open spec fn discriminator_holds(d: u16, j: Json) -> bool {
    j.field("discriminator"@) matches Some(Json::Text(s)) && parse_unsigned(s, u16::MAX as nat)
        == Some(d as nat)
}

/// Decodes the discriminator of a user: a string of decimal digits.
pub fn decode_discriminator(v: &serde_json::Value) -> (r: Result<u16, DecodeError>)
    ensures
        r is Ok == discriminator_defect(json_of(*v)) is None,
        r matches Ok(d) ==> discriminator_holds(d, json_of(*v)),
        r matches Err(e) ==> discriminator_defect(json_of(*v)) == Some(e),
{
    match get_value(v, "discriminator") {
        Some(m) => match m.as_str() {
            Some(s) => match parse_u16(s) {
                Some(d) => Ok(d),
                None => Err(DecodeError::InvalidNumber),
            },
            None => Err(DecodeError::NotAString),
        },
        None => Err(DecodeError::MissingField("discriminator")),
    }
}

/// The address of an image on the content delivery network: the network's
/// root, `/`, the directory, `/`, the owner's id, `/`, the image's hash,
/// `.jpg`.
pub open spec fn image_url(directory: Seq<char>, id: nat, hash: Seq<char>) -> Seq<char> {
    CDN_URL@ + seq!['/'] + directory + seq!['/'] + decimal(id) + seq!['/'] + hash + seq![
        '.',
        'j',
        'p',
        'g',
    ]
}

/// Builds the address of an image on the content delivery network.
pub fn build_image_url(directory: &str, id: usize, hash: &str) -> (r: String)
    ensures
        r@ == image_url(directory@, id as nat, hash@),
{
    proof {
        reveal_strlit("/");
        reveal_strlit(".jpg");
    }
    let mut out = String::from_str(CDN_URL);
    out.append("/");
    out.append(directory);
    out.append("/");
    let digits = decimal_string(id as u64);
    out.append(digits.as_str());
    out.append("/");
    out.append(hash);
    out.append(".jpg");
    assert(out@ =~= image_url(directory@, id as nat, hash@));
    out
}

/// The clan tag that a user shows.
#[derive(Debug, Clone, PartialEq)]
pub struct Clan {
    pub badge: Option<String>,
    pub identity_enabled: bool,
    pub identity_guild_id: Option<ServerId>,
    pub tag: Option<String>,
}

impl Decode for Clan {
    open spec fn defect(j: Json) -> Option<DecodeError> {
        object_defect(j)
            .otherwise(optional_defect::<String>(j, "badge"))
            .otherwise(required_defect::<bool>(j, "identity_enabled"))
            .otherwise(optional_defect::<ServerId>(j, "identity_guild_id"))
            .otherwise(optional_defect::<String>(j, "tag"))
    }

    open spec fn holds(&self, j: Json) -> bool {
        &&& optional_holds(self.badge, j, "badge")
        &&& required_holds(self.identity_enabled, j, "identity_enabled")
        &&& optional_holds(self.identity_guild_id, j, "identity_guild_id")
        &&& optional_holds(self.tag, j, "tag")
    }

    fn decode(v: &serde_json::Value) -> (r: Result<Self, DecodeError>) {
        if !v.is_object() {
            return Err(DecodeError::NotAnObject);
        }
        let badge: Option<String> = optional(v, "badge")?;
        let identity_enabled: bool = required(v, "identity_enabled")?;
        let identity_guild_id: Option<ServerId> = optional(v, "identity_guild_id")?;
        let tag: Option<String> = optional(v, "tag")?;
        Ok(Clan { badge, identity_enabled, identity_guild_id, tag })
    }
}

/// The decoration around a user's avatar.
#[derive(Debug, Clone, PartialEq)]
pub struct AvatarDecorationData {
    pub asset: String,
    pub expires_at: Option<u64>,
    pub sku_id: String,
}

impl Decode for AvatarDecorationData {
    open spec fn defect(j: Json) -> Option<DecodeError> {
        object_defect(j)
            .otherwise(required_defect::<String>(j, "asset"))
            .otherwise(optional_defect::<u64>(j, "expires_at"))
            .otherwise(required_defect::<String>(j, "sku_id"))
    }

    open spec fn holds(&self, j: Json) -> bool {
        &&& required_holds(self.asset, j, "asset")
        &&& optional_holds(self.expires_at, j, "expires_at")
        &&& required_holds(self.sku_id, j, "sku_id")
    }

    fn decode(v: &serde_json::Value) -> (r: Result<Self, DecodeError>) {
        if !v.is_object() {
            return Err(DecodeError::NotAnObject);
        }
        let asset: String = required(v, "asset")?;
        let expires_at: Option<u64> = optional(v, "expires_at")?;
        let sku_id: String = required(v, "sku_id")?;
        Ok(AvatarDecorationData { asset, expires_at, sku_id })
    }
}

/// A user as other users see them.
#[derive(Debug, Clone, PartialEq)]
pub struct User {
    pub avatar: Option<String>,
    pub avatar_decoration_data: Option<AvatarDecorationData>,
    pub bot: Option<bool>,
    pub clan: Option<Clan>,
    pub discriminator: u16,
    pub global_name: Option<String>,
    pub id: UserId,
    pub public_flags: Option<u64>,
    pub system: Option<bool>,
    pub username: String,
}

impl Decode for User {
    open spec fn defect(j: Json) -> Option<DecodeError> {
        object_defect(j)
            .otherwise(optional_defect::<String>(j, "avatar"))
            .otherwise(optional_defect::<AvatarDecorationData>(j, "avatar_decoration_data"))
            .otherwise(optional_defect::<bool>(j, "bot"))
            .otherwise(optional_defect::<Clan>(j, "clan"))
            .otherwise(discriminator_defect(j))
            .otherwise(optional_defect::<String>(j, "global_name"))
            .otherwise(required_defect::<UserId>(j, "id"))
            .otherwise(optional_defect::<u64>(j, "public_flags"))
            .otherwise(optional_defect::<bool>(j, "system"))
            .otherwise(required_defect::<String>(j, "username"))
    }

    open spec fn holds(&self, j: Json) -> bool {
        &&& optional_holds(self.avatar, j, "avatar")
        &&& optional_holds(self.avatar_decoration_data, j, "avatar_decoration_data")
        &&& optional_holds(self.bot, j, "bot")
        &&& optional_holds(self.clan, j, "clan")
        &&& discriminator_holds(self.discriminator, j)
        &&& optional_holds(self.global_name, j, "global_name")
        &&& required_holds(self.id, j, "id")
        &&& optional_holds(self.public_flags, j, "public_flags")
        &&& optional_holds(self.system, j, "system")
        &&& required_holds(self.username, j, "username")
    }

    fn decode(v: &serde_json::Value) -> (r: Result<Self, DecodeError>) {
        if !v.is_object() {
            return Err(DecodeError::NotAnObject);
        }
        let avatar: Option<String> = optional(v, "avatar")?;
        let avatar_decoration_data: Option<AvatarDecorationData> =
            optional(v, "avatar_decoration_data")?;
        let bot: Option<bool> = optional(v, "bot")?;
        let clan: Option<Clan> = optional(v, "clan")?;
        let discriminator: u16 = decode_discriminator(v)?;
        let global_name: Option<String> = optional(v, "global_name")?;
        let id: UserId = required(v, "id")?;
        let public_flags: Option<u64> = optional(v, "public_flags")?;
        let system: Option<bool> = optional(v, "system")?;
        let username: String = required(v, "username")?;
        Ok(User {
            avatar,
            avatar_decoration_data,
            bot,
            clan,
            discriminator,
            global_name,
            id,
            public_flags,
            system,
            username,
        })
    }
}

impl User {
    /// The mention of this user.
    #[inline(always)]
    pub fn mention(&self) -> (m: Mention)
        ensures
            m@ == mention_text(seq!['<', '@'], self.id.0 as nat),
    {
        self.id.mention()
    }

    /// The address of the user's avatar, where they have one.
    pub fn avatar_url(&self) -> (r: Option<String>)
        ensures
            r is Some == self.avatar is Some,
            r matches Some(url) ==> url@ == image_url(
                seq!['a', 'v', 'a', 't', 'a', 'r', 's'],
                self.id.0 as nat,
                self.avatar->0@,
            ),
    {
        match &self.avatar {
            Some(hash) => {
                proof {
                    reveal_strlit("avatars");
                }
                assert("avatars"@ =~= seq!['a', 'v', 'a', 't', 'a', 'r', 's']);
                Some(build_image_url("avatars", self.id.0, hash.as_str()))
            },
            None => None,
        }
    }
}

/// The user who is logged in, as the platform describes them to themselves.
#[derive(Debug, Clone, PartialEq)]
pub struct CurrentUser {
    pub accent_color: Option<u64>,
    pub avatar: String,
    pub avatar_decoration_data: Option<String>,
    pub banner: Option<String>,
    pub banner_color: Option<String>,
    pub bio: String,
    pub clan: Option<Clan>,
    pub desktop: bool,
    pub discriminator: u16,
    pub email: String,
    pub flags: u64,
    pub global_name: Option<String>,
    pub id: UserId,
    pub mfa_enabled: bool,
    pub mobile: bool,
    pub nsfw_allowed: bool,
    pub phone: Option<String>,
    pub premium: bool,
    pub premium_type: u64,
    pub primary_guild: Option<String>,
    pub pronouns: String,
    pub public_flags: Option<u64>,
    pub purchased_flags: u64,
    pub username: String,
    pub verified: bool,
}

impl Decode for CurrentUser {
    open spec fn defect(j: Json) -> Option<DecodeError> {
        object_defect(j)
            .otherwise(optional_defect::<u64>(j, "accent_color"))
            .otherwise(required_defect::<String>(j, "avatar"))
            .otherwise(optional_defect::<String>(j, "avatar_decoration_data"))
            .otherwise(optional_defect::<String>(j, "banner"))
            .otherwise(optional_defect::<String>(j, "banner_color"))
            .otherwise(required_defect::<String>(j, "bio"))
            .otherwise(optional_defect::<Clan>(j, "clan"))
            .otherwise(required_defect::<bool>(j, "desktop"))
            .otherwise(discriminator_defect(j))
            .otherwise(required_defect::<String>(j, "email"))
            .otherwise(required_defect::<u64>(j, "flags"))
            .otherwise(optional_defect::<String>(j, "global_name"))
            .otherwise(required_defect::<UserId>(j, "id"))
            .otherwise(required_defect::<bool>(j, "mfa_enabled"))
            .otherwise(required_defect::<bool>(j, "mobile"))
            .otherwise(required_defect::<bool>(j, "nsfw_allowed"))
            .otherwise(optional_defect::<String>(j, "phone"))
            .otherwise(required_defect::<bool>(j, "premium"))
            .otherwise(required_defect::<u64>(j, "premium_type"))
            .otherwise(optional_defect::<String>(j, "primary_guild"))
            .otherwise(required_defect::<String>(j, "pronouns"))
            .otherwise(optional_defect::<u64>(j, "public_flags"))
            .otherwise(required_defect::<u64>(j, "purchased_flags"))
            .otherwise(required_defect::<String>(j, "username"))
            .otherwise(required_defect::<bool>(j, "verified"))
    }

    open spec fn holds(&self, j: Json) -> bool {
        &&& optional_holds(self.accent_color, j, "accent_color")
        &&& required_holds(self.avatar, j, "avatar")
        &&& optional_holds(self.avatar_decoration_data, j, "avatar_decoration_data")
        &&& optional_holds(self.banner, j, "banner")
        &&& optional_holds(self.banner_color, j, "banner_color")
        &&& required_holds(self.bio, j, "bio")
        &&& optional_holds(self.clan, j, "clan")
        &&& required_holds(self.desktop, j, "desktop")
        &&& discriminator_holds(self.discriminator, j)
        &&& required_holds(self.email, j, "email")
        &&& required_holds(self.flags, j, "flags")
        &&& optional_holds(self.global_name, j, "global_name")
        &&& required_holds(self.id, j, "id")
        &&& required_holds(self.mfa_enabled, j, "mfa_enabled")
        &&& required_holds(self.mobile, j, "mobile")
        &&& required_holds(self.nsfw_allowed, j, "nsfw_allowed")
        &&& optional_holds(self.phone, j, "phone")
        &&& required_holds(self.premium, j, "premium")
        &&& required_holds(self.premium_type, j, "premium_type")
        &&& optional_holds(self.primary_guild, j, "primary_guild")
        &&& required_holds(self.pronouns, j, "pronouns")
        &&& optional_holds(self.public_flags, j, "public_flags")
        &&& required_holds(self.purchased_flags, j, "purchased_flags")
        &&& required_holds(self.username, j, "username")
        &&& required_holds(self.verified, j, "verified")
    }

    fn decode(v: &serde_json::Value) -> (r: Result<Self, DecodeError>) {
        if !v.is_object() {
            return Err(DecodeError::NotAnObject);
        }
        let accent_color: Option<u64> = optional(v, "accent_color")?;
        let avatar: String = required(v, "avatar")?;
        let avatar_decoration_data: Option<String> = optional(v, "avatar_decoration_data")?;
        let banner: Option<String> = optional(v, "banner")?;
        let banner_color: Option<String> = optional(v, "banner_color")?;
        let bio: String = required(v, "bio")?;
        let clan: Option<Clan> = optional(v, "clan")?;
        let desktop: bool = required(v, "desktop")?;
        let discriminator: u16 = decode_discriminator(v)?;
        let email: String = required(v, "email")?;
        let flags: u64 = required(v, "flags")?;
        let global_name: Option<String> = optional(v, "global_name")?;
        let id: UserId = required(v, "id")?;
        let mfa_enabled: bool = required(v, "mfa_enabled")?;
        let mobile: bool = required(v, "mobile")?;
        let nsfw_allowed: bool = required(v, "nsfw_allowed")?;
        let phone: Option<String> = optional(v, "phone")?;
        let premium: bool = required(v, "premium")?;
        let premium_type: u64 = required(v, "premium_type")?;
        let primary_guild: Option<String> = optional(v, "primary_guild")?;
        let pronouns: String = required(v, "pronouns")?;
        let public_flags: Option<u64> = optional(v, "public_flags")?;
        let purchased_flags: u64 = required(v, "purchased_flags")?;
        let username: String = required(v, "username")?;
        let verified: bool = required(v, "verified")?;
        Ok(CurrentUser {
            accent_color,
            avatar,
            avatar_decoration_data,
            banner,
            banner_color,
            bio,
            clan,
            desktop,
            discriminator,
            email,
            flags,
            global_name,
            id,
            mfa_enabled,
            mobile,
            nsfw_allowed,
            phone,
            premium,
            premium_type,
            primary_guild,
            pronouns,
            public_flags,
            purchased_flags,
            username,
            verified,
        })
    }
}

} // verus!
