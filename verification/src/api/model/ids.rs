//! Identifiers and the mentions that name them in message text.

use crate::api::json::{json_of, Json};
use crate::api::model::value::{DecodeError, Decode};
use crate::api::text::{decimal, decimal_string, parse_unsigned, parse_usize};
use vstd::prelude::*;
use vstd::string::StringExecFns;

verus! {

/// The text of a mention: the prefix, the id in decimal, and `>`.
pub open spec fn mention_text(prefix: Seq<char>, id: nat) -> Seq<char> {
    prefix + decimal(id) + seq!['>']
}

/// The defect of an id: it is no string, or the string spells no `usize`.
pub open spec fn id_defect(j: Json) -> Option<DecodeError> {
    match j {
        Json::Text(s) => if parse_unsigned(s, usize::MAX as nat) is Some {
            None
        } else {
            Some(DecodeError::InvalidNumber)
        },
        _ => Some(DecodeError::NotAString),
    }
}

/// Whether `id` is the number that the string `j` spells.
pub open spec fn id_holds(id: usize, j: Json) -> bool {
    j matches Json::Text(s) && parse_unsigned(s, usize::MAX as nat) == Some(id as nat)
}

/// Decodes an id: a string that spells a `usize` in decimal.
pub fn decode_id(v: &serde_json::Value) -> (r: Result<usize, DecodeError>)
    ensures
        r is Ok == id_defect(json_of(*v)) is None,
        r matches Ok(id) ==> id_holds(id, json_of(*v)),
        r matches Err(e) ==> id_defect(json_of(*v)) == Some(e),
{
    match v.as_str() {
        Some(s) => match parse_usize(s) {
            Some(id) => Ok(id),
            None => Err(DecodeError::InvalidNumber),
        },
        None => Err(DecodeError::NotAString),
    }
}

/// A reference to a user, a channel or a role, as it is written in a
/// message.
pub struct Mention {
    prefix: &'static str,
    id: usize,
}

impl View for Mention {
    type V = Seq<char>;

    closed spec fn view(&self) -> Seq<char> {
        mention_text(self.prefix@, self.id as nat)
    }
}

impl Mention {
    /// The mention as text.
    pub fn to_string(&self) -> (r: String)
        ensures
            r@ == self@,
    {
        let mut out = String::from_str(self.prefix);
        let digits = decimal_string(self.id as u64);
        out.append(digits.as_str());
        proof {
            reveal_strlit(">");
        }
        out.append(">");
        assert(out@ =~= self@);
        out
    }
}

/// A user's id.
#[derive(Clone, Copy, Hash, PartialEq, PartialOrd, Ord, Eq, Debug)]
pub struct UserId(pub usize);

impl Decode for UserId {
    open spec fn defect(j: Json) -> Option<DecodeError> {
        id_defect(j)
    }

    open spec fn holds(&self, j: Json) -> bool {
        id_holds(self.0, j)
    }

    fn decode(v: &serde_json::Value) -> (r: Result<Self, DecodeError>) {
        match decode_id(v) {
            Ok(id) => Ok(UserId(id)),
            Err(e) => Err(e),
        }
    }
}

impl UserId {
    /// The mention of this user: `<@`, the id, `>`.
    #[inline(always)]
    pub fn mention(&self) -> (m: Mention)
        ensures
            m@ == mention_text(seq!['<', '@'], self.0 as nat),
    {
        proof {
            reveal_strlit("<@");
        }
        let m = Mention { prefix: "<@", id: self.0 };
        assert(m.prefix@ =~= seq!['<', '@']);
        m
    }
}

/// A channel's id.
#[derive(Clone, Copy, Hash, PartialEq, PartialOrd, Ord, Eq, Debug)]
pub struct ChannelId(pub usize);

impl Decode for ChannelId {
    open spec fn defect(j: Json) -> Option<DecodeError> {
        id_defect(j)
    }

    open spec fn holds(&self, j: Json) -> bool {
        id_holds(self.0, j)
    }

    fn decode(v: &serde_json::Value) -> (r: Result<Self, DecodeError>) {
        match decode_id(v) {
            Ok(id) => Ok(ChannelId(id)),
            Err(e) => Err(e),
        }
    }
}

impl ChannelId {
    /// The mention of this channel: `<#`, the id, `>`.
    #[inline(always)]
    pub fn mention(&self) -> (m: Mention)
        ensures
            m@ == mention_text(seq!['<', '#'], self.0 as nat),
    {
        proof {
            reveal_strlit("<#");
        }
        let m = Mention { prefix: "<#", id: self.0 };
        assert(m.prefix@ =~= seq!['<', '#']);
        m
    }
}

/// An application's id.
#[derive(Clone, Copy, Hash, PartialEq, PartialOrd, Ord, Eq, Debug)]
pub struct ApplicationId(pub usize);

impl Decode for ApplicationId {
    open spec fn defect(j: Json) -> Option<DecodeError> {
        id_defect(j)
    }

    open spec fn holds(&self, j: Json) -> bool {
        id_holds(self.0, j)
    }

    fn decode(v: &serde_json::Value) -> (r: Result<Self, DecodeError>) {
        match decode_id(v) {
            Ok(id) => Ok(ApplicationId(id)),
            Err(e) => Err(e),
        }
    }
}

/// A server's id.
#[derive(Clone, Copy, Hash, PartialEq, PartialOrd, Ord, Eq, Debug)]
pub struct ServerId(pub usize);

impl Decode for ServerId {
    open spec fn defect(j: Json) -> Option<DecodeError> {
        id_defect(j)
    }

    open spec fn holds(&self, j: Json) -> bool {
        id_holds(self.0, j)
    }

    fn decode(v: &serde_json::Value) -> (r: Result<Self, DecodeError>) {
        match decode_id(v) {
            Ok(id) => Ok(ServerId(id)),
            Err(e) => Err(e),
        }
    }
}

impl ServerId {
    /// The role that every member of the server has: it carries the
    /// server's own id.
    pub fn everyone(self) -> (r: RoleId)
        ensures
            r.0 == self.0,
    {
        RoleId(self.0)
    }
}

/// A message's id.
#[derive(Clone, Copy, Hash, PartialEq, PartialOrd, Ord, Eq, Debug)]
pub struct MessageId(pub usize);

impl Decode for MessageId {
    open spec fn defect(j: Json) -> Option<DecodeError> {
        id_defect(j)
    }

    open spec fn holds(&self, j: Json) -> bool {
        id_holds(self.0, j)
    }

    fn decode(v: &serde_json::Value) -> (r: Result<Self, DecodeError>) {
        match decode_id(v) {
            Ok(id) => Ok(MessageId(id)),
            Err(e) => Err(e),
        }
    }
}

/// A role's id.
#[derive(Clone, Copy, Hash, PartialEq, PartialOrd, Ord, Eq, Debug)]
pub struct RoleId(pub usize);

impl Decode for RoleId {
    open spec fn defect(j: Json) -> Option<DecodeError> {
        id_defect(j)
    }

    open spec fn holds(&self, j: Json) -> bool {
        id_holds(self.0, j)
    }

    fn decode(v: &serde_json::Value) -> (r: Result<Self, DecodeError>) {
        match decode_id(v) {
            Ok(id) => Ok(RoleId(id)),
            Err(e) => Err(e),
        }
    }
}

impl RoleId {
    /// The mention of this role: `<&`, the id, `>`.
    #[inline(always)]
    pub fn mention(&self) -> (m: Mention)
        ensures
            m@ == mention_text(seq!['<', '&'], self.0 as nat),
    {
        proof {
            reveal_strlit("<&");
        }
        let m = Mention { prefix: "<&", id: self.0 };
        assert(m.prefix@ =~= seq!['<', '&']);
        m
    }
}

/// An emoji's id.
#[derive(Clone, Copy, Hash, PartialEq, PartialOrd, Ord, Eq, Debug)]
pub struct EmojiId(pub usize);

impl Decode for EmojiId {
    open spec fn defect(j: Json) -> Option<DecodeError> {
        id_defect(j)
    }

    open spec fn holds(&self, j: Json) -> bool {
        id_holds(self.0, j)
    }

    fn decode(v: &serde_json::Value) -> (r: Result<Self, DecodeError>) {
        match decode_id(v) {
            Ok(id) => Ok(EmojiId(id)),
            Err(e) => Err(e),
        }
    }
}

} // verus!
