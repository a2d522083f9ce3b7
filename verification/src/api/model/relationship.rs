//! Relationships between the logged-in user and other users.

use crate::api::json::Json;
use crate::api::model::ids::UserId;
use crate::api::model::user::User;
use crate::api::model::value::{
    object_defect, optional, optional_defect, optional_holds, required, required_defect,
    required_holds, Decode, DecodeError, Otherwise,
};
use vstd::prelude::*;

verus! {

/// What another user is to the logged-in user.
#[derive(Debug, Clone, PartialEq)]
pub enum RelationshipType {
    Ignored,
    Friends,
    Blocked,
    IncomingRequest,
    OutgoingRequest,
}

impl RelationshipType {
    /// The relationship that a type number stands for.
    pub open spec fn of_number(n: u64) -> Option<RelationshipType> {
        if n == 0 {
            Some(RelationshipType::Ignored)
        } else if n == 1 {
            Some(RelationshipType::Friends)
        } else if n == 2 {
            Some(RelationshipType::Blocked)
        } else if n == 3 {
            Some(RelationshipType::IncomingRequest)
        } else if n == 4 {
            Some(RelationshipType::OutgoingRequest)
        } else {
            None
        }
    }

    /// The relationship that a type number stands for.
    pub fn from_number(n: u64) -> (r: Option<RelationshipType>)
        ensures
            r == RelationshipType::of_number(n),
    {
        match n {
            0 => Some(RelationshipType::Ignored),
            1 => Some(RelationshipType::Friends),
            2 => Some(RelationshipType::Blocked),
            3 => Some(RelationshipType::IncomingRequest),
            4 => Some(RelationshipType::OutgoingRequest),
            _ => None,
        }
    }
}

impl Decode for RelationshipType {
    open spec fn defect(j: Json) -> Option<DecodeError> {
        match j.as_u64() {
            Some(n) => if RelationshipType::of_number(n) is Some {
                None
            } else {
                Some(DecodeError::UnknownRelationshipType)
            },
            None => Some(DecodeError::NotAnInteger),
        }
    }

    open spec fn holds(&self, j: Json) -> bool {
        j.as_u64() matches Some(n) && RelationshipType::of_number(n) == Some(*self)
    }

    fn decode(v: &serde_json::Value) -> (r: Result<Self, DecodeError>) {
        match v.as_u64() {
            Some(n) => match RelationshipType::from_number(n) {
                Some(kind) => Ok(kind),
                None => Err(DecodeError::UnknownRelationshipType),
            },
            None => Err(DecodeError::NotAnInteger),
        }
    }
}

/// The relationship with one other user.
#[derive(Debug, Clone, PartialEq)]
pub struct Relationship {
    pub id: UserId,
    pub is_spam_request: bool,
    pub nickname: Option<String>,
    pub since: String,
    pub type_relationship: RelationshipType,
    pub user: User,
    pub user_ignored: bool,
}

impl Decode for Relationship {
    open spec fn defect(j: Json) -> Option<DecodeError> {
        object_defect(j)
            .otherwise(required_defect::<UserId>(j, "id"))
            .otherwise(required_defect::<bool>(j, "is_spam_request"))
            .otherwise(optional_defect::<String>(j, "nickname"))
            .otherwise(required_defect::<String>(j, "since"))
            .otherwise(required_defect::<RelationshipType>(j, "type"))
            .otherwise(required_defect::<User>(j, "user"))
            .otherwise(required_defect::<bool>(j, "user_ignored"))
    }

    open spec fn holds(&self, j: Json) -> bool {
        &&& required_holds(self.id, j, "id")
        &&& required_holds(self.is_spam_request, j, "is_spam_request")
        &&& optional_holds(self.nickname, j, "nickname")
        &&& required_holds(self.since, j, "since")
        &&& required_holds(self.type_relationship, j, "type")
        &&& required_holds(self.user, j, "user")
        &&& required_holds(self.user_ignored, j, "user_ignored")
    }

    fn decode(v: &serde_json::Value) -> (r: Result<Self, DecodeError>) {
        if !v.is_object() {
            return Err(DecodeError::NotAnObject);
        }
        let id: UserId = required(v, "id")?;
        let is_spam_request: bool = required(v, "is_spam_request")?;
        let nickname: Option<String> = optional(v, "nickname")?;
        let since: String = required(v, "since")?;
        let type_relationship: RelationshipType = required(v, "type")?;
        let user: User = required(v, "user")?;
        let user_ignored: bool = required(v, "user_ignored")?;
        Ok(Relationship {
            id,
            is_spam_request,
            nickname,
            since,
            type_relationship,
            user,
            user_ignored,
        })
    }
}

} // verus!
