//! What the gateway tells a client that has just identified itself.

use crate::api::json::Json;
use crate::api::model::channel::{Channel, Server};
use crate::api::model::presence::Presence;
use crate::api::model::relationship::Relationship;
use crate::api::model::user::CurrentUser;
use crate::api::model::value::{
    object_defect, required, required_array, required_array_defect, required_array_holds,
    required_defect, required_holds, Decode, DecodeError, Otherwise,
};
use vstd::prelude::*;

verus! {

/// The state of the account at the moment the session starts. The servers are
/// checked and not kept.
#[derive(Debug, Clone)]
pub struct ReadyEvent {
    pub presences: Vec<Presence>,
    pub private_channels: Vec<Channel>,
    pub relationships: Vec<Relationship>,
    pub session_id: String,
    pub user: CurrentUser,
    pub v: u64,
}

impl Decode for ReadyEvent {
    open spec fn defect(j: Json) -> Option<DecodeError> {
        object_defect(j)
            .otherwise(required_array_defect::<Server>(j, "guilds"))
            .otherwise(required_array_defect::<Presence>(j, "presences"))
            .otherwise(required_array_defect::<Channel>(j, "private_channels"))
            .otherwise(required_array_defect::<Relationship>(j, "relationships"))
            .otherwise(required_defect::<String>(j, "session_id"))
            .otherwise(required_defect::<CurrentUser>(j, "user"))
            .otherwise(required_defect::<u64>(j, "v"))
    }

    open spec fn holds(&self, j: Json) -> bool {
        &&& required_array_holds(self.presences@, j, "presences")
        &&& required_array_holds(self.private_channels@, j, "private_channels")
        &&& required_array_holds(self.relationships@, j, "relationships")
        &&& required_holds(self.session_id, j, "session_id")
        &&& required_holds(self.user, j, "user")
        &&& required_holds(self.v, j, "v")
    }

    fn decode(v: &serde_json::Value) -> (r: Result<Self, DecodeError>) {
        if !v.is_object() {
            return Err(DecodeError::NotAnObject);
        }
        let _servers: Vec<Server> = required_array(v, "guilds")?;
        let presences: Vec<Presence> = required_array(v, "presences")?;
        let private_channels: Vec<Channel> = required_array(v, "private_channels")?;
        let relationships: Vec<Relationship> = required_array(v, "relationships")?;
        let session_id: String = required(v, "session_id")?;
        let user: CurrentUser = required(v, "user")?;
        let v: u64 = required(v, "v")?;
        Ok(ReadyEvent { presences, private_channels, relationships, session_id, user, v })
    }
}

} // verus!
