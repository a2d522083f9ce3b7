//! Presences: who is online, on which device, and what they are doing.

use crate::api::json::Json;
use crate::api::model::ids::ApplicationId;
use crate::api::model::user::User;
use crate::api::model::value::{
    object_defect, optional, optional_defect, optional_holds, required, required_array,
    required_array_defect, required_array_holds, required_defect, required_holds, Decode,
    DecodeError, Otherwise,
};
use crate::api::text::text_eq;
use vstd::prelude::*;

verus! {

/// Whether a user is there.
#[derive(Debug, Clone, PartialEq)]
pub enum Status {
    Online,
    Idle,
    Dnd,
    Offline,
}

impl Status {
    /// The status that a name stands for.
    pub open spec fn of_name(name: Seq<char>) -> Option<Status> {
        if name == "online"@ {
            Some(Status::Online)
        } else if name == "idle"@ {
            Some(Status::Idle)
        } else if name == "dnd"@ {
            Some(Status::Dnd)
        } else if name == "offline"@ {
            Some(Status::Offline)
        } else {
            None
        }
    }

    /// The status that a name stands for.
    pub fn from_name(name: &str) -> (r: Option<Status>)
        ensures
            r == Status::of_name(name@),
    {
        if text_eq(name, "online") {
            Some(Status::Online)
        } else if text_eq(name, "idle") {
            Some(Status::Idle)
        } else if text_eq(name, "dnd") {
            Some(Status::Dnd)
        } else if text_eq(name, "offline") {
            Some(Status::Offline)
        } else {
            None
        }
    }
}

impl Decode for Status {
    open spec fn defect(j: Json) -> Option<DecodeError> {
        match j {
            Json::Text(name) => if Status::of_name(name) is Some {
                None
            } else {
                Some(DecodeError::UnknownStatus)
            },
            _ => Some(DecodeError::NotAString),
        }
    }

    open spec fn holds(&self, j: Json) -> bool {
        j matches Json::Text(name) && Status::of_name(name) == Some(*self)
    }

    fn decode(v: &serde_json::Value) -> (r: Result<Self, DecodeError>) {
        match v.as_str() {
            Some(name) => match Status::from_name(name) {
                Some(status) => Ok(status),
                None => Err(DecodeError::UnknownStatus),
            },
            None => Err(DecodeError::NotAString),
        }
    }
}

/// A user's status on each kind of device.
#[derive(Debug, Clone, PartialEq)]
pub struct PresenceClientStatus {
    pub desktop: Option<Status>,
    pub mobile: Option<Status>,
    pub web: Option<Status>,
}

impl Decode for PresenceClientStatus {
    open spec fn defect(j: Json) -> Option<DecodeError> {
        object_defect(j)
            .otherwise(optional_defect::<Status>(j, "desktop"))
            .otherwise(optional_defect::<Status>(j, "mobile"))
            .otherwise(optional_defect::<Status>(j, "web"))
    }

    open spec fn holds(&self, j: Json) -> bool {
        &&& optional_holds(self.desktop, j, "desktop")
        &&& optional_holds(self.mobile, j, "mobile")
        &&& optional_holds(self.web, j, "web")
    }

    fn decode(v: &serde_json::Value) -> (r: Result<Self, DecodeError>) {
        if !v.is_object() {
            return Err(DecodeError::NotAnObject);
        }
        let desktop: Option<Status> = optional(v, "desktop")?;
        let mobile: Option<Status> = optional(v, "mobile")?;
        let web: Option<Status> = optional(v, "web")?;
        Ok(PresenceClientStatus { desktop, mobile, web })
    }
}

/// An emoji, known by its name.
#[derive(Debug, Clone, PartialEq)]
pub struct Emoji(pub String);

impl Decode for Emoji {
    open spec fn defect(j: Json) -> Option<DecodeError> {
        object_defect(j).otherwise(required_defect::<String>(j, "name"))
    }

    open spec fn holds(&self, j: Json) -> bool {
        required_holds(self.0, j, "name")
    }

    fn decode(v: &serde_json::Value) -> (r: Result<Self, DecodeError>) {
        if !v.is_object() {
            return Err(DecodeError::NotAnObject);
        }
        let name: String = required(v, "name")?;
        Ok(Emoji(name))
    }
}

/// When an activity began and when it will end.
#[derive(Debug, Clone, PartialEq)]
pub struct Timestamp {
    pub end: Option<u64>,
    pub start: Option<u64>,
}

impl Decode for Timestamp {
    open spec fn defect(j: Json) -> Option<DecodeError> {
        object_defect(j)
            .otherwise(optional_defect::<u64>(j, "end"))
            .otherwise(optional_defect::<u64>(j, "start"))
    }

    open spec fn holds(&self, j: Json) -> bool {
        &&& optional_holds(self.end, j, "end")
        &&& optional_holds(self.start, j, "start")
    }

    fn decode(v: &serde_json::Value) -> (r: Result<Self, DecodeError>) {
        if !v.is_object() {
            return Err(DecodeError::NotAnObject);
        }
        let end: Option<u64> = optional(v, "end")?;
        let start: Option<u64> = optional(v, "start")?;
        Ok(Timestamp { end, start })
    }
}

/// The party that an activity is played in.
#[derive(Debug, Clone, PartialEq)]
pub struct PresenceActivityParty {
    pub id: String,
}

impl Decode for PresenceActivityParty {
    open spec fn defect(j: Json) -> Option<DecodeError> {
        object_defect(j).otherwise(required_defect::<String>(j, "id"))
    }

    open spec fn holds(&self, j: Json) -> bool {
        &&& required_holds(self.id, j, "id")
    }

    fn decode(v: &serde_json::Value) -> (r: Result<Self, DecodeError>) {
        if !v.is_object() {
            return Err(DecodeError::NotAnObject);
        }
        let id: String = required(v, "id")?;
        Ok(PresenceActivityParty { id })
    }
}

/// The picture that illustrates an activity, and its caption.
#[derive(Debug, Clone, PartialEq)]
pub struct PresenceActivityAsset {
    pub large_image: String,
    pub large_text: String,
}

impl Decode for PresenceActivityAsset {
    open spec fn defect(j: Json) -> Option<DecodeError> {
        object_defect(j)
            .otherwise(required_defect::<String>(j, "large_image"))
            .otherwise(required_defect::<String>(j, "large_text"))
    }

    open spec fn holds(&self, j: Json) -> bool {
        &&& required_holds(self.large_image, j, "large_image")
        &&& required_holds(self.large_text, j, "large_text")
    }

    fn decode(v: &serde_json::Value) -> (r: Result<Self, DecodeError>) {
        if !v.is_object() {
            return Err(DecodeError::NotAnObject);
        }
        let large_image: String = required(v, "large_image")?;
        let large_text: String = required(v, "large_text")?;
        Ok(PresenceActivityAsset { large_image, large_text })
    }
}

/// Something that a user is doing: a game, a song, a custom status.
#[derive(Debug, Clone, PartialEq)]
pub struct PresenceActivity {
    pub application_id: Option<ApplicationId>,
    pub assets: Option<PresenceActivityAsset>,
    pub created_at: u64,
    pub details: Option<String>,
    pub emoji: Option<Emoji>,
    pub flags: Option<u64>,
    pub id: String,
    pub name: String,
    pub party: Option<PresenceActivityParty>,
    pub session_id: Option<String>,
    pub state: Option<String>,
    pub sync_id: Option<String>,
    pub type_activity: u64,
    pub timestamp: Option<Timestamp>,
}

impl Decode for PresenceActivity {
    open spec fn defect(j: Json) -> Option<DecodeError> {
        object_defect(j)
            .otherwise(optional_defect::<ApplicationId>(j, "application_id"))
            .otherwise(optional_defect::<PresenceActivityAsset>(j, "assets"))
            .otherwise(required_defect::<u64>(j, "created_at"))
            .otherwise(optional_defect::<String>(j, "details"))
            .otherwise(optional_defect::<Emoji>(j, "emoji"))
            .otherwise(optional_defect::<u64>(j, "flags"))
            .otherwise(required_defect::<String>(j, "id"))
            .otherwise(required_defect::<String>(j, "name"))
            .otherwise(optional_defect::<PresenceActivityParty>(j, "party"))
            .otherwise(optional_defect::<String>(j, "session_id"))
            .otherwise(optional_defect::<String>(j, "state"))
            .otherwise(optional_defect::<String>(j, "sync_id"))
            .otherwise(required_defect::<u64>(j, "type"))
            .otherwise(optional_defect::<Timestamp>(j, "timestamps"))
    }

    open spec fn holds(&self, j: Json) -> bool {
        &&& optional_holds(self.application_id, j, "application_id")
        &&& optional_holds(self.assets, j, "assets")
        &&& required_holds(self.created_at, j, "created_at")
        &&& optional_holds(self.details, j, "details")
        &&& optional_holds(self.emoji, j, "emoji")
        &&& optional_holds(self.flags, j, "flags")
        &&& required_holds(self.id, j, "id")
        &&& required_holds(self.name, j, "name")
        &&& optional_holds(self.party, j, "party")
        &&& optional_holds(self.session_id, j, "session_id")
        &&& optional_holds(self.state, j, "state")
        &&& optional_holds(self.sync_id, j, "sync_id")
        &&& required_holds(self.type_activity, j, "type")
        &&& optional_holds(self.timestamp, j, "timestamps")
    }

    fn decode(v: &serde_json::Value) -> (r: Result<Self, DecodeError>) {
        if !v.is_object() {
            return Err(DecodeError::NotAnObject);
        }
        let application_id: Option<ApplicationId> = optional(v, "application_id")?;
        let assets: Option<PresenceActivityAsset> = optional(v, "assets")?;
        let created_at: u64 = required(v, "created_at")?;
        let details: Option<String> = optional(v, "details")?;
        let emoji: Option<Emoji> = optional(v, "emoji")?;
        let flags: Option<u64> = optional(v, "flags")?;
        let id: String = required(v, "id")?;
        let name: String = required(v, "name")?;
        let party: Option<PresenceActivityParty> = optional(v, "party")?;
        let session_id: Option<String> = optional(v, "session_id")?;
        let state: Option<String> = optional(v, "state")?;
        let sync_id: Option<String> = optional(v, "sync_id")?;
        let type_activity: u64 = required(v, "type")?;
        let timestamp: Option<Timestamp> = optional(v, "timestamps")?;
        Ok(PresenceActivity {
            application_id,
            assets,
            created_at,
            details,
            emoji,
            flags,
            id,
            name,
            party,
            session_id,
            state,
            sync_id,
            type_activity,
            timestamp,
        })
    }
}

/// A user's presence: their status and their activities.
#[derive(Debug, Clone, PartialEq)]
pub struct Presence {
    pub activities: Vec<PresenceActivity>,
    pub client_status: PresenceClientStatus,
    pub last_modified: u64,
    pub restricted_application_id: Option<String>,
    pub status: Status,
    pub user: User,
}

impl Decode for Presence {
    open spec fn defect(j: Json) -> Option<DecodeError> {
        object_defect(j)
            .otherwise(required_array_defect::<PresenceActivity>(j, "activities"))
            .otherwise(required_defect::<PresenceClientStatus>(j, "client_status"))
            .otherwise(required_defect::<u64>(j, "last_modified"))
            .otherwise(optional_defect::<String>(j, "restricted_application_id"))
            .otherwise(required_defect::<Status>(j, "status"))
            .otherwise(required_defect::<User>(j, "user"))
    }

    open spec fn holds(&self, j: Json) -> bool {
        &&& required_array_holds(self.activities@, j, "activities")
        &&& required_holds(self.client_status, j, "client_status")
        &&& required_holds(self.last_modified, j, "last_modified")
        &&& optional_holds(self.restricted_application_id, j, "restricted_application_id")
        &&& required_holds(self.status, j, "status")
        &&& required_holds(self.user, j, "user")
    }

    fn decode(v: &serde_json::Value) -> (r: Result<Self, DecodeError>) {
        if !v.is_object() {
            return Err(DecodeError::NotAnObject);
        }
        let activities: Vec<PresenceActivity> = required_array(v, "activities")?;
        let client_status: PresenceClientStatus = required(v, "client_status")?;
        let last_modified: u64 = required(v, "last_modified")?;
        let restricted_application_id: Option<String> = optional(v, "restricted_application_id")?;
        let status: Status = required(v, "status")?;
        let user: User = required(v, "user")?;
        Ok(Presence {
            activities,
            client_status,
            last_modified,
            restricted_application_id,
            status,
            user,
        })
    }
}

} // verus!
