//! The REST interface as a user's client sees it: where its requests go,
//! what they carry, and the shape of what comes back.

use crate::api::json::{
    distinct_keys, entries_of, json_from_text, json_of, json_text, member, object_value,
    parse_text, print, text_value, Json,
};
use crate::api::model::value::{
    array_defect, array_holds, decode_array, object_defect, optional, optional_defect,
    optional_holds, required, required_array, required_array_defect, required_array_holds,
    required_defect, required_holds, Decode, DecodeError, Otherwise,
};
use crate::api::text::{join, joined, views};
use vstd::prelude::*;
use vstd::string::StringExecFns;

verus! {

/// Where a user logs in.
pub const LOGIN_ENDPOINT: &'static str = "https://discord.com/api/v9/auth/login";

/// Where the servers of the logged-in user are listed.
pub const GUILDS_ENDPOINT: &'static str = "https://discord.com/api/v9/users/@me/guilds";

/// Where the private channels of the logged-in user are listed.
pub const DMS_ENDPOINT: &'static str = "https://discord.com/api/v9/users/@me/channels";

/// The address of the messages of a channel.
pub open spec fn messages_endpoint_text(channel_id: Seq<char>) -> Seq<char> {
    "https://discord.com/api/v9/channels/"@ + channel_id + "/messages"@
}

/// Builds the address to which a message for a channel is posted.
pub fn messages_endpoint(channel_id: &str) -> (r: String)
    ensures
        r@ == messages_endpoint_text(channel_id@),
{
    let mut url = String::from_str("https://discord.com/api/v9/channels/");
    url.append(channel_id);
    url.append("/messages");
    url
}

/// The address of the last fifty messages of a channel.
pub open spec fn history_endpoint_text(channel_id: Seq<char>) -> Seq<char> {
    messages_endpoint_text(channel_id) + "?limit=50"@
}

/// Builds the address from which the last fifty messages of a channel are
/// fetched.
pub fn history_endpoint(channel_id: &str) -> (r: String)
    ensures
        r@ == history_endpoint_text(channel_id@),
{
    let mut url = messages_endpoint(channel_id);
    url.append("?limit=50");
    url
}

/// What is asked of a user's profile: the servers and the friends that the
/// user shares with the logged-in user, and not how many friends.
pub const PROFILE_QUERY: &'static str =
    "/profile?with_mutual_guilds=true&with_mutual_friends=true&with_mutual_friends_count=false";

/// The address of a user's profile, with the servers and friends that the
/// user shares with the logged-in user.
pub open spec fn profile_endpoint_text(user_id: Seq<char>) -> Seq<char> {
    "https://discord.com/api/v9/users/"@ + user_id + PROFILE_QUERY@
}

/// Builds the address from which a user's profile is fetched.
pub fn profile_endpoint(user_id: &str) -> (r: String)
    ensures
        r@ == profile_endpoint_text(user_id@),
{
    let mut url = String::from_str("https://discord.com/api/v9/users/");
    url.append(user_id);
    url.append(PROFILE_QUERY);
    url
}

/// What a login request carries.
pub open spec fn login_json(email: Seq<char>, password: Seq<char>) -> Json {
    Json::object_of(seq![("email"@, Json::Text(email)), ("password"@, Json::Text(password))])
}

/// Writes the body of a login request.
pub fn login_body(email: &str, password: &str) -> (r: String)
    ensures
        r@ == json_text(login_json(email@, password@)),
{
    proof {
        reveal_strlit("email");
        reveal_strlit("password");
    }
    let mut entries: Vec<(String, serde_json::Value)> = Vec::new();
    entries.push(("email".to_owned(), text_value(email)));
    entries.push(("password".to_owned(), text_value(password)));
    assert(entries_of(entries@) =~= seq![
        ("email"@, Json::Text(email@)),
        ("password"@, Json::Text(password@)),
    ]);
    assert("email"@.len() != "password"@.len());
    assert(distinct_keys(entries_of(entries@)));
    let body = object_value(entries);
    print(&body)
}

/// What a request that posts a message carries.
pub open spec fn message_json(content: Seq<char>) -> Json {
    Json::object_of(seq![("content"@, Json::Text(content))])
}

/// Writes the body of a request that posts a message.
pub fn message_body(content: &str) -> (r: String)
    ensures
        r@ == json_text(message_json(content@)),
{
    let mut entries: Vec<(String, serde_json::Value)> = Vec::new();
    entries.push(("content".to_owned(), text_value(content)));
    assert(entries_of(entries@) =~= seq![("content"@, Json::Text(content@))]);
    assert(distinct_keys(entries_of(entries@)));
    let body = object_value(entries);
    print(&body)
}

/// Reads the token out of the answer to a login request: the member
/// `token`, printed as JSON. A missing member gives an error; `null` is
/// printed like any other value.
pub fn login_token(answer: &serde_json::Value) -> (r: Result<String, DecodeError>)
    ensures
        match json_of(*answer).get("token"@) {
            Some(token) => r matches Ok(text) && text@ == json_text(token),
            None => r == Err::<String, DecodeError>(DecodeError::MissingField("token")),
        },
{
    match member(answer, "token") {
        Some(token) => Ok(print(token)),
        None => Err(DecodeError::MissingField("token")),
    }
}

/// A user as the REST interface describes them.
#[derive(Debug, Clone, PartialEq)]
pub struct User {
    pub id: String,
    pub username: String,
    pub public_flags: usize,
    pub flags: Option<usize>,
    pub accent_color: Option<usize>,
}

impl Decode for User {
    open spec fn defect(j: Json) -> Option<DecodeError> {
        object_defect(j)
            .otherwise(required_defect::<String>(j, "id"))
            .otherwise(required_defect::<String>(j, "username"))
            .otherwise(required_defect::<usize>(j, "public_flags"))
            .otherwise(optional_defect::<usize>(j, "flags"))
            .otherwise(optional_defect::<usize>(j, "accent_color"))
    }

    open spec fn holds(&self, j: Json) -> bool {
        &&& required_holds(self.id, j, "id")
        &&& required_holds(self.username, j, "username")
        &&& required_holds(self.public_flags, j, "public_flags")
        &&& optional_holds(self.flags, j, "flags")
        &&& optional_holds(self.accent_color, j, "accent_color")
    }

    fn decode(v: &serde_json::Value) -> (r: Result<Self, DecodeError>) {
        if !v.is_object() {
            return Err(DecodeError::NotAnObject);
        }
        let id: String = required(v, "id")?;
        let username: String = required(v, "username")?;
        let public_flags: usize = required(v, "public_flags")?;
        let flags: Option<usize> = optional(v, "flags")?;
        let accent_color: Option<usize> = optional(v, "accent_color")?;
        Ok(User { id, username, public_flags, flags, accent_color })
    }
}

/// A message in a channel.
#[derive(Debug, Clone, PartialEq)]
pub struct Message {
    pub message_type: usize,
    pub content: String,
    pub author: User,
    pub pinned: bool,
    pub mention_everyone: bool,
    pub tts: bool,
}

impl Decode for Message {
    open spec fn defect(j: Json) -> Option<DecodeError> {
        object_defect(j)
            .otherwise(required_defect::<usize>(j, "type"))
            .otherwise(required_defect::<String>(j, "content"))
            .otherwise(required_defect::<User>(j, "author"))
            .otherwise(required_defect::<bool>(j, "pinned"))
            .otherwise(required_defect::<bool>(j, "mention_everyone"))
            .otherwise(required_defect::<bool>(j, "tts"))
    }

    open spec fn holds(&self, j: Json) -> bool {
        &&& required_holds(self.message_type, j, "type")
        &&& required_holds(self.content, j, "content")
        &&& required_holds(self.author, j, "author")
        &&& required_holds(self.pinned, j, "pinned")
        &&& required_holds(self.mention_everyone, j, "mention_everyone")
        &&& required_holds(self.tts, j, "tts")
    }

    fn decode(v: &serde_json::Value) -> (r: Result<Self, DecodeError>) {
        if !v.is_object() {
            return Err(DecodeError::NotAnObject);
        }
        let message_type: usize = required(v, "type")?;
        let content: String = required(v, "content")?;
        let author: User = required(v, "author")?;
        let pinned: bool = required(v, "pinned")?;
        let mention_everyone: bool = required(v, "mention_everyone")?;
        let tts: bool = required(v, "tts")?;
        Ok(Message { message_type, content, author, pinned, mention_everyone, tts })
    }
}

/// A server that the logged-in user is in.
#[derive(Debug, Clone, PartialEq)]
pub struct Guild {
    pub id: String,
    pub name: String,
    pub icon: String,
    pub banner: Option<String>,
    pub owner: bool,
    pub permissions: String,
    pub features: Vec<String>,
}

impl Decode for Guild {
    open spec fn defect(j: Json) -> Option<DecodeError> {
        object_defect(j)
            .otherwise(required_defect::<String>(j, "id"))
            .otherwise(required_defect::<String>(j, "name"))
            .otherwise(required_defect::<String>(j, "icon"))
            .otherwise(optional_defect::<String>(j, "banner"))
            .otherwise(required_defect::<bool>(j, "owner"))
            .otherwise(required_defect::<String>(j, "permissions"))
            .otherwise(required_array_defect::<String>(j, "features"))
    }

    open spec fn holds(&self, j: Json) -> bool {
        &&& required_holds(self.id, j, "id")
        &&& required_holds(self.name, j, "name")
        &&& required_holds(self.icon, j, "icon")
        &&& optional_holds(self.banner, j, "banner")
        &&& required_holds(self.owner, j, "owner")
        &&& required_holds(self.permissions, j, "permissions")
        &&& required_array_holds(self.features@, j, "features")
    }

    fn decode(v: &serde_json::Value) -> (r: Result<Self, DecodeError>) {
        if !v.is_object() {
            return Err(DecodeError::NotAnObject);
        }
        let id: String = required(v, "id")?;
        let name: String = required(v, "name")?;
        let icon: String = required(v, "icon")?;
        let banner: Option<String> = optional(v, "banner")?;
        let owner: bool = required(v, "owner")?;
        let permissions: String = required(v, "permissions")?;
        let features: Vec<String> = required_array(v, "features")?;
        Ok(Guild { id, name, icon, banner, owner, permissions, features })
    }
}

/// A private channel: a conversation with one user or a group.
#[derive(Debug, Clone, PartialEq)]
pub struct DMChat {
    pub id: String,
    pub recipients: Vec<User>,
    pub owner_id: Option<String>,
    pub icon: Option<String>,
    pub name: Option<String>,
    pub dm_type: usize,
    pub flags: usize,
}

impl Decode for DMChat {
    open spec fn defect(j: Json) -> Option<DecodeError> {
        object_defect(j)
            .otherwise(required_defect::<String>(j, "id"))
            .otherwise(required_array_defect::<User>(j, "recipients"))
            .otherwise(optional_defect::<String>(j, "owner_id"))
            .otherwise(optional_defect::<String>(j, "icon"))
            .otherwise(optional_defect::<String>(j, "name"))
            .otherwise(required_defect::<usize>(j, "type"))
            .otherwise(required_defect::<usize>(j, "flags"))
    }

    open spec fn holds(&self, j: Json) -> bool {
        &&& required_holds(self.id, j, "id")
        &&& required_array_holds(self.recipients@, j, "recipients")
        &&& optional_holds(self.owner_id, j, "owner_id")
        &&& optional_holds(self.icon, j, "icon")
        &&& optional_holds(self.name, j, "name")
        &&& required_holds(self.dm_type, j, "type")
        &&& required_holds(self.flags, j, "flags")
    }

    fn decode(v: &serde_json::Value) -> (r: Result<Self, DecodeError>) {
        if !v.is_object() {
            return Err(DecodeError::NotAnObject);
        }
        let id: String = required(v, "id")?;
        let recipients: Vec<User> = required_array(v, "recipients")?;
        let owner_id: Option<String> = optional(v, "owner_id")?;
        let icon: Option<String> = optional(v, "icon")?;
        let name: Option<String> = optional(v, "name")?;
        let dm_type: usize = required(v, "type")?;
        let flags: usize = required(v, "flags")?;
        Ok(DMChat { id, recipients, owner_id, icon, name, dm_type, flags })
    }
}

/// The user names of `users`, in order.
pub open spec fn recipient_names(users: Seq<User>) -> Seq<Seq<char>> {
    Seq::new(users.len(), |i: int| users[i].username@)
}

impl DMChat {
    /// The name under which the chat is shown: its own name where it has
    /// one, else the user names of its recipients with `, ` between them.
    pub fn get_dm_name(&self) -> (r: String)
        ensures
            r@ == match self.name {
                Some(name) => name@,
                None => joined(recipient_names(self.recipients@), seq![',', ' ']),
            },
    {
        match &self.name {
            Some(name) => name.clone(),
            None => {
                let mut names: Vec<String> = Vec::new();
                let mut i: usize = 0;
                while i < self.recipients.len()
                    invariant
                        i <= self.recipients.len(),
                        names@.len() == i,
                        forall|k: int|
                            0 <= k < i ==> (#[trigger] names@[k])@ == self.recipients@[k].username@,
                    decreases self.recipients.len() - i,
                {
                    names.push(self.recipients[i].username.clone());
                    i += 1;
                }
                proof {
                    reveal_strlit(", ");
                }
                assert(", "@ =~= seq![',', ' ']);
                assert(views(names@) =~= recipient_names(self.recipients@));
                join(&names, ", ")
            },
        }
    }
}

/// A server that a user shares with the logged-in user.
#[derive(Debug, Clone, PartialEq)]
pub struct MutualGuild {
    pub id: String,
    pub nick: Option<String>,
}

impl Decode for MutualGuild {
    open spec fn defect(j: Json) -> Option<DecodeError> {
        object_defect(j)
            .otherwise(required_defect::<String>(j, "id"))
            .otherwise(optional_defect::<String>(j, "nick"))
    }

    open spec fn holds(&self, j: Json) -> bool {
        &&& required_holds(self.id, j, "id")
        &&& optional_holds(self.nick, j, "nick")
    }

    fn decode(v: &serde_json::Value) -> (r: Result<Self, DecodeError>) {
        if !v.is_object() {
            return Err(DecodeError::NotAnObject);
        }
        let id: String = required(v, "id")?;
        let nick: Option<String> = optional(v, "nick")?;
        Ok(MutualGuild { id, nick })
    }
}

/// A badge on a user's profile.
#[derive(Debug, Clone, PartialEq)]
pub struct Badge {
    pub id: String,
    pub description: String,
    pub icon: String,
}

impl Decode for Badge {
    open spec fn defect(j: Json) -> Option<DecodeError> {
        object_defect(j)
            .otherwise(required_defect::<String>(j, "id"))
            .otherwise(required_defect::<String>(j, "description"))
            .otherwise(required_defect::<String>(j, "icon"))
    }

    open spec fn holds(&self, j: Json) -> bool {
        &&& required_holds(self.id, j, "id")
        &&& required_holds(self.description, j, "description")
        &&& required_holds(self.icon, j, "icon")
    }

    fn decode(v: &serde_json::Value) -> (r: Result<Self, DecodeError>) {
        if !v.is_object() {
            return Err(DecodeError::NotAnObject);
        }
        let id: String = required(v, "id")?;
        let description: String = required(v, "description")?;
        let icon: String = required(v, "icon")?;
        Ok(Badge { id, description, icon })
    }
}

/// An account elsewhere that a user has linked to their profile.
#[derive(Debug, Clone, PartialEq)]
pub struct Connection {
    pub connection_type: String,
    pub id: String,
    pub name: String,
    pub verified: bool,
}

impl Decode for Connection {
    open spec fn defect(j: Json) -> Option<DecodeError> {
        object_defect(j)
            .otherwise(required_defect::<String>(j, "type"))
            .otherwise(required_defect::<String>(j, "id"))
            .otherwise(required_defect::<String>(j, "name"))
            .otherwise(required_defect::<bool>(j, "verified"))
    }

    open spec fn holds(&self, j: Json) -> bool {
        &&& required_holds(self.connection_type, j, "type")
        &&& required_holds(self.id, j, "id")
        &&& required_holds(self.name, j, "name")
        &&& required_holds(self.verified, j, "verified")
    }

    fn decode(v: &serde_json::Value) -> (r: Result<Self, DecodeError>) {
        if !v.is_object() {
            return Err(DecodeError::NotAnObject);
        }
        let connection_type: String = required(v, "type")?;
        let id: String = required(v, "id")?;
        let name: String = required(v, "name")?;
        let verified: bool = required(v, "verified")?;
        Ok(Connection { connection_type, id, name, verified })
    }
}

/// A user's profile.
#[derive(Debug, Clone, PartialEq)]
pub struct Profile {
    pub user: User,
    pub connected_accounts: Vec<Connection>,
    pub premium_since: Option<String>,
    pub premium_type: Option<String>,
    pub premium_guild_since: Option<String>,
    pub profile_themes_experiment_bucket: usize,
    pub badges: Vec<Badge>,
    pub mutual_friends: Vec<User>,
    pub mutual_guilds: Vec<MutualGuild>,
}

impl Decode for Profile {
    open spec fn defect(j: Json) -> Option<DecodeError> {
        object_defect(j)
            .otherwise(required_defect::<User>(j, "user"))
            .otherwise(required_array_defect::<Connection>(j, "connected_accounts"))
            .otherwise(optional_defect::<String>(j, "premium_since"))
            .otherwise(optional_defect::<String>(j, "premium_type"))
            .otherwise(optional_defect::<String>(j, "premium_guild_since"))
            .otherwise(required_defect::<usize>(j, "profile_themes_experiment_bucket"))
            .otherwise(required_array_defect::<Badge>(j, "badges"))
            .otherwise(required_array_defect::<User>(j, "mutual_friends"))
            .otherwise(required_array_defect::<MutualGuild>(j, "mutual_guilds"))
    }

    open spec fn holds(&self, j: Json) -> bool {
        &&& required_holds(self.user, j, "user")
        &&& required_array_holds(self.connected_accounts@, j, "connected_accounts")
        &&& optional_holds(self.premium_since, j, "premium_since")
        &&& optional_holds(self.premium_type, j, "premium_type")
        &&& optional_holds(self.premium_guild_since, j, "premium_guild_since")
        &&& required_holds(
            self.profile_themes_experiment_bucket,
            j,
            "profile_themes_experiment_bucket",
        )
        &&& required_array_holds(self.badges@, j, "badges")
        &&& required_array_holds(self.mutual_friends@, j, "mutual_friends")
        &&& required_array_holds(self.mutual_guilds@, j, "mutual_guilds")
    }

    fn decode(v: &serde_json::Value) -> (r: Result<Self, DecodeError>) {
        if !v.is_object() {
            return Err(DecodeError::NotAnObject);
        }
        let user: User = required(v, "user")?;
        let connected_accounts: Vec<Connection> = required_array(v, "connected_accounts")?;
        let premium_since: Option<String> = optional(v, "premium_since")?;
        let premium_type: Option<String> = optional(v, "premium_type")?;
        let premium_guild_since: Option<String> = optional(v, "premium_guild_since")?;
        let profile_themes_experiment_bucket: usize =
            required(v, "profile_themes_experiment_bucket")?;
        let badges: Vec<Badge> = required_array(v, "badges")?;
        let mutual_friends: Vec<User> = required_array(v, "mutual_friends")?;
        let mutual_guilds: Vec<MutualGuild> = required_array(v, "mutual_guilds")?;
        Ok(Profile {
            user,
            connected_accounts,
            premium_since,
            premium_type,
            premium_guild_since,
            profile_themes_experiment_bucket,
            badges,
            mutual_friends,
            mutual_guilds,
        })
    }
}

/// The defect of an answer that should be one `T`: it is no JSON, or what
/// it holds has a defect.
pub open spec fn answer_defect<T: Decode>(text: Seq<char>) -> Option<DecodeError> {
    match json_from_text(text) {
        Some(j) => T::defect(j),
        None => Some(DecodeError::Syntax),
    }
}

/// The defect of an answer that should be a list of `T`: it is no JSON, no
/// array, or one of its items has a defect.
pub open spec fn list_answer_defect<T: Decode>(text: Seq<char>) -> Option<DecodeError> {
    match json_from_text(text) {
        Some(j) => array_defect::<T>(j),
        None => Some(DecodeError::Syntax),
    }
}

/// Reads an answer that holds one `T`.
pub fn decode_answer<T: Decode>(text: &str) -> (r: Result<T, DecodeError>)
    ensures
        r is Ok == answer_defect::<T>(text@) is None,
        r matches Ok(x) ==> x.holds(json_from_text(text@)->0),
        r matches Err(e) ==> answer_defect::<T>(text@) == Some(e),
{
    match parse_text(text) {
        Ok(value) => T::decode(&value),
        Err(_) => Err(DecodeError::Syntax),
    }
}

/// Reads an answer that holds a list of `T`, in the order of the answer.
pub fn decode_list_answer<T: Decode>(text: &str) -> (r: Result<Vec<T>, DecodeError>)
    ensures
        r is Ok == list_answer_defect::<T>(text@) is None,
        r matches Ok(xs) ==> array_holds(xs@, json_from_text(text@)->0),
        r matches Err(e) ==> list_answer_defect::<T>(text@) == Some(e),
{
    match parse_text(text) {
        Ok(value) => decode_array(&value),
        Err(_) => Err(DecodeError::Syntax),
    }
}

/// Puts the messages of a channel, which come newest first, in the order
/// in which they were written.
pub fn oldest_first(messages: Vec<Message>) -> (r: Vec<Message>)
    ensures
        r@ == messages@.reverse(),
{
    let mut rest = messages;
    let mut out: Vec<Message> = Vec::new();
    let ghost all = rest@;
    while rest.len() > 0
        invariant
            rest@.len() + out@.len() == all.len(),
            forall|k: int| 0 <= k < rest@.len() ==> rest@[k] == all[k],
            forall|k: int| 0 <= k < out@.len() ==> out@[k] == all[all.len() - 1 - k],
        decreases rest.len(),
    {
        match rest.pop() {
            Some(message) => {
                out.push(message);
            },
            None => {},
        }
    }
    assert(out@ =~= all.reverse());
    out
}

} // verus!
