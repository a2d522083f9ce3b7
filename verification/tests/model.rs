use discidium::api::model::{
    AvatarDecorationData, Channel, ChannelCategory, ChannelId, ChannelType, Clan, CurrentUser,
    Decode, DecodeError, Emoji, Group, MessageId, Permission, PermissionOverwrite,
    PermissionOverwriteMember, PermissionOverwriteRole, Presence, PresenceActivity,
    PresenceActivityAsset, PresenceActivityParty, PresenceClientStatus, PrivateChannel,
    PublicChannel, ReadyEvent, Relationship, RelationshipType, RoleId, Server, ServerId, Status,
    Timestamp, User, UserId, VoiceChannel,
};

fn json(text: &str) -> serde_json::Value {
    serde_json::from_str(text).unwrap()
}

const ADA: &str = r#"{
    "avatar": "a1b2",
    "avatar_decoration_data": {"asset": "leaf", "expires_at": null, "sku_id": "77"},
    "bot": false,
    "clan": {"badge": null, "identity_enabled": true, "identity_guild_id": "5", "tag": "ADA"},
    "discriminator": "0042",
    "global_name": "Ada L.",
    "id": "1001",
    "public_flags": 64,
    "username": "ada"
}"#;

const BOB: &str = r#"{"discriminator": "0", "id": "1002", "username": "bob"}"#;

fn ada() -> User {
    User {
        avatar: Some("a1b2".to_string()),
        avatar_decoration_data: Some(AvatarDecorationData {
            asset: "leaf".to_string(),
            expires_at: None,
            sku_id: "77".to_string(),
        }),
        bot: Some(false),
        clan: Some(Clan {
            badge: None,
            identity_enabled: true,
            identity_guild_id: Some(ServerId(5)),
            tag: Some("ADA".to_string()),
        }),
        discriminator: 42,
        global_name: Some("Ada L.".to_string()),
        id: UserId(1001),
        public_flags: Some(64),
        system: None,
        username: "ada".to_string(),
    }
}

fn bob() -> User {
    User {
        avatar: None,
        avatar_decoration_data: None,
        bot: None,
        clan: None,
        discriminator: 0,
        global_name: None,
        id: UserId(1002),
        public_flags: None,
        system: None,
        username: "bob".to_string(),
    }
}

fn replace(text: &str, from: &str, to: &str) -> String {
    assert!(text.contains(from), "{} is not in the sample", from);
    text.replacen(from, to, 1)
}

#[test]
fn user_decodes_with_all_members() {
    assert_eq!(User::decode(&json(ADA)), Ok(ada()));
}

#[test]
fn user_decodes_with_required_members_only() {
    assert_eq!(User::decode(&json(BOB)), Ok(bob()));
}

#[test]
fn user_null_members_count_as_missing() {
    let text = r#"{"avatar": null, "bot": null, "clan": null, "discriminator": "0",
        "global_name": null, "id": "1002", "public_flags": null, "system": null,
        "username": "bob"}"#;
    assert_eq!(User::decode(&json(text)), Ok(bob()));
}

#[test]
fn user_must_be_an_object() {
    assert_eq!(User::decode(&json("[]")), Err(DecodeError::NotAnObject));
    assert_eq!(User::decode(&json("\"ada\"")), Err(DecodeError::NotAnObject));
    assert_eq!(User::decode(&json("null")), Err(DecodeError::NotAnObject));
}

#[test]
fn user_without_a_required_member_fails() {
    assert_eq!(
        User::decode(&json(r#"{"id": "1", "username": "x"}"#)),
        Err(DecodeError::MissingField("discriminator"))
    );
    assert_eq!(
        User::decode(&json(r#"{"discriminator": "1", "username": "x"}"#)),
        Err(DecodeError::MissingField("id"))
    );
    assert_eq!(
        User::decode(&json(r#"{"discriminator": "1", "id": "1"}"#)),
        Err(DecodeError::MissingField("username"))
    );
    assert_eq!(
        User::decode(&json(r#"{"discriminator": "1", "id": "1", "username": null}"#)),
        Err(DecodeError::MissingField("username"))
    );
}

#[test]
fn user_members_of_the_wrong_type_fail() {
    assert_eq!(
        User::decode(&json(&replace(BOB, "\"bob\"", "5"))),
        Err(DecodeError::NotAString)
    );
    assert_eq!(
        User::decode(&json(&replace(ADA, "false", "\"no\""))),
        Err(DecodeError::NotABool)
    );
    assert_eq!(
        User::decode(&json(&replace(ADA, "64", "-64"))),
        Err(DecodeError::NotAnInteger)
    );
    assert_eq!(
        User::decode(&json(&replace(ADA, "64", "6.4"))),
        Err(DecodeError::NotAnInteger)
    );
    assert_eq!(
        User::decode(&json(&replace(BOB, "\"1002\"", "1002"))),
        Err(DecodeError::NotAString)
    );
    assert_eq!(
        User::decode(&json(&replace(BOB, "\"0\"", "0"))),
        Err(DecodeError::NotAString)
    );
}

#[test]
fn user_discriminator_must_spell_a_u16() {
    assert_eq!(
        User::decode(&json(&replace(BOB, "\"0\"", "\"65535\""))).map(|u| u.discriminator),
        Ok(65535)
    );
    assert_eq!(
        User::decode(&json(&replace(BOB, "\"0\"", "\"65536\""))),
        Err(DecodeError::InvalidNumber)
    );
    assert_eq!(
        User::decode(&json(&replace(BOB, "\"0\"", "\"#1\""))),
        Err(DecodeError::InvalidNumber)
    );
}

#[test]
fn user_first_defect_in_member_order_wins() {
    // `avatar` is looked at before `discriminator`, and that before `id`.
    let text = r#"{"avatar": 1, "discriminator": 2, "id": 3, "username": 4}"#;
    assert_eq!(User::decode(&json(text)), Err(DecodeError::NotAString));
    let text = r#"{"bot": 1, "id": 3}"#;
    assert_eq!(User::decode(&json(text)), Err(DecodeError::NotABool));
    let text = r#"{"clan": [], "bot": 1}"#;
    assert_eq!(User::decode(&json(text)), Err(DecodeError::NotABool));
    let text = r#"{"clan": []}"#;
    assert_eq!(User::decode(&json(text)), Err(DecodeError::NotAnObject));
}

#[test]
fn user_nested_defects_come_through() {
    assert_eq!(
        User::decode(&json(&replace(ADA, "\"identity_enabled\": true", "\"x\": 1"))),
        Err(DecodeError::MissingField("identity_enabled"))
    );
    assert_eq!(
        User::decode(&json(&replace(ADA, "\"sku_id\": \"77\"", "\"sku_id\": 77"))),
        Err(DecodeError::NotAString)
    );
    assert_eq!(
        User::decode(&json(&replace(ADA, "\"5\"", "\"five\""))),
        Err(DecodeError::InvalidNumber)
    );
}

#[test]
fn user_mention_names_the_user() {
    assert_eq!(ada().mention().to_string(), "<@1001>");
}

#[test]
fn avatar_url_points_into_the_avatars_directory() {
    assert_eq!(
        ada().avatar_url(),
        Some("https://cdn.discordapp.com//avatars/1001/a1b2.jpg".to_string())
    );
    assert_eq!(bob().avatar_url(), None);
}

const ME: &str = r##"{
    "accent_color": 255,
    "avatar": "f00d",
    "avatar_decoration_data": null,
    "banner": "b",
    "banner_color": "#ffffff",
    "bio": "hello",
    "clan": null,
    "desktop": true,
    "discriminator": "7",
    "email": "me@example.com",
    "flags": 32,
    "global_name": null,
    "id": "9000",
    "mfa_enabled": true,
    "mobile": false,
    "nsfw_allowed": true,
    "phone": null,
    "premium": false,
    "premium_type": 0,
    "primary_guild": null,
    "pronouns": "",
    "public_flags": 0,
    "purchased_flags": 3,
    "username": "me",
    "verified": true
}"##;

fn me() -> CurrentUser {
    CurrentUser {
        accent_color: Some(255),
        avatar: "f00d".to_string(),
        avatar_decoration_data: None,
        banner: Some("b".to_string()),
        banner_color: Some("#ffffff".to_string()),
        bio: "hello".to_string(),
        clan: None,
        desktop: true,
        discriminator: 7,
        email: "me@example.com".to_string(),
        flags: 32,
        global_name: None,
        id: UserId(9000),
        mfa_enabled: true,
        mobile: false,
        nsfw_allowed: true,
        phone: None,
        premium: false,
        premium_type: 0,
        primary_guild: None,
        pronouns: "".to_string(),
        public_flags: Some(0),
        purchased_flags: 3,
        username: "me".to_string(),
        verified: true,
    }
}

#[test]
fn current_user_decodes() {
    assert_eq!(CurrentUser::decode(&json(ME)), Ok(me()));
}

#[test]
fn current_user_needs_each_required_member() {
    for key in [
        "avatar", "bio", "desktop", "discriminator", "email", "flags", "id", "mfa_enabled",
        "mobile", "nsfw_allowed", "premium", "premium_type", "pronouns", "purchased_flags",
        "username", "verified",
    ] {
        let renamed = replace(ME, &format!("\"{}\":", key), "\"renamed\":");
        match CurrentUser::decode(&json(&renamed)) {
            Err(DecodeError::MissingField(name)) => assert_eq!(name, key),
            other => panic!("{}: {:?}", key, other),
        }
    }
}

#[test]
fn current_user_does_without_each_optional_member() {
    for key in [
        "accent_color", "avatar_decoration_data", "banner", "banner_color", "clan",
        "global_name", "phone", "primary_guild", "public_flags",
    ] {
        let renamed = replace(ME, &format!("\"{}\":", key), "\"renamed\":");
        assert!(CurrentUser::decode(&json(&renamed)).is_ok(), "{}", key);
    }
}

const OVERWRITE_MEMBER: &str =
    r#"{"type": "member", "allow": "1024", "allow_new": "3072", "deny": 0, "deny_new": "0", "id": "1001"}"#;
const OVERWRITE_ROLE: &str =
    r#"{"type": "role", "allow": 0, "allow_new": "0", "deny": "2048", "deny_new": "2048", "id": "31"}"#;

fn overwrite_member() -> PermissionOverwrite {
    PermissionOverwrite::Member(PermissionOverwriteMember {
        allow: vec![Permission::ViewChannels],
        allow_new: vec![Permission::SendMessages, Permission::ViewChannels],
        deny: vec![],
        deny_new: vec![],
        id: UserId(1001),
    })
}

fn overwrite_role() -> PermissionOverwrite {
    PermissionOverwrite::Role(PermissionOverwriteRole {
        allow: vec![],
        allow_new: vec![],
        deny: vec![Permission::SendMessages],
        deny_new: vec![Permission::SendMessages],
        id: RoleId(31),
    })
}

#[test]
fn overwrites_decode_by_their_type() {
    assert_eq!(PermissionOverwrite::decode(&json(OVERWRITE_MEMBER)), Ok(overwrite_member()));
    assert_eq!(PermissionOverwrite::decode(&json(OVERWRITE_ROLE)), Ok(overwrite_role()));
}

#[test]
fn overwrite_of_another_type_is_an_error() {
    assert_eq!(
        PermissionOverwrite::decode(&json(&replace(OVERWRITE_ROLE, "\"role\"", "\"team\""))),
        Err(DecodeError::UnknownOverwriteType)
    );
    assert_eq!(
        PermissionOverwrite::decode(&json(&replace(OVERWRITE_ROLE, "\"role\"", "1"))),
        Err(DecodeError::NotAString)
    );
    assert_eq!(
        PermissionOverwrite::decode(&json(r#"{"allow": 0}"#)),
        Err(DecodeError::MissingField("type"))
    );
    assert_eq!(
        PermissionOverwrite::decode(&json(&replace(OVERWRITE_ROLE, "\"2048\"", "\"2\""))),
        Err(DecodeError::UnknownPermission)
    );
}

#[test]
fn channel_types_decode_from_their_numbers() {
    let expected = [
        (0, ChannelType::Public),
        (1, ChannelType::Private),
        (2, ChannelType::Voice),
        (3, ChannelType::Group),
        (4, ChannelType::Category),
        (5, ChannelType::News),
        (6, ChannelType::Store),
        (10, ChannelType::NewsThread),
        (11, ChannelType::PublicThread),
        (12, ChannelType::PrivateThread),
        (13, ChannelType::StageVoice),
        (14, ChannelType::Directory),
        (15, ChannelType::Forum),
    ];
    for (number, kind) in expected {
        assert_eq!(ChannelType::from_number(number), Some(kind));
        assert_eq!(ChannelType::decode(&json(&number.to_string())), Ok(kind));
    }
    for number in [7u64, 8, 9, 16, 17, 255, u64::MAX] {
        assert_eq!(ChannelType::from_number(number), None);
        assert_eq!(
            ChannelType::decode(&json(&number.to_string())),
            Err(DecodeError::UnknownChannelType)
        );
    }
    assert_eq!(ChannelType::decode(&json("\"0\"")), Err(DecodeError::NotAnInteger));
}

fn group_text() -> String {
    format!(
        r#"{{"type": 3, "blocked_user_warning_dismissed": false, "flags": 0, "icon": "1c0n",
        "id": "300", "last_message_id": "301", "last_pin_timestamp": null, "name": null,
        "owner_id": "1001", "recipient_flags": 0, "recipients": [{}, {}]}}"#,
        ADA, BOB
    )
}

fn group() -> Group {
    Group {
        blocked_user_warning_dismissed: false,
        flags: 0,
        icon: Some("1c0n".to_string()),
        id: ChannelId(300),
        last_message_id: MessageId(301),
        last_pin_timestamp: None,
        name: None,
        owner_id: UserId(1001),
        recipient_flags: 0,
        recipients: vec![ada(), bob()],
    }
}

#[test]
fn group_decodes_with_its_recipients_in_order() {
    assert_eq!(Group::decode(&json(&group_text())), Ok(group()));
    assert_eq!(Channel::decode(&json(&group_text())), Ok(Channel::Group(group())));
}

#[test]
fn group_name_is_its_own_name_first() {
    let mut g = group();
    g.name = Some("The Three".to_string());
    assert_eq!(g.name(), "The Three");
}

#[test]
fn group_name_falls_back_to_the_recipients() {
    assert_eq!(group().name(), "ada, bob");
    let mut g = group();
    g.recipients = vec![bob()];
    assert_eq!(g.name(), "bob");
}

#[test]
fn group_name_of_an_empty_group() {
    let mut g = group();
    g.recipients = vec![];
    assert_eq!(g.name(), "Empty Group");
}

#[test]
fn group_icon_url_points_into_the_channel_icons_directory() {
    assert_eq!(
        group().icon_url(),
        Some("https://cdn.discordapp.com//channel-icons/300/1c0n.jpg".to_string())
    );
    let mut g = group();
    g.icon = None;
    assert_eq!(g.icon_url(), None);
}

#[test]
fn group_array_defects() {
    assert_eq!(
        Group::decode(&json(&replace(&group_text(), "\"recipients\": [", "\"recipients\": [5, "))),
        Err(DecodeError::NotAnObject)
    );
    let no_array = group_text().replace(&format!("[{}, {}]", ADA, BOB), "{}");
    assert_eq!(Group::decode(&json(&no_array)), Err(DecodeError::NotAnArray));
    let second_bad = group_text().replace(BOB, r#"{"discriminator": "0", "id": "1002"}"#);
    assert_eq!(Group::decode(&json(&second_bad)), Err(DecodeError::MissingField("username")));
    let both_bad = second_bad.replace("\"avatar\": \"a1b2\"", "\"avatar\": 12");
    assert_eq!(Group::decode(&json(&both_bad)), Err(DecodeError::NotAString));
}

fn private_text() -> String {
    format!(
        r#"{{"type": 1, "flags": 0, "id": "400", "is_message_request": false,
        "is_message_request_timestamp": null, "is_spam": false, "last_message_id": "401",
        "last_pin_timestamp": "2024-01-01T00:00:00+00:00", "recipient_flags": 0,
        "recipients": [{}, {}], "safety_warnings": ["one", "two"]}}"#,
        BOB, ADA
    )
}

fn private() -> PrivateChannel {
    PrivateChannel {
        flags: 0,
        id: ChannelId(400),
        is_message_request: false,
        is_message_request_timestamp: None,
        is_spam: false,
        last_message_id: Some(MessageId(401)),
        last_pin_timestamp: Some("2024-01-01T00:00:00+00:00".to_string()),
        recipient_flags: 0,
        recipient: bob(),
        safety_warnings: vec!["one".to_string(), "two".to_string()],
    }
}

#[test]
fn private_channel_takes_the_first_recipient() {
    assert_eq!(PrivateChannel::decode(&json(&private_text())), Ok(private()));
    assert_eq!(Channel::decode(&json(&private_text())), Ok(Channel::Private(private())));
}

#[test]
fn private_channel_without_a_recipient_is_an_error() {
    let empty = private_text().replace(&format!("[{}, {}]", BOB, ADA), "[]");
    assert_eq!(PrivateChannel::decode(&json(&empty)), Err(DecodeError::NoRecipient));
    let missing = private_text().replace("\"recipients\"", "\"others\"");
    assert_eq!(
        PrivateChannel::decode(&json(&missing)),
        Err(DecodeError::MissingField("recipients"))
    );
    let bad_warning = private_text().replace("\"two\"", "2");
    assert_eq!(PrivateChannel::decode(&json(&bad_warning)), Err(DecodeError::NotAString));
}

fn public_text() -> String {
    format!(
        r#"{{"type": 0, "flags": 0, "id": "500", "last_message_id": null, "name": "general",
        "parent_id": "600", "permission_overwrites": [{}, {}], "position": 2,
        "rate_limit_per_user": 5, "topic": "talk", "version": 9}}"#,
        OVERWRITE_MEMBER, OVERWRITE_ROLE
    )
}

fn public() -> PublicChannel {
    PublicChannel {
        flags: 0,
        id: ChannelId(500),
        last_message_id: None,
        name: "general".to_string(),
        parent_id: Some(ChannelId(600)),
        permission_overwrites: vec![overwrite_member(), overwrite_role()],
        position: 2,
        rate_limit_per_user: 5,
        topic: Some("talk".to_string()),
        version: 9,
    }
}

#[test]
fn public_channel_decodes() {
    assert_eq!(PublicChannel::decode(&json(&public_text())), Ok(public()));
    assert_eq!(Channel::decode(&json(&public_text())), Ok(Channel::Public(public())));
}

#[test]
fn public_channel_mention_names_the_channel() {
    assert_eq!(public().mention().to_string(), "<#500>");
}

const VOICE: &str = r#"{"type": 2, "bitrate": 64000, "flags": 0, "id": "700",
    "last_message_id": null, "name": "lounge", "parent_id": null, "permission_overwrites": [],
    "position": 0, "rate_limit_per_user": 0, "rtc_region": "rotterdam", "user_limit": 8,
    "version": 1}"#;

fn voice() -> VoiceChannel {
    VoiceChannel {
        bitrate: 64000,
        flags: 0,
        id: ChannelId(700),
        last_message_id: None,
        name: "lounge".to_string(),
        parent_id: None,
        permission_overwrites: vec![],
        position: 0,
        rate_limit_per_user: 0,
        rtc_region: Some("rotterdam".to_string()),
        user_limit: 8,
        version: 1,
    }
}

const CATEGORY: &str = r#"{"type": 4, "flags": 0, "id": "600", "name": "Text",
    "permission_overwrites": [], "position": 1, "version": 3}"#;

fn category() -> ChannelCategory {
    ChannelCategory {
        flags: 0,
        id: ChannelId(600),
        name: "Text".to_string(),
        parent_id: None,
        permission_overwrites: vec![],
        position: 1,
        version: 3,
    }
}

#[test]
fn voice_channel_and_category_decode() {
    assert_eq!(VoiceChannel::decode(&json(VOICE)), Ok(voice()));
    assert_eq!(Channel::decode(&json(VOICE)), Ok(Channel::Voice(voice())));
    assert_eq!(ChannelCategory::decode(&json(CATEGORY)), Ok(category()));
    assert_eq!(Channel::decode(&json(CATEGORY)), Ok(Channel::Category(category())));
}

#[test]
fn channel_of_a_kind_that_is_not_decoded_is_an_error() {
    for number in [5, 6, 10, 11, 12, 13, 14, 15] {
        let text = format!(r#"{{"type": {}, "id": "1"}}"#, number);
        assert_eq!(Channel::decode(&json(&text)), Err(DecodeError::UnsupportedChannelType));
    }
    assert_eq!(
        Channel::decode(&json(r#"{"type": 9}"#)),
        Err(DecodeError::UnknownChannelType)
    );
    assert_eq!(Channel::decode(&json(r#"{"id": "1"}"#)), Err(DecodeError::MissingField("type")));
    assert_eq!(Channel::decode(&json(r#"{"type": "0"}"#)), Err(DecodeError::NotAnInteger));
    assert_eq!(Channel::decode(&json("7")), Err(DecodeError::NotAnObject));
}

#[test]
fn channel_defect_is_that_of_its_kind() {
    assert_eq!(
        Channel::decode(&json(r#"{"type": 2, "flags": 0}"#)),
        Err(DecodeError::MissingField("bitrate"))
    );
    assert_eq!(
        Channel::decode(&json(r#"{"type": 0, "bitrate": 1}"#)),
        Err(DecodeError::MissingField("flags"))
    );
}

#[test]
fn server_decodes_its_channels() {
    let text = format!(
        r#"{{"afk_channel_id": "700", "afk_timeout": 300, "channels": [{}, {}, {}]}}"#,
        CATEGORY,
        public_text(),
        VOICE
    );
    assert_eq!(
        Server::decode(&json(&text)),
        Ok(Server {
            afk_channel_id: Some(ChannelId(700)),
            afk_timeout: 300,
            channels: vec![
                Channel::Category(category()),
                Channel::Public(public()),
                Channel::Voice(voice())
            ],
        })
    );
    assert_eq!(
        Server::decode(&json(r#"{"afk_timeout": 300, "channels": [{"type": 5}]}"#)),
        Err(DecodeError::UnsupportedChannelType)
    );
}

#[test]
fn status_decodes_from_its_name() {
    assert_eq!(Status::decode(&json("\"online\"")), Ok(Status::Online));
    assert_eq!(Status::decode(&json("\"idle\"")), Ok(Status::Idle));
    assert_eq!(Status::decode(&json("\"dnd\"")), Ok(Status::Dnd));
    assert_eq!(Status::decode(&json("\"offline\"")), Ok(Status::Offline));
    assert_eq!(Status::decode(&json("\"Online\"")), Err(DecodeError::UnknownStatus));
    assert_eq!(Status::decode(&json("\"\"")), Err(DecodeError::UnknownStatus));
    assert_eq!(Status::decode(&json("1")), Err(DecodeError::NotAString));
    assert_eq!(Status::from_name("invisible"), None);
}

#[test]
fn relationship_type_decodes_from_its_number() {
    assert_eq!(RelationshipType::decode(&json("0")), Ok(RelationshipType::Ignored));
    assert_eq!(RelationshipType::decode(&json("1")), Ok(RelationshipType::Friends));
    assert_eq!(RelationshipType::decode(&json("2")), Ok(RelationshipType::Blocked));
    assert_eq!(RelationshipType::decode(&json("3")), Ok(RelationshipType::IncomingRequest));
    assert_eq!(RelationshipType::decode(&json("4")), Ok(RelationshipType::OutgoingRequest));
    assert_eq!(
        RelationshipType::decode(&json("5")),
        Err(DecodeError::UnknownRelationshipType)
    );
    assert_eq!(RelationshipType::decode(&json("\"1\"")), Err(DecodeError::NotAnInteger));
}

fn relationship_text() -> String {
    format!(
        r#"{{"id": "1001", "is_spam_request": false, "nickname": "countess",
        "since": "2020-02-02", "type": 1, "user": {}, "user_ignored": false}}"#,
        ADA
    )
}

fn relationship() -> Relationship {
    Relationship {
        id: UserId(1001),
        is_spam_request: false,
        nickname: Some("countess".to_string()),
        since: "2020-02-02".to_string(),
        type_relationship: RelationshipType::Friends,
        user: ada(),
        user_ignored: false,
    }
}

#[test]
fn relationship_decodes() {
    assert_eq!(Relationship::decode(&json(&relationship_text())), Ok(relationship()));
    assert_eq!(
        Relationship::decode(&json(&relationship_text().replace("\"type\": 1", "\"type\": 9"))),
        Err(DecodeError::UnknownRelationshipType)
    );
}

fn presence_text() -> String {
    format!(
        r#"{{"activities": [{{"application_id": "12", "assets": {{"large_image": "img",
        "large_text": "caption"}}, "created_at": 1700000000000, "details": null,
        "emoji": {{"name": "wave"}}, "flags": 1, "id": "custom", "name": "Chess",
        "party": {{"id": "party-1"}}, "session_id": null, "state": "thinking", "sync_id": null,
        "timestamps": {{"start": 5, "end": null}}, "type": 0}}],
        "client_status": {{"desktop": "online", "mobile": null}},
        "last_modified": 1700000000001, "restricted_application_id": null,
        "status": "idle", "user": {}}}"#,
        BOB
    )
}

fn presence() -> Presence {
    Presence {
        activities: vec![PresenceActivity {
            application_id: Some(discidium::api::model::ApplicationId(12)),
            assets: Some(PresenceActivityAsset {
                large_image: "img".to_string(),
                large_text: "caption".to_string(),
            }),
            created_at: 1700000000000,
            details: None,
            emoji: Some(Emoji("wave".to_string())),
            flags: Some(1),
            id: "custom".to_string(),
            name: "Chess".to_string(),
            party: Some(PresenceActivityParty { id: "party-1".to_string() }),
            session_id: None,
            state: Some("thinking".to_string()),
            sync_id: None,
            timestamp: Some(Timestamp { end: None, start: Some(5) }),
            type_activity: 0,
        }],
        client_status: PresenceClientStatus {
            desktop: Some(Status::Online),
            mobile: None,
            web: None,
        },
        last_modified: 1700000000001,
        restricted_application_id: None,
        status: Status::Idle,
        user: bob(),
    }
}

#[test]
fn presence_decodes_with_its_activities() {
    assert_eq!(Presence::decode(&json(&presence_text())), Ok(presence()));
}

#[test]
fn presence_defects() {
    assert_eq!(
        Presence::decode(&json(&presence_text().replace("\"idle\"", "\"away\""))),
        Err(DecodeError::UnknownStatus)
    );
    assert_eq!(
        Presence::decode(&json(&presence_text().replace("\"desktop\": \"online\"", "\"web\": 3"))),
        Err(DecodeError::NotAString)
    );
    assert_eq!(
        Presence::decode(&json(&presence_text().replace("\"name\": \"wave\"", "\"id\": \"1\""))),
        Err(DecodeError::MissingField("name"))
    );
    assert_eq!(
        Presence::decode(&json(&presence_text().replace("\"type\": 0", "\"kind\": 0"))),
        Err(DecodeError::MissingField("type"))
    );
}

fn ready_text() -> String {
    format!(
        r#"{{"v": 9, "session_id": "abc", "user": {}, "guilds": [],
        "presences": [{}], "private_channels": [{}, {}], "relationships": [{}],
        "resume_gateway_url": "wss://example/resume", "session_type": "normal"}}"#,
        ME,
        presence_text(),
        private_text(),
        group_text(),
        relationship_text()
    )
}

#[test]
fn ready_event_decodes_the_state_of_the_account() {
    let ready = ReadyEvent::decode(&json(&ready_text())).unwrap();
    assert_eq!(ready.v, 9);
    assert_eq!(ready.session_id, "abc");
    assert_eq!(ready.user, me());
    assert_eq!(ready.presences, vec![presence()]);
    assert_eq!(
        ready.private_channels,
        vec![Channel::Private(private()), Channel::Group(group())]
    );
    assert_eq!(ready.relationships, vec![relationship()]);
}

#[test]
fn ready_event_checks_the_servers_though_it_keeps_none() {
    let bad = ready_text().replace("\"guilds\": []", "\"guilds\": [{\"channels\": []}]");
    match ReadyEvent::decode(&json(&bad)) {
        Err(DecodeError::MissingField("afk_timeout")) => {}
        other => panic!("{:?}", other),
    }
    let none = ready_text().replace("\"guilds\": [],", "");
    match ReadyEvent::decode(&json(&none)) {
        Err(DecodeError::MissingField("guilds")) => {}
        other => panic!("{:?}", other),
    }
}

#[test]
fn ready_event_needs_every_part() {
    for key in ["presences", "private_channels", "relationships", "session_id", "user", "v"] {
        let renamed = replace(&ready_text(), &format!("\"{}\":", key), "\"renamed\":");
        match ReadyEvent::decode(&json(&renamed)) {
            Err(DecodeError::MissingField(name)) => assert_eq!(name, key),
            other => panic!("{}: {:?}", key, other),
        }
    }
}
