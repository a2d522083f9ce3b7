use discidium::api::model::DecodeError;
use discidium::api::user::{
    decode_answer, decode_list_answer, history_endpoint, login_body, login_token,
    message_body, messages_endpoint, oldest_first, profile_endpoint, DMChat, Guild, Message,
    Profile, User, DMS_ENDPOINT, GUILDS_ENDPOINT, LOGIN_ENDPOINT,
};

fn json(text: &str) -> serde_json::Value {
    serde_json::from_str(text).unwrap()
}

fn user(name: &str) -> User {
    User {
        id: "1".to_string(),
        username: name.to_string(),
        public_flags: 0,
        flags: None,
        accent_color: None,
    }
}

fn chat(name: Option<&str>, recipients: &[&str]) -> DMChat {
    DMChat {
        id: "9".to_string(),
        recipients: recipients.iter().map(|n| user(n)).collect(),
        owner_id: None,
        icon: None,
        name: name.map(|n| n.to_string()),
        dm_type: 1,
        flags: 0,
    }
}

fn message(content: &str) -> Message {
    Message {
        message_type: 0,
        content: content.to_string(),
        author: user("ada"),
        pinned: false,
        mention_everyone: false,
        tts: false,
    }
}

#[test]
fn fixed_endpoints() {
    assert_eq!(LOGIN_ENDPOINT, "https://discord.com/api/v9/auth/login");
    assert_eq!(GUILDS_ENDPOINT, "https://discord.com/api/v9/users/@me/guilds");
    assert_eq!(DMS_ENDPOINT, "https://discord.com/api/v9/users/@me/channels");
}

#[test]
fn endpoints_with_an_id() {
    assert_eq!(messages_endpoint("42"), "https://discord.com/api/v9/channels/42/messages");
    assert_eq!(
        history_endpoint("42"),
        "https://discord.com/api/v9/channels/42/messages?limit=50"
    );
    assert_eq!(
        profile_endpoint("7"),
        "https://discord.com/api/v9/users/7/profile?with_mutual_guilds=true&with_mutual_friends=true&with_mutual_friends_count=false"
    );
}

#[test]
fn login_body_carries_email_and_password() {
    assert_eq!(
        json(&login_body("ada@example.org", "p\"w")),
        json(r#"{"email":"ada@example.org","password":"p\"w"}"#)
    );
    assert_eq!(login_body("a", "b"), r#"{"email":"a","password":"b"}"#);
}

#[test]
fn message_body_carries_the_content() {
    assert_eq!(message_body("hi"), r#"{"content":"hi"}"#);
    assert_eq!(json(&message_body("line\nbreak")), json(r#"{"content":"line\nbreak"}"#));
}

#[test]
fn login_token_is_printed_as_json() {
    assert_eq!(login_token(&json(r#"{"token":"abc.def"}"#)), Ok("\"abc.def\"".to_string()));
    assert_eq!(login_token(&json(r#"{"token":null}"#)), Ok("null".to_string()));
    assert_eq!(login_token(&json(r#"{"token":5}"#)), Ok("5".to_string()));
    assert_eq!(login_token(&json(r#"{"mfa":true}"#)), Err(DecodeError::MissingField("token")));
    assert_eq!(login_token(&json("[]")), Err(DecodeError::MissingField("token")));
}

#[test]
fn dm_name_is_its_own_name_first() {
    assert_eq!(chat(Some("Book club"), &["ada", "bob"]).get_dm_name(), "Book club");
    assert_eq!(chat(Some(""), &["ada"]).get_dm_name(), "");
}

#[test]
fn dm_name_falls_back_to_the_recipients() {
    assert_eq!(chat(None, &["ada"]).get_dm_name(), "ada");
    assert_eq!(chat(None, &["ada", "bob", "cy"]).get_dm_name(), "ada, bob, cy");
    assert_eq!(chat(None, &[]).get_dm_name(), "");
}

#[test]
fn oldest_first_reverses_the_messages() {
    let contents = |messages: &Vec<Message>| -> Vec<String> {
        messages.iter().map(|m| m.content.clone()).collect()
    };
    let reversed = oldest_first(vec![message("c"), message("b"), message("a")]);
    assert_eq!(contents(&reversed), vec!["a", "b", "c"]);
    assert!(oldest_first(vec![]).is_empty());
    assert_eq!(contents(&oldest_first(vec![message("only")])), vec!["only"]);
}

#[test]
fn guild_list_answer_decodes() {
    let text = r#"[{"id": "1", "name": "Lab", "icon": "i", "banner": null, "owner": true,
        "permissions": "8", "features": ["NEWS", "COMMUNITY"], "extra": 1},
        {"id": "2", "name": "Den", "icon": "j", "owner": false, "permissions": "0",
        "features": []}]"#;
    let guilds: Vec<Guild> = decode_list_answer(text).unwrap();
    assert_eq!(
        guilds,
        vec![
            Guild {
                id: "1".to_string(),
                name: "Lab".to_string(),
                icon: "i".to_string(),
                banner: None,
                owner: true,
                permissions: "8".to_string(),
                features: vec!["NEWS".to_string(), "COMMUNITY".to_string()],
            },
            Guild {
                id: "2".to_string(),
                name: "Den".to_string(),
                icon: "j".to_string(),
                banner: None,
                owner: false,
                permissions: "0".to_string(),
                features: vec![],
            },
        ]
    );
}

#[test]
fn dm_list_answer_decodes() {
    let text = r#"[{"id": "9", "recipients": [{"id": "1", "username": "ada", "public_flags": 0,
        "flags": 4}], "owner_id": null, "name": null, "type": 1, "flags": 0}]"#;
    let chats: Vec<DMChat> = decode_list_answer(text).unwrap();
    assert_eq!(chats.len(), 1);
    assert_eq!(chats[0].dm_type, 1);
    assert_eq!(chats[0].recipients[0].flags, Some(4));
    assert_eq!(chats[0].recipients[0].accent_color, None);
    assert_eq!(chats[0].get_dm_name(), "ada");
}

#[test]
fn message_and_profile_answers_decode() {
    let author = r#"{"id": "1", "username": "ada", "public_flags": 0}"#;
    let text = format!(
        r#"[{{"type": 0, "content": "hi", "author": {}, "pinned": false,
        "mention_everyone": false, "tts": true}}]"#,
        author
    );
    let messages: Vec<Message> = decode_list_answer(&text).unwrap();
    assert_eq!(messages[0].content, "hi");
    assert_eq!(messages[0].author, user("ada"));
    assert!(messages[0].tts);

    let text = format!(
        r#"{{"user": {}, "connected_accounts": [{{"type": "github", "id": "g", "name": "ada",
        "verified": true}}], "premium_since": null, "profile_themes_experiment_bucket": 4,
        "badges": [{{"id": "b", "description": "d", "icon": "i"}}], "mutual_friends": [{}],
        "mutual_guilds": [{{"id": "5", "nick": "countess"}}]}}"#,
        author, author
    );
    let profile: Profile = decode_answer(&text).unwrap();
    assert_eq!(profile.user, user("ada"));
    assert_eq!(profile.connected_accounts[0].connection_type, "github");
    assert_eq!(profile.profile_themes_experiment_bucket, 4);
    assert_eq!(profile.badges[0].description, "d");
    assert_eq!(profile.mutual_friends, vec![user("ada")]);
    assert_eq!(profile.mutual_guilds[0].nick, Some("countess".to_string()));
}

#[test]
fn answers_that_do_not_decode() {
    assert_eq!(decode_list_answer::<Guild>("nope"), Err(DecodeError::Syntax));
    assert_eq!(decode_list_answer::<Guild>("{}"), Err(DecodeError::NotAnArray));
    assert_eq!(decode_list_answer::<Guild>("[1]"), Err(DecodeError::NotAnObject));
    assert_eq!(
        decode_list_answer::<Guild>(r#"[{"id": "1"}]"#),
        Err(DecodeError::MissingField("name"))
    );
    assert_eq!(decode_answer::<Profile>(""), Err(DecodeError::Syntax));
    assert_eq!(decode_answer::<Profile>("[]"), Err(DecodeError::NotAnObject));
    assert_eq!(
        decode_answer::<User>(r#"{"id": "1", "username": "x", "public_flags": -1}"#),
        Err(DecodeError::NotAnInteger)
    );
}
