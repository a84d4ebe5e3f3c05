use stoat::cache::GlobalCache;
use stoat::ext::OptionsUnreact;
use stoat::models::{
    Channel, ChannelVoiceState, Member, MemberCompositeKey, Message, OverrideField, RelationshipStatus, Role, Server,
    User, UserVoiceState, VoiceInformation,
};
use stoat::store::KeyedStore;

fn user(id: &str, display: Option<&str>) -> User {
    User {
        id: id.to_string(),
        username: "plain".to_string(),
        discriminator: "0001".to_string(),
        display_name: display.map(|d| d.to_string()),
        avatar: None,
        relations: Vec::new(),
        status: None,
        privileged: false,
        bot: None,
        relationship: RelationshipStatus::NoRelation,
        online: false,
    }
}

fn server(id: &str, channels: &[&str]) -> Server {
    Server {
        id: id.to_string(),
        owner: "o".to_string(),
        name: "s".to_string(),
        description: None,
        channels: channels.iter().map(|c| c.to_string()).collect(),
        roles: KeyedStore::new(),
        default_permissions: 0,
        icon: None,
        banner: None,
        nsfw: false,
    }
}

fn text_channel(id: &str, voice: bool) -> Channel {
    Channel::TextChannel {
        id: id.to_string(),
        server: "s".to_string(),
        name: format!("chan-{}", id),
        description: None,
        icon: Some("icon".to_string()),
        last_message_id: Some("last".to_string()),
        default_permissions: Some(OverrideField { a: 3, d: 4 }),
        role_permissions: vec![("r".to_string(), OverrideField { a: 1, d: 0 })],
        nsfw: true,
        voice: if voice { Some(VoiceInformation { max_users: Some(5) }) } else { None },
    }
}

fn participant(id: &str) -> UserVoiceState {
    UserVoiceState { id: id.to_string(), is_receiving: true, is_publishing: true, screensharing: false, camera: false }
}

fn message() -> Message {
    Message {
        id: "m".to_string(),
        channel: "c".to_string(),
        author: "a".to_string(),
        content: None,
        embeds: None,
        edited: None,
        pinned: None,
        reactions: Vec::new(),
    }
}

#[test]
fn channel_accessors_by_kind() {
    let saved = Channel::SavedMessages { id: "sv".to_string(), user: "me".to_string() };
    assert_eq!(saved.user(), Some(&"me".to_string()));
    assert_eq!(saved.name(), Some("Saved Messages".to_string()));
    assert!(saved.supports_voice());
    assert_eq!(saved.server(), None);
    let dm = Channel::DirectMessage { id: "d".to_string(), active: true, recipients: vec!["a".to_string()], last_message_id: None };
    assert_eq!(dm.active(), Some(true));
    assert_eq!(dm.name(), None);
    assert_eq!(dm.recipients().unwrap().len(), 1);
    assert_eq!(dm.last_message_id(), None);
    let t = text_channel("t", false);
    assert_eq!(t.server(), Some(&"s".to_string()));
    assert_eq!(t.name(), Some("chan-t".to_string()));
    assert_eq!(t.icon(), Some(&"icon".to_string()));
    assert_eq!(t.nsfw(), Some(true));
    assert_eq!(t.default_permissions(), Some(OverrideField { a: 3, d: 4 }));
    assert_eq!(t.role_permissions().unwrap().len(), 1);
    assert_eq!(t.last_message_id(), Some(&"last".to_string()));
    assert!(!t.supports_voice());
    assert!(text_channel("v", true).supports_voice());
    assert_eq!(text_channel("v", true).voice(), Some(VoiceInformation { max_users: Some(5) }));
    assert_eq!(t.owner(), None);
    assert_eq!(t.permissions(), None);
    assert_eq!(t.mention(), "<#t>");
}

#[test]
fn user_and_member_texts() {
    assert_eq!(user("u1", None).name(), "plain");
    assert_eq!(user("u1", Some("Shown")).name(), "Shown");
    assert_eq!(user("u1", None).mention(), "<@u1>");
    assert_eq!(user("u1", None).default_avatar_url("https://api.example"), "https://api.example/users/u1/default_avatar");
    let m = Member {
        id: MemberCompositeKey { server: "s".to_string(), user: "u2".to_string() },
        nickname: None,
        avatar: None,
        roles: vec!["r1".to_string()],
        timeout: None,
        can_publish: true,
        can_receive: true,
    };
    assert_eq!(m.mention(), "<@u2>");
    assert_eq!(m.roles_with(&vec!["r2".to_string(), "r3".to_string()]), vec!["r1".to_string(), "r2".to_string(), "r3".to_string()]);
    let msg = message();
    assert_eq!(msg.jump_link("https://app.example"), "https://app.example/channel/c/m");
}

#[test]
fn user_voice_across_servers() {
    let mut cache = GlobalCache::new();
    cache.insert_server(server("s1", &["v1", "v2"]));
    cache.insert_server(server("s2", &["v3"]));
    cache.insert_voice_state_partipant("v2", participant("u"));
    cache.insert_voice_state_partipant("v3", participant("u"));
    cache.insert_voice_state_partipant("v1", participant("other"));
    let states = user("u", None).voice(&cache);
    let channels: Vec<&str> = states.iter().map(|s| s.0.as_str()).collect();
    assert_eq!(channels, vec!["v2", "v3"]);
}

#[test]
fn member_voice_needs_a_cached_channel() {
    let mut cache = GlobalCache::new();
    cache.insert_server(server("s", &["v1", "v2"]));
    cache.insert_voice_state_partipant("v1", participant("u"));
    cache.insert_voice_state_partipant("v2", participant("u"));
    cache.insert_channel(text_channel("v2", true));
    let m = Member {
        id: MemberCompositeKey { server: "s".to_string(), user: "u".to_string() },
        nickname: None,
        avatar: None,
        roles: vec![],
        timeout: None,
        can_publish: true,
        can_receive: true,
    };
    let (channel, state) = m.voice(&cache).unwrap();
    assert_eq!(channel.id(), "v2");
    assert_eq!(state.id, "u");
    let stranger = Member { id: MemberCompositeKey { server: "none".to_string(), user: "u".to_string() }, ..m.clone() };
    assert!(stranger.voice(&cache).is_none());
}

#[test]
fn message_local_reaction_records() {
    let mut m = message();
    m.react("x", Some("me"));
    m.react("x", Some("you"));
    m.react("y", None);
    assert_eq!(m.reactions, vec![("x".to_string(), vec!["me".to_string(), "you".to_string()])]);
    m.unreact("x", Some("me"));
    assert_eq!(m.reactions, vec![("x".to_string(), vec!["you".to_string()])]);
    m.unreact("x", Some("you"));
    assert_eq!(m.reactions, vec![("x".to_string(), vec![])]);
    m.react("x", Some("a"));
    m.remove_reaction("x", &OptionsUnreact { user_id: Some("a".to_string()), remove_all: None });
    assert_eq!(m.reactions, vec![("x".to_string(), vec![])]);
    m.remove_reaction("x", &OptionsUnreact { user_id: None, remove_all: Some(true) });
    assert!(m.reactions.is_empty());
    m.react("z", Some("a"));
    m.clear_reactions();
    assert!(m.reactions.is_empty());
    m.pin_message();
    assert_eq!(m.pinned, Some(true));
    m.unpin_message();
    assert_eq!(m.pinned, None);
}

#[test]
fn server_records_new_channels_and_roles() {
    let mut s = server("s", &["a"]);
    s.create_channel(&text_channel("b", false));
    assert_eq!(s.channels, vec!["a".to_string(), "b".to_string()]);
    s.create_role("r".to_string(), Role { name: "role".to_string(), permissions: OverrideField { a: 0, d: 0 }, colour: None, hoist: false, rank: 0 });
    assert_eq!(s.roles.get("r").unwrap().name, "role");
    let _ = ChannelVoiceState { id: "unused".to_string(), participants: vec![] };
}
