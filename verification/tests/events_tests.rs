use stoat::cache::GlobalCache;
use stoat::events::{Dispatch, Event, RemovalIntention};
use stoat::models::{
    Channel, ChannelVoiceState, Member, MemberCompositeKey, Message, OverrideField, RelationshipStatus, Role, Server,
    User, UserVoiceState,
};
use stoat::partial::{
    FieldsChannel, FieldsMember, FieldsMessage, FieldsRole, FieldsServer, FieldsUser, PartialChannel, PartialMember,
    PartialMessage, PartialRole, PartialServer, PartialUser, PartialUserVoiceState,
};
use stoat::store::KeyedStore;

fn message(id: &str) -> Message {
    Message {
        id: id.to_string(),
        channel: "c".to_string(),
        author: "a".to_string(),
        content: Some("hello".to_string()),
        embeds: None,
        edited: None,
        pinned: Some(true),
        reactions: Vec::new(),
    }
}

fn user(id: &str, relationship: RelationshipStatus) -> User {
    User {
        id: id.to_string(),
        username: format!("name-{}", id),
        discriminator: "0001".to_string(),
        display_name: Some("Display".to_string()),
        avatar: None,
        relations: Vec::new(),
        status: None,
        privileged: false,
        bot: None,
        relationship,
        online: false,
    }
}

fn role(name: &str, rank: i64) -> Role {
    Role { name: name.to_string(), permissions: OverrideField { a: 0, d: 0 }, colour: Some("red".to_string()), hoist: false, rank }
}

fn server(id: &str, channels: &[&str]) -> Server {
    let mut roles = KeyedStore::new();
    roles.insert("r1".to_string(), role("one", 5));
    roles.insert("r2".to_string(), role("two", 1));
    roles.insert("r3".to_string(), role("three", 3));
    Server {
        id: id.to_string(),
        owner: "owner".to_string(),
        name: "server".to_string(),
        description: Some("about".to_string()),
        channels: channels.iter().map(|c| c.to_string()).collect(),
        roles,
        default_permissions: 0,
        icon: None,
        banner: None,
        nsfw: false,
    }
}

fn text_channel(id: &str, server: &str) -> Channel {
    Channel::TextChannel {
        id: id.to_string(),
        server: server.to_string(),
        name: "general".to_string(),
        description: Some("desc".to_string()),
        icon: None,
        last_message_id: None,
        default_permissions: None,
        role_permissions: Vec::new(),
        nsfw: false,
        voice: None,
    }
}

fn group(id: &str, recipients: &[&str]) -> Channel {
    Channel::Group {
        id: id.to_string(),
        name: "group".to_string(),
        owner: "owner".to_string(),
        description: None,
        recipients: recipients.iter().map(|c| c.to_string()).collect(),
        icon: None,
        last_message_id: None,
        permissions: None,
        nsfw: false,
    }
}

fn member(server: &str, user: &str) -> Member {
    Member {
        id: MemberCompositeKey { server: server.to_string(), user: user.to_string() },
        nickname: Some("nick".to_string()),
        avatar: None,
        roles: vec!["r1".to_string()],
        timeout: None,
        can_publish: false,
        can_receive: false,
    }
}

fn voice(id: &str) -> UserVoiceState {
    UserVoiceState { id: id.to_string(), is_receiving: true, is_publishing: false, screensharing: false, camera: false }
}

fn reaction_users(cache: &GlobalCache, id: &str) -> Vec<(String, Vec<String>)> {
    cache.get_message(id).unwrap().reactions.clone()
}

#[test]
fn new_message_is_cached_and_announced() {
    let mut cache = GlobalCache::new();
    let out = cache.update_state(Event::Message(message("m1")));
    assert_eq!(out.len(), 2);
    assert!(matches!(&out[0], Dispatch::MessageWaiters(m) if m.id == "m1"));
    assert!(matches!(&out[1], Dispatch::Message(m) if m.id == "m1"));
    assert_eq!(cache.get_message("m1").unwrap().content, Some("hello".to_string()));
}

#[test]
fn message_update_applies_and_clears() {
    let mut cache = GlobalCache::new();
    cache.update_state(Event::Message(message("m1")));
    let data = PartialMessage { content: Some("edited".to_string()), embeds: None, edited: Some("now".to_string()), pinned: None };
    let out = cache.update_state(Event::MessageUpdate {
        id: "m1".to_string(),
        channel: "c".to_string(),
        data,
        clear: vec![FieldsMessage::Pinned],
    });
    assert_eq!(out.len(), 1);
    match &out[0] {
        Dispatch::MessageUpdate { before, after, .. } => {
            assert_eq!(before.content, Some("hello".to_string()));
            assert_eq!(before.pinned, Some(true));
            assert_eq!(after.content, Some("edited".to_string()));
            assert_eq!(after.pinned, None);
        },
        other => panic!("unexpected {:?}", other),
    }
    let m = cache.get_message("m1").unwrap();
    assert_eq!(m.edited, Some("now".to_string()));
    let none = cache.update_state(Event::MessageUpdate {
        id: "zz".to_string(),
        channel: "c".to_string(),
        data: PartialMessage { content: None, embeds: None, edited: None, pinned: None },
        clear: vec![],
    });
    assert!(none.is_empty());
}

#[test]
fn react_then_unreact_restores_reactions() {
    let mut cache = GlobalCache::new();
    cache.update_state(Event::Message(message("m")));
    let react = |user: &str, emoji: &str| Event::MessageReact {
        id: "m".to_string(),
        channel_id: "c".to_string(),
        user_id: user.to_string(),
        emoji_id: emoji.to_string(),
    };
    assert!(cache.update_state(react("u1", "x")).is_empty());
    cache.update_state(react("u2", "x"));
    cache.update_state(react("u1", "x"));
    let before = reaction_users(&cache, "m");
    assert_eq!(before, vec![("x".to_string(), vec!["u1".to_string(), "u2".to_string()])]);
    cache.update_state(react("u3", "y"));
    cache.update_state(Event::MessageUnreact {
        id: "m".to_string(),
        channel_id: "c".to_string(),
        user_id: "u3".to_string(),
        emoji_id: "y".to_string(),
    });
    assert_eq!(reaction_users(&cache, "m"), before);
}

#[test]
fn unreact_moves_the_last_user_into_place() {
    let mut cache = GlobalCache::new();
    cache.update_state(Event::Message(message("m")));
    for u in ["u1", "u2", "u3"] {
        cache.update_state(Event::MessageReact {
            id: "m".to_string(),
            channel_id: "c".to_string(),
            user_id: u.to_string(),
            emoji_id: "x".to_string(),
        });
    }
    cache.update_state(Event::MessageUnreact {
        id: "m".to_string(),
        channel_id: "c".to_string(),
        user_id: "u1".to_string(),
        emoji_id: "x".to_string(),
    });
    assert_eq!(reaction_users(&cache, "m"), vec![("x".to_string(), vec!["u3".to_string(), "u2".to_string()])]);
}

#[test]
fn remove_reaction_moves_the_last_emoji_into_place() {
    let mut cache = GlobalCache::new();
    cache.update_state(Event::Message(message("m")));
    for e in ["a", "b", "c"] {
        cache.update_state(Event::MessageReact {
            id: "m".to_string(),
            channel_id: "c".to_string(),
            user_id: "u".to_string(),
            emoji_id: e.to_string(),
        });
    }
    cache.update_state(Event::MessageRemoveReaction { id: "m".to_string(), channel_id: "c".to_string(), emoji_id: "a".to_string() });
    let emojis: Vec<String> = reaction_users(&cache, "m").into_iter().map(|e| e.0).collect();
    assert_eq!(emojis, vec!["c".to_string(), "b".to_string()]);
}

#[test]
fn message_delete_and_append() {
    let mut cache = GlobalCache::new();
    cache.update_state(Event::Message(message("m")));
    let out = cache.update_state(Event::MessageAppend { id: "m".to_string(), channel: "c".to_string(), embeds: None });
    assert!(matches!(&out[0], Dispatch::MessageAppend { message, embeds } if message.id == "m" && embeds.is_empty()));
    let out = cache.update_state(Event::MessageDelete { id: "m".to_string(), channel: "c".to_string() });
    assert!(matches!(&out[0], Dispatch::MessageDelete(m) if m.id == "m"));
    assert!(cache.get_message("m").is_none());
    assert!(cache.update_state(Event::MessageDelete { id: "m".to_string(), channel: "c".to_string() }).is_empty());
}

#[test]
fn bulk_message_delete_keeps_the_cache() {
    let mut cache = GlobalCache::new();
    cache.update_state(Event::Message(message("m")));
    let out = cache.update_state(Event::BulkMessageDelete { channel: "c".to_string(), ids: vec!["m".to_string()] });
    assert!(matches!(&out[0], Dispatch::BulkMessageDelete { channel, ids, found } if channel == "c" && ids.len() == 1 && found.is_empty()));
    assert!(cache.get_message("m").is_some());
}

#[test]
fn channels_follow_their_server() {
    let mut cache = GlobalCache::new();
    cache.insert_server(server("s", &["old"]));
    let out = cache.update_state(Event::ChannelCreate(text_channel("new", "s")));
    assert!(matches!(&out[0], Dispatch::ChannelCreate(c) if c.id() == "new"));
    assert_eq!(cache.get_server("s").unwrap().channels, vec!["old".to_string(), "new".to_string()]);
    assert!(cache.get_channel("new").is_some());
    let out = cache.update_state(Event::ChannelDelete { id: "new".to_string() });
    assert!(matches!(&out[0], Dispatch::ChannelDelete(c) if c.id() == "new"));
    assert_eq!(cache.get_server("s").unwrap().channels, vec!["old".to_string()]);
    assert!(cache.get_channel("new").is_none());
    assert!(cache.update_state(Event::ChannelDelete { id: "new".to_string() }).is_empty());
}

#[test]
fn group_membership_changes() {
    let mut cache = GlobalCache::new();
    cache.insert_channel(group("g", &["a", "b"]));
    let out = cache.update_state(Event::ChannelGroupJoin { id: "g".to_string(), user: "c".to_string() });
    assert!(matches!(&out[0], Dispatch::ChannelGroupUserJoin { channel, user } if user == "c" && channel.recipients().unwrap().len() == 3));
    cache.update_state(Event::ChannelGroupLeave { id: "g".to_string(), user: "a".to_string() });
    assert_eq!(cache.get_channel("g").unwrap().recipients().unwrap(), &vec!["b".to_string(), "c".to_string()]);
    assert!(cache.update_state(Event::ChannelGroupJoin { id: "x".to_string(), user: "c".to_string() }).is_empty());
}

#[test]
fn channel_update_replaces_optional_fields() {
    let mut cache = GlobalCache::new();
    cache.insert_channel(text_channel("t", "s"));
    let data = PartialChannel {
        name: Some("renamed".to_string()),
        owner: None,
        description: None,
        icon: None,
        nsfw: Some(true),
        active: None,
        permissions: None,
        role_permissions: None,
        default_permissions: Some(OverrideField { a: 1, d: 2 }),
        last_message_id: Some("m9".to_string()),
    };
    let out = cache.update_state(Event::ChannelUpdate { id: "t".to_string(), data, clear: vec![FieldsChannel::DefaultPermissions] });
    assert_eq!(out.len(), 1);
    let c = cache.get_channel("t").unwrap();
    assert_eq!(c.name(), Some("renamed".to_string()));
    assert_eq!(c.description(), None);
    assert_eq!(c.nsfw(), Some(true));
    assert_eq!(c.default_permissions(), None);
    assert_eq!(c.last_message_id(), Some(&"m9".to_string()));
}

#[test]
fn server_create_and_delete_cascade() {
    let mut cache = GlobalCache::new();
    let out = cache.update_state(Event::ServerCreate {
        id: "s".to_string(),
        server: server("s", &["t1", "t2"]),
        channels: vec![text_channel("t1", "s"), text_channel("t2", "s")],
        emojis: vec![],
        voice_states: vec![],
    });
    assert!(matches!(&out[0], Dispatch::ServerCreate { server, channels, .. } if server.id == "s" && channels.len() == 2));
    cache.insert_voice_state(ChannelVoiceState { id: "t2".to_string(), participants: vec![voice("u")] });
    let out = cache.update_state(Event::ServerDelete { id: "s".to_string() });
    match &out[0] {
        Dispatch::ServerDelete { server, channels, voice_states } => {
            assert_eq!(server.id, "s");
            assert_eq!(channels.len(), 2);
            assert_eq!(voice_states.len(), 1);
        },
        other => panic!("unexpected {:?}", other),
    }
    assert!(cache.get_channel("t1").is_none());
    assert!(cache.get_voice_state("t2").is_none());
    assert!(cache.get_server("s").is_none());
}

#[test]
fn server_update_and_clear() {
    let mut cache = GlobalCache::new();
    cache.insert_server(server("s", &[]));
    let data = PartialServer {
        owner: None,
        name: Some("new".to_string()),
        description: None,
        channels: None,
        roles: None,
        default_permissions: Some(7),
        icon: None,
        banner: None,
        nsfw: None,
    };
    let out = cache.update_state(Event::ServerUpdate { id: "s".to_string(), data, clear: vec![FieldsServer::Description] });
    assert!(matches!(&out[0], Dispatch::ServerUpdate { before, after, .. } if before.name == "server" && after.name == "new"));
    let s = cache.get_server("s").unwrap();
    assert_eq!(s.description, None);
    assert_eq!(s.default_permissions, 7);
}

#[test]
fn members_join_update_leave() {
    let mut cache = GlobalCache::new();
    let out = cache.update_state(Event::ServerMemberJoin { id: "s".to_string(), user: "u".to_string(), member: member("s", "u") });
    assert!(matches!(&out[0], Dispatch::ServerMemberJoin(m) if m.id.user == "u"));
    let data = PartialMember { nickname: None, avatar: None, roles: None, timeout: Some("soon".to_string()), can_publish: None, can_receive: Some(true) };
    let key = MemberCompositeKey { server: "s".to_string(), user: "u".to_string() };
    cache.update_state(Event::ServerMemberUpdate { id: key, data, clear: vec![FieldsMember::Roles, FieldsMember::CanReceive] });
    let m = cache.get_member("s", "u").unwrap();
    assert!(m.roles.is_empty());
    assert!(m.can_publish);
    assert!(m.can_receive);
    assert_eq!(m.timeout, Some("soon".to_string()));
    assert_eq!(m.nickname, Some("nick".to_string()));
    let out = cache.update_state(Event::ServerMemberLeave { id: "s".to_string(), user: "u".to_string(), reason: RemovalIntention::Kick });
    assert!(matches!(&out[0], Dispatch::ServerMemberLeave { member, reason: RemovalIntention::Kick } if member.id.user == "u"));
    assert!(cache.get_member("s", "u").is_none());
}

#[test]
fn roles_update_delete_and_rank() {
    let mut cache = GlobalCache::new();
    cache.insert_server(server("s", &[]));
    let data = PartialRole { name: Some("uno".to_string()), permissions: None, colour: None, hoist: Some(true), rank: None };
    let out = cache.update_state(Event::ServerRoleUpdate { id: "s".to_string(), role_id: "r1".to_string(), data, clear: vec![FieldsRole::Colour] });
    assert!(matches!(&out[0], Dispatch::ServerRoleUpdate { before, after, .. } if before.name == "one" && after.name == "uno" && after.colour.is_none()));
    let out = cache.update_state(Event::ServerRoleRanksUpdate { id: "s".to_string(), ranks: vec!["r3".to_string(), "r1".to_string(), "rx".to_string()] });
    match &out[0] {
        Dispatch::ServerRoleRanksUpdate { before, after } => {
            let b: Vec<(&str, i64)> = before.iter().map(|r| (r.name.as_str(), r.rank)).collect();
            assert_eq!(b, vec![("two", 1), ("three", 3), ("uno", 5)]);
            let a: Vec<(&str, i64)> = after.iter().map(|r| (r.name.as_str(), r.rank)).collect();
            assert_eq!(a, vec![("three", 0), ("uno", 1), ("two", 1)]);
        },
        other => panic!("unexpected {:?}", other),
    }
    let out = cache.update_state(Event::ServerRoleDelete { id: "s".to_string(), role_id: "r2".to_string() });
    assert!(matches!(&out[0], Dispatch::ServerRoleDelete(r) if r.name == "two"));
    assert!(cache.get_server("s").unwrap().roles.get("r2").is_none());
    assert!(cache.update_state(Event::ServerRoleDelete { id: "s".to_string(), role_id: "r2".to_string() }).is_empty());
}

#[test]
fn user_update_clears_display_name() {
    let mut cache = GlobalCache::new();
    cache.insert_user(user("u", RelationshipStatus::Friend));
    let data = PartialUser {
        username: Some("renamed".to_string()),
        discriminator: None,
        display_name: None,
        avatar: None,
        relations: None,
        status: None,
        privileged: None,
        bot: None,
        relationship: None,
        online: Some(true),
    };
    let out = cache.update_state(Event::UserUpdate { id: "u".to_string(), data, clear: vec![FieldsUser::DisplayName] });
    assert!(matches!(&out[0], Dispatch::UserUpdate { before, after, .. } if before.username == "name-u" && after.username == "renamed"));
    let u = cache.get_user("u").unwrap();
    assert_eq!(u.display_name, None);
    assert!(u.online);
}

#[test]
fn ready_fills_the_cache_and_finds_the_client() {
    let mut cache = GlobalCache::new();
    let out = cache.update_state(Event::Ready {
        users: vec![user("friend", RelationshipStatus::Friend), user("me", RelationshipStatus::User)],
        servers: vec![server("s", &[])],
        channels: vec![group("g", &["me"])],
        members: vec![member("s", "me")],
        emojis: vec![],
        voice_states: vec![ChannelVoiceState { id: "g".to_string(), participants: vec![] }],
    });
    assert!(matches!(&out[0], Dispatch::Ready));
    assert_eq!(cache.get_current_user_id(), Some(&"me".to_string()));
    assert!(cache.get_user("friend").is_some());
    assert!(cache.get_server("s").is_some());
    assert!(cache.get_channel("g").is_some());
    assert!(cache.get_member("s", "me").is_some());
    assert!(cache.get_voice_state("g").is_some());
}

#[test]
fn voice_join_move_leave_and_update() {
    let mut cache = GlobalCache::new();
    let out = cache.update_state(Event::VoiceChannelJoin { id: "a".to_string(), state: voice("u") });
    assert!(matches!(&out[0], Dispatch::UserVoiceChannelJoin { channel, state } if channel == "a" && state.id == "u"));
    let data = PartialUserVoiceState { is_receiving: Some(false), is_publishing: Some(true), screensharing: None, camera: None };
    let out = cache.update_state(Event::UserVoiceStateUpdate { id: "u".to_string(), channel_id: "a".to_string(), data });
    assert!(matches!(&out[0], Dispatch::UserVoiceStateUpdate { before, after, .. } if before.is_receiving && after.is_publishing));
    let out = cache.update_state(Event::VoiceChannelMove { user: "u".to_string(), from: "a".to_string(), to: "b".to_string(), state: voice("u") });
    assert!(matches!(&out[0], Dispatch::UserVoiceChannelMove { before, after, .. } if before.is_publishing && !after.is_publishing));
    assert!(cache.get_voice_state("a").unwrap().participants.is_empty());
    let out = cache.update_state(Event::VoiceChannelLeave { id: "b".to_string(), user: "u".to_string() });
    assert!(matches!(&out[0], Dispatch::UserVoiceChannelLeave { channel, state } if channel == "b" && state.id == "u"));
    assert!(cache.update_state(Event::VoiceChannelLeave { id: "b".to_string(), user: "u".to_string() }).is_empty());
}

#[test]
fn bulk_applies_each_event_in_order() {
    let mut cache = GlobalCache::new();
    let out = cache.update_state(Event::Bulk {
        v: vec![
            Event::Authenticated,
            Event::Message(message("m")),
            Event::Bulk { v: vec![Event::ChannelStartTyping { id: "c".to_string(), user: "u".to_string() }] },
            Event::MessageDelete { id: "m".to_string(), channel: "c".to_string() },
        ],
    });
    assert_eq!(out.len(), 6);
    assert!(matches!(&out[0], Dispatch::Authenticated));
    assert!(matches!(&out[1], Dispatch::MessageWaiters(_)));
    assert!(matches!(&out[2], Dispatch::Message(_)));
    assert!(matches!(&out[3], Dispatch::TypingWaiters { .. }));
    assert!(matches!(&out[4], Dispatch::TypingStart { channel, user } if channel == "c" && user == "u"));
    assert!(matches!(&out[5], Dispatch::MessageDelete(_)));
    assert!(cache.get_message("m").is_none());
}

#[test]
fn ignored_events_change_nothing() {
    let mut cache = GlobalCache::new();
    assert!(cache.update_state(Event::Logout).is_empty());
    assert!(cache.update_state(Event::Pong).is_empty());
    assert!(cache.update_state(Event::ChannelAck { id: "c".to_string(), user: "u".to_string(), message_id: "m".to_string() }).is_empty());
    assert!(cache.update_state(Event::EmojiDelete { id: "e".to_string() }).is_empty());
    let out = cache.update_state(Event::ChannelStopTyping { id: "c".to_string(), user: "u".to_string() });
    assert!(matches!(&out[0], Dispatch::TypingStop { .. }));
    assert!(cache.messages.is_empty());
}
