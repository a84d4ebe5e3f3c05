use stoat::cache::{GlobalCache, MESSAGE_CACHE_SIZE};
use stoat::models::{
    ChannelVoiceState, Emoji, EmojiParent, Member, MemberCompositeKey, Message, RelationshipStatus, Server, User,
    UserVoiceState,
};
use stoat::store::KeyedStore;

fn message(id: &str) -> Message {
    Message {
        id: id.to_string(),
        channel: "c".to_string(),
        author: "a".to_string(),
        content: Some(format!("text of {}", id)),
        embeds: None,
        edited: None,
        pinned: None,
        reactions: Vec::new(),
    }
}

fn user(id: &str) -> User {
    User {
        id: id.to_string(),
        username: format!("name-{}", id),
        discriminator: "0001".to_string(),
        display_name: None,
        avatar: None,
        relations: Vec::new(),
        status: None,
        privileged: false,
        bot: None,
        relationship: RelationshipStatus::NoRelation,
        online: false,
    }
}

fn member(server: &str, user: &str) -> Member {
    Member {
        id: MemberCompositeKey { server: server.to_string(), user: user.to_string() },
        nickname: None,
        avatar: None,
        roles: Vec::new(),
        timeout: None,
        can_publish: true,
        can_receive: true,
    }
}

fn voice(id: &str, camera: bool) -> UserVoiceState {
    UserVoiceState { id: id.to_string(), is_receiving: true, is_publishing: false, screensharing: false, camera }
}

fn emoji(id: &str, server: Option<&str>) -> Emoji {
    Emoji {
        id: id.to_string(),
        parent: match server {
            Some(s) => EmojiParent::Server { id: s.to_string() },
            None => EmojiParent::Detached,
        },
        creator_id: "u".to_string(),
        name: format!("e-{}", id),
    }
}

#[test]
fn message_cache_keeps_the_newest_thousand() {
    let mut cache = GlobalCache::new();
    for i in 0..=MESSAGE_CACHE_SIZE {
        cache.insert_message(message(&format!("m{}", i)));
    }
    assert_eq!(cache.messages.len(), 1000);
    assert_eq!(cache.messages[0].id, "m1000");
    assert!(cache.get_message("m0").is_none());
    assert_eq!(cache.get_message("m1").unwrap().id, "m1");
}

#[test]
fn newest_message_with_an_identifier_wins() {
    let mut cache = GlobalCache::new();
    let mut first = message("dup");
    first.content = Some("old".to_string());
    cache.insert_message(first);
    let mut second = message("dup");
    second.content = Some("new".to_string());
    cache.insert_message(second);
    assert_eq!(cache.get_message("dup").unwrap().content, Some("new".to_string()));
    let removed = cache.remove_message("dup").unwrap();
    assert_eq!(removed.content, Some("new".to_string()));
    assert_eq!(cache.get_message("dup").unwrap().content, Some("old".to_string()));
    assert!(cache.remove_message("absent").is_none());
}

#[test]
fn bulk_removal_of_messages_removes_nothing() {
    let mut cache = GlobalCache::new();
    cache.insert_message(message("a"));
    cache.insert_message(message("b"));
    let removed = cache.remove_messages(&["a".to_string(), "b".to_string()]);
    assert!(removed.is_empty());
    assert_eq!(cache.messages.len(), 2);
}

#[test]
fn users_and_current_user() {
    let mut cache = GlobalCache::new();
    assert!(cache.get_current_user().is_none());
    cache.insert_user(user("me"));
    cache.set_current_user_id("me".to_string());
    assert_eq!(cache.get_current_user_id(), Some(&"me".to_string()));
    assert_eq!(cache.get_current_user().unwrap().username, "name-me");
    assert_eq!(cache.remove_user("me").unwrap().id, "me");
    assert!(cache.get_current_user().is_none());
}

#[test]
fn servers_insert_replace_remove() {
    let mut cache = GlobalCache::new();
    let s = Server {
        id: "s".to_string(),
        owner: "o".to_string(),
        name: "first".to_string(),
        description: None,
        channels: Vec::new(),
        roles: KeyedStore::new(),
        default_permissions: 0,
        icon: None,
        banner: None,
        nsfw: false,
    };
    cache.insert_server(s);
    assert_eq!(cache.get_server("s").unwrap().name, "first");
    assert_eq!(cache.servers.len(), 1);
    let removed = cache.remove_server("s").unwrap();
    assert_eq!(removed.owner, "o");
    assert!(cache.get_server("s").is_none());
}

#[test]
fn members_live_in_their_server_table() {
    let mut cache = GlobalCache::new();
    cache.insert_member(member("s1", "u1"));
    cache.insert_member(member("s1", "u2"));
    cache.insert_member(member("s2", "u1"));
    assert!(cache.get_member("s1", "u2").is_some());
    assert!(cache.get_member("s2", "u2").is_none());
    assert_eq!(cache.remove_member("s1", "u1").unwrap().id.user, "u1");
    assert!(cache.get_member("s1", "u1").is_none());
    assert!(cache.get_member("s2", "u1").is_some());
    assert!(cache.remove_member("s3", "u1").is_none());
    assert_eq!(cache.members.len(), 2);
}

#[test]
fn voice_participants_replace_and_leave() {
    let mut cache = GlobalCache::new();
    cache.insert_voice_state_partipant("vc", voice("u1", false));
    cache.insert_voice_state_partipant("vc", voice("u2", false));
    cache.insert_voice_state_partipant("vc", voice("u1", true));
    let state = cache.get_voice_state("vc").unwrap();
    assert_eq!(state.id, "vc");
    let ids: Vec<&str> = state.participants.iter().map(|p| p.id.as_str()).collect();
    assert_eq!(ids, vec!["u2", "u1"]);
    assert!(state.participants[1].camera);
    let left = cache.remove_voice_state_partipant("vc", "u2").unwrap();
    assert_eq!(left.id, "u2");
    assert!(cache.remove_voice_state_partipant("vc", "u2").is_none());
    assert!(cache.remove_voice_state_partipant("nowhere", "u1").is_none());
    assert_eq!(cache.get_voice_state("vc").unwrap().participants.len(), 1);
    let removed = cache.remove_voice_state("vc").unwrap();
    assert_eq!(removed.participants[0].id, "u1");
    cache.insert_voice_state(ChannelVoiceState { id: "vc2".to_string(), participants: vec![voice("x", false)] });
    assert_eq!(cache.get_voice_state("vc2").unwrap().participants.len(), 1);
}

#[test]
fn server_emojis_are_the_ones_kept() {
    let mut cache = GlobalCache::new();
    cache.insert_emoji(emoji("e1", Some("s1")));
    cache.insert_emoji(emoji("e2", Some("s2")));
    cache.insert_emoji(emoji("e3", None));
    cache.insert_emoji(emoji("e4", Some("s1")));
    let found = cache.remove_server_emojis("s1");
    let ids: Vec<&str> = found.iter().map(|e| e.id.as_str()).collect();
    assert_eq!(ids, vec!["e1", "e4"]);
    assert!(cache.get_emoji("e1").is_some());
    assert!(cache.get_emoji("e4").is_some());
    assert!(cache.get_emoji("e2").is_none());
    assert!(cache.get_emoji("e3").is_none());
    assert_eq!(cache.remove_emoji("e1").unwrap().name, "e-e1");
    assert!(cache.get_emoji("e1").is_none());
}

#[test]
fn update_with_runs_on_cached_models() {
    let mut cache = GlobalCache::new();
    cache.insert_user(user("u"));
    let n = cache.update_user_with("u", |u: &mut User| {
        u.username = "renamed".to_string();
        7
    });
    assert_eq!(n, Some(7));
    assert_eq!(cache.get_user("u").unwrap().username, "renamed");
    assert_eq!(cache.update_user_with("missing", |_u: &mut User| 1), None);
    cache.insert_member(member("s", "m"));
    let nick = cache.update_member_with("s", "m", |m: &mut Member| {
        m.nickname = Some("nick".to_string());
        m.roles.len()
    });
    assert_eq!(nick, Some(0));
    assert_eq!(cache.get_member("s", "m").unwrap().nickname, Some("nick".to_string()));
    assert_eq!(cache.update_member_with("s", "other", |_m: &mut Member| 0), None);
    assert_eq!(cache.update_member_with("t", "m", |_m: &mut Member| 0), None);
    assert_eq!(cache.update_server_with("s", |_s: &mut Server| 0), None);
    assert_eq!(cache.update_channel_with("c", |_c: &mut stoat::models::Channel| 0), None);
}

#[test]
fn join_then_leave_gives_the_state_back() {
    let mut cache = GlobalCache::new();
    cache.insert_voice_state_partipant("c", voice("a", false));
    cache.insert_voice_state_partipant("c", voice("b", false));
    cache.insert_voice_state_partipant("c", voice("a", true));
    let left = cache.remove_voice_state_partipant("c", "a").unwrap();
    assert!(left.camera);
    let ids: Vec<&str> = cache.get_voice_state("c").unwrap().participants.iter().map(|p| p.id.as_str()).collect();
    assert_eq!(ids, vec!["b"]);
    assert!(cache.remove_voice_state_partipant("c", "a").is_none());
    assert_eq!(cache.get_voice_state("c").unwrap().participants.len(), 1);
}
