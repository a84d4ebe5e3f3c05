use stoat::cache::GlobalCache;
use stoat::commands::{Command, Commands};
use stoat::converter::{all_arguments, next_argument, optional_argument};
use stoat::error::Error;
use stoat::ext::{expect_just_server, expect_server_with_channels, FetchServerResponse};
use stoat::help::filter_commands;
use stoat::models::{Channel, RelationshipStatus, Server, User};
use stoat::permissions::PermissionQuery;
use stoat::store::KeyedStore;
use stoat::words::Words;

fn user(id: &str) -> User {
    User {
        id: id.to_string(),
        username: id.to_string(),
        discriminator: "0001".to_string(),
        display_name: None,
        avatar: None,
        relations: Vec::new(),
        status: None,
        privileged: false,
        bot: None,
        relationship: RelationshipStatus::NoRelation,
        online: false,
    }
}

fn server(id: &str, name: &str) -> Server {
    Server {
        id: id.to_string(),
        owner: "o".to_string(),
        name: name.to_string(),
        description: None,
        channels: Vec::new(),
        roles: KeyedStore::new(),
        default_permissions: 0,
        icon: None,
        banner: None,
        nsfw: false,
    }
}

fn text_channel(id: &str, server: &str) -> Channel {
    Channel::TextChannel {
        id: id.to_string(),
        server: server.to_string(),
        name: "general".to_string(),
        description: None,
        icon: None,
        last_message_id: None,
        default_permissions: None,
        role_permissions: Vec::new(),
        nsfw: false,
        voice: None,
    }
}

#[test]
fn next_argument_or_missing() {
    let mut w = Words::new("a b");
    assert_eq!(next_argument(&mut w).unwrap(), "a");
    assert_eq!(next_argument(&mut w).unwrap(), "b");
    assert!(matches!(next_argument(&mut w), Err(Error::MissingParameter)));
}

#[test]
fn optional_argument_converts_or_gives_none() {
    let mut w = Words::new("7 x");
    assert_eq!(optional_argument(&mut w, |s: String| s.parse::<u8>().ok()), Some(7));
    assert_eq!(optional_argument(&mut w, |s: String| s.parse::<u8>().ok()), None);
    assert_eq!(w.current_position(), 2);
    assert_eq!(optional_argument(&mut w, |s: String| s.parse::<u8>().ok()), None);
    assert_eq!(w.current_position(), 3);
}

#[test]
fn all_arguments_converts_every_word_or_fails() {
    let mut w = Words::new("1 2 3");
    let r: Result<Vec<u8>, String> = all_arguments(&mut w, |s: String| s.parse::<u8>().map_err(|_| s));
    assert_eq!(r, Ok(vec![1, 2, 3]));
    assert_eq!(w.current_position(), 4);
    let mut w = Words::new("1 bad 3");
    let r: Result<Vec<u8>, String> = all_arguments(&mut w, |s: String| s.parse::<u8>().map_err(|_| s));
    assert_eq!(r, Err("bad".to_string()));
    assert_eq!(w.current_position(), 2);
    let mut w = Words::new("1");
    w.advance();
    let r: Result<Vec<u8>, String> = all_arguments(&mut w, |s: String| s.parse::<u8>().map_err(|_| s));
    assert_eq!(r, Ok(vec![]));
    assert_eq!(w.current_position(), 2);
}

#[test]
fn filter_keeps_commands_that_may_run() {
    let mut commands = Commands::new();
    commands.register(Command::new("a".to_string(), 1));
    commands.register(Command::new("b".to_string(), 2));
    commands.register(Command::new("c".to_string(), 3));
    let all = commands.get_commands();
    let outcomes: Vec<Result<bool, Error>> =
        all.iter().map(|c| if c.name() == "a" { Ok(true) } else if c.name() == "b" { Ok(false) } else { Err(Error::CheckFailure) }).collect();
    let kept = filter_commands(&all, &outcomes);
    assert_eq!(kept.len(), 1);
    assert_eq!(kept[0].name(), "a");
}

#[test]
fn recipient_taken_from_cache_or_fetched() {
    let me = user("me");
    let dm = Channel::DirectMessage {
        id: "d".to_string(),
        active: true,
        recipients: vec!["me".to_string(), "you".to_string()],
        last_message_id: None,
    };
    let mut cache = GlobalCache::new();
    let (q, fetch) = PermissionQuery::new(&me).channel(&dm).set_recipient_as_user(&cache);
    assert_eq!(fetch, Some("you".to_string()));
    assert_eq!(q.user_relationship(), RelationshipStatus::NoRelation);
    cache.insert_user(user("you"));
    let (q, fetch) = PermissionQuery::new(&me).channel(&dm).set_recipient_as_user(&cache);
    assert_eq!(fetch, None);
    assert!(!q.are_the_users_same());
    let (_, fetch) = PermissionQuery::new(&me).set_recipient_as_user(&cache);
    assert_eq!(fetch, None);
}

#[test]
fn server_taken_from_channel() {
    let me = user("me");
    let chan = text_channel("c", "s1");
    let mut cache = GlobalCache::new();
    let q = PermissionQuery::new(&me).channel(&chan).set_server_from_channel(&cache);
    assert_eq!(q.get_default_server_permissions(), 0);
    let mut cached = server("s1", "cached");
    cached.default_permissions = 5;
    cache.insert_server(cached);
    let mut mine = server("s1", "mine");
    mine.default_permissions = 7;
    let q = PermissionQuery::new(&me).channel(&chan).server(&mine).set_server_from_channel(&cache);
    assert_eq!(q.get_default_server_permissions(), 7);
    let q = PermissionQuery::new(&me).channel(&chan).set_server_from_channel(&cache);
    assert_eq!(q.get_default_server_permissions(), 5);
    let other = server("s2", "other");
    let q = PermissionQuery::new(&me).channel(&chan).server(&other).set_server_from_channel(&cache);
    assert_eq!(q.get_default_server_permissions(), 5);
}

#[test]
fn fetch_server_answers() {
    let s = expect_just_server(FetchServerResponse::JustServer(server("s", "n")));
    assert_eq!(s.unwrap().id, "s");
    let e = expect_just_server(FetchServerResponse::ServerWithChannels { server: server("s", "n"), channels: vec![] });
    assert!(matches!(e, Err(Error::InternalError)));
    let (s, c) = expect_server_with_channels(FetchServerResponse::ServerWithChannels {
        server: server("s", "n"),
        channels: vec![text_channel("c", "s")],
    })
    .unwrap();
    assert_eq!((s.id.as_str(), c.len()), ("s", 1));
    assert!(matches!(expect_server_with_channels(FetchServerResponse::JustServer(server("s", "n"))), Err(Error::InternalError)));
}
