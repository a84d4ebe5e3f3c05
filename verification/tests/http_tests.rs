use stoat::http::{
    channel_message_route, channel_messages_route, is_failure_status, join_call_route, member_route, open_dm_route,
    root_route, user_route, HttpClient, Method,
};

#[test]
fn requests_carry_address_and_headers() {
    let bot = HttpClient::new("https://api.example".to_string(), Some("tok".to_string()));
    let r = bot.request(Method::Post, &channel_messages_route("c1"));
    assert_eq!(r.method, Method::Post);
    assert_eq!(r.url, "https://api.example/channels/c1/messages");
    assert_eq!(
        r.headers,
        vec![
            ("Accept".to_string(), "application/json".to_string()),
            ("x-bot-token".to_string(), "tok".to_string())
        ]
    );
    let anon = HttpClient::new("https://api.example".to_string(), None);
    let r = anon.request(Method::Get, &root_route());
    assert_eq!(r.url, "https://api.example/");
    assert_eq!(r.headers, vec![("Accept".to_string(), "application/json".to_string())]);
}

#[test]
fn routes() {
    assert_eq!(channel_message_route("c", "m"), "/channels/c/messages/m");
    assert_eq!(user_route("u"), "/users/u");
    assert_eq!(open_dm_route("u"), "/users/u/dm");
    assert_eq!(member_route("s", "u"), "/servers/s/members/u");
    assert_eq!(join_call_route("c"), "/channels/c/join_call");
}

#[test]
fn failure_statuses() {
    assert!(!is_failure_status(200));
    assert!(!is_failure_status(399));
    assert!(is_failure_status(400));
    assert!(is_failure_status(404));
    assert!(is_failure_status(599));
    assert!(!is_failure_status(600));
}

#[test]
fn webhook_address_read_back() {
    let (id, token) = stoat::webhook::parse_webhook_url("https://api.example/webhooks/01HZ/secret").unwrap();
    assert_eq!((id.as_str(), token.as_str()), ("01HZ", "secret"));
    let (id, token) = stoat::webhook::parse_webhook_url("id/token").unwrap();
    assert_eq!((id.as_str(), token.as_str()), ("id", "token"));
    assert!(matches!(stoat::webhook::parse_webhook_url("no-slash"), Err(stoat::error::Error::InvalidUrl)));
}

#[test]
fn store_read_after_write() {
    let mut store: stoat::store::KeyedStore<u32> = stoat::store::KeyedStore::new();
    store.insert("a".to_string(), 1);
    store.insert("b".to_string(), 2);
    store.insert("a".to_string(), 3);
    assert_eq!(store.get("a"), Some(&3));
    assert_eq!(store.get("b"), Some(&2));
    assert_eq!(store.remove("a"), Some(3));
    assert_eq!(store.get("a"), None);
    assert_eq!(store.get("b"), Some(&2));
    assert_eq!(store.len(), 1);
}

#[test]
fn routing_to_leaf_command() {
    let mut commands = stoat::commands::Commands::new();
    commands.register(stoat::commands::Command::new("echo".to_string(), 5));
    let prefixes = vec!["?".to_string()];
    let inv = commands.route_message(&prefixes, "?echo a b").unwrap();
    assert_eq!(inv.command.unwrap().handle(), 5);
    assert_eq!(inv.words.current(), Some("a".to_string()));
    let inv = commands.route_message(&prefixes, "?echo").unwrap();
    assert_eq!(inv.command.unwrap().handle(), 5);
    assert_eq!(inv.words.current(), None);
    let inv = commands.route_message(&prefixes, "?nope a").unwrap();
    assert!(inv.command.is_none());
    assert_eq!(inv.words.current(), Some("nope".to_string()));
}
