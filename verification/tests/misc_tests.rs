use stoat::checks::{after_check, any_check_passes, dm_only, no_check_passed, server_only};
use stoat::embed::{EmbedExt, SendableEmbed};
use stoat::error::{Error, RatelimitFailure};
use stoat::file::LocalFile;
use stoat::ident::Identifiable;
use stoat::mention::{when_mentioned, when_mentioned_or};
use stoat::models::{Channel, Message, RelationshipStatus, User};
use stoat::session::{after_disconnect, next_ping, wait_result, websocket_uri, Reconnect, WaitOutcome};
use stoat::tag::Tag;
use stoat::ulid::{created_at, Ulid};
use stoat::webhook::parse_webhook_url;

const ULID: &str = "01ARZ3NDEKTSV4RRFFQ69G5FAV";

#[test]
fn tag_names_round_trip() {
    for t in [Tag::Attachments, Tag::Avatars, Tag::Backgrounds, Tag::Icons, Tag::Banners, Tag::Emojis] {
        assert_eq!(Tag::try_from(t.as_str()).unwrap(), t);
        assert_eq!(t.to_string(), t.as_str());
    }
    assert_eq!(Tag::Avatars.as_str(), "avatars");
    assert!(matches!(Tag::try_from("Avatars"), Err(Error::InvalidTag)));
}

#[test]
fn spoiler_names() {
    let f = LocalFile::new("cat.png".to_string(), vec![1, 2, 3]);
    assert!(!f.is_spoiler());
    let s = f.spoiler();
    assert_eq!(s.name, "SPOILER_cat.png");
    assert!(s.is_spoiler());
    let again = s.spoiler();
    assert_eq!(again.name, "SPOILER_cat.png");
    assert_eq!(again.body, vec![1, 2, 3]);
}

#[test]
fn webhook_addresses() {
    let (id, token) = parse_webhook_url("https://stoat.chat/api/webhooks/01ABC/secret").unwrap();
    assert_eq!(id, "01ABC");
    assert_eq!(token, "secret");
    let (id, token) = parse_webhook_url("id/token").unwrap();
    assert_eq!((id.as_str(), token.as_str()), ("id", "token"));
    let (id, token) = parse_webhook_url("a/b/").unwrap();
    assert_eq!((id.as_str(), token.as_str()), ("b", ""));
    assert!(matches!(parse_webhook_url("no-slashes"), Err(Error::InvalidUrl)));
}

#[test]
fn mention_prefixes() {
    assert_eq!(when_mentioned("BOT"), vec!["<@BOT> ".to_string()]);
    assert_eq!(
        when_mentioned_or("BOT", &vec!["!".to_string(), "?".to_string()]),
        vec!["<@BOT> ".to_string(), "!".to_string(), "?".to_string()]
    );
}

#[test]
fn ulid_checks_and_times() {
    let u = Ulid::from_string(ULID.to_string()).unwrap();
    assert_eq!(u.as_str(), ULID);
    assert_eq!(u.timestamp(), 1469922850259);
    assert_eq!(created_at(ULID), 1469922850259);
    assert_eq!(Identifiable::created_at(&u), 1469922850259);
    assert!(Ulid::from_string(ULID.to_lowercase()).is_ok());
    assert!(matches!(Ulid::from_string("not-a-ulid".to_string()), Err(Error::MalformedID)));
    assert!(matches!(Ulid::from_string("01ARZ3NDEKTSV4RRFFQ69G5FAU".to_string() + "X"), Err(Error::MalformedID)));
    assert!(matches!(Ulid::from_string("01ARZ3NDEKTSV4RRFFQ69G5FAI".to_string()), Err(Error::MalformedID)));
    assert_eq!(Ulid::from_string_unchecked("x".to_string()).to_string(), "x");
    assert_eq!(created_at("00000000000000000000000000"), 0);
}

#[test]
fn identifiable_models() {
    let user = User {
        id: ULID.to_string(),
        username: "n".to_string(),
        discriminator: "0001".to_string(),
        display_name: None,
        avatar: None,
        relations: vec![],
        status: None,
        privileged: false,
        bot: None,
        relationship: RelationshipStatus::NoRelation,
        online: false,
    };
    assert_eq!(Identifiable::id(&user), ULID);
    assert_eq!(Identifiable::created_at(&user), 1469922850259);
    let channel = Channel::SavedMessages { id: ULID.to_string(), user: "x".to_string() };
    assert_eq!(Identifiable::id(&channel), ULID);
    let m = Message {
        id: "m".to_string(),
        channel: "c".to_string(),
        author: "a".to_string(),
        content: None,
        embeds: None,
        edited: None,
        pinned: None,
        reactions: vec![],
    };
    assert_eq!(Identifiable::id(&m), "m");
}

#[test]
fn embed_setters() {
    let e = SendableEmbed::new()
        .title("T".to_string())
        .description("D".to_string())
        .url("link".to_string())
        .colour("red".to_string())
        .media("file".to_string());
    assert_eq!(e.title, Some("T".to_string()));
    assert_eq!(e.description, Some("D".to_string()));
    assert_eq!(e.url, None);
    assert_eq!(e.icon_url, Some("link".to_string()));
    assert_eq!(e.colour, Some("red".to_string()));
    assert_eq!(e.media, Some("file".to_string()));
    let e = e.icon_url("icon".to_string());
    assert_eq!(e.icon_url, Some("icon".to_string()));
}

#[test]
fn error_messages() {
    assert_eq!(Error::HttpError("boom".to_string()).message(), "HTTP Error: boom");
    assert_eq!(Error::RatelimitReached(RatelimitFailure { retry_after: 1500 }).message(), "Ratelimit Reached: try again in 1500ms");
    assert_eq!(Error::InternalError.message(), "Interal Error");
    assert_eq!(Error::MissingChannelPermission { permissions: "SendMessage".to_string() }.message(), "Missing Required Permission SendMessage");
    assert_eq!(Error::NotNsfw.message(), "Not In NSFW Channel");
    assert_eq!(Error::ConverterError("x".to_string()).message(), "Converter Error: x");
    assert_eq!(Error::Close.message(), "Close");
    assert_eq!(Error::Timeout.message(), "Timed out");
}

#[test]
fn channel_kind_checks() {
    let dm = Channel::DirectMessage { id: "d".to_string(), active: true, recipients: vec![], last_message_id: None };
    assert!(matches!(dm_only(Some(&dm)), Ok(true)));
    assert!(matches!(server_only(Some(&dm)), Err(Error::NotInServer)));
    assert!(matches!(dm_only(None), Err(Error::NotInDM)));
    assert!(matches!(server_only(None), Err(Error::NotInServer)));
}

#[test]
fn check_runs() {
    assert!(after_check(Ok(true)).is_none());
    assert!(matches!(after_check(Ok(false)), Some(Err(Error::CheckFailure))));
    assert!(matches!(after_check(Err(Error::NotOwner)), Some(Err(Error::NotOwner))));
    assert!(any_check_passes(&Ok(true)));
    assert!(!any_check_passes(&Ok(false)));
    assert!(!any_check_passes(&Err(Error::NotOwner)));
    assert!(matches!(no_check_passed(), Err(Error::CheckFailure)));
}

#[test]
fn session_decisions() {
    assert_eq!(websocket_uri("wss://ws.example", "tok", false), "wss://ws.example/?token=tok&format=json");
    assert_eq!(websocket_uri("wss://ws.example", "tok", true), "wss://ws.example/?token=tok&format=msgpack");
    assert_eq!(after_disconnect(&Err(Error::Close)), Reconnect::Stop);
    assert_eq!(after_disconnect(&Err(Error::Timeout)), Reconnect::RetryAfterMs(10000));
    assert_eq!(after_disconnect(&Ok(())), Reconnect::RetryAfterMs(10000));
    assert_eq!(next_ping(4), 5);
    assert_eq!(next_ping(usize::MAX), 0);
    assert_eq!(wait_result(WaitOutcome::Received(3)).unwrap(), 3);
    assert!(matches!(wait_result::<u8>(WaitOutcome::Closed), Err(Error::BrokenChannel)));
    assert!(matches!(wait_result::<u8>(WaitOutcome::TimedOut), Err(Error::Timeout)));
}

#[test]
fn ulid_derefs_to_its_text() {
    let u = stoat::ulid::Ulid::from_string("01ARZ3NDEKTSV4RRFFQ69G5FAV".to_string()).unwrap();
    let text: &str = &u;
    assert_eq!(text, "01ARZ3NDEKTSV4RRFFQ69G5FAV");
    assert_eq!(u.len(), 26);
    assert_eq!(&*u, u.as_str());
}

#[test]
fn later_ulid_prefix_is_not_earlier() {
    let a = stoat::ulid::created_at("01ARZ3NDEKTSV4RRFFQ69G5FAV");
    let b = stoat::ulid::created_at("01ARZ3NDEMAAAAAAAAAAAAAAAA");
    let c = stoat::ulid::created_at("01ARZ3NDEKZZZZZZZZZZZZZZZZ");
    assert!(a <= b);
    assert_eq!(a, c);
}
