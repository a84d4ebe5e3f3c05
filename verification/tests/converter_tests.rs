use stoat::cache::GlobalCache;
use stoat::converter::{
    convert_bool, convert_channel, convert_emoji, convert_i128, convert_i16, convert_i32, convert_i64, convert_i8,
    convert_role, convert_u128, convert_u16, convert_u32, convert_u64, convert_u8, find_user, member_not_found,
    mention_id, user_not_found, ConsumeRest, Greedy, MentionKind, UserLookup,
};
use stoat::error::Error;
use stoat::models::{Channel, Emoji, EmojiParent, OverrideField, RelationshipStatus, Role, Server, User};
use stoat::store::KeyedStore;
use stoat::words::Words;

const ID_A: &str = "01ARZ3NDEKTSV4RRFFQ69G5FAV";
const ID_B: &str = "01BX5ZZKBKACTAV9WEVGEMMVRZ";

fn converter_message(e: Error) -> String {
    match e {
        Error::ConverterError(m) => m,
        other => panic!("unexpected error {:?}", other),
    }
}

fn user(id: &str, name: &str) -> User {
    User {
        id: id.to_string(),
        username: name.to_string(),
        discriminator: "0001".to_string(),
        display_name: None,
        avatar: None,
        relations: Vec::new(),
        status: None,
        privileged: false,
        bot: None,
        relationship: RelationshipStatus::NoRelation,
        online: true,
    }
}

#[test]
fn bool_words_in_any_case() {
    assert_eq!(convert_bool("YES").unwrap(), true);
    assert_eq!(convert_bool("Enabled").unwrap(), true);
    assert_eq!(convert_bool("1").unwrap(), true);
    assert_eq!(convert_bool("Off").unwrap(), false);
    assert_eq!(convert_bool("n").unwrap(), false);
    assert_eq!(converter_message(convert_bool("maybe").unwrap_err()), "Bad boolean value");
}

#[test]
fn unsigned_integers() {
    assert_eq!(convert_u8("255").unwrap(), 255);
    assert_eq!(convert_u8("+7").unwrap(), 7);
    assert_eq!(converter_message(convert_u8("256").unwrap_err()), "number too large to fit in target type");
    assert_eq!(converter_message(convert_u8("").unwrap_err()), "cannot parse integer from empty string");
    assert_eq!(converter_message(convert_u8("-1").unwrap_err()), "invalid digit found in string");
    assert_eq!(converter_message(convert_u16("12a").unwrap_err()), "invalid digit found in string");
    assert_eq!(converter_message(convert_u32("+").unwrap_err()), "invalid digit found in string");
    assert_eq!(convert_u16("65535").unwrap(), 65535);
    assert_eq!(convert_u32("4294967295").unwrap(), 4294967295);
    assert_eq!(convert_u64("18446744073709551615").unwrap(), u64::MAX);
    assert_eq!(convert_u128("340282366920938463463374607431768211455").unwrap(), u128::MAX);
}

#[test]
fn signed_integers() {
    assert_eq!(convert_i8("-128").unwrap(), -128);
    assert_eq!(convert_i8("127").unwrap(), 127);
    assert_eq!(converter_message(convert_i8("-129").unwrap_err()), "number too small to fit in target type");
    assert_eq!(converter_message(convert_i8("128").unwrap_err()), "number too large to fit in target type");
    assert_eq!(converter_message(convert_i16("-").unwrap_err()), "invalid digit found in string");
    assert_eq!(convert_i32("-2147483648").unwrap(), i32::MIN);
    assert_eq!(convert_i64("+42").unwrap(), 42);
    assert_eq!(convert_i128("-170141183460469231731687303715884105728").unwrap(), i128::MIN);
}

#[test]
fn mentions_and_bare_identifiers() {
    let user_mention = format!("<@{}>", ID_A);
    assert_eq!(mention_id(MentionKind::User, &user_mention), Some(ID_A.to_string()));
    assert_eq!(mention_id(MentionKind::User, ID_A), Some(ID_A.to_string()));
    assert_eq!(mention_id(MentionKind::Channel, &format!("<#{}>", ID_B)), Some(ID_B.to_string()));
    assert_eq!(mention_id(MentionKind::Role, &format!("<%{}>", ID_B)), Some(ID_B.to_string()));
    assert_eq!(mention_id(MentionKind::Emoji, &format!(":{}:", ID_B)), Some(ID_B.to_string()));
    assert_eq!(mention_id(MentionKind::Channel, &user_mention), None);
    assert_eq!(mention_id(MentionKind::User, "someone"), None);
    assert_eq!(mention_id(MentionKind::User, &ID_A.to_lowercase()), None);
}

#[test]
fn consume_rest_gives_back_whole_text() {
    let text = "hello  big world ";
    let mut w = Words::new(text);
    let rest = ConsumeRest::from_words(&mut w);
    assert_eq!(rest.0, text);
    assert_eq!(w.current_position(), 5);
}

#[test]
fn consume_rest_after_the_command() {
    let mut w = Words::new("say hi there");
    w.advance();
    assert_eq!(ConsumeRest::from_words(&mut w).0, "hi there");
    assert_eq!(ConsumeRest::from_words(&mut w).0, "");
}

#[test]
fn greedy_stops_at_first_failure() {
    let mut w = Words::new("1 2 x 3");
    let g = Greedy::from_words(&mut w, |s: String| s.parse::<u8>().ok());
    assert_eq!(g.0, vec![1u8, 2]);
    assert_eq!(w.current(), Some("x".to_string()));
}

fn cache_with_models() -> GlobalCache {
    let mut cache = GlobalCache::new();
    cache.insert_user(user(ID_A, "alice"));
    cache.insert_channel(Channel::SavedMessages { id: ID_B.to_string(), user: ID_A.to_string() });
    cache.insert_emoji(Emoji {
        id: ID_B.to_string(),
        parent: EmojiParent::Detached,
        creator_id: ID_A.to_string(),
        name: "party".to_string(),
    });
    cache
}

#[test]
fn channel_converter_reads_the_cache() {
    let cache = cache_with_models();
    let c = convert_channel(&cache, &format!("<#{}>", ID_B)).unwrap();
    assert_eq!(c.id(), ID_B);
    assert_eq!(converter_message(convert_channel(&cache, ID_A).unwrap_err()), "Channel not found");
    assert_eq!(converter_message(convert_channel(&cache, "general").unwrap_err()), "Channel not found");
}

#[test]
fn role_converter_needs_a_server() {
    let mut roles = KeyedStore::new();
    roles.insert(
        ID_B.to_string(),
        Role { name: "mod".to_string(), permissions: OverrideField { a: 1, d: 0 }, colour: None, hoist: false, rank: 2 },
    );
    let server = Server {
        id: ID_A.to_string(),
        owner: ID_A.to_string(),
        name: "s".to_string(),
        description: None,
        channels: Vec::new(),
        roles,
        default_permissions: 0,
        icon: None,
        banner: None,
        nsfw: false,
    };
    assert_eq!(convert_role(Some(&server), &format!("<%{}>", ID_B)).unwrap().name, "mod");
    assert_eq!(converter_message(convert_role(None, ID_B).unwrap_err()), "Role not found");
    assert_eq!(converter_message(convert_role(Some(&server), ID_A).unwrap_err()), "Role not found");
}

#[test]
fn emoji_converter_by_id_or_name() {
    let cache = cache_with_models();
    assert_eq!(convert_emoji(&cache, &format!(":{}:", ID_B)).unwrap().name, "party");
    assert_eq!(convert_emoji(&cache, "party").unwrap().id, ID_B);
    assert_eq!(converter_message(convert_emoji(&cache, "nope").unwrap_err()), "Emoji not found");
    assert_eq!(converter_message(convert_emoji(&cache, ID_A).unwrap_err()), "Emoji not found");
}

#[test]
fn user_lookup_cached_fetched_or_missing() {
    let cache = cache_with_models();
    assert!(matches!(find_user(&cache, &format!("<@{}>", ID_A)), UserLookup::Cached(u) if u.username == "alice"));
    assert!(matches!(find_user(&cache, ID_B), UserLookup::Fetch(id) if id == ID_B));
    assert!(matches!(find_user(&cache, "alice"), UserLookup::NotFound));
    assert_eq!(converter_message(user_not_found()), "User not found");
    assert_eq!(converter_message(member_not_found()), "Member not found");
}
