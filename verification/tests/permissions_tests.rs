use stoat::models::{
    BotInformation, Channel, Member, MemberCompositeKey, OverrideField, Relationship, RelationshipStatus, Role, Server,
    User,
};
use stoat::permissions::{sort_overrides, ChannelType, DefaultChannelPermissions, PermissionQuery};
use stoat::store::KeyedStore;

fn user(id: &str) -> User {
    User {
        id: id.to_string(),
        username: id.to_string(),
        discriminator: "0001".to_string(),
        display_name: None,
        avatar: None,
        relations: Vec::new(),
        status: None,
        privileged: false,
        bot: None,
        relationship: RelationshipStatus::NoRelation,
        online: false,
    }
}

fn role(rank: i64, a: i64) -> Role {
    Role { name: format!("r{}", rank), permissions: OverrideField { a, d: 0 }, colour: None, hoist: false, rank }
}

fn server() -> Server {
    let mut roles = KeyedStore::new();
    roles.insert("low".to_string(), role(1, 1));
    roles.insert("high".to_string(), role(5, 5));
    roles.insert("mid".to_string(), role(3, 3));
    Server {
        id: "s".to_string(),
        owner: "owner".to_string(),
        name: "s".to_string(),
        description: None,
        channels: vec![],
        roles,
        default_permissions: 42,
        icon: None,
        banner: None,
        nsfw: false,
    }
}

fn member(user: &str, roles: &[&str]) -> Member {
    Member {
        id: MemberCompositeKey { server: "s".to_string(), user: user.to_string() },
        nickname: None,
        avatar: None,
        roles: roles.iter().map(|r| r.to_string()).collect(),
        timeout: Some("later".to_string()),
        can_publish: false,
        can_receive: true,
    }
}

#[test]
fn relationships_between_users() {
    let mut me = user("me");
    me.relations = vec![Relationship { user_id: "friend".to_string(), status: RelationshipStatus::Friend }];
    let friend = user("friend");
    let stranger = user("stranger");
    let mut my_bot = user("bot");
    my_bot.bot = Some(BotInformation { owner_id: "me".to_string() });
    assert_eq!(PermissionQuery::new(&me).user_relationship(), RelationshipStatus::NoRelation);
    assert_eq!(PermissionQuery::new(&me).user(&me).user_relationship(), RelationshipStatus::User);
    assert_eq!(PermissionQuery::new(&me).user(&my_bot).user_relationship(), RelationshipStatus::User);
    assert_eq!(PermissionQuery::new(&me).user(&friend).user_relationship(), RelationshipStatus::Friend);
    assert_eq!(PermissionQuery::new(&me).user(&stranger).user_relationship(), RelationshipStatus::NoRelation);
    assert!(PermissionQuery::new(&me).user(&my_bot).user_is_bot());
    assert!(PermissionQuery::new(&me).user(&me).are_the_users_same());
    assert!(!PermissionQuery::new(&me).are_we_a_bot());
    assert!(!PermissionQuery::new(&me).are_we_privileged());
    assert!(PermissionQuery::new(&me).have_mutual_connection());
}

#[test]
fn server_facts() {
    let owner = user("owner");
    let s = server();
    let m = member("owner", &["low", "high", "gone"]);
    let empty = stoat::cache::GlobalCache::new();
    let mut q = PermissionQuery::new(&owner).server(&s).member(&m);
    assert!(q.are_we_server_owner());
    assert_eq!(q.are_we_a_member(&empty), Some(true));
    assert_eq!(q.get_default_server_permissions(), 42);
    let overrides = q.get_our_server_role_overrides();
    assert_eq!(overrides, vec![OverrideField { a: 5, d: 0 }, OverrideField { a: 1, d: 0 }]);
    assert!(q.are_we_timed_out());
    assert!(!q.do_we_have_publish_overwrites());
    assert!(q.do_we_have_receive_overwrites());
    let alone = PermissionQuery::new(&owner);
    assert!(alone.do_we_have_publish_overwrites());
    assert_eq!(alone.get_our_server_role_overrides(), vec![]);
}

#[test]
fn channel_facts() {
    let me = user("me");
    let s = server();
    let m = member("me", &["mid", "low"]);
    let channel = Channel::TextChannel {
        id: "t".to_string(),
        server: "s".to_string(),
        name: "t".to_string(),
        description: None,
        icon: None,
        last_message_id: None,
        default_permissions: Some(OverrideField { a: 7, d: 1 }),
        role_permissions: vec![
            ("low".to_string(), OverrideField { a: 10, d: 0 }),
            ("mid".to_string(), OverrideField { a: 30, d: 0 }),
            ("high".to_string(), OverrideField { a: 50, d: 0 }),
        ],
        nsfw: false,
        voice: None,
    };
    let q = PermissionQuery::new(&me).channel(&channel).server(&s).member(&m);
    assert_eq!(q.get_channel_type(), ChannelType::ServerChannel);
    assert_eq!(q.get_default_channel_permissions(0), DefaultChannelPermissions::Field(OverrideField { a: 7, d: 1 }));
    assert_eq!(q.get_our_channel_role_overrides(), vec![OverrideField { a: 30, d: 0 }, OverrideField { a: 10, d: 0 }]);
    let group = Channel::Group {
        id: "g".to_string(),
        name: "g".to_string(),
        owner: "me".to_string(),
        description: None,
        recipients: vec!["you".to_string(), "me".to_string()],
        icon: None,
        last_message_id: None,
        permissions: None,
        nsfw: false,
    };
    let q = PermissionQuery::new(&me).channel(&group);
    assert_eq!(q.get_channel_type(), ChannelType::Group);
    assert!(q.do_we_own_the_channel());
    assert!(q.are_we_part_of_the_channel());
    assert_eq!(q.get_default_channel_permissions(99), DefaultChannelPermissions::Allow(99));
    let dm = Channel::DirectMessage { id: "d".to_string(), active: true, recipients: vec!["me".to_string(), "you".to_string()], last_message_id: None };
    let q = PermissionQuery::new(&me).channel(&dm);
    assert_eq!(q.get_channel_type(), ChannelType::DirectMessage);
    assert_eq!(PermissionQuery::new(&me).get_channel_type(), ChannelType::Unknown);
}

#[test]
fn overrides_by_falling_rank() {
    let a = OverrideField { a: 1, d: 0 };
    let b = OverrideField { a: 2, d: 0 };
    let c = OverrideField { a: 3, d: 0 };
    assert_eq!(sort_overrides(vec![(1, a), (3, b), (1, c)]), vec![b, a, c]);
    assert_eq!(sort_overrides(vec![]), vec![]);
}

#[test]
fn membership_from_cache_or_fetch() {
    let owner = user("owner");
    let s = server();
    let mut cache = stoat::cache::GlobalCache::new();
    assert_eq!(PermissionQuery::new(&owner).are_we_a_member(&cache), Some(false));
    let mut q = PermissionQuery::new(&owner).server(&s);
    assert_eq!(q.are_we_a_member(&cache), None);
    let fetched = member("owner", &["low"]);
    assert!(q.after_member_fetch(Some(&fetched)));
    assert_eq!(q.get_our_server_role_overrides(), vec![OverrideField { a: 1, d: 0 }]);
    let mut q = PermissionQuery::new(&owner).server(&s);
    assert!(!q.after_member_fetch(None));
    assert_eq!(q.get_our_server_role_overrides(), vec![]);
    cache.insert_member(member("owner", &["high"]));
    let mut q = PermissionQuery::new(&owner).server(&s);
    assert_eq!(q.are_we_a_member(&cache), Some(true));
    assert_eq!(q.get_our_server_role_overrides(), vec![OverrideField { a: 5, d: 0 }]);
}

#[test]
fn query_from_current_user() {
    let mut cache = stoat::cache::GlobalCache::new();
    cache.insert_user(user("me"));
    cache.set_current_user_id("me".to_string());
    let other = user("other");
    let q = stoat::permissions::user_permissions_query(&cache, &other);
    assert!(!q.are_the_users_same());
    let me_again = user("me");
    let q = stoat::permissions::user_permissions_query(&cache, &me_again);
    assert!(q.are_the_users_same());
}
