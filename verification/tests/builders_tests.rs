use stoat::builders::{
    CreateChannelBuilder, EditChannelBuilder, EditMemberBuilder, EditMessageBuilder, EditRoleBuilder,
    EditServerBuilder, EditUserBuilder, EditWebhookBuilder, ExecuteWebhookBuilder, FieldsWebhook, Interactions,
    Masquerade, ReplyIntent, SendMessageBuilder,
};
use stoat::cache::GlobalCache;
use stoat::context::{author_member, author_user, get_current_channel, get_current_server, AuthorLookup};
use stoat::embed::SendableEmbed;
use stoat::error::Error;
use stoat::models::{
    Channel, Member, MemberCompositeKey, Message, Presence, RelationshipStatus, Server, User, VoiceInformation,
};
use stoat::partial::{FieldsChannel, FieldsMember, FieldsRole, FieldsServer, FieldsUser};
use stoat::store::KeyedStore;
use stoat::webhook::Webhook;

fn user(id: &str) -> User {
    User {
        id: id.to_string(),
        username: format!("name-{}", id),
        discriminator: "0001".to_string(),
        display_name: None,
        avatar: None,
        relations: Vec::new(),
        status: None,
        privileged: false,
        bot: None,
        relationship: RelationshipStatus::NoRelation,
        online: false,
    }
}

fn member(server: &str, user: &str, nickname: Option<&str>) -> Member {
    Member {
        id: MemberCompositeKey { server: server.to_string(), user: user.to_string() },
        nickname: nickname.map(|n| n.to_string()),
        avatar: None,
        roles: Vec::new(),
        timeout: None,
        can_publish: true,
        can_receive: true,
    }
}

fn server(id: &str) -> Server {
    Server {
        id: id.to_string(),
        owner: "o".to_string(),
        name: "s".to_string(),
        description: None,
        channels: Vec::new(),
        roles: KeyedStore::new(),
        default_permissions: 0,
        icon: None,
        banner: None,
        nsfw: false,
    }
}

fn text_channel(id: &str, server: &str) -> Channel {
    Channel::TextChannel {
        id: id.to_string(),
        server: server.to_string(),
        name: "general".to_string(),
        description: None,
        icon: None,
        last_message_id: None,
        default_permissions: None,
        role_permissions: Vec::new(),
        nsfw: false,
        voice: None,
    }
}

fn message() -> Message {
    Message {
        id: "m1".to_string(),
        channel: "c1".to_string(),
        author: "a1".to_string(),
        content: None,
        embeds: None,
        edited: None,
        pinned: None,
        reactions: Vec::new(),
    }
}

#[test]
fn edit_server_sets_and_removes() {
    let mut b = EditServerBuilder::new("s1".to_string());
    b.name("New".to_string());
    b.description(None);
    b.icon(Some("icon".to_string()));
    b.banner(None);
    assert_eq!(b.server_id, "s1");
    assert_eq!(b.data.name, Some("New".to_string()));
    assert_eq!(b.data.description, None);
    assert_eq!(b.data.icon, Some("icon".to_string()));
    assert_eq!(b.data.remove, vec![FieldsServer::Description, FieldsServer::Banner]);
}

#[test]
fn edit_member_roles_and_removals() {
    let mut b = EditMemberBuilder::new("s".to_string(), "u".to_string());
    b.nickname(Some("nick".to_string()));
    b.roles(Vec::new());
    b.roles(vec!["r1".to_string()]);
    b.timeout(None);
    b.can_publish(Some(false));
    b.can_receive(None);
    b.avatar(None);
    b.voice_channel("vc".to_string());
    assert_eq!(b.data.nickname, Some("nick".to_string()));
    assert_eq!(b.data.roles, Some(vec!["r1".to_string()]));
    assert_eq!(b.data.can_publish, Some(false));
    assert_eq!(b.data.voice_channel, Some("vc".to_string()));
    assert_eq!(
        b.data.remove,
        vec![FieldsMember::Roles, FieldsMember::Timeout, FieldsMember::CanReceive, FieldsMember::Avatar]
    );
}

#[test]
fn edit_channel_chain() {
    let b = EditChannelBuilder::new("c".to_string())
        .name("n".to_string())
        .description(None)
        .owner("o".to_string())
        .icon(None)
        .nsfw(true)
        .voice(Some(VoiceInformation { max_users: Some(3) }));
    assert_eq!(b.channel_id, "c");
    assert_eq!(b.data.name, Some("n".to_string()));
    assert_eq!(b.data.owner, Some("o".to_string()));
    assert_eq!(b.data.nsfw, Some(true));
    assert_eq!(b.data.voice, Some(VoiceInformation { max_users: Some(3) }));
    assert_eq!(b.data.remove, vec![FieldsChannel::Description, FieldsChannel::Icon]);
    let b = EditChannelBuilder::new("c".to_string()).voice(None);
    assert_eq!(b.data.remove, vec![FieldsChannel::Voice]);
}

#[test]
fn edit_role_chain() {
    let b = EditRoleBuilder::new("s".to_string(), "r".to_string())
        .name("mods".to_string())
        .colour(None)
        .hoist(true)
        .colour(Some("red".to_string()));
    assert_eq!(b.role_id, "r");
    assert_eq!(b.data.name, Some("mods".to_string()));
    assert_eq!(b.data.colour, Some("red".to_string()));
    assert_eq!(b.data.hoist, Some(true));
    assert_eq!(b.data.rank, None);
    assert_eq!(b.data.remove, vec![FieldsRole::Colour]);
}

#[test]
fn edit_user_status_and_profile_merge() {
    let mut b = EditUserBuilder::new("u".to_string());
    b.status_presence(Some(Presence::Busy));
    b.status_text(Some("away".to_string()));
    b.profile_background(Some("bg".to_string()));
    b.profile_content(Some("about".to_string()));
    b.display_name(None);
    b.avatar(Some("av".to_string()));
    let status = b.data.status.as_ref().unwrap();
    assert_eq!(status.text, Some("away".to_string()));
    assert_eq!(status.presence, Some(Presence::Busy));
    let profile = b.data.profile.as_ref().unwrap();
    assert_eq!(profile.content, Some("about".to_string()));
    assert_eq!(profile.background, Some("bg".to_string()));
    assert_eq!(b.data.avatar, Some("av".to_string()));
    b.status_text(None);
    b.status_presence(None);
    b.profile_content(None);
    b.profile_background(None);
    assert_eq!(
        b.data.remove,
        vec![
            FieldsUser::DisplayName,
            FieldsUser::StatusText,
            FieldsUser::StatusPresence,
            FieldsUser::ProfileContent,
            FieldsUser::ProfileBackground
        ]
    );
    assert_eq!(b.data.status.as_ref().unwrap().text, Some("away".to_string()));
}

#[test]
fn send_message_lists_keep_order() {
    let b = SendMessageBuilder::new("c".to_string())
        .content("hi".to_string())
        .attachment("f1".to_string())
        .attachment("f2".to_string())
        .reply(ReplyIntent { id: "m".to_string(), mention: true })
        .embed(SendableEmbed::new())
        .nonce("n".to_string())
        .flags(2);
    assert_eq!(b.data.content, Some("hi".to_string()));
    assert_eq!(b.data.attachments, Some(vec!["f1".to_string(), "f2".to_string()]));
    let replies = b.data.replies.as_ref().unwrap();
    assert_eq!(replies.len(), 1);
    assert_eq!(replies[0].id, "m");
    assert!(replies[0].mention);
    assert_eq!(b.data.embeds.as_ref().unwrap().len(), 1);
    assert_eq!(b.data.nonce, Some("n".to_string()));
    assert_eq!(b.data.flags, Some(2));
}

#[test]
fn edit_message_and_create_channel() {
    let b = EditMessageBuilder::new("c".to_string(), "m".to_string())
        .content("x".to_string())
        .embed(SendableEmbed::new())
        .embed(SendableEmbed::new());
    assert_eq!(b.message_id, "m");
    assert_eq!(b.data.content, Some("x".to_string()));
    assert_eq!(b.data.embeds.as_ref().unwrap().len(), 2);
    let c = CreateChannelBuilder::new("s".to_string(), "voice".to_string())
        .description("d".to_string())
        .nsfw(false)
        .voice(VoiceInformation { max_users: None });
    assert_eq!(c.data.name, "voice");
    assert_eq!(c.data.description, Some("d".to_string()));
    assert_eq!(c.data.nsfw, Some(false));
    assert_eq!(c.data.voice, Some(VoiceInformation { max_users: None }));
}

#[test]
fn webhook_builders() {
    let mut e = EditWebhookBuilder::new("w".to_string(), None);
    e.name("hook".to_string());
    e.avatar(None);
    e.permissions(8);
    assert_eq!(e.data.name, Some("hook".to_string()));
    assert_eq!(e.data.permissions, Some(8));
    assert_eq!(e.data.remove, vec![FieldsWebhook::Avatar]);
    let mut x = ExecuteWebhookBuilder::new("w".to_string(), "t".to_string());
    x.content("c".to_string());
    x.reply("m".to_string(), false);
    x.attachment("f".to_string());
    x.embed(SendableEmbed::new());
    x.nonce("n".to_string());
    x.flags(1);
    assert_eq!(x.token, "t");
    assert_eq!(x.data.replies.as_ref().unwrap()[0].id, "m");
    assert!(!x.data.replies.as_ref().unwrap()[0].mention);
    assert_eq!(x.data.attachments, Some(vec!["f".to_string()]));
    let hook = Webhook {
        id: "w1".to_string(),
        name: "h".to_string(),
        avatar: None,
        creator_id: "u".to_string(),
        channel_id: "c".to_string(),
        permissions: 0,
        token: Some("tok".to_string()),
    };
    assert_eq!(hook.edit().token, Some("tok".to_string()));
    assert_eq!(hook.execute().token, "tok");
    assert_eq!(hook.execute().webhook_id, "w1");
    assert!(hook.deletes_with_token());
}

#[test]
fn models_start_builders() {
    let m = message();
    let r = m.reply(true);
    assert_eq!(r.channel_id, "c1");
    let replies = r.data.replies.as_ref().unwrap();
    assert_eq!(replies[0].id, "m1");
    assert!(replies[0].mention);
    assert_eq!(m.edit().message_id, "m1");
    assert_eq!(text_channel("c9", "s").send().channel_id, "c9");
    let e = member("s", "u", None).edit();
    assert_eq!((e.server_id.as_str(), e.member_id.as_str()), ("s", "u"));
    assert_eq!(server("s5").edit_server().server_id, "s5");
}

#[test]
fn context_lookups() {
    let mut cache = GlobalCache::new();
    assert!(matches!(get_current_channel(&cache, "c1"), Err(Error::InternalError)));
    cache.insert_channel(text_channel("c1", "s1"));
    cache.insert_channel(Channel::SavedMessages { id: "sv".to_string(), user: "me".to_string() });
    assert!(get_current_channel(&cache, "c1").is_ok());
    assert!(matches!(get_current_server(&cache, "c1"), Err(Error::InternalError)));
    cache.insert_server(server("s1"));
    assert_eq!(get_current_server(&cache, "c1").unwrap().id, "s1");
    assert!(matches!(get_current_server(&cache, "sv"), Err(Error::InternalError)));

    let attached = user("a1");
    match author_user(Some(&attached), &cache, "a1") {
        AuthorLookup::Known(u) => assert_eq!(u.id, "a1"),
        AuthorLookup::Fetch(_) => panic!("attached user ignored"),
    }
    match author_user(None, &cache, "a1") {
        AuthorLookup::Fetch(id) => assert_eq!(id, "a1"),
        AuthorLookup::Known(_) => panic!("user not cached"),
    }
    cache.insert_user(user("a1"));
    assert!(matches!(author_user(None, &cache, "a1"), AuthorLookup::Known(_)));

    match author_member(None, &cache, "c1", "a1") {
        Ok(AuthorLookup::Fetch(sid)) => assert_eq!(sid, "s1"),
        _ => panic!("member should be fetched"),
    }
    cache.insert_member(member("s1", "a1", Some("nick")));
    match author_member(None, &cache, "c1", "a1") {
        Ok(AuthorLookup::Known(m)) => assert_eq!(m.nickname, Some("nick".to_string())),
        _ => panic!("member is cached"),
    }
    assert!(matches!(author_member(None, &cache, "sv", "a1"), Err(Error::InternalError)));
    let sent = member("s1", "a1", Some("sent"));
    match author_member(Some(&sent), &cache, "sv", "a1") {
        Ok(AuthorLookup::Known(m)) => assert_eq!(m.nickname, Some("sent".to_string())),
        _ => panic!("attached member ignored"),
    }
}

#[test]
fn interactions_and_masquerade() {
    let mut set = indexmap::IndexSet::new();
    set.insert("b".to_string());
    set.insert("a".to_string());
    let i = Interactions::new().restrict_reactions(true).reactions(set);
    assert!(i.restrict_reactions);
    let order: Vec<&String> = i.reactions.as_ref().unwrap().iter().collect();
    assert_eq!(order, vec!["b", "a"]);
    let b = SendMessageBuilder::new("c".to_string())
        .masquerade(Masquerade { name: Some("bot".to_string()), avatar: None, colour: None })
        .interactions(i);
    assert_eq!(b.data.masquerade.as_ref().unwrap().name, Some("bot".to_string()));
    assert!(b.data.interactions.as_ref().unwrap().restrict_reactions);
    let mut x = ExecuteWebhookBuilder::new("w".to_string(), "t".to_string());
    x.masquerade(Masquerade { name: None, avatar: None, colour: Some("red".to_string()) });
    x.interactions(Interactions::new());
    assert_eq!(x.data.masquerade.as_ref().unwrap().colour, Some("red".to_string()));
    assert!(x.data.interactions.as_ref().unwrap().reactions.is_none());
}
