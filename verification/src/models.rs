use vstd::prelude::*;

use crate::store::{entries_map, KeyedStore};

verus! {

/// The text of an optional string.
pub open spec fn opt_text(o: Option<String>) -> Option<Seq<char>> {
    match o {
        Some(s) => Some(s@),
        None => None,
    }
}

/// The texts of a list of strings.
pub open spec fn texts(v: Seq<String>) -> Seq<Seq<char>> {
    v.map_values(|s: String| s@)
}

/// A copy of an optional string.
pub fn copy_opt_text(o: &Option<String>) -> (r: Option<String>)
    ensures
        r == *o,
{
    match o {
        Some(s) => Some(s.clone()),
        None => None,
    }
}

/// A copy of a list of strings.
pub fn copy_texts(v: &Vec<String>) -> (r: Vec<String>)
    ensures
        r@ == v@,
{
    let mut r: Vec<String> = Vec::new();
    let mut i: usize = 0;
    while i < v.len()
        invariant
            i <= v@.len(),
            r@ == v@.take(i as int),
        decreases v@.len() - i,
    {
        r.push(v[i].clone());
        assert(v@.take(i + 1) =~= v@.take(i as int).push(v@[i as int]));
        i = i + 1;
    }
    assert(v@.take(v@.len() as int) =~= v@);
    r
}

/// How one user stands to another.
#[derive(Debug, Clone, Copy, PartialEq, Eq, Structural)]
pub enum RelationshipStatus {
    NoRelation,
    User,
    Friend,
    Outgoing,
    Incoming,
    Blocked,
    BlockedOther,
}

/// A user's relationship to another user.
#[derive(Debug, Clone)]
pub struct Relationship {
    pub user_id: String,
    pub status: RelationshipStatus,
}

impl View for Relationship {
    type V = (Seq<char>, RelationshipStatus);

    open spec fn view(&self) -> (Seq<char>, RelationshipStatus) {
        (self.user_id@, self.status)
    }
}

impl Relationship {
    /// A copy of the relationship.
    pub fn duplicate(&self) -> (r: Relationship)
        ensures
            r@ == self@,
    {
        Relationship { user_id: self.user_id.clone(), status: self.status }
    }
}

/// What marks a user as a bot.
#[derive(Debug, Clone)]
pub struct BotInformation {
    pub owner_id: String,
}

/// How present a user says they are.
#[derive(Debug, Clone, Copy, PartialEq, Eq, Structural)]
pub enum Presence {
    Online,
    Idle,
    Focus,
    Busy,
    Invisible,
}

/// A user's status line and presence.
#[derive(Debug, Clone)]
pub struct UserStatus {
    pub text: Option<String>,
    pub presence: Option<Presence>,
}

/// The plain values of a user.
#[verifier::ext_equal]
pub struct UserView {
    pub id: Seq<char>,
    pub username: Seq<char>,
    pub discriminator: Seq<char>,
    pub display_name: Option<Seq<char>>,
    pub avatar: Option<Seq<char>>,
    pub relations: Seq<(Seq<char>, RelationshipStatus)>,
    pub status_text: Option<Option<Seq<char>>>,
    pub status_presence: Option<Option<Presence>>,
    pub privileged: bool,
    pub bot: Option<Seq<char>>,
    pub relationship: RelationshipStatus,
    pub online: bool,
}

/// A user, as far as the library reads it.
#[derive(Debug, Clone)]
pub struct User {
    pub id: String,
    pub username: String,
    pub discriminator: String,
    pub display_name: Option<String>,
    /// The identifier of the avatar file.
    pub avatar: Option<String>,
    pub relations: Vec<Relationship>,
    pub status: Option<UserStatus>,
    pub privileged: bool,
    pub bot: Option<BotInformation>,
    pub relationship: RelationshipStatus,
    pub online: bool,
}

/// The plain values of a list of relationships.
pub open spec fn relations_view(v: Seq<Relationship>) -> Seq<(Seq<char>, RelationshipStatus)> {
    v.map_values(|r: Relationship| r@)
}

impl View for User {
    type V = UserView;

    open spec fn view(&self) -> UserView {
        UserView {
            id: self.id@,
            username: self.username@,
            discriminator: self.discriminator@,
            display_name: opt_text(self.display_name),
            avatar: opt_text(self.avatar),
            relations: relations_view(self.relations@),
            status_text: match self.status {
                Some(s) => Some(opt_text(s.text)),
                None => None,
            },
            status_presence: match self.status {
                Some(s) => Some(s.presence),
                None => None,
            },
            privileged: self.privileged,
            bot: match self.bot {
                Some(b) => Some(b.owner_id@),
                None => None,
            },
            relationship: self.relationship,
            online: self.online,
        }
    }
}

/// A copy of a list of relationships.
pub fn copy_relations(v: &Vec<Relationship>) -> (r: Vec<Relationship>)
    ensures
        relations_view(r@) == relations_view(v@),
{
    let mut r: Vec<Relationship> = Vec::new();
    let mut i: usize = 0;
    while i < v.len()
        invariant
            i <= v@.len(),
            relations_view(r@) == relations_view(v@.take(i as int)),
        decreases v@.len() - i,
    {
        r.push(v[i].duplicate());
        assert(relations_view(v@.take(i + 1)) =~= relations_view(v@.take(i as int)).push(v@[i as int]@));
        assert(relations_view(r@) =~= relations_view(v@.take(i + 1)));
        i = i + 1;
    }
    assert(v@.take(v@.len() as int) =~= v@);
    r
}

impl UserStatus {
    /// A copy of the status.
    pub fn duplicate(&self) -> (r: UserStatus)
        ensures
            r.text == self.text,
            r.presence == self.presence,
    {
        UserStatus { text: copy_opt_text(&self.text), presence: self.presence }
    }
}

impl User {
    /// A copy of the user.
    pub fn duplicate(&self) -> (r: User)
        ensures
            r@ == self@,
    {
        User {
            id: self.id.clone(),
            username: self.username.clone(),
            discriminator: self.discriminator.clone(),
            display_name: copy_opt_text(&self.display_name),
            avatar: copy_opt_text(&self.avatar),
            relations: copy_relations(&self.relations),
            status: match &self.status {
                Some(s) => Some(s.duplicate()),
                None => None,
            },
            privileged: self.privileged,
            bot: match &self.bot {
                Some(b) => Some(BotInformation { owner_id: b.owner_id.clone() }),
                None => None,
            },
            relationship: self.relationship,
            online: self.online,
        }
    }
}

/// A permission override as the API stores it: allowed and denied bits.
#[derive(Debug, Clone, Copy, PartialEq, Eq, Structural)]
pub struct OverrideField {
    pub a: i64,
    pub d: i64,
}

/// The plain values of a role.
#[verifier::ext_equal]
pub struct RoleView {
    pub name: Seq<char>,
    pub permissions: OverrideField,
    pub colour: Option<Seq<char>>,
    pub hoist: bool,
    pub rank: i64,
}

/// A role of a server.
#[derive(Debug, Clone)]
pub struct Role {
    pub name: String,
    pub permissions: OverrideField,
    pub colour: Option<String>,
    pub hoist: bool,
    pub rank: i64,
}

impl View for Role {
    type V = RoleView;

    open spec fn view(&self) -> RoleView {
        RoleView {
            name: self.name@,
            permissions: self.permissions,
            colour: opt_text(self.colour),
            hoist: self.hoist,
            rank: self.rank,
        }
    }
}

impl Role {
    /// A copy of the role.
    pub fn duplicate(&self) -> (r: Role)
        ensures
            r@ == self@,
    {
        Role {
            name: self.name.clone(),
            permissions: self.permissions,
            colour: copy_opt_text(&self.colour),
            hoist: self.hoist,
            rank: self.rank,
        }
    }
}

/// The plain values of a table of roles.
pub open spec fn roles_view(m: Map<Seq<char>, Role>) -> Map<Seq<char>, RoleView> {
    m.map_values(|r: Role| r@)
}

/// The values of a role table after an insertion are the old values with the new one.
pub proof fn lemma_roles_view_insert(m: Map<Seq<char>, Role>, k: Seq<char>, v: Role)
    ensures
        roles_view(m.insert(k, v)) == roles_view(m).insert(k, v@),
{
    assert(roles_view(m.insert(k, v)) =~= roles_view(m).insert(k, v@));
}

/// The values of a role table after a removal are the old values without the key.
pub proof fn lemma_roles_view_remove(m: Map<Seq<char>, Role>, k: Seq<char>)
    ensures
        roles_view(m.remove(k)) == roles_view(m).remove(k),
{
    assert(roles_view(m.remove(k)) =~= roles_view(m).remove(k));
}

/// A copy of a table of roles, entry for entry.
pub fn copy_roles(roles: &KeyedStore<Role>) -> (r: KeyedStore<Role>)
    ensures
        roles_view(r.map()) == roles_view(roles.map()),
{
    let n = roles.len();
    let mut r: KeyedStore<Role> = KeyedStore::new();
    let mut i: usize = 0;
    proof {
        roles.lemma_map_of_entries();
        assert(roles.entries().take(0).len() == 0);
    }
    while i < n
        invariant
            n == roles.entries().len(),
            i <= n,
            roles_view(r.map()) == roles_view(entries_map(roles.entries().take(i as int))),
        decreases n - i,
    {
        let (k, v) = roles.entry_at(i);
        let ghost before = r.map();
        let copy = v.duplicate();
        let key = k.clone();
        let ghost m0 = entries_map(roles.entries().take(i as int));
        r.insert(key, copy);
        proof {
            let t = roles.entries().take(i + 1);
            assert(t.drop_last() =~= roles.entries().take(i as int));
            assert(t.last() == roles.entries()[i as int]);
            assert(entries_map(t) == m0.insert(k@, *v));
            lemma_roles_view_insert(before, key@, copy);
            lemma_roles_view_insert(m0, k@, *v);
        }
        i = i + 1;
    }
    assert(roles.entries().take(n as int) =~= roles.entries());
    r
}

/// The plain values of a server.
#[verifier::ext_equal]
pub struct ServerView {
    pub id: Seq<char>,
    pub owner: Seq<char>,
    pub name: Seq<char>,
    pub description: Option<Seq<char>>,
    pub channels: Seq<Seq<char>>,
    pub roles: Map<Seq<char>, RoleView>,
    pub default_permissions: i64,
    pub icon: Option<Seq<char>>,
    pub banner: Option<Seq<char>>,
    pub nsfw: bool,
}

/// A server, as far as the library reads it.
#[derive(Debug)]
pub struct Server {
    pub id: String,
    pub owner: String,
    pub name: String,
    pub description: Option<String>,
    pub channels: Vec<String>,
    pub roles: KeyedStore<Role>,
    pub default_permissions: i64,
    /// The identifier of the icon file.
    pub icon: Option<String>,
    /// The identifier of the banner file.
    pub banner: Option<String>,
    pub nsfw: bool,
}

impl View for Server {
    type V = ServerView;

    open spec fn view(&self) -> ServerView {
        ServerView {
            id: self.id@,
            owner: self.owner@,
            name: self.name@,
            description: opt_text(self.description),
            channels: texts(self.channels@),
            roles: roles_view(self.roles.map()),
            default_permissions: self.default_permissions,
            icon: opt_text(self.icon),
            banner: opt_text(self.banner),
            nsfw: self.nsfw,
        }
    }
}

impl Server {
    /// A copy of the server.
    pub fn duplicate(&self) -> (r: Server)
        ensures
            r@ == self@,
    {
        let updated = Server {
            id: self.id.clone(),
            owner: self.owner.clone(),
            name: self.name.clone(),
            description: copy_opt_text(&self.description),
            channels: copy_texts(&self.channels),
            roles: copy_roles(&self.roles),
            default_permissions: self.default_permissions,
            icon: copy_opt_text(&self.icon),
            banner: copy_opt_text(&self.banner),
            nsfw: self.nsfw,
        };
        assert(updated@ =~= self@);
        updated
    }
}

/// The pair that identifies a member: its server and its user.
#[derive(Debug, Clone)]
pub struct MemberCompositeKey {
    pub server: String,
    pub user: String,
}

/// The plain values of a member.
#[verifier::ext_equal]
pub struct MemberView {
    pub server: Seq<char>,
    pub user: Seq<char>,
    pub nickname: Option<Seq<char>>,
    pub avatar: Option<Seq<char>>,
    pub roles: Seq<Seq<char>>,
    pub timeout: Option<Seq<char>>,
    pub can_publish: bool,
    pub can_receive: bool,
}

/// A member of a server, as far as the library reads it.
#[derive(Debug, Clone)]
pub struct Member {
    pub id: MemberCompositeKey,
    pub nickname: Option<String>,
    /// The identifier of the member's avatar file.
    pub avatar: Option<String>,
    pub roles: Vec<String>,
    /// The time the member's time-out ends, as the API writes it.
    pub timeout: Option<String>,
    pub can_publish: bool,
    pub can_receive: bool,
}

impl View for Member {
    type V = MemberView;

    open spec fn view(&self) -> MemberView {
        MemberView {
            server: self.id.server@,
            user: self.id.user@,
            nickname: opt_text(self.nickname),
            avatar: opt_text(self.avatar),
            roles: texts(self.roles@),
            timeout: opt_text(self.timeout),
            can_publish: self.can_publish,
            can_receive: self.can_receive,
        }
    }
}

impl Member {
    /// A copy of the member.
    pub fn duplicate(&self) -> (r: Member)
        ensures
            r@ == self@,
    {
        Member {
            id: MemberCompositeKey { server: self.id.server.clone(), user: self.id.user.clone() },
            nickname: copy_opt_text(&self.nickname),
            avatar: copy_opt_text(&self.avatar),
            roles: copy_texts(&self.roles),
            timeout: copy_opt_text(&self.timeout),
            can_publish: self.can_publish,
            can_receive: self.can_receive,
        }
    }
}

/// The voice settings of a text channel.
#[derive(Debug, Clone, Copy, PartialEq, Eq, Structural)]
pub struct VoiceInformation {
    pub max_users: Option<u64>,
}

/// The plain values of a channel.
#[verifier::ext_equal]
pub enum ChannelView {
    SavedMessages { id: Seq<char>, user: Seq<char> },
    DirectMessage { id: Seq<char>, active: bool, recipients: Seq<Seq<char>>, last_message_id: Option<Seq<char>> },
    Group {
        id: Seq<char>,
        name: Seq<char>,
        owner: Seq<char>,
        description: Option<Seq<char>>,
        recipients: Seq<Seq<char>>,
        icon: Option<Seq<char>>,
        last_message_id: Option<Seq<char>>,
        permissions: Option<i64>,
        nsfw: bool,
    },
    TextChannel {
        id: Seq<char>,
        server: Seq<char>,
        name: Seq<char>,
        description: Option<Seq<char>>,
        icon: Option<Seq<char>>,
        last_message_id: Option<Seq<char>>,
        default_permissions: Option<OverrideField>,
        role_permissions: Seq<(Seq<char>, OverrideField)>,
        nsfw: bool,
        voice: Option<VoiceInformation>,
    },
}

/// A channel, as far as the library reads it.
#[derive(Debug, Clone)]
pub enum Channel {
    SavedMessages { id: String, user: String },
    DirectMessage { id: String, active: bool, recipients: Vec<String>, last_message_id: Option<String> },
    Group {
        id: String,
        name: String,
        owner: String,
        description: Option<String>,
        recipients: Vec<String>,
        /// The identifier of the icon file.
        icon: Option<String>,
        last_message_id: Option<String>,
        permissions: Option<i64>,
        nsfw: bool,
    },
    TextChannel {
        id: String,
        server: String,
        name: String,
        description: Option<String>,
        /// The identifier of the icon file.
        icon: Option<String>,
        last_message_id: Option<String>,
        default_permissions: Option<OverrideField>,
        role_permissions: Vec<(String, OverrideField)>,
        nsfw: bool,
        voice: Option<VoiceInformation>,
    },
}

/// The plain values of a list of role overrides.
pub open spec fn overrides_view(v: Seq<(String, OverrideField)>) -> Seq<(Seq<char>, OverrideField)> {
    v.map_values(|e: (String, OverrideField)| (e.0@, e.1))
}

/// A copy of a list of role overrides.
pub fn copy_overrides(v: &Vec<(String, OverrideField)>) -> (r: Vec<(String, OverrideField)>)
    ensures
        r@ == v@,
{
    let mut r: Vec<(String, OverrideField)> = Vec::new();
    let mut i: usize = 0;
    while i < v.len()
        invariant
            i <= v@.len(),
            r@ == v@.take(i as int),
        decreases v@.len() - i,
    {
        let e = &v[i];
        r.push((e.0.clone(), e.1));
        assert(v@.take(i + 1) =~= v@.take(i as int).push(v@[i as int]));
        i = i + 1;
    }
    assert(v@.take(v@.len() as int) =~= v@);
    r
}

impl View for Channel {
    type V = ChannelView;

    open spec fn view(&self) -> ChannelView {
        match self {
            Channel::SavedMessages { id, user } => ChannelView::SavedMessages { id: id@, user: user@ },
            Channel::DirectMessage { id, active, recipients, last_message_id } => ChannelView::DirectMessage {
                id: id@,
                active: *active,
                recipients: texts(recipients@),
                last_message_id: opt_text(*last_message_id),
            },
            Channel::Group { id, name, owner, description, recipients, icon, last_message_id, permissions, nsfw } => ChannelView::Group {
                id: id@,
                name: name@,
                owner: owner@,
                description: opt_text(*description),
                recipients: texts(recipients@),
                icon: opt_text(*icon),
                last_message_id: opt_text(*last_message_id),
                permissions: *permissions,
                nsfw: *nsfw,
            },
            Channel::TextChannel {
                id,
                server,
                name,
                description,
                icon,
                last_message_id,
                default_permissions,
                role_permissions,
                nsfw,
                voice,
            } => ChannelView::TextChannel {
                id: id@,
                server: server@,
                name: name@,
                description: opt_text(*description),
                icon: opt_text(*icon),
                last_message_id: opt_text(*last_message_id),
                default_permissions: *default_permissions,
                role_permissions: overrides_view(role_permissions@),
                nsfw: *nsfw,
                voice: *voice,
            },
        }
    }
}

impl Channel {
    /// The channel's identifier.
    pub open spec fn id_view(self) -> Seq<char> {
        match self {
            Channel::SavedMessages { id, .. } => id@,
            Channel::DirectMessage { id, .. } => id@,
            Channel::Group { id, .. } => id@,
            Channel::TextChannel { id, .. } => id@,
        }
    }

    /// The channel's identifier.
    pub fn id(&self) -> (r: &String)
        ensures
            r@ == self.id_view(),
    {
        match self {
            Channel::SavedMessages { id, .. } => id,
            Channel::DirectMessage { id, .. } => id,
            Channel::Group { id, .. } => id,
            Channel::TextChannel { id, .. } => id,
        }
    }

    /// A copy of the channel.
    pub fn duplicate(&self) -> (r: Channel)
        ensures
            r@ == self@,
    {
        match self {
            Channel::SavedMessages { id, user } => Channel::SavedMessages { id: id.clone(), user: user.clone() },
            Channel::DirectMessage { id, active, recipients, last_message_id } => Channel::DirectMessage {
                id: id.clone(),
                active: *active,
                recipients: copy_texts(recipients),
                last_message_id: copy_opt_text(last_message_id),
            },
            Channel::Group { id, name, owner, description, recipients, icon, last_message_id, permissions, nsfw } => Channel::Group {
                id: id.clone(),
                name: name.clone(),
                owner: owner.clone(),
                description: copy_opt_text(description),
                recipients: copy_texts(recipients),
                icon: copy_opt_text(icon),
                last_message_id: copy_opt_text(last_message_id),
                permissions: *permissions,
                nsfw: *nsfw,
            },
            Channel::TextChannel {
                id,
                server,
                name,
                description,
                icon,
                last_message_id,
                default_permissions,
                role_permissions,
                nsfw,
                voice,
            } => Channel::TextChannel {
                id: id.clone(),
                server: server.clone(),
                name: name.clone(),
                description: copy_opt_text(description),
                icon: copy_opt_text(icon),
                last_message_id: copy_opt_text(last_message_id),
                default_permissions: *default_permissions,
                role_permissions: copy_overrides(role_permissions),
                nsfw: *nsfw,
                voice: *voice,
            },
        }
    }
}

/// The voice state of one user in a voice channel.
#[derive(Debug, Clone)]
pub struct UserVoiceState {
    pub id: String,
    pub is_receiving: bool,
    pub is_publishing: bool,
    pub screensharing: bool,
    pub camera: bool,
}

impl UserVoiceState {
    /// A copy of the voice state.
    pub fn duplicate(&self) -> (r: UserVoiceState)
        ensures
            r == *self,
    {
        UserVoiceState {
            id: self.id.clone(),
            is_receiving: self.is_receiving,
            is_publishing: self.is_publishing,
            screensharing: self.screensharing,
            camera: self.camera,
        }
    }
}

/// The voice states of everyone in a voice channel.
#[derive(Debug, Clone)]
pub struct ChannelVoiceState {
    pub id: String,
    pub participants: Vec<UserVoiceState>,
}

/// Who owns an emoji.
#[derive(Debug, Clone)]
pub enum EmojiParent {
    Server { id: String },
    Detached,
}

/// A custom emoji.
#[derive(Debug, Clone)]
pub struct Emoji {
    pub id: String,
    pub parent: EmojiParent,
    pub creator_id: String,
    pub name: String,
}

impl Emoji {
    /// A copy of the emoji.
    pub fn duplicate(&self) -> (r: Emoji)
        ensures
            r == *self,
    {
        Emoji {
            id: self.id.clone(),
            parent: match &self.parent {
                EmojiParent::Server { id } => EmojiParent::Server { id: id.clone() },
                EmojiParent::Detached => EmojiParent::Detached,
            },
            creator_id: self.creator_id.clone(),
            name: self.name.clone(),
        }
    }
}

/// An embed shown under a message.
#[derive(Debug, Clone)]
pub struct Embed {
    pub title: Option<String>,
    pub description: Option<String>,
    pub url: Option<String>,
    pub colour: Option<String>,
}

impl Embed {
    /// A copy of the embed.
    pub fn duplicate(&self) -> (r: Embed)
        ensures
            r == *self,
    {
        Embed {
            title: copy_opt_text(&self.title),
            description: copy_opt_text(&self.description),
            url: copy_opt_text(&self.url),
            colour: copy_opt_text(&self.colour),
        }
    }
}

/// A copy of a list of embeds.
pub fn copy_embeds(v: &Vec<Embed>) -> (r: Vec<Embed>)
    ensures
        r@ == v@,
{
    let mut r: Vec<Embed> = Vec::new();
    let mut i: usize = 0;
    while i < v.len()
        invariant
            i <= v@.len(),
            r@ == v@.take(i as int),
        decreases v@.len() - i,
    {
        r.push(v[i].duplicate());
        assert(v@.take(i + 1) =~= v@.take(i as int).push(v@[i as int]));
        i = i + 1;
    }
    assert(v@.take(v@.len() as int) =~= v@);
    r
}

/// The plain values of a message.
#[verifier::ext_equal]
pub struct MessageView {
    pub id: Seq<char>,
    pub channel: Seq<char>,
    pub author: Seq<char>,
    pub content: Option<Seq<char>>,
    pub embeds: Option<Seq<Embed>>,
    pub edited: Option<Seq<char>>,
    pub pinned: Option<bool>,
    pub reactions: Seq<(Seq<char>, Seq<Seq<char>>)>,
}

/// A message, as far as the library reads it.
#[derive(Debug, Clone)]
pub struct Message {
    pub id: String,
    pub channel: String,
    pub author: String,
    pub content: Option<String>,
    pub embeds: Option<Vec<Embed>>,
    /// When the message was last edited, as the API writes it.
    pub edited: Option<String>,
    pub pinned: Option<bool>,
    /// For each emoji, the users who reacted with it, in order.
    pub reactions: Vec<(String, Vec<String>)>,
}

/// The plain values of a message's reactions.
pub open spec fn reactions_view(v: Seq<(String, Vec<String>)>) -> Seq<(Seq<char>, Seq<Seq<char>>)> {
    v.map_values(|e: (String, Vec<String>)| (e.0@, texts(e.1@)))
}

/// The plain values of an optional list of embeds.
pub open spec fn embeds_view(o: Option<Vec<Embed>>) -> Option<Seq<Embed>> {
    match o {
        Some(v) => Some(v@),
        None => None,
    }
}

fn copy_reactions(v: &Vec<(String, Vec<String>)>) -> (r: Vec<(String, Vec<String>)>)
    ensures
        reactions_view(r@) == reactions_view(v@),
{
    let mut r: Vec<(String, Vec<String>)> = Vec::new();
    let mut i: usize = 0;
    while i < v.len()
        invariant
            i <= v@.len(),
            reactions_view(r@) == reactions_view(v@.take(i as int)),
        decreases v@.len() - i,
    {
        let e = &v[i];
        r.push((e.0.clone(), copy_texts(&e.1)));
        assert(reactions_view(v@.take(i + 1)) =~= reactions_view(v@.take(i as int)).push(
            (v@[i as int].0@, texts(v@[i as int].1@)),
        ));
        assert(reactions_view(r@) =~= reactions_view(v@.take(i + 1)));
        i = i + 1;
    }
    assert(v@.take(v@.len() as int) =~= v@);
    r
}

impl View for Message {
    type V = MessageView;

    open spec fn view(&self) -> MessageView {
        MessageView {
            id: self.id@,
            channel: self.channel@,
            author: self.author@,
            content: opt_text(self.content),
            embeds: embeds_view(self.embeds),
            edited: opt_text(self.edited),
            pinned: self.pinned,
            reactions: reactions_view(self.reactions@),
        }
    }
}

impl Message {
    /// A copy of the message.
    pub fn duplicate(&self) -> (r: Message)
        ensures
            r@ == self@,
    {
        Message {
            id: self.id.clone(),
            channel: self.channel.clone(),
            author: self.author.clone(),
            content: copy_opt_text(&self.content),
            embeds: match &self.embeds {
                Some(v) => Some(copy_embeds(v)),
                None => None,
            },
            edited: copy_opt_text(&self.edited),
            pinned: self.pinned,
            reactions: copy_reactions(&self.reactions),
        }
    }
}

} // verus!
