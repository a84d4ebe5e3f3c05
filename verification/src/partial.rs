use vstd::prelude::*;

use crate::models::{
    copy_embeds, copy_opt_text, copy_overrides, copy_relations, copy_roles, copy_texts, embeds_view, opt_text, overrides_view, relations_view, roles_view, texts,
    BotInformation, Channel, ChannelView, Embed, Member, MemberCompositeKey, MemberView, Message, MessageView, OverrideField, Presence,
    Relationship, RelationshipStatus, Role, RoleView, Server, ServerView, User, UserStatus, UserView,
    UserVoiceState,
};
use crate::store::KeyedStore;

verus! {

/// The value of an optional update, or the current value where the update has none.
pub open spec fn or_keep<T>(update: Option<T>, current: T) -> T {
    match update {
        Some(v) => v,
        None => current,
    }
}

/// The text of an optional update to a string.
pub open spec fn or_keep_str(update: Option<String>, current: Seq<char>) -> Seq<char> {
    match update {
        Some(s) => s@,
        None => current,
    }
}

/// The text of an optional update to an optional string.
pub open spec fn or_keep_text(update: Option<String>, current: Option<Seq<char>>) -> Option<Seq<char>> {
    match update {
        Some(s) => Some(s@),
        None => current,
    }
}

/// A field of a message that an update can clear.
#[derive(Debug, Clone, Copy, PartialEq, Eq, Structural)]
pub enum FieldsMessage {
    Pinned,
}

/// The fields of a message that an update sets.
#[derive(Debug, Clone)]
pub struct PartialMessage {
    pub content: Option<String>,
    pub embeds: Option<Vec<Embed>>,
    pub edited: Option<String>,
    pub pinned: Option<bool>,
}

/// A message after `data` is applied and the fields in `clear` are cleared.
pub open spec fn message_updated(m: MessageView, data: PartialMessage, clear: Seq<FieldsMessage>) -> MessageView {
    MessageView {
        id: m.id,
        channel: m.channel,
        author: m.author,
        content: or_keep_text(data.content, m.content),
        embeds: match data.embeds {
            Some(v) => Some(v@),
            None => m.embeds,
        },
        edited: or_keep_text(data.edited, m.edited),
        pinned: if clear.contains(FieldsMessage::Pinned) { None } else { match data.pinned { Some(p) => Some(p), None => m.pinned } },
        reactions: m.reactions,
    }
}

/// Applies `data` to `m`, then clears the fields in `clear`.
pub fn update_message(m: &mut Message, data: &PartialMessage, clear: &Vec<FieldsMessage>)
    ensures
        final(m)@ == message_updated(old(m)@, *data, clear@),
{
    if let Some(c) = &data.content {
        m.content = Some(c.clone());
    }
    if let Some(e) = &data.embeds {
        m.embeds = Some(copy_embeds(e));
    }
    if let Some(e) = &data.edited {
        m.edited = Some(e.clone());
    }
    if let Some(p) = data.pinned {
        m.pinned = Some(p);
    }
    if clears_message_field(clear, FieldsMessage::Pinned) {
        m.pinned = None;
    }
}

fn clears_message_field(clear: &Vec<FieldsMessage>, f: FieldsMessage) -> (r: bool)
    ensures
        r == clear@.contains(f),
{
    let mut i: usize = 0;
    while i < clear.len()
        invariant
            i <= clear@.len(),
            forall|j: int| 0 <= j < i ==> clear@[j] != f,
        decreases clear@.len() - i,
    {
        if clear[i] == f {
            return true;
        }
        i = i + 1;
    }
    false
}

/// A field of a user that an update can clear.
#[derive(Debug, Clone, Copy, PartialEq, Eq, Structural)]
pub enum FieldsUser {
    Avatar,
    StatusText,
    StatusPresence,
    ProfileContent,
    ProfileBackground,
    DisplayName,
    Internal,
}

/// The fields of a user that an update sets.
#[derive(Debug, Clone)]
pub struct PartialUser {
    pub username: Option<String>,
    pub discriminator: Option<String>,
    pub display_name: Option<String>,
    pub avatar: Option<String>,
    pub relations: Option<Vec<Relationship>>,
    pub status: Option<UserStatus>,
    pub privileged: Option<bool>,
    pub bot: Option<BotInformation>,
    pub relationship: Option<RelationshipStatus>,
    pub online: Option<bool>,
}

/// A user after `data` is applied and the fields in `clear` are cleared.
///
/// Clearing the status text or presence of a user with no status changes nothing;
/// the profile and internal fields are not part of the model.
pub open spec fn user_updated(u: UserView, data: PartialUser, clear: Seq<FieldsUser>) -> UserView {
    let status_text = match data.status {
        Some(s) => Some(opt_text(s.text)),
        None => u.status_text,
    };
    let status_presence = match data.status {
        Some(s) => Some(s.presence),
        None => u.status_presence,
    };
    UserView {
        id: u.id,
        username: or_keep_str(data.username, u.username),
        discriminator: or_keep_str(data.discriminator, u.discriminator),
        display_name: if clear.contains(FieldsUser::DisplayName) { None } else { or_keep_text(data.display_name, u.display_name) },
        avatar: if clear.contains(FieldsUser::Avatar) { None } else { or_keep_text(data.avatar, u.avatar) },
        relations: match data.relations {
            Some(r) => relations_view(r@),
            None => u.relations,
        },
        status_text: if clear.contains(FieldsUser::StatusText) && status_text is Some { Some(None) } else { status_text },
        status_presence: if clear.contains(FieldsUser::StatusPresence) && status_presence is Some { Some(None) } else { status_presence },
        privileged: or_keep(data.privileged, u.privileged),
        bot: match data.bot {
            Some(b) => Some(b.owner_id@),
            None => u.bot,
        },
        relationship: or_keep(data.relationship, u.relationship),
        online: or_keep(data.online, u.online),
    }
}

fn apply_user_data(u: &mut User, data: &PartialUser)
    ensures
        final(u)@ == user_updated(old(u)@, *data, Seq::empty()),
{
    let username = match &data.username {
        Some(v) => v.clone(),
        None => u.username.clone(),
    };
    let discriminator = match &data.discriminator {
        Some(v) => v.clone(),
        None => u.discriminator.clone(),
    };
    let display_name = match &data.display_name {
        Some(v) => Some(v.clone()),
        None => copy_opt_text(&u.display_name),
    };
    let avatar = match &data.avatar {
        Some(v) => Some(v.clone()),
        None => copy_opt_text(&u.avatar),
    };
    let relations = match &data.relations {
        Some(v) => copy_relations(v),
        None => copy_relations(&u.relations),
    };
    let status = match &data.status {
        Some(v) => Some(v.duplicate()),
        None => match &u.status {
            Some(v) => Some(v.duplicate()),
            None => None,
        },
    };
    let bot = match &data.bot {
        Some(v) => Some(BotInformation { owner_id: v.owner_id.clone() }),
        None => match &u.bot {
            Some(v) => Some(BotInformation { owner_id: v.owner_id.clone() }),
            None => None,
        },
    };
    let updated = User {
        id: u.id.clone(),
        username,
        discriminator,
        display_name,
        avatar,
        relations,
        status,
        privileged: match data.privileged {
            Some(v) => v,
            None => u.privileged,
        },
        bot,
        relationship: match data.relationship {
            Some(v) => v,
            None => u.relationship,
        },
        online: match data.online {
            Some(v) => v,
            None => u.online,
        },
    };
    assert(updated@ =~= user_updated(old(u)@, *data, Seq::empty()));
    *u = updated;
}

/// Applies `data` to `u`, then clears the fields in `clear`.
pub fn update_user(u: &mut User, data: &PartialUser, clear: &Vec<FieldsUser>)
    ensures
        final(u)@ == user_updated(old(u)@, *data, clear@),
{
    apply_user_data(u, data);
    if clears_user_field(clear, FieldsUser::Avatar) {
        u.avatar = None;
    }
    if clears_user_field(clear, FieldsUser::StatusText) {
        if let Some(s) = &mut u.status {
            s.text = None;
        }
    }
    if clears_user_field(clear, FieldsUser::StatusPresence) {
        if let Some(s) = &mut u.status {
            s.presence = None;
        }
    }
    if clears_user_field(clear, FieldsUser::DisplayName) {
        u.display_name = None;
    }
    assert(u@ =~= user_updated(old(u)@, *data, clear@));
}

fn clears_user_field(clear: &Vec<FieldsUser>, f: FieldsUser) -> (r: bool)
    ensures
        r == clear@.contains(f),
{
    let mut i: usize = 0;
    while i < clear.len()
        invariant
            i <= clear@.len(),
            forall|j: int| 0 <= j < i ==> clear@[j] != f,
        decreases clear@.len() - i,
    {
        if clear[i] == f {
            return true;
        }
        i = i + 1;
    }
    false
}


fn clears_channel_field(clear: &Vec<FieldsChannel>, f: FieldsChannel) -> (r: bool)
    ensures
        r == clear@.contains(f),
{
    let mut i: usize = 0;
    while i < clear.len()
        invariant
            i <= clear@.len(),
            forall|j: int| 0 <= j < i ==> clear@[j] != f,
        decreases clear@.len() - i,
    {
        if clear[i] == f {
            return true;
        }
        i = i + 1;
    }
    false
}

/// A field of a channel that an update can clear.
#[derive(Debug, Clone, Copy, PartialEq, Eq, Structural)]
pub enum FieldsChannel {
    Description,
    Icon,
    DefaultPermissions,
    Voice,
}

/// The fields of a channel that an update sets.
///
/// The name is set on server channels only; the description, icon, group
/// permissions, default permissions and last message are replaced by what the
/// update holds, also where it holds nothing.
#[derive(Debug, Clone)]
pub struct PartialChannel {
    pub name: Option<String>,
    pub owner: Option<String>,
    pub description: Option<String>,
    pub icon: Option<String>,
    pub nsfw: Option<bool>,
    pub active: Option<bool>,
    pub permissions: Option<i64>,
    pub role_permissions: Option<Vec<(String, OverrideField)>>,
    pub default_permissions: Option<OverrideField>,
    pub last_message_id: Option<String>,
}

/// A channel after `data` is applied and the fields in `clear` are cleared.
pub open spec fn channel_updated(c: ChannelView, d: PartialChannel, clear: Seq<FieldsChannel>) -> ChannelView {
    match c {
        ChannelView::SavedMessages { .. } => c,
        ChannelView::DirectMessage { id, active, recipients, last_message_id } => ChannelView::DirectMessage {
            id,
            active: or_keep(d.active, active),
            recipients,
            last_message_id: opt_text(d.last_message_id),
        },
        ChannelView::Group { id, name, owner, description, recipients, icon, last_message_id, permissions, nsfw } => ChannelView::Group {
            id,
            name,
            owner: or_keep_str(d.owner, owner),
            description: if clear.contains(FieldsChannel::Description) { None } else { opt_text(d.description) },
            recipients,
            icon: if clear.contains(FieldsChannel::Icon) { None } else { opt_text(d.icon) },
            last_message_id: opt_text(d.last_message_id),
            permissions: d.permissions,
            nsfw: or_keep(d.nsfw, nsfw),
        },
        ChannelView::TextChannel {
            id,
            server,
            name,
            description,
            icon,
            last_message_id,
            default_permissions,
            role_permissions,
            nsfw,
            voice,
        } => ChannelView::TextChannel {
            id,
            server,
            name: or_keep_str(d.name, name),
            description: if clear.contains(FieldsChannel::Description) { None } else { opt_text(d.description) },
            icon: if clear.contains(FieldsChannel::Icon) { None } else { opt_text(d.icon) },
            last_message_id: opt_text(d.last_message_id),
            default_permissions: if clear.contains(FieldsChannel::DefaultPermissions) { None } else { d.default_permissions },
            role_permissions: match d.role_permissions {
                Some(v) => overrides_view(v@),
                None => role_permissions,
            },
            nsfw: or_keep(d.nsfw, nsfw),
            voice: if clear.contains(FieldsChannel::Voice) { None } else { voice },
        },
    }
}

/// Applies `data` to `c`, then clears the fields in `clear`.
pub fn update_channel(c: &mut Channel, data: &PartialChannel, clear: &Vec<FieldsChannel>)
    ensures
        final(c)@ == channel_updated(old(c)@, *data, clear@),
{
    let clear_description = clears_channel_field(clear, FieldsChannel::Description);
    let clear_icon = clears_channel_field(clear, FieldsChannel::Icon);
    let clear_defaults = clears_channel_field(clear, FieldsChannel::DefaultPermissions);
    let clear_voice = clears_channel_field(clear, FieldsChannel::Voice);
    let updated = match &*c {
        Channel::SavedMessages { id, user } => Channel::SavedMessages { id: id.clone(), user: user.clone() },
        Channel::DirectMessage { id, active, recipients, last_message_id: _ } => Channel::DirectMessage {
            id: id.clone(),
            active: match data.active {
                Some(v) => v,
                None => *active,
            },
            recipients: copy_texts(recipients),
            last_message_id: copy_opt_text(&data.last_message_id),
        },
        Channel::Group { id, name, owner, description: _, recipients, icon: _, last_message_id: _, permissions: _, nsfw } => Channel::Group {
            id: id.clone(),
            name: name.clone(),
            owner: match &data.owner {
                Some(v) => v.clone(),
                None => owner.clone(),
            },
            description: if clear_description { None } else { copy_opt_text(&data.description) },
            recipients: copy_texts(recipients),
            icon: if clear_icon { None } else { copy_opt_text(&data.icon) },
            last_message_id: copy_opt_text(&data.last_message_id),
            permissions: data.permissions,
            nsfw: match data.nsfw {
                Some(v) => v,
                None => *nsfw,
            },
        },
        Channel::TextChannel {
            id,
            server,
            name,
            description: _,
            icon: _,
            last_message_id: _,
            default_permissions: _,
            role_permissions,
            nsfw,
            voice,
        } => Channel::TextChannel {
            id: id.clone(),
            server: server.clone(),
            name: match &data.name {
                Some(v) => v.clone(),
                None => name.clone(),
            },
            description: if clear_description { None } else { copy_opt_text(&data.description) },
            icon: if clear_icon { None } else { copy_opt_text(&data.icon) },
            last_message_id: copy_opt_text(&data.last_message_id),
            default_permissions: if clear_defaults { None } else { data.default_permissions },
            role_permissions: match &data.role_permissions {
                Some(v) => copy_overrides(v),
                None => copy_overrides(role_permissions),
            },
            nsfw: match data.nsfw {
                Some(v) => v,
                None => *nsfw,
            },
            voice: if clear_voice { None } else { *voice },
        },
    };
    assert(updated@ =~= channel_updated(old(c)@, *data, clear@));
    *c = updated;
}

/// A field of a server that an update can clear.
#[derive(Debug, Clone, Copy, PartialEq, Eq, Structural)]
pub enum FieldsServer {
    Description,
    Categories,
    SystemMessages,
    Icon,
    Banner,
}

fn clears_server_field(clear: &Vec<FieldsServer>, f: FieldsServer) -> (r: bool)
    ensures
        r == clear@.contains(f),
{
    let mut i: usize = 0;
    while i < clear.len()
        invariant
            i <= clear@.len(),
            forall|j: int| 0 <= j < i ==> clear@[j] != f,
        decreases clear@.len() - i,
    {
        if clear[i] == f {
            return true;
        }
        i = i + 1;
    }
    false
}

/// The fields of a server that an update sets.
#[derive(Debug)]
pub struct PartialServer {
    pub owner: Option<String>,
    pub name: Option<String>,
    pub description: Option<String>,
    pub channels: Option<Vec<String>>,
    pub roles: Option<KeyedStore<Role>>,
    pub default_permissions: Option<i64>,
    pub icon: Option<String>,
    pub banner: Option<String>,
    pub nsfw: Option<bool>,
}

/// A server after `data` is applied and the fields in `clear` are cleared.
///
/// The categories and system message channels are not part of the model, so
/// clearing them changes nothing here.
pub open spec fn server_updated(s: ServerView, d: PartialServer, clear: Seq<FieldsServer>) -> ServerView {
    ServerView {
        id: s.id,
        owner: or_keep_str(d.owner, s.owner),
        name: or_keep_str(d.name, s.name),
        description: if clear.contains(FieldsServer::Description) { None } else { or_keep_text(d.description, s.description) },
        channels: match d.channels {
            Some(v) => texts(v@),
            None => s.channels,
        },
        roles: match d.roles {
            Some(r) => roles_view(r.map()),
            None => s.roles,
        },
        default_permissions: or_keep(d.default_permissions, s.default_permissions),
        icon: if clear.contains(FieldsServer::Icon) { None } else { or_keep_text(d.icon, s.icon) },
        banner: if clear.contains(FieldsServer::Banner) { None } else { or_keep_text(d.banner, s.banner) },
        nsfw: or_keep(d.nsfw, s.nsfw),
    }
}

/// Applies `data` to `s`, then clears the fields in `clear`.
pub fn update_server(s: &mut Server, data: &PartialServer, clear: &Vec<FieldsServer>)
    ensures
        final(s)@ == server_updated(old(s)@, *data, clear@),
{
    let clear_description = clears_server_field(clear, FieldsServer::Description);
    let clear_icon = clears_server_field(clear, FieldsServer::Icon);
    let clear_banner = clears_server_field(clear, FieldsServer::Banner);
    let updated = Server {
        id: s.id.clone(),
        owner: match &data.owner {
            Some(v) => v.clone(),
            None => s.owner.clone(),
        },
        name: match &data.name {
            Some(v) => v.clone(),
            None => s.name.clone(),
        },
        description: if clear_description { None } else {
            match &data.description {
                Some(v) => Some(v.clone()),
                None => copy_opt_text(&s.description),
            }
        },
        channels: match &data.channels {
            Some(v) => copy_texts(v),
            None => copy_texts(&s.channels),
        },
        roles: match &data.roles {
            Some(r) => copy_roles(r),
            None => copy_roles(&s.roles),
        },
        default_permissions: match data.default_permissions {
            Some(v) => v,
            None => s.default_permissions,
        },
        icon: if clear_icon { None } else {
            match &data.icon {
                Some(v) => Some(v.clone()),
                None => copy_opt_text(&s.icon),
            }
        },
        banner: if clear_banner { None } else {
            match &data.banner {
                Some(v) => Some(v.clone()),
                None => copy_opt_text(&s.banner),
            }
        },
        nsfw: match data.nsfw {
            Some(v) => v,
            None => s.nsfw,
        },
    };
    assert(updated@ =~= server_updated(old(s)@, *data, clear@));
    *s = updated;
}

/// A field of a member that an update can clear.
#[derive(Debug, Clone, Copy, PartialEq, Eq, Structural)]
pub enum FieldsMember {
    Nickname,
    Avatar,
    Roles,
    Timeout,
    CanReceive,
    CanPublish,
    JoinedAt,
}

fn clears_member_field(clear: &Vec<FieldsMember>, f: FieldsMember) -> (r: bool)
    ensures
        r == clear@.contains(f),
{
    let mut i: usize = 0;
    while i < clear.len()
        invariant
            i <= clear@.len(),
            forall|j: int| 0 <= j < i ==> clear@[j] != f,
        decreases clear@.len() - i,
    {
        if clear[i] == f {
            return true;
        }
        i = i + 1;
    }
    false
}

/// The fields of a member that an update sets.
#[derive(Debug, Clone)]
pub struct PartialMember {
    pub nickname: Option<String>,
    pub avatar: Option<String>,
    pub roles: Option<Vec<String>>,
    pub timeout: Option<String>,
    pub can_publish: Option<bool>,
    pub can_receive: Option<bool>,
}

/// A member after `data` is applied and the fields in `clear` are cleared.
///
/// Clearing either voice permission sets `can_publish` back to true; the join
/// time is not part of the model.
pub open spec fn member_updated(m: MemberView, d: PartialMember, clear: Seq<FieldsMember>) -> MemberView {
    MemberView {
        server: m.server,
        user: m.user,
        nickname: if clear.contains(FieldsMember::Nickname) { None } else { or_keep_text(d.nickname, m.nickname) },
        avatar: if clear.contains(FieldsMember::Avatar) { None } else { or_keep_text(d.avatar, m.avatar) },
        roles: if clear.contains(FieldsMember::Roles) { Seq::empty() } else {
            match d.roles {
                Some(v) => texts(v@),
                None => m.roles,
            }
        },
        timeout: if clear.contains(FieldsMember::Timeout) { None } else { or_keep_text(d.timeout, m.timeout) },
        can_publish: if clear.contains(FieldsMember::CanReceive) || clear.contains(FieldsMember::CanPublish) {
            true
        } else {
            or_keep(d.can_publish, m.can_publish)
        },
        can_receive: or_keep(d.can_receive, m.can_receive),
    }
}

/// Applies `data` to `m`, then clears the fields in `clear`.
pub fn update_member(m: &mut Member, data: &PartialMember, clear: &Vec<FieldsMember>)
    ensures
        final(m)@ == member_updated(old(m)@, *data, clear@),
{
    let clear_nickname = clears_member_field(clear, FieldsMember::Nickname);
    let clear_avatar = clears_member_field(clear, FieldsMember::Avatar);
    let clear_roles = clears_member_field(clear, FieldsMember::Roles);
    let clear_timeout = clears_member_field(clear, FieldsMember::Timeout);
    let reset_receive = clears_member_field(clear, FieldsMember::CanReceive);
    let reset_publish = clears_member_field(clear, FieldsMember::CanPublish);
    let updated = Member {
        id: MemberCompositeKey { server: m.id.server.clone(), user: m.id.user.clone() },
        nickname: if clear_nickname { None } else {
            match &data.nickname {
                Some(v) => Some(v.clone()),
                None => copy_opt_text(&m.nickname),
            }
        },
        avatar: if clear_avatar { None } else {
            match &data.avatar {
                Some(v) => Some(v.clone()),
                None => copy_opt_text(&m.avatar),
            }
        },
        roles: if clear_roles { Vec::new() } else {
            match &data.roles {
                Some(v) => copy_texts(v),
                None => copy_texts(&m.roles),
            }
        },
        timeout: if clear_timeout { None } else {
            match &data.timeout {
                Some(v) => Some(v.clone()),
                None => copy_opt_text(&m.timeout),
            }
        },
        can_publish: if reset_receive || reset_publish { true } else {
            match data.can_publish {
                Some(v) => v,
                None => m.can_publish,
            }
        },
        can_receive: match data.can_receive {
            Some(v) => v,
            None => m.can_receive,
        },
    };
    assert(updated@ =~= member_updated(old(m)@, *data, clear@));
    *m = updated;
}

/// A field of a role that an update can clear.
#[derive(Debug, Clone, Copy, PartialEq, Eq, Structural)]
pub enum FieldsRole {
    Colour,
}

fn clears_role_field(clear: &Vec<FieldsRole>, f: FieldsRole) -> (r: bool)
    ensures
        r == clear@.contains(f),
{
    let mut i: usize = 0;
    while i < clear.len()
        invariant
            i <= clear@.len(),
            forall|j: int| 0 <= j < i ==> clear@[j] != f,
        decreases clear@.len() - i,
    {
        if clear[i] == f {
            return true;
        }
        i = i + 1;
    }
    false
}

/// The fields of a role that an update sets.
#[derive(Debug, Clone)]
pub struct PartialRole {
    pub name: Option<String>,
    pub permissions: Option<OverrideField>,
    pub colour: Option<String>,
    pub hoist: Option<bool>,
    pub rank: Option<i64>,
}

/// A role after `data` is applied and the fields in `clear` are cleared.
pub open spec fn role_updated(r: RoleView, d: PartialRole, clear: Seq<FieldsRole>) -> RoleView {
    RoleView {
        name: or_keep_str(d.name, r.name),
        permissions: or_keep(d.permissions, r.permissions),
        colour: if clear.contains(FieldsRole::Colour) { None } else { or_keep_text(d.colour, r.colour) },
        hoist: or_keep(d.hoist, r.hoist),
        rank: or_keep(d.rank, r.rank),
    }
}

/// Applies `data` to `r`, then clears the fields in `clear`.
pub fn update_role(r: &mut Role, data: &PartialRole, clear: &Vec<FieldsRole>)
    ensures
        final(r)@ == role_updated(old(r)@, *data, clear@),
{
    let clear_colour = clears_role_field(clear, FieldsRole::Colour);
    let updated = Role {
        name: match &data.name {
            Some(v) => v.clone(),
            None => r.name.clone(),
        },
        permissions: match data.permissions {
            Some(v) => v,
            None => r.permissions,
        },
        colour: if clear_colour { None } else {
            match &data.colour {
                Some(v) => Some(v.clone()),
                None => copy_opt_text(&r.colour),
            }
        },
        hoist: match data.hoist {
            Some(v) => v,
            None => r.hoist,
        },
        rank: match data.rank {
            Some(v) => v,
            None => r.rank,
        },
    };
    assert(updated@ =~= role_updated(old(r)@, *data, clear@));
    *r = updated;
}

/// The fields of a user's voice state that an update sets.
#[derive(Debug, Clone, Copy)]
pub struct PartialUserVoiceState {
    pub is_receiving: Option<bool>,
    pub is_publishing: Option<bool>,
    pub screensharing: Option<bool>,
    pub camera: Option<bool>,
}

/// A user's voice state after `data` is applied.
pub open spec fn voice_state_updated(s: UserVoiceState, d: PartialUserVoiceState) -> UserVoiceState {
    UserVoiceState {
        id: s.id,
        is_receiving: or_keep(d.is_receiving, s.is_receiving),
        is_publishing: or_keep(d.is_publishing, s.is_publishing),
        screensharing: or_keep(d.screensharing, s.screensharing),
        camera: or_keep(d.camera, s.camera),
    }
}

/// Applies `data` to `s`.
pub fn update_voice_state(s: &mut UserVoiceState, data: &PartialUserVoiceState)
    ensures
        *final(s) == voice_state_updated(*old(s), *data),
{
    if let Some(v) = data.is_receiving {
        s.is_receiving = v;
    }
    if let Some(v) = data.is_publishing {
        s.is_publishing = v;
    }
    if let Some(v) = data.screensharing {
        s.screensharing = v;
    }
    if let Some(v) = data.camera {
        s.camera = v;
    }
}

/// What a member update does to each field: a value it brings is taken, as it
/// is; a field it leaves out keeps its value; a cleared field is emptied, except
/// that clearing either voice permission makes the member able to publish.
pub proof fn lemma_member_update_fields(m: MemberView, d: PartialMember, clear: Seq<FieldsMember>)
    ensures
        member_updated(m, d, clear).server == m.server && member_updated(m, d, clear).user == m.user,
        !clear.contains(FieldsMember::Nickname) ==> (d.nickname matches Some(x) ==> member_updated(m, d, clear).nickname == Some(x@)),
        d.nickname is None && !clear.contains(FieldsMember::Nickname) ==> member_updated(m, d, clear).nickname == m.nickname,
        clear.contains(FieldsMember::Nickname) ==> member_updated(m, d, clear).nickname is None,
        !clear.contains(FieldsMember::Avatar) ==> (d.avatar matches Some(x) ==> member_updated(m, d, clear).avatar == Some(x@)),
        d.avatar is None && !clear.contains(FieldsMember::Avatar) ==> member_updated(m, d, clear).avatar == m.avatar,
        clear.contains(FieldsMember::Avatar) ==> member_updated(m, d, clear).avatar is None,
        !clear.contains(FieldsMember::Timeout) ==> (d.timeout matches Some(x) ==> member_updated(m, d, clear).timeout == Some(x@)),
        d.timeout is None && !clear.contains(FieldsMember::Timeout) ==> member_updated(m, d, clear).timeout == m.timeout,
        clear.contains(FieldsMember::Timeout) ==> member_updated(m, d, clear).timeout is None,
        !clear.contains(FieldsMember::Roles) ==> (d.roles matches Some(v) ==> member_updated(m, d, clear).roles.len() == v@.len() && forall|j: int| 0 <= j < v@.len() ==> member_updated(m, d, clear).roles[j] == (#[trigger] v@[j])@),
        d.roles is None && !clear.contains(FieldsMember::Roles) ==> member_updated(m, d, clear).roles == m.roles,
        clear.contains(FieldsMember::Roles) ==> member_updated(m, d, clear).roles.len() == 0,
        d.can_receive matches Some(x) ==> (member_updated(m, d, clear).can_receive == x),
        d.can_receive is None ==> member_updated(m, d, clear).can_receive == m.can_receive,
        (clear.contains(FieldsMember::CanReceive) || clear.contains(FieldsMember::CanPublish)) ==> member_updated(m, d, clear).can_publish,
        !(clear.contains(FieldsMember::CanReceive) || clear.contains(FieldsMember::CanPublish)) ==> (d.can_publish matches Some(x) ==> member_updated(m, d, clear).can_publish == x),
        !(clear.contains(FieldsMember::CanReceive) || clear.contains(FieldsMember::CanPublish)) && d.can_publish is None ==> member_updated(m, d, clear).can_publish == m.can_publish,
{
}

/// What a role update does to each field: a value it brings is taken, as it
/// is; a field it leaves out keeps its value; a cleared colour is emptied.
pub proof fn lemma_role_update_fields(r: RoleView, d: PartialRole, clear: Seq<FieldsRole>)
    ensures
        d.name matches Some(x) ==> (role_updated(r, d, clear).name == x@),
        d.name is None ==> role_updated(r, d, clear).name == r.name,
        d.permissions matches Some(x) ==> (role_updated(r, d, clear).permissions == x),
        d.permissions is None ==> role_updated(r, d, clear).permissions == r.permissions,
        !clear.contains(FieldsRole::Colour) ==> (d.colour matches Some(x) ==> role_updated(r, d, clear).colour == Some(x@)),
        d.colour is None && !clear.contains(FieldsRole::Colour) ==> role_updated(r, d, clear).colour == r.colour,
        clear.contains(FieldsRole::Colour) ==> role_updated(r, d, clear).colour is None,
        d.hoist matches Some(x) ==> (role_updated(r, d, clear).hoist == x),
        d.hoist is None ==> role_updated(r, d, clear).hoist == r.hoist,
        d.rank matches Some(x) ==> (role_updated(r, d, clear).rank == x),
        d.rank is None ==> role_updated(r, d, clear).rank == r.rank,
{
}

/// What a user update does to each field: a value it brings is taken, as it
/// is; a field it leaves out keeps its value; a cleared name or avatar is emptied.
pub proof fn lemma_user_update_fields(u: UserView, d: PartialUser, clear: Seq<FieldsUser>)
    ensures
        user_updated(u, d, clear).id == u.id,
        d.username matches Some(x) ==> (user_updated(u, d, clear).username == x@),
        d.username is None ==> user_updated(u, d, clear).username == u.username,
        d.discriminator matches Some(x) ==> (user_updated(u, d, clear).discriminator == x@),
        d.discriminator is None ==> user_updated(u, d, clear).discriminator == u.discriminator,
        !clear.contains(FieldsUser::DisplayName) ==> (d.display_name matches Some(x) ==> user_updated(u, d, clear).display_name == Some(x@)),
        d.display_name is None && !clear.contains(FieldsUser::DisplayName) ==> user_updated(u, d, clear).display_name == u.display_name,
        clear.contains(FieldsUser::DisplayName) ==> user_updated(u, d, clear).display_name is None,
        !clear.contains(FieldsUser::Avatar) ==> (d.avatar matches Some(x) ==> user_updated(u, d, clear).avatar == Some(x@)),
        d.avatar is None && !clear.contains(FieldsUser::Avatar) ==> user_updated(u, d, clear).avatar == u.avatar,
        clear.contains(FieldsUser::Avatar) ==> user_updated(u, d, clear).avatar is None,
        d.relations is None ==> user_updated(u, d, clear).relations == u.relations,
        d.relations matches Some(v) ==> (user_updated(u, d, clear).relations.len() == v@.len()),
        d.privileged matches Some(x) ==> (user_updated(u, d, clear).privileged == x),
        d.privileged is None ==> user_updated(u, d, clear).privileged == u.privileged,
        d.bot matches Some(b) ==> (user_updated(u, d, clear).bot == Some(b.owner_id@)),
        d.bot is None ==> user_updated(u, d, clear).bot == u.bot,
        d.relationship matches Some(x) ==> (user_updated(u, d, clear).relationship == x),
        d.relationship is None ==> user_updated(u, d, clear).relationship == u.relationship,
        d.online matches Some(x) ==> (user_updated(u, d, clear).online == x),
        d.online is None ==> user_updated(u, d, clear).online == u.online,
        d.status is None && !clear.contains(FieldsUser::StatusText) ==> user_updated(u, d, clear).status_text == u.status_text,
        d.status is None && !clear.contains(FieldsUser::StatusPresence) ==> user_updated(u, d, clear).status_presence == u.status_presence,
        !clear.contains(FieldsUser::StatusPresence) ==> (d.status matches Some(st) ==> user_updated(u, d, clear).status_presence == Some(st.presence)),
{
}

/// What a server update does to each field: a value it brings is taken, as it
/// is; a field it leaves out keeps its value; a cleared description, icon or
/// banner is emptied.
pub proof fn lemma_server_update_fields(sv: ServerView, d: PartialServer, clear: Seq<FieldsServer>)
    ensures
        server_updated(sv, d, clear).id == sv.id,
        d.owner matches Some(x) ==> (server_updated(sv, d, clear).owner == x@),
        d.owner is None ==> server_updated(sv, d, clear).owner == sv.owner,
        d.name matches Some(x) ==> (server_updated(sv, d, clear).name == x@),
        d.name is None ==> server_updated(sv, d, clear).name == sv.name,
        !clear.contains(FieldsServer::Description) ==> (d.description matches Some(x) ==> server_updated(sv, d, clear).description == Some(x@)),
        d.description is None && !clear.contains(FieldsServer::Description) ==> server_updated(sv, d, clear).description == sv.description,
        clear.contains(FieldsServer::Description) ==> server_updated(sv, d, clear).description is None,
        !clear.contains(FieldsServer::Icon) ==> (d.icon matches Some(x) ==> server_updated(sv, d, clear).icon == Some(x@)),
        d.icon is None && !clear.contains(FieldsServer::Icon) ==> server_updated(sv, d, clear).icon == sv.icon,
        clear.contains(FieldsServer::Icon) ==> server_updated(sv, d, clear).icon is None,
        !clear.contains(FieldsServer::Banner) ==> (d.banner matches Some(x) ==> server_updated(sv, d, clear).banner == Some(x@)),
        d.banner is None && !clear.contains(FieldsServer::Banner) ==> server_updated(sv, d, clear).banner == sv.banner,
        clear.contains(FieldsServer::Banner) ==> server_updated(sv, d, clear).banner is None,
        d.channels matches Some(v) ==> (server_updated(sv, d, clear).channels.len() == v@.len() && forall|j: int| 0 <= j < v@.len() ==> server_updated(sv, d, clear).channels[j] == (#[trigger] v@[j])@),
        d.channels is None ==> server_updated(sv, d, clear).channels == sv.channels,
        d.roles is None ==> server_updated(sv, d, clear).roles == sv.roles,
        d.default_permissions matches Some(x) ==> (server_updated(sv, d, clear).default_permissions == x),
        d.default_permissions is None ==> server_updated(sv, d, clear).default_permissions == sv.default_permissions,
        d.nsfw matches Some(x) ==> (server_updated(sv, d, clear).nsfw == x),
        d.nsfw is None ==> server_updated(sv, d, clear).nsfw == sv.nsfw,
{
}

/// What a message update does to each field: a value it brings is taken, as it
/// is (embeds replace the old ones); a field it leaves out keeps its value; a
/// cleared pin is emptied; the reactions stay.
pub proof fn lemma_message_update_fields(m: MessageView, d: PartialMessage, clear: Seq<FieldsMessage>)
    ensures
        message_updated(m, d, clear).id == m.id && message_updated(m, d, clear).channel == m.channel && message_updated(m, d, clear).author == m.author,
        message_updated(m, d, clear).reactions == m.reactions,
        d.content matches Some(x) ==> (message_updated(m, d, clear).content == Some(x@)),
        d.content is None ==> message_updated(m, d, clear).content == m.content,
        d.embeds matches Some(v) ==> (message_updated(m, d, clear).embeds == Some(v@)),
        d.embeds is None ==> message_updated(m, d, clear).embeds == m.embeds,
        d.edited matches Some(x) ==> (message_updated(m, d, clear).edited == Some(x@)),
        d.edited is None ==> message_updated(m, d, clear).edited == m.edited,
        clear.contains(FieldsMessage::Pinned) ==> message_updated(m, d, clear).pinned is None,
        !clear.contains(FieldsMessage::Pinned) ==> (d.pinned matches Some(x) ==> message_updated(m, d, clear).pinned == Some(x)),
        !clear.contains(FieldsMessage::Pinned) && d.pinned is None ==> message_updated(m, d, clear).pinned == m.pinned,
{
}

/// What a voice state update does to each flag: a value it brings is taken; a
/// flag it leaves out keeps its value.
pub proof fn lemma_voice_state_update_fields(st: UserVoiceState, d: PartialUserVoiceState)
    ensures
        voice_state_updated(st, d).id == st.id,
        d.is_receiving matches Some(x) ==> (voice_state_updated(st, d).is_receiving == x),
        d.is_receiving is None ==> voice_state_updated(st, d).is_receiving == st.is_receiving,
        d.is_publishing matches Some(x) ==> (voice_state_updated(st, d).is_publishing == x),
        d.is_publishing is None ==> voice_state_updated(st, d).is_publishing == st.is_publishing,
        d.screensharing matches Some(x) ==> (voice_state_updated(st, d).screensharing == x),
        d.screensharing is None ==> voice_state_updated(st, d).screensharing == st.screensharing,
        d.camera matches Some(x) ==> (voice_state_updated(st, d).camera == x),
        d.camera is None ==> voice_state_updated(st, d).camera == st.camera,
{
}

} // verus!
