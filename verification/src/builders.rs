use vstd::prelude::*;

use crate::embed::SendableEmbed;
use crate::models::{Presence, VoiceInformation};
use crate::partial::{FieldsChannel, FieldsMember, FieldsRole, FieldsServer, FieldsUser};

verus! {

/// Sets `slot` to `value` where there is one; where there is none, asks for
/// `field` to be removed instead.
fn set_or_remove<T, F>(slot: &mut Option<T>, remove: &mut Vec<F>, value: Option<T>, field: F)
    ensures
        match value {
            Some(_) => *final(slot) == value && *final(remove) == *old(remove),
            None => *final(slot) == *old(slot) && final(remove)@ == old(remove)@.push(field),
        },
{
    match value {
        Some(v) => {
            *slot = Some(v);
        },
        None => {
            remove.push(field);
        },
    }
}

/// A named group of a server's channels.
#[derive(Debug)]
pub struct Category {
    pub id: String,
    pub title: String,
    pub channels: Vec<String>,
}

/// The channels a server posts its system messages in, one for each kind.
#[derive(Debug)]
pub struct SystemMessageChannels {
    pub user_joined: Option<String>,
    pub user_left: Option<String>,
    pub user_kicked: Option<String>,
    pub user_banned: Option<String>,
}

/// What an edit of a server changes.
#[derive(Debug)]
pub struct DataEditServer {
    pub name: Option<String>,
    pub description: Option<String>,
    pub icon: Option<String>,
    pub banner: Option<String>,
    pub categories: Option<Vec<Category>>,
    pub system_messages: Option<SystemMessageChannels>,
    pub remove: Vec<FieldsServer>,
}

/// An edit of a server being put together.
#[derive(Debug)]
pub struct EditServerBuilder {
    pub server_id: String,
    pub data: DataEditServer,
}

impl EditServerBuilder {
    /// An edit of the server `server_id` that changes nothing yet.
    pub fn new(server_id: String) -> (r: EditServerBuilder)
        ensures
            r.server_id == server_id,
            r.data.name is None,
            r.data.description is None,
            r.data.icon is None,
            r.data.banner is None,
            r.data.categories is None,
            r.data.system_messages is None,
            r.data.remove@.len() == 0,
    {
        EditServerBuilder {
            server_id,
            data: DataEditServer {
                name: None,
                description: None,
                icon: None,
                banner: None,
                categories: None,
                system_messages: None,
                remove: Vec::new(),
            },
        }
    }

    /// Sets the name.
    pub fn name(&mut self, name: String)
        ensures
            *final(self) == (EditServerBuilder { data: DataEditServer { name: Some(name), ..old(self).data }, ..*old(self) }),
    {
        self.data.name = Some(name);
    }

    /// Sets the description, or asks for it to be removed.
    pub fn description(&mut self, description: Option<String>)
        ensures
            match description {
                Some(_) => *final(self) == (EditServerBuilder { data: DataEditServer { description, ..old(self).data }, ..*old(self) }),
                None => *final(self) == (EditServerBuilder { data: DataEditServer { remove: final(self).data.remove, ..old(self).data }, ..*old(self) })
                    && final(self).data.remove@ == old(self).data.remove@.push(FieldsServer::Description),
            },
    {
        set_or_remove(&mut self.data.description, &mut self.data.remove, description, FieldsServer::Description);
    }

    /// Sets the icon, or asks for it to be removed.
    pub fn icon(&mut self, icon: Option<String>)
        ensures
            match icon {
                Some(_) => *final(self) == (EditServerBuilder { data: DataEditServer { icon, ..old(self).data }, ..*old(self) }),
                None => *final(self) == (EditServerBuilder { data: DataEditServer { remove: final(self).data.remove, ..old(self).data }, ..*old(self) })
                    && final(self).data.remove@ == old(self).data.remove@.push(FieldsServer::Icon),
            },
    {
        set_or_remove(&mut self.data.icon, &mut self.data.remove, icon, FieldsServer::Icon);
    }

    /// Sets the banner, or asks for it to be removed.
    pub fn banner(&mut self, banner: Option<String>)
        ensures
            match banner {
                Some(_) => *final(self) == (EditServerBuilder { data: DataEditServer { banner, ..old(self).data }, ..*old(self) }),
                None => *final(self) == (EditServerBuilder { data: DataEditServer { remove: final(self).data.remove, ..old(self).data }, ..*old(self) })
                    && final(self).data.remove@ == old(self).data.remove@.push(FieldsServer::Banner),
            },
    {
        set_or_remove(&mut self.data.banner, &mut self.data.remove, banner, FieldsServer::Banner);
    }

    /// Sets the categories, or asks for them to be removed.
    pub fn categories(&mut self, categories: Option<Vec<Category>>)
        ensures
            match categories {
                Some(_) => *final(self) == (EditServerBuilder { data: DataEditServer { categories, ..old(self).data }, ..*old(self) }),
                None => *final(self) == (EditServerBuilder { data: DataEditServer { remove: final(self).data.remove, ..old(self).data }, ..*old(self) })
                    && final(self).data.remove@ == old(self).data.remove@.push(FieldsServer::Categories),
            },
    {
        set_or_remove(&mut self.data.categories, &mut self.data.remove, categories, FieldsServer::Categories);
    }

    /// Sets the system message channels, or asks for them to be removed.
    pub fn system_messages(&mut self, system_messages: Option<SystemMessageChannels>)
        ensures
            match system_messages {
                Some(_) => *final(self) == (EditServerBuilder { data: DataEditServer { system_messages, ..old(self).data }, ..*old(self) }),
                None => *final(self) == (EditServerBuilder { data: DataEditServer { remove: final(self).data.remove, ..old(self).data }, ..*old(self) })
                    && final(self).data.remove@ == old(self).data.remove@.push(FieldsServer::SystemMessages),
            },
    {
        set_or_remove(&mut self.data.system_messages, &mut self.data.remove, system_messages, FieldsServer::SystemMessages);
    }
}

/// What an edit of a member changes.
#[derive(Debug)]
pub struct DataMemberEdit {
    pub nickname: Option<String>,
    pub avatar: Option<String>,
    pub roles: Option<Vec<String>>,
    pub timeout: Option<String>,
    pub can_publish: Option<bool>,
    pub can_receive: Option<bool>,
    pub voice_channel: Option<String>,
    pub remove: Vec<FieldsMember>,
}

/// An edit of a member being put together.
#[derive(Debug)]
pub struct EditMemberBuilder {
    pub server_id: String,
    pub member_id: String,
    pub data: DataMemberEdit,
}

impl EditMemberBuilder {
    /// An edit of the member `member_id` of the server `server_id` that changes nothing yet.
    pub fn new(server_id: String, member_id: String) -> (r: EditMemberBuilder)
        ensures
            r.server_id == server_id,
            r.member_id == member_id,
            r.data.nickname is None,
            r.data.avatar is None,
            r.data.roles is None,
            r.data.timeout is None,
            r.data.can_publish is None,
            r.data.can_receive is None,
            r.data.voice_channel is None,
            r.data.remove@.len() == 0,
    {
        EditMemberBuilder {
            server_id,
            member_id,
            data: DataMemberEdit {
                nickname: None,
                avatar: None,
                roles: None,
                timeout: None,
                can_publish: None,
                can_receive: None,
                voice_channel: None,
                remove: Vec::new(),
            },
        }
    }

    /// Sets the nickname, or asks for it to be removed.
    pub fn nickname(&mut self, nickname: Option<String>)
        ensures
            match nickname {
                Some(_) => *final(self) == (EditMemberBuilder { data: DataMemberEdit { nickname, ..old(self).data }, ..*old(self) }),
                None => *final(self) == (EditMemberBuilder { data: DataMemberEdit { remove: final(self).data.remove, ..old(self).data }, ..*old(self) })
                    && final(self).data.remove@ == old(self).data.remove@.push(FieldsMember::Nickname),
            },
    {
        set_or_remove(&mut self.data.nickname, &mut self.data.remove, nickname, FieldsMember::Nickname);
    }

    /// Sets the avatar, or asks for it to be removed.
    pub fn avatar(&mut self, avatar: Option<String>)
        ensures
            match avatar {
                Some(_) => *final(self) == (EditMemberBuilder { data: DataMemberEdit { avatar, ..old(self).data }, ..*old(self) }),
                None => *final(self) == (EditMemberBuilder { data: DataMemberEdit { remove: final(self).data.remove, ..old(self).data }, ..*old(self) })
                    && final(self).data.remove@ == old(self).data.remove@.push(FieldsMember::Avatar),
            },
    {
        set_or_remove(&mut self.data.avatar, &mut self.data.remove, avatar, FieldsMember::Avatar);
    }

    /// Sets the roles; no roles asks for the roles to be removed.
    pub fn roles(&mut self, roles: Vec<String>)
        ensures
            roles@.len() > 0 ==> *final(self) == (EditMemberBuilder { data: DataMemberEdit { roles: Some(roles), ..old(self).data }, ..*old(self) }),
            roles@.len() == 0 ==> *final(self) == (EditMemberBuilder { data: DataMemberEdit { remove: final(self).data.remove, ..old(self).data }, ..*old(self) })
                && final(self).data.remove@ == old(self).data.remove@.push(FieldsMember::Roles),
    {
        if roles.len() > 0 {
            self.data.roles = Some(roles);
        } else {
            self.data.remove.push(FieldsMember::Roles);
        }
    }

    /// Sets when the time-out ends, or asks for it to be removed.
    pub fn timeout(&mut self, timeout: Option<String>)
        ensures
            match timeout {
                Some(_) => *final(self) == (EditMemberBuilder { data: DataMemberEdit { timeout, ..old(self).data }, ..*old(self) }),
                None => *final(self) == (EditMemberBuilder { data: DataMemberEdit { remove: final(self).data.remove, ..old(self).data }, ..*old(self) })
                    && final(self).data.remove@ == old(self).data.remove@.push(FieldsMember::Timeout),
            },
    {
        set_or_remove(&mut self.data.timeout, &mut self.data.remove, timeout, FieldsMember::Timeout);
    }

    /// Sets whether the member may publish voice, or asks for the setting to be removed.
    pub fn can_publish(&mut self, can_publish: Option<bool>)
        ensures
            match can_publish {
                Some(_) => *final(self) == (EditMemberBuilder { data: DataMemberEdit { can_publish, ..old(self).data }, ..*old(self) }),
                None => *final(self) == (EditMemberBuilder { data: DataMemberEdit { remove: final(self).data.remove, ..old(self).data }, ..*old(self) })
                    && final(self).data.remove@ == old(self).data.remove@.push(FieldsMember::CanPublish),
            },
    {
        set_or_remove(&mut self.data.can_publish, &mut self.data.remove, can_publish, FieldsMember::CanPublish);
    }

    /// Sets whether the member may receive voice, or asks for the setting to be removed.
    pub fn can_receive(&mut self, can_receive: Option<bool>)
        ensures
            match can_receive {
                Some(_) => *final(self) == (EditMemberBuilder { data: DataMemberEdit { can_receive, ..old(self).data }, ..*old(self) }),
                None => *final(self) == (EditMemberBuilder { data: DataMemberEdit { remove: final(self).data.remove, ..old(self).data }, ..*old(self) })
                    && final(self).data.remove@ == old(self).data.remove@.push(FieldsMember::CanReceive),
            },
    {
        set_or_remove(&mut self.data.can_receive, &mut self.data.remove, can_receive, FieldsMember::CanReceive);
    }

    /// Moves the member to the voice channel `voice_channel`.
    pub fn voice_channel(&mut self, voice_channel: String)
        ensures
            *final(self) == (EditMemberBuilder { data: DataMemberEdit { voice_channel: Some(voice_channel), ..old(self).data }, ..*old(self) }),
    {
        self.data.voice_channel = Some(voice_channel);
    }
}

/// What an edit of a channel changes.
#[derive(Debug)]
pub struct DataEditChannel {
    pub name: Option<String>,
    pub description: Option<String>,
    pub owner: Option<String>,
    pub icon: Option<String>,
    pub nsfw: Option<bool>,
    pub voice: Option<VoiceInformation>,
    pub remove: Vec<FieldsChannel>,
}

/// An edit of a channel being put together.
#[derive(Debug)]
pub struct EditChannelBuilder {
    pub channel_id: String,
    pub data: DataEditChannel,
}

impl EditChannelBuilder {
    /// An edit of the channel `channel_id` that changes nothing yet.
    pub fn new(channel_id: String) -> (r: EditChannelBuilder)
        ensures
            r.channel_id == channel_id,
            r.data.name is None,
            r.data.description is None,
            r.data.owner is None,
            r.data.icon is None,
            r.data.nsfw is None,
            r.data.voice is None,
            r.data.remove@.len() == 0,
    {
        EditChannelBuilder {
            channel_id,
            data: DataEditChannel { name: None, description: None, owner: None, icon: None, nsfw: None, voice: None, remove: Vec::new() },
        }
    }

    /// Sets the name.
    pub fn name(self, name: String) -> (r: EditChannelBuilder)
        ensures
            r == (EditChannelBuilder { data: DataEditChannel { name: Some(name), ..self.data }, ..self }),
    {
        let mut b = self;
        b.data.name = Some(name);
        b
    }

    /// Sets the description, or asks for it to be removed.
    pub fn description(self, description: Option<String>) -> (r: EditChannelBuilder)
        ensures
            match description {
                Some(_) => r == (EditChannelBuilder { data: DataEditChannel { description, ..self.data }, ..self }),
                None => r == (EditChannelBuilder { data: DataEditChannel { remove: r.data.remove, ..self.data }, ..self })
                    && r.data.remove@ == self.data.remove@.push(FieldsChannel::Description),
            },
    {
        let mut b = self;
        set_or_remove(&mut b.data.description, &mut b.data.remove, description, FieldsChannel::Description);
        b
    }

    /// Sets the owner.
    pub fn owner(self, owner: String) -> (r: EditChannelBuilder)
        ensures
            r == (EditChannelBuilder { data: DataEditChannel { owner: Some(owner), ..self.data }, ..self }),
    {
        let mut b = self;
        b.data.owner = Some(owner);
        b
    }

    /// Sets the icon, or asks for it to be removed.
    pub fn icon(self, icon: Option<String>) -> (r: EditChannelBuilder)
        ensures
            match icon {
                Some(_) => r == (EditChannelBuilder { data: DataEditChannel { icon, ..self.data }, ..self }),
                None => r == (EditChannelBuilder { data: DataEditChannel { remove: r.data.remove, ..self.data }, ..self })
                    && r.data.remove@ == self.data.remove@.push(FieldsChannel::Icon),
            },
    {
        let mut b = self;
        set_or_remove(&mut b.data.icon, &mut b.data.remove, icon, FieldsChannel::Icon);
        b
    }

    /// Sets whether the channel is not safe for work.
    pub fn nsfw(self, nsfw: bool) -> (r: EditChannelBuilder)
        ensures
            r == (EditChannelBuilder { data: DataEditChannel { nsfw: Some(nsfw), ..self.data }, ..self }),
    {
        let mut b = self;
        b.data.nsfw = Some(nsfw);
        b
    }

    /// Sets the voice settings, or asks for them to be removed.
    pub fn voice(self, voice: Option<VoiceInformation>) -> (r: EditChannelBuilder)
        ensures
            match voice {
                Some(_) => r == (EditChannelBuilder { data: DataEditChannel { voice, ..self.data }, ..self }),
                None => r == (EditChannelBuilder { data: DataEditChannel { remove: r.data.remove, ..self.data }, ..self })
                    && r.data.remove@ == self.data.remove@.push(FieldsChannel::Voice),
            },
    {
        let mut b = self;
        set_or_remove(&mut b.data.voice, &mut b.data.remove, voice, FieldsChannel::Voice);
        b
    }
}

/// What an edit of a role changes.
#[derive(Debug)]
pub struct DataEditRole {
    pub name: Option<String>,
    pub colour: Option<String>,
    pub hoist: Option<bool>,
    pub rank: Option<i64>,
    pub remove: Vec<FieldsRole>,
}

/// An edit of a role being put together.
#[derive(Debug)]
pub struct EditRoleBuilder {
    pub server_id: String,
    pub role_id: String,
    pub data: DataEditRole,
}

impl EditRoleBuilder {
    /// An edit of the role `role_id` of the server `server_id` that changes nothing yet.
    pub fn new(server_id: String, role_id: String) -> (r: EditRoleBuilder)
        ensures
            r.server_id == server_id,
            r.role_id == role_id,
            r.data.name is None,
            r.data.colour is None,
            r.data.hoist is None,
            r.data.rank is None,
            r.data.remove@.len() == 0,
    {
        EditRoleBuilder {
            server_id,
            role_id,
            data: DataEditRole { name: None, colour: None, hoist: None, rank: None, remove: Vec::new() },
        }
    }

    /// Sets the name.
    pub fn name(self, name: String) -> (r: EditRoleBuilder)
        ensures
            r == (EditRoleBuilder { data: DataEditRole { name: Some(name), ..self.data }, ..self }),
    {
        let mut b = self;
        b.data.name = Some(name);
        b
    }

    /// Sets the colour, or asks for it to be removed.
    pub fn colour(self, colour: Option<String>) -> (r: EditRoleBuilder)
        ensures
            match colour {
                Some(_) => r == (EditRoleBuilder { data: DataEditRole { colour, ..self.data }, ..self }),
                None => r == (EditRoleBuilder { data: DataEditRole { remove: r.data.remove, ..self.data }, ..self })
                    && r.data.remove@ == self.data.remove@.push(FieldsRole::Colour),
            },
    {
        let mut b = self;
        set_or_remove(&mut b.data.colour, &mut b.data.remove, colour, FieldsRole::Colour);
        b
    }

    /// Sets whether the role is shown apart.
    pub fn hoist(self, hoist: bool) -> (r: EditRoleBuilder)
        ensures
            r == (EditRoleBuilder { data: DataEditRole { hoist: Some(hoist), ..self.data }, ..self }),
    {
        let mut b = self;
        b.data.hoist = Some(hoist);
        b
    }
}

/// The status part of an edit of a user.
#[derive(Debug)]
pub struct StatusEdit {
    pub text: Option<String>,
    pub presence: Option<Presence>,
}

/// The profile part of an edit of a user.
#[derive(Debug)]
pub struct ProfileEdit {
    pub content: Option<String>,
    pub background: Option<String>,
}

/// What an edit of a user changes.
#[derive(Debug)]
pub struct DataEditUser {
    pub display_name: Option<String>,
    pub avatar: Option<String>,
    pub status: Option<StatusEdit>,
    pub profile: Option<ProfileEdit>,
    pub remove: Vec<FieldsUser>,
}

/// An edit of a user being put together.
#[derive(Debug)]
pub struct EditUserBuilder {
    pub user_id: String,
    pub data: DataEditUser,
}

/// The presence of a status edit, where there is one.
pub open spec fn presence_of(status: Option<StatusEdit>) -> Option<Presence> {
    match status {
        Some(s) => s.presence,
        None => None,
    }
}

/// The text of a status edit, where there is one.
pub open spec fn text_of(status: Option<StatusEdit>) -> Option<String> {
    match status {
        Some(s) => s.text,
        None => None,
    }
}

/// The text of a profile edit, where there is one.
pub open spec fn content_of(profile: Option<ProfileEdit>) -> Option<String> {
    match profile {
        Some(p) => p.content,
        None => None,
    }
}

/// The background of a profile edit, where there is one.
pub open spec fn background_of(profile: Option<ProfileEdit>) -> Option<String> {
    match profile {
        Some(p) => p.background,
        None => None,
    }
}

impl EditUserBuilder {
    /// An edit of the user `user_id` that changes nothing yet.
    pub fn new(user_id: String) -> (r: EditUserBuilder)
        ensures
            r.user_id == user_id,
            r.data.display_name is None,
            r.data.avatar is None,
            r.data.status is None,
            r.data.profile is None,
            r.data.remove@.len() == 0,
    {
        EditUserBuilder {
            user_id,
            data: DataEditUser { display_name: None, avatar: None, status: None, profile: None, remove: Vec::new() },
        }
    }

    /// Sets the display name, or asks for it to be removed.
    pub fn display_name(&mut self, display_name: Option<String>)
        ensures
            match display_name {
                Some(_) => *final(self) == (EditUserBuilder { data: DataEditUser { display_name, ..old(self).data }, ..*old(self) }),
                None => *final(self) == (EditUserBuilder { data: DataEditUser { remove: final(self).data.remove, ..old(self).data }, ..*old(self) })
                    && final(self).data.remove@ == old(self).data.remove@.push(FieldsUser::DisplayName),
            },
    {
        set_or_remove(&mut self.data.display_name, &mut self.data.remove, display_name, FieldsUser::DisplayName);
    }

    /// Sets the avatar, or asks for it to be removed.
    pub fn avatar(&mut self, avatar: Option<String>)
        ensures
            match avatar {
                Some(_) => *final(self) == (EditUserBuilder { data: DataEditUser { avatar, ..old(self).data }, ..*old(self) }),
                None => *final(self) == (EditUserBuilder { data: DataEditUser { remove: final(self).data.remove, ..old(self).data }, ..*old(self) })
                    && final(self).data.remove@ == old(self).data.remove@.push(FieldsUser::Avatar),
            },
    {
        set_or_remove(&mut self.data.avatar, &mut self.data.remove, avatar, FieldsUser::Avatar);
    }

    /// Sets the status text, starting a status edit where there is none, or asks
    /// for the text to be removed.
    pub fn status_text(&mut self, text: Option<String>)
        ensures
            match text {
                Some(_) => *final(self) == (EditUserBuilder { data: DataEditUser {
                    status: Some(StatusEdit { text, presence: presence_of(old(self).data.status) }),
                    ..old(self).data }, ..*old(self) }),
                None => *final(self) == (EditUserBuilder { data: DataEditUser { remove: final(self).data.remove, ..old(self).data }, ..*old(self) })
                    && final(self).data.remove@ == old(self).data.remove@.push(FieldsUser::StatusText),
            },
    {
        match text {
            Some(t) => {
                let presence = match self.data.status.take() {
                    Some(s) => s.presence,
                    None => None,
                };
                self.data.status = Some(StatusEdit { text: Some(t), presence });
            },
            None => {
                self.data.remove.push(FieldsUser::StatusText);
            },
        }
    }

    /// Sets the presence, starting a status edit where there is none, or asks
    /// for the presence to be removed.
    pub fn status_presence(&mut self, presence: Option<Presence>)
        ensures
            match presence {
                Some(_) => *final(self) == (EditUserBuilder { data: DataEditUser {
                    status: Some(StatusEdit { text: text_of(old(self).data.status), presence }),
                    ..old(self).data }, ..*old(self) }),
                None => *final(self) == (EditUserBuilder { data: DataEditUser { remove: final(self).data.remove, ..old(self).data }, ..*old(self) })
                    && final(self).data.remove@ == old(self).data.remove@.push(FieldsUser::StatusPresence),
            },
    {
        match presence {
            Some(p) => {
                let text = match self.data.status.take() {
                    Some(s) => s.text,
                    None => None,
                };
                self.data.status = Some(StatusEdit { text, presence: Some(p) });
            },
            None => {
                self.data.remove.push(FieldsUser::StatusPresence);
            },
        }
    }

    /// Sets the profile text, starting a profile edit where there is none, or asks
    /// for it to be removed.
    pub fn profile_content(&mut self, content: Option<String>)
        ensures
            match content {
                Some(_) => *final(self) == (EditUserBuilder { data: DataEditUser {
                    profile: Some(ProfileEdit { content, background: background_of(old(self).data.profile) }),
                    ..old(self).data }, ..*old(self) }),
                None => *final(self) == (EditUserBuilder { data: DataEditUser { remove: final(self).data.remove, ..old(self).data }, ..*old(self) })
                    && final(self).data.remove@ == old(self).data.remove@.push(FieldsUser::ProfileContent),
            },
    {
        match content {
            Some(c) => {
                let background = match self.data.profile.take() {
                    Some(p) => p.background,
                    None => None,
                };
                self.data.profile = Some(ProfileEdit { content: Some(c), background });
            },
            None => {
                self.data.remove.push(FieldsUser::ProfileContent);
            },
        }
    }

    /// Sets the profile background, starting a profile edit where there is none,
    /// or asks for it to be removed.
    pub fn profile_background(&mut self, background: Option<String>)
        ensures
            match background {
                Some(_) => *final(self) == (EditUserBuilder { data: DataEditUser {
                    profile: Some(ProfileEdit { content: content_of(old(self).data.profile), background }),
                    ..old(self).data }, ..*old(self) }),
                None => *final(self) == (EditUserBuilder { data: DataEditUser { remove: final(self).data.remove, ..old(self).data }, ..*old(self) })
                    && final(self).data.remove@ == old(self).data.remove@.push(FieldsUser::ProfileBackground),
            },
    {
        match background {
            Some(b) => {
                let content = match self.data.profile.take() {
                    Some(p) => p.content,
                    None => None,
                };
                self.data.profile = Some(ProfileEdit { content, background: Some(b) });
            },
            None => {
                self.data.remove.push(FieldsUser::ProfileBackground);
            },
        }
    }
}

/// A reply that a message makes to another.
#[derive(Debug)]
pub struct ReplyIntent {
    pub id: String,
    pub mention: bool,
}

/// Declares `indexmap::IndexSet`, a set that keeps its items in the order they
/// were added, to carry one through.
#[verifier::external_type_specification]
#[verifier::external_body]
#[verifier::reject_recursive_types(T)]
#[verifier::reject_recursive_types(S)]
pub struct ExIndexSet<T, S>(indexmap::IndexSet<T, S>);

/// A name, avatar and colour that a message is shown under in place of its
/// sender's.
#[derive(Debug)]
pub struct Masquerade {
    pub name: Option<String>,
    pub avatar: Option<String>,
    pub colour: Option<String>,
}

/// The reactions offered under a message, and whether only they may be used.
#[derive(Debug)]
pub struct Interactions {
    pub reactions: Option<indexmap::IndexSet<String>>,
    pub restrict_reactions: bool,
}

impl Interactions {
    /// No reactions offered, none restricted.
    pub fn new() -> (r: Interactions)
        ensures
            r.reactions is None,
            !r.restrict_reactions,
    {
        Interactions { reactions: None, restrict_reactions: false }
    }

    /// Offers `reactions`, in their order.
    pub fn reactions(self, reactions: indexmap::IndexSet<String>) -> (r: Interactions)
        ensures
            r.reactions == Some(reactions),
            r.restrict_reactions == self.restrict_reactions,
    {
        Interactions { reactions: Some(reactions), ..self }
    }

    /// Sets whether only the offered reactions may be used.
    pub fn restrict_reactions(self, restrict_reactions: bool) -> (r: Interactions)
        ensures
            r.reactions == self.reactions,
            r.restrict_reactions == restrict_reactions,
    {
        Interactions { restrict_reactions, ..self }
    }
}

/// What a message is sent with.
#[derive(Debug)]
pub struct DataMessageSend {
    pub content: Option<String>,
    pub nonce: Option<String>,
    pub attachments: Option<Vec<String>>,
    pub replies: Option<Vec<ReplyIntent>>,
    pub embeds: Option<Vec<SendableEmbed>>,
    pub masquerade: Option<Masquerade>,
    pub interactions: Option<Interactions>,
    pub flags: Option<u32>,
}

impl DataMessageSend {
    /// Nothing is set yet.
    pub open spec fn is_blank(&self) -> bool {
        &&& self.content is None
        &&& self.nonce is None
        &&& self.attachments is None
        &&& self.replies is None
        &&& self.embeds is None
        &&& self.masquerade is None
        &&& self.interactions is None
        &&& self.flags is None
    }
}

/// A list of `old` with `item` at its end, a missing list counting as empty.
pub open spec fn pushed<T>(old: Option<Vec<T>>, item: T) -> Seq<T> {
    match old {
        Some(v) => v@.push(item),
        None => seq![item],
    }
}

fn push_onto<T>(list: &mut Option<Vec<T>>, item: T)
    ensures
        *final(list) matches Some(v) && v@ == pushed(*old(list), item),
{
    match list.take() {
        Some(mut v) => {
            v.push(item);
            *list = Some(v);
        },
        None => {
            let mut v: Vec<T> = Vec::new();
            v.push(item);
            *list = Some(v);
        },
    }
}

/// A message being put together for the channel `channel_id`.
#[derive(Debug)]
pub struct SendMessageBuilder {
    pub channel_id: String,
    pub data: DataMessageSend,
}

impl SendMessageBuilder {
    /// An empty message for the channel `channel_id`.
    pub fn new(channel_id: String) -> (r: SendMessageBuilder)
        ensures
            r.channel_id == channel_id,
            r.data.content is None,
            r.data.nonce is None,
            r.data.attachments is None,
            r.data.replies is None,
            r.data.embeds is None,
            r.data.masquerade is None,
            r.data.interactions is None,
            r.data.flags is None,
    {
        SendMessageBuilder {
            channel_id,
            data: DataMessageSend {
                content: None,
                nonce: None,
                attachments: None,
                replies: None,
                embeds: None,
                masquerade: None,
                interactions: None,
                flags: None,
            },
        }
    }

    /// Sets the text.
    pub fn content(self, content: String) -> (r: SendMessageBuilder)
        ensures
            r == (SendMessageBuilder { data: DataMessageSend { content: Some(content), ..self.data }, ..self }),
    {
        let mut b = self;
        b.data.content = Some(content);
        b
    }

    /// Sets the nonce.
    pub fn nonce(self, nonce: String) -> (r: SendMessageBuilder)
        ensures
            r == (SendMessageBuilder { data: DataMessageSend { nonce: Some(nonce), ..self.data }, ..self }),
    {
        let mut b = self;
        b.data.nonce = Some(nonce);
        b
    }

    /// Attaches the uploaded file `file_id`, after those attached before.
    pub fn attachment(self, file_id: String) -> (r: SendMessageBuilder)
        ensures
            r.data.attachments matches Some(v) && v@ == pushed(self.data.attachments, file_id),
            r == (SendMessageBuilder { data: DataMessageSend { attachments: r.data.attachments, ..self.data }, ..self }),
    {
        let mut b = self;
        push_onto(&mut b.data.attachments, file_id);
        b
    }

    /// Adds a reply to another message, after those added before.
    pub fn reply(self, reply: ReplyIntent) -> (r: SendMessageBuilder)
        ensures
            r.data.replies matches Some(v) && v@ == pushed(self.data.replies, reply),
            r == (SendMessageBuilder { data: DataMessageSend { replies: r.data.replies, ..self.data }, ..self }),
    {
        let mut b = self;
        push_onto(&mut b.data.replies, reply);
        b
    }

    /// Adds an embed, after those added before.
    pub fn embed(self, embed: SendableEmbed) -> (r: SendMessageBuilder)
        ensures
            r.data.embeds matches Some(v) && v@ == pushed(self.data.embeds, embed),
            r == (SendMessageBuilder { data: DataMessageSend { embeds: r.data.embeds, ..self.data }, ..self }),
    {
        let mut b = self;
        push_onto(&mut b.data.embeds, embed);
        b
    }

    /// Shows the message under `masquerade`.
    pub fn masquerade(self, masquerade: Masquerade) -> (r: SendMessageBuilder)
        ensures
            r == (SendMessageBuilder { data: DataMessageSend { masquerade: Some(masquerade), ..self.data }, ..self }),
    {
        let mut b = self;
        b.data.masquerade = Some(masquerade);
        b
    }

    /// Offers `interactions` under the message.
    pub fn interactions(self, interactions: Interactions) -> (r: SendMessageBuilder)
        ensures
            r == (SendMessageBuilder { data: DataMessageSend { interactions: Some(interactions), ..self.data }, ..self }),
    {
        let mut b = self;
        b.data.interactions = Some(interactions);
        b
    }

    /// Sets the flags.
    pub fn flags(self, flags: u32) -> (r: SendMessageBuilder)
        ensures
            r == (SendMessageBuilder { data: DataMessageSend { flags: Some(flags), ..self.data }, ..self }),
    {
        let mut b = self;
        b.data.flags = Some(flags);
        b
    }
}

/// What an edit of a message changes.
#[derive(Debug)]
pub struct DataEditMessage {
    pub content: Option<String>,
    pub embeds: Option<Vec<SendableEmbed>>,
}

/// An edit of a message being put together.
#[derive(Debug)]
pub struct EditMessageBuilder {
    pub channel_id: String,
    pub message_id: String,
    pub data: DataEditMessage,
}

impl EditMessageBuilder {
    /// An edit of the message `message_id` in the channel `channel_id` that changes nothing yet.
    pub fn new(channel_id: String, message_id: String) -> (r: EditMessageBuilder)
        ensures
            r.channel_id == channel_id,
            r.message_id == message_id,
            r.data.content is None,
            r.data.embeds is None,
    {
        EditMessageBuilder { channel_id, message_id, data: DataEditMessage { content: None, embeds: None } }
    }

    /// Sets the text.
    pub fn content(self, content: String) -> (r: EditMessageBuilder)
        ensures
            r == (EditMessageBuilder { data: DataEditMessage { content: Some(content), ..self.data }, ..self }),
    {
        let mut b = self;
        b.data.content = Some(content);
        b
    }

    /// Adds an embed, after those added before.
    pub fn embed(self, embed: SendableEmbed) -> (r: EditMessageBuilder)
        ensures
            r.data.embeds matches Some(v) && v@ == pushed(self.data.embeds, embed),
            r == (EditMessageBuilder { data: DataEditMessage { embeds: r.data.embeds, ..self.data }, ..self }),
    {
        let mut b = self;
        push_onto(&mut b.data.embeds, embed);
        b
    }
}

/// What a new server channel is made with.
#[derive(Debug)]
pub struct DataCreateServerChannel {
    pub name: String,
    pub description: Option<String>,
    pub nsfw: Option<bool>,
    pub voice: Option<VoiceInformation>,
}

/// A new channel of the server `server_id` being put together.
#[derive(Debug)]
pub struct CreateChannelBuilder {
    pub server_id: String,
    pub data: DataCreateServerChannel,
}

impl CreateChannelBuilder {
    /// A channel named `name` for the server `server_id`, with nothing else set.
    pub fn new(server_id: String, name: String) -> (r: CreateChannelBuilder)
        ensures
            r.server_id == server_id,
            r.data.name == name,
            r.data.description is None,
            r.data.nsfw is None,
            r.data.voice is None,
    {
        CreateChannelBuilder { server_id, data: DataCreateServerChannel { name, description: None, nsfw: None, voice: None } }
    }

    /// Sets the description.
    pub fn description(self, description: String) -> (r: CreateChannelBuilder)
        ensures
            r == (CreateChannelBuilder { data: DataCreateServerChannel { description: Some(description), ..self.data }, ..self }),
    {
        let mut b = self;
        b.data.description = Some(description);
        b
    }

    /// Sets whether the channel is not safe for work.
    pub fn nsfw(self, nsfw: bool) -> (r: CreateChannelBuilder)
        ensures
            r == (CreateChannelBuilder { data: DataCreateServerChannel { nsfw: Some(nsfw), ..self.data }, ..self }),
    {
        let mut b = self;
        b.data.nsfw = Some(nsfw);
        b
    }

    /// Makes it a voice channel with these settings.
    pub fn voice(self, voice: VoiceInformation) -> (r: CreateChannelBuilder)
        ensures
            r == (CreateChannelBuilder { data: DataCreateServerChannel { voice: Some(voice), ..self.data }, ..self }),
    {
        let mut b = self;
        b.data.voice = Some(voice);
        b
    }
}

/// A field of a webhook that an edit can clear.
#[derive(Debug, Clone, Copy, PartialEq, Eq, Structural)]
pub enum FieldsWebhook {
    Avatar,
}

/// What an edit of a webhook changes.
#[derive(Debug)]
pub struct DataEditWebhook {
    pub name: Option<String>,
    pub avatar: Option<String>,
    pub permissions: Option<u64>,
    pub remove: Vec<FieldsWebhook>,
}

/// An edit of a webhook being put together; with a token, the edit is made
/// through the token rather than as the bot.
#[derive(Debug)]
pub struct EditWebhookBuilder {
    pub webhook_id: String,
    pub token: Option<String>,
    pub data: DataEditWebhook,
}

impl EditWebhookBuilder {
    /// An edit of the webhook `webhook_id` that changes nothing yet.
    pub fn new(webhook_id: String, token: Option<String>) -> (r: EditWebhookBuilder)
        ensures
            r.webhook_id == webhook_id,
            r.token == token,
            r.data.name is None,
            r.data.avatar is None,
            r.data.permissions is None,
            r.data.remove@.len() == 0,
    {
        EditWebhookBuilder {
            webhook_id,
            token,
            data: DataEditWebhook { name: None, avatar: None, permissions: None, remove: Vec::new() },
        }
    }

    /// Sets the avatar, or asks for it to be removed.
    pub fn avatar(&mut self, avatar: Option<String>)
        ensures
            match avatar {
                Some(_) => *final(self) == (EditWebhookBuilder { data: DataEditWebhook { avatar, ..old(self).data }, ..*old(self) }),
                None => *final(self) == (EditWebhookBuilder { data: DataEditWebhook { remove: final(self).data.remove, ..old(self).data }, ..*old(self) })
                    && final(self).data.remove@ == old(self).data.remove@.push(FieldsWebhook::Avatar),
            },
    {
        set_or_remove(&mut self.data.avatar, &mut self.data.remove, avatar, FieldsWebhook::Avatar);
    }

    /// Sets the name.
    pub fn name(&mut self, name: String)
        ensures
            *final(self) == (EditWebhookBuilder { data: DataEditWebhook { name: Some(name), ..old(self).data }, ..*old(self) }),
    {
        self.data.name = Some(name);
    }

    /// Sets the permissions.
    pub fn permissions(&mut self, permissions: u64)
        ensures
            *final(self) == (EditWebhookBuilder { data: DataEditWebhook { permissions: Some(permissions), ..old(self).data }, ..*old(self) }),
    {
        self.data.permissions = Some(permissions);
    }
}

/// A message being put together for a webhook to send.
#[derive(Debug)]
pub struct ExecuteWebhookBuilder {
    pub webhook_id: String,
    pub token: String,
    pub data: DataMessageSend,
}

impl ExecuteWebhookBuilder {
    /// An empty message for the webhook `webhook_id` to send with `token`.
    pub fn new(webhook_id: String, token: String) -> (r: ExecuteWebhookBuilder)
        ensures
            r.webhook_id == webhook_id,
            r.token == token,
            r.data.content is None,
            r.data.nonce is None,
            r.data.attachments is None,
            r.data.replies is None,
            r.data.embeds is None,
            r.data.masquerade is None,
            r.data.interactions is None,
            r.data.flags is None,
    {
        ExecuteWebhookBuilder {
            webhook_id,
            token,
            data: DataMessageSend {
                content: None,
                nonce: None,
                attachments: None,
                replies: None,
                embeds: None,
                masquerade: None,
                interactions: None,
                flags: None,
            },
        }
    }

    /// Sets the text.
    pub fn content(&mut self, content: String)
        ensures
            *final(self) == (ExecuteWebhookBuilder { data: DataMessageSend { content: Some(content), ..old(self).data }, ..*old(self) }),
    {
        self.data.content = Some(content);
    }

    /// Sets the nonce.
    pub fn nonce(&mut self, nonce: String)
        ensures
            *final(self) == (ExecuteWebhookBuilder { data: DataMessageSend { nonce: Some(nonce), ..old(self).data }, ..*old(self) }),
    {
        self.data.nonce = Some(nonce);
    }

    /// Attaches the uploaded file `file_id`, after those attached before.
    pub fn attachment(&mut self, file_id: String)
        ensures
            final(self).data.attachments matches Some(v) && v@ == pushed(old(self).data.attachments, file_id),
            *final(self) == (ExecuteWebhookBuilder { data: DataMessageSend { attachments: final(self).data.attachments, ..old(self).data }, ..*old(self) }),
    {
        push_onto(&mut self.data.attachments, file_id);
    }

    /// Makes the message a reply to the message `message_id`, pinging its author
    /// where `mention` holds, after the replies added before.
    pub fn reply(&mut self, message_id: String, mention: bool)
        ensures
            final(self).data.replies matches Some(v)
                && v@ == pushed(old(self).data.replies, ReplyIntent { id: message_id, mention }),
            *final(self) == (ExecuteWebhookBuilder { data: DataMessageSend { replies: final(self).data.replies, ..old(self).data }, ..*old(self) }),
    {
        push_onto(&mut self.data.replies, ReplyIntent { id: message_id, mention });
    }

    /// Adds an embed, after those added before.
    pub fn embed(&mut self, embed: SendableEmbed)
        ensures
            final(self).data.embeds matches Some(v) && v@ == pushed(old(self).data.embeds, embed),
            *final(self) == (ExecuteWebhookBuilder { data: DataMessageSend { embeds: final(self).data.embeds, ..old(self).data }, ..*old(self) }),
    {
        push_onto(&mut self.data.embeds, embed);
    }

    /// Shows the message under `masquerade`.
    pub fn masquerade(&mut self, masquerade: Masquerade)
        ensures
            *final(self) == (ExecuteWebhookBuilder { data: DataMessageSend { masquerade: Some(masquerade), ..old(self).data }, ..*old(self) }),
    {
        self.data.masquerade = Some(masquerade);
    }

    /// Offers `interactions` under the message.
    pub fn interactions(&mut self, interactions: Interactions)
        ensures
            *final(self) == (ExecuteWebhookBuilder { data: DataMessageSend { interactions: Some(interactions), ..old(self).data }, ..*old(self) }),
    {
        self.data.interactions = Some(interactions);
    }

    /// Sets the flags.
    pub fn flags(&mut self, flags: u32)
        ensures
            *final(self) == (ExecuteWebhookBuilder { data: DataMessageSend { flags: Some(flags), ..old(self).data }, ..*old(self) }),
    {
        self.data.flags = Some(flags);
    }
}

} // verus!
