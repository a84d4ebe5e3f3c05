use vstd::prelude::*;

use crate::builders::{EditMemberBuilder, EditMessageBuilder, EditServerBuilder, ReplyIntent, SendMessageBuilder};
use crate::cache::{first_participant, GlobalCache};
use crate::error::Error;
use crate::models::{
    opt_text, texts, Channel, ChannelVoiceState, Member, Message, OverrideField, Server, User, UserVoiceState,
    VoiceInformation,
};
use crate::reactions::{add_reaction, remove_reaction, take_back_reaction};
use crate::text::{concat2, concat3, str_eq};

verus! {

impl Channel {
    /// The user whose saved messages these are.
    pub fn user(&self) -> (r: Option<&String>)
        ensures
            match *self {
                Channel::SavedMessages { user, .. } => r == Some(&user),
                _ => r is None,
            },
    {
        match self {
            Channel::SavedMessages { user, .. } => Some(user),
            _ => None,
        }
    }

    /// Whether a direct message channel is active.
    pub fn active(&self) -> (r: Option<bool>)
        ensures
            match *self {
                Channel::DirectMessage { active, .. } => r == Some(active),
                _ => r is None,
            },
    {
        match self {
            Channel::DirectMessage { active, .. } => Some(*active),
            _ => None,
        }
    }

    /// The recipients of a direct message or group.
    pub fn recipients(&self) -> (r: Option<&Vec<String>>)
        ensures
            match *self {
                Channel::DirectMessage { recipients, .. } => r == Some(&recipients),
                Channel::Group { recipients, .. } => r == Some(&recipients),
                _ => r is None,
            },
    {
        match self {
            Channel::DirectMessage { recipients, .. } => Some(recipients),
            Channel::Group { recipients, .. } => Some(recipients),
            _ => None,
        }
    }

    /// The identifier of the last message sent in the channel.
    pub fn last_message_id(&self) -> (r: Option<&String>)
        ensures
            match *self {
                Channel::DirectMessage { last_message_id, .. } => opt_text(last_message_id) == (match r {
                    Some(s) => Some(s@),
                    None => None,
                }),
                Channel::Group { last_message_id, .. } => opt_text(last_message_id) == (match r {
                    Some(s) => Some(s@),
                    None => None,
                }),
                Channel::TextChannel { last_message_id, .. } => opt_text(last_message_id) == (match r {
                    Some(s) => Some(s@),
                    None => None,
                }),
                _ => r is None,
            },
    {
        match self {
            Channel::DirectMessage { last_message_id, .. } => last_message_id.as_ref(),
            Channel::Group { last_message_id, .. } => last_message_id.as_ref(),
            Channel::TextChannel { last_message_id, .. } => last_message_id.as_ref(),
            _ => None,
        }
    }

    /// The owner of a group.
    pub fn owner(&self) -> (r: Option<&String>)
        ensures
            match *self {
                Channel::Group { owner, .. } => r == Some(&owner),
                _ => r is None,
            },
    {
        match self {
            Channel::Group { owner, .. } => Some(owner),
            _ => None,
        }
    }

    /// The description of a group or server channel.
    pub fn description(&self) -> (r: Option<&String>)
        ensures
            match *self {
                Channel::Group { description, .. } => opt_text(description) == (match r {
                    Some(s) => Some(s@),
                    None => None,
                }),
                Channel::TextChannel { description, .. } => opt_text(description) == (match r {
                    Some(s) => Some(s@),
                    None => None,
                }),
                _ => r is None,
            },
    {
        match self {
            Channel::Group { description, .. } => description.as_ref(),
            Channel::TextChannel { description, .. } => description.as_ref(),
            _ => None,
        }
    }

    /// The permissions of a group.
    pub fn permissions(&self) -> (r: Option<i64>)
        ensures
            match *self {
                Channel::Group { permissions, .. } => r == permissions,
                _ => r is None,
            },
    {
        match self {
            Channel::Group { permissions, .. } => *permissions,
            _ => None,
        }
    }

    /// Whether a group or server channel is marked as not safe for work.
    pub fn nsfw(&self) -> (r: Option<bool>)
        ensures
            match *self {
                Channel::Group { nsfw, .. } => r == Some(nsfw),
                Channel::TextChannel { nsfw, .. } => r == Some(nsfw),
                _ => r is None,
            },
    {
        match self {
            Channel::Group { nsfw, .. } => Some(*nsfw),
            Channel::TextChannel { nsfw, .. } => Some(*nsfw),
            _ => None,
        }
    }

    /// The default permission override of a server channel.
    pub fn default_permissions(&self) -> (r: Option<OverrideField>)
        ensures
            match *self {
                Channel::TextChannel { default_permissions, .. } => r == default_permissions,
                _ => r is None,
            },
    {
        match self {
            Channel::TextChannel { default_permissions, .. } => *default_permissions,
            _ => None,
        }
    }

    /// The role overrides of a server channel.
    pub fn role_permissions(&self) -> (r: Option<&Vec<(String, OverrideField)>>)
        ensures
            match *self {
                Channel::TextChannel { role_permissions, .. } => r == Some(&role_permissions),
                _ => r is None,
            },
    {
        match self {
            Channel::TextChannel { role_permissions, .. } => Some(role_permissions),
            _ => None,
        }
    }

    /// The voice settings of a server channel.
    pub fn voice(&self) -> (r: Option<VoiceInformation>)
        ensures
            match *self {
                Channel::TextChannel { voice, .. } => r == voice,
                _ => r is None,
            },
    {
        match self {
            Channel::TextChannel { voice, .. } => *voice,
            _ => None,
        }
    }

    /// Whether one can talk in the channel: every kind but a server channel
    /// without voice settings.
    pub fn supports_voice(&self) -> (r: bool)
        ensures
            r == match *self {
                Channel::TextChannel { voice, .. } => voice is Some,
                _ => true,
            },
    {
        match self {
            Channel::DirectMessage { .. } => true,
            Channel::Group { .. } => true,
            Channel::SavedMessages { .. } => true,
            Channel::TextChannel { voice, .. } => voice.is_some(),
        }
    }

    /// The server of a server channel.
    pub fn server(&self) -> (r: Option<&String>)
        ensures
            match *self {
                Channel::TextChannel { server, .. } => r == Some(&server),
                _ => r is None,
            },
    {
        match self {
            Channel::TextChannel { server, .. } => Some(server),
            _ => None,
        }
    }

    /// The name of the channel: saved messages are called so, a direct message has none.
    pub fn name(&self) -> (r: Option<String>)
        ensures
            match *self {
                Channel::SavedMessages { .. } => r matches Some(n) && n@ == "Saved Messages"@,
                Channel::DirectMessage { .. } => r is None,
                Channel::Group { name, .. } => r == Some(name),
                Channel::TextChannel { name, .. } => r == Some(name),
            },
    {
        match self {
            Channel::SavedMessages { .. } => Some(String::from_str("Saved Messages")),
            Channel::DirectMessage { .. } => None,
            Channel::Group { name, .. } => Some(name.clone()),
            Channel::TextChannel { name, .. } => Some(name.clone()),
        }
    }

    /// The identifier of the icon of a group or server channel.
    pub fn icon(&self) -> (r: Option<&String>)
        ensures
            match *self {
                Channel::Group { icon, .. } => opt_text(icon) == (match r {
                    Some(s) => Some(s@),
                    None => None,
                }),
                Channel::TextChannel { icon, .. } => opt_text(icon) == (match r {
                    Some(s) => Some(s@),
                    None => None,
                }),
                _ => r is None,
            },
    {
        match self {
            Channel::Group { icon, .. } => icon.as_ref(),
            Channel::TextChannel { icon, .. } => icon.as_ref(),
            _ => None,
        }
    }

    /// A message for this channel.
    pub fn send(&self) -> (r: SendMessageBuilder)
        ensures
            r.channel_id@ == self.id_view(),
            r.data.is_blank(),
    {
        SendMessageBuilder::new(self.id().clone())
    }

    /// The text that mentions the channel in a message.
    pub fn mention(&self) -> (r: String)
        ensures
            r@ == "<#"@ + self.id_view() + ">"@,
    {
        concat3("<#", self.id().as_str(), ">")
    }
}


/// The voice states of the user `user` in the channels `channels`, in order:
/// for each channel with a cached voice state, the user's first state there.
pub open spec fn voice_in_channels(
    channels: Seq<Seq<char>>,
    states: Map<Seq<char>, ChannelVoiceState>,
    user: Seq<char>,
) -> Seq<(Seq<char>, UserVoiceState)>
    decreases channels.len(),
{
    if channels.len() == 0 {
        Seq::empty()
    } else {
        let rest = voice_in_channels(channels.drop_last(), states, user);
        let c = channels.last();
        if states.contains_key(c) && first_participant(states[c].participants@, user) is Some {
            rest.push((c, states[c].participants@[first_participant(states[c].participants@, user)->0]))
        } else {
            rest
        }
    }
}

/// The voice states of the user `user` in the channels of the servers `servers`,
/// server after server.
pub open spec fn voice_in_servers(
    servers: Seq<(String, Server)>,
    states: Map<Seq<char>, ChannelVoiceState>,
    user: Seq<char>,
) -> Seq<(Seq<char>, UserVoiceState)>
    decreases servers.len(),
{
    if servers.len() == 0 {
        Seq::empty()
    } else {
        voice_in_servers(servers.drop_last(), states, user) + voice_in_channels(
            texts(servers.last().1.channels@),
            states,
            user,
        )
    }
}

/// The position of the first of `channels` that is cached and has a cached voice
/// state in which the user `user` takes part.
pub open spec fn first_voice_channel(
    channels: Seq<Seq<char>>,
    states: Map<Seq<char>, ChannelVoiceState>,
    cached: Map<Seq<char>, Channel>,
    user: Seq<char>,
) -> Option<int>
    decreases channels.len(),
{
    if channels.len() == 0 {
        None
    } else if states.contains_key(channels[0]) && first_participant(states[channels[0]].participants@, user) is Some
        && cached.contains_key(channels[0]) {
        Some(0)
    } else {
        match first_voice_channel(channels.drop_first(), states, cached, user) {
            Some(i) => Some(i + 1),
            None => None,
        }
    }
}

/// The plain values of a list of channel and voice state pairs.
pub open spec fn voice_pairs(v: Seq<(String, UserVoiceState)>) -> Seq<(Seq<char>, UserVoiceState)> {
    v.map_values(|e: (String, UserVoiceState)| (e.0@, e.1))
}

fn voice_in_channel_list(cache: &GlobalCache, channels: &Vec<String>, user: &str, out: &mut Vec<(String, UserVoiceState)>)
    ensures
        voice_pairs(final(out)@) == voice_pairs(old(out)@) + voice_in_channels(texts(channels@), cache.voice_states.map(), user@),
{
    let ghost start = voice_pairs(out@);
    let mut i: usize = 0;
    while i < channels.len()
        invariant
            i <= channels@.len(),
            voice_pairs(out@) == start + voice_in_channels(texts(channels@.take(i as int)), cache.voice_states.map(), user@),
        decreases channels@.len() - i,
    {
        let ghost t = texts(channels@.take(i + 1));
        assert(t.drop_last() =~= texts(channels@.take(i as int)));
        assert(t.last() == channels@[i as int]@);
        let ghost before = out@;
        match cache.voice_states.get(channels[i].as_str()) {
            Some(state) => {
                match crate::cache::find_participant(&state.participants, user) {
                    Some(j) => {
                        out.push((channels[i].clone(), state.participants[j].duplicate()));
                        assert(voice_pairs(out@) =~= voice_pairs(before).push((channels@[i as int]@, state.participants@[j as int])));
                    },
                    None => {},
                }
            },
            None => {},
        }
        i = i + 1;
    }
    assert(channels@.take(channels@.len() as int) =~= channels@);
}

impl User {
    /// The text that mentions the user in a message.
    pub fn mention(&self) -> (r: String)
        ensures
            r@ == "<@"@ + self.id@ + ">"@,
    {
        concat3("<@", self.id.as_str(), ">")
    }

    /// The name to show for the user: the display name where there is one, else the username.
    pub fn name(&self) -> (r: &str)
        ensures
            r@ == match self.display_name {
                Some(d) => d@,
                None => self.username@,
            },
    {
        match &self.display_name {
            Some(d) => d.as_str(),
            None => self.username.as_str(),
        }
    }

    /// Where the API serves the user's default avatar, under the API address `base`.
    pub fn default_avatar_url(&self, base: &str) -> (r: String)
        ensures
            r@ == base@ + "/users/"@ + self.id@ + "/default_avatar"@,
    {
        let mut r = concat3(base, "/users/", self.id.as_str());
        r.append("/default_avatar");
        r
    }

    /// The user's voice states in the channels of the cached servers, with the
    /// channel of each.
    pub fn voice(&self, cache: &GlobalCache) -> (r: Vec<(String, UserVoiceState)>)
        ensures
            voice_pairs(r@) == voice_in_servers(cache.servers.entries(), cache.voice_states.map(), self.id@),
    {
        let mut out: Vec<(String, UserVoiceState)> = Vec::new();
        let n = cache.servers.len();
        let mut i: usize = 0;
        while i < n
            invariant
                n == cache.servers.entries().len(),
                i <= n,
                voice_pairs(out@) == voice_in_servers(cache.servers.entries().take(i as int), cache.voice_states.map(), self.id@),
            decreases n - i,
        {
            let (_, server) = cache.servers.entry_at(i);
            let ghost t = cache.servers.entries().take(i + 1);
            assert(t.drop_last() =~= cache.servers.entries().take(i as int));
            assert(t.last() == cache.servers.entries()[i as int]);
            voice_in_channel_list(cache, &server.channels, self.id.as_str(), &mut out);
            i = i + 1;
        }
        assert(cache.servers.entries().take(n as int) =~= cache.servers.entries());
        out
    }
}

impl Member {
    /// An edit of this member that changes nothing yet.
    pub fn edit(&self) -> (r: EditMemberBuilder)
        ensures
            r.server_id == self.id.server,
            r.member_id == self.id.user,
            r.data.nickname is None,
            r.data.avatar is None,
            r.data.roles is None,
            r.data.timeout is None,
            r.data.can_publish is None,
            r.data.can_receive is None,
            r.data.voice_channel is None,
            r.data.remove@.len() == 0,
    {
        EditMemberBuilder::new(self.id.server.clone(), self.id.user.clone())
    }

    /// The text that mentions the member in a message.
    pub fn mention(&self) -> (r: String)
        ensures
            r@ == "<@"@ + self.id.user@ + ">"@,
    {
        concat3("<@", self.id.user.as_str(), ">")
    }

    /// The member's roles followed by `role_ids`: what the member's roles become
    /// when those roles are added.
    pub fn roles_with(&self, role_ids: &Vec<String>) -> (r: Vec<String>)
        ensures
            r@ == self.roles@ + role_ids@,
    {
        let mut r = crate::models::copy_texts(&self.roles);
        let mut more = crate::models::copy_texts(role_ids);
        r.append(&mut more);
        r
    }

    /// The first channel of the member's cached server in which the member is in a
    /// call, with the member's voice state there; the channel must be cached too.
    pub fn voice(&self, cache: &GlobalCache) -> (r: Option<(Channel, UserVoiceState)>)
        ensures
            ({
                let servers = cache.servers.map();
                let sid = self.id.server@;
                if servers.contains_key(sid) {
                    let channels = texts(servers[sid].channels@);
                    let states = cache.voice_states.map();
                    match first_voice_channel(channels, states, cache.channels.map(), self.id.user@) {
                        Some(i) => r matches Some((c, s)) && c@ == cache.channels.map()[channels[i]]@
                            && s == states[channels[i]].participants@[first_participant(states[channels[i]].participants@, self.id.user@)->0],
                        None => r is None,
                    }
                } else {
                    r is None
                }
            }),
    {
        let server = match cache.servers.get(self.id.server.as_str()) {
            Some(s) => s,
            None => {
                return None;
            },
        };
        let ghost channels = texts(server.channels@);
        let ghost states = cache.voice_states.map();
        let ghost cached = cache.channels.map();
        let ghost user = self.id.user@;
        let mut i: usize = 0;
        assert(channels.skip(0) =~= channels);
        while i < server.channels.len()
            invariant
                i <= server.channels@.len(),
                channels == texts(server.channels@),
                first_voice_channel(channels, states, cached, user) == (match first_voice_channel(channels.skip(i as int), states, cached, user) {
                    Some(k) => Some(k + i),
                    None => None,
                }),
                states == cache.voice_states.map(),
                cached == cache.channels.map(),
                user == self.id.user@,
                cache.servers.map().contains_key(self.id.server@),
                *server == cache.servers.map()[self.id.server@],
            decreases server.channels@.len() - i,
        {
            let ghost rest = channels.skip(i as int);
            assert(rest[0] == server.channels@[i as int]@);
            assert(rest.drop_first() =~= channels.skip(i + 1));
            let key = server.channels[i].as_str();
            match cache.voice_states.get(key) {
                Some(state) => match crate::cache::find_participant(&state.participants, self.id.user.as_str()) {
                    Some(j) => match cache.channels.get(key) {
                        Some(channel) => {
                            assert(first_voice_channel(rest, states, cached, user) == Some(0int));
                            assert(first_voice_channel(channels, states, cached, user) == Some(i as int));
                            assert(channels[i as int] == key@);
                            let c = channel.duplicate();
                            let p = state.participants[j].duplicate();
                            assert(c@ == cached[channels[i as int]]@);
                            assert(p == states[channels[i as int]].participants@[first_participant(states[channels[i as int]].participants@, user)->0]);
                            return Some((c, p));
                        },
                        None => {},
                    },
                    None => {},
                },
                None => {},
            }
            i = i + 1;
        }
        assert(channels.skip(i as int).len() == 0);
        assert(first_voice_channel(channels, states, cached, user) is None);
        None
    }
}

/// What to take off a message's reactions.
#[derive(Debug, Clone)]
pub struct OptionsUnreact {
    pub user_id: Option<String>,
    pub remove_all: Option<bool>,
}

impl Message {
    /// A message for this message's channel that replies to it, pinging its
    /// author where `mention` holds.
    pub fn reply(&self, mention: bool) -> (r: SendMessageBuilder)
        ensures
            r.channel_id == self.channel,
            r.data.replies matches Some(v) && v@ == seq![ReplyIntent { id: self.id, mention }],
            r.data.content is None,
            r.data.nonce is None,
            r.data.attachments is None,
            r.data.embeds is None,
            r.data.masquerade is None,
            r.data.interactions is None,
            r.data.flags is None,
    {
        let b = SendMessageBuilder::new(self.channel.clone());
        b.reply(ReplyIntent { id: self.id.clone(), mention })
    }

    /// An edit of this message that changes nothing yet.
    pub fn edit(&self) -> (r: EditMessageBuilder)
        ensures
            r.channel_id == self.channel,
            r.message_id == self.id,
            r.data.content is None,
            r.data.embeds is None,
    {
        EditMessageBuilder::new(self.channel.clone(), self.id.clone())
    }

    /// Where the message can be opened in the web app at `app`.
    pub fn jump_link(&self, app: &str) -> (r: String)
        ensures
            r@ == app@ + "/channel/"@ + self.channel@ + "/"@ + self.id@,
    {
        let mut r = concat3(app, "/channel/", self.channel.as_str());
        r.append("/");
        r.append(self.id.as_str());
        r
    }

    /// Records the client's own reaction with `emoji`, where the client's user is known.
    pub fn react(&mut self, emoji: &str, self_id: Option<&str>)
        ensures
            final(self)@ == (match self_id {
                Some(u) => crate::models::MessageView { reactions: crate::reactions::reacted(old(self)@.reactions, emoji@, u@), ..old(self)@ },
                None => old(self)@,
            }),
    {
        match self_id {
            Some(u) => add_reaction(&mut self.reactions, emoji, u),
            None => {},
        }
    }

    /// Records that the client took back its reaction with `emoji`; the emoji stays
    /// even when no user is left on it.
    pub fn unreact(&mut self, emoji: &str, self_id: Option<&str>)
        ensures
            final(self)@ == (match self_id {
                Some(u) => crate::models::MessageView {
                    reactions: crate::reactions::unreacted(old(self)@.reactions, emoji@, u@, false),
                    ..old(self)@
                },
                None => old(self)@,
            }),
    {
        match self_id {
            Some(u) => take_back_reaction(&mut self.reactions, emoji, u, false),
            None => {},
        }
    }

    /// Records that reactions with `emoji` were taken off: all of them where
    /// `remove_all` is set, else the reaction of the user named in `options`, whose
    /// removal is made twice.
    pub fn remove_reaction(&mut self, emoji: &str, options: &OptionsUnreact)
        ensures
            final(self)@ == (if options.remove_all == Some(true) {
                crate::models::MessageView { reactions: crate::reactions::reaction_removed(old(self)@.reactions, emoji@), ..old(self)@ }
            } else {
                match options.user_id {
                    Some(u) => crate::models::MessageView {
                        reactions: crate::reactions::unreacted(
                            crate::reactions::unreacted(old(self)@.reactions, emoji@, u@, false),
                            emoji@,
                            u@,
                            false,
                        ),
                        ..old(self)@
                    },
                    None => old(self)@,
                }
            }),
    {
        let remove_all = match options.remove_all {
            Some(b) => b,
            None => false,
        };
        if remove_all {
            remove_reaction(&mut self.reactions, emoji);
        } else {
            match &options.user_id {
                Some(u) => {
                    take_back_reaction(&mut self.reactions, emoji, u.as_str(), false);
                    take_back_reaction(&mut self.reactions, emoji, u.as_str(), false);
                },
                None => {},
            }
        }
    }

    /// Records that every reaction was taken off.
    pub fn clear_reactions(&mut self)
        ensures
            final(self)@ == (crate::models::MessageView { reactions: Seq::empty(), ..old(self)@ }),
    {
        self.reactions = Vec::new();
        assert(self@.reactions =~= Seq::empty());
    }

    /// Records that the message was pinned.
    pub fn pin_message(&mut self)
        ensures
            final(self)@ == (crate::models::MessageView { pinned: Some(true), ..old(self)@ }),
    {
        self.pinned = Some(true);
    }

    /// Records that the message was unpinned.
    pub fn unpin_message(&mut self)
        ensures
            final(self)@ == (crate::models::MessageView { pinned: None, ..old(self)@ }),
    {
        self.pinned = None;
    }
}

impl Server {
    /// An edit of this server that changes nothing yet.
    pub fn edit_server(&self) -> (r: EditServerBuilder)
        ensures
            r.server_id == self.id,
            r.data.name is None,
            r.data.description is None,
            r.data.icon is None,
            r.data.banner is None,
            r.data.categories is None,
            r.data.system_messages is None,
            r.data.remove@.len() == 0,
    {
        EditServerBuilder::new(self.id.clone())
    }

    /// Records that `channel` was created in the server.
    pub fn create_channel(&mut self, channel: &Channel)
        ensures
            final(self)@ == (crate::models::ServerView { channels: old(self)@.channels.push(channel.id_view()), ..old(self)@ }),
    {
        let ghost before = self@;
        self.channels.push(channel.id().clone());
        assert(self@ =~= crate::models::ServerView { channels: before.channels.push(channel.id_view()), ..before });
    }

    /// Records that the role `role` was created under `role_id`.
    pub fn create_role(&mut self, role_id: String, role: crate::models::Role)
        ensures
            final(self)@ == (crate::models::ServerView { roles: old(self)@.roles.insert(role_id@, role@), ..old(self)@ }),
    {
        let ghost before = self@;
        let ghost m = self.roles.map();
        self.roles.insert(role_id, role);
        proof {
            crate::models::lemma_roles_view_insert(m, role_id@, role);
        }
        assert(self@ =~= crate::models::ServerView { roles: before.roles.insert(role_id@, role@), ..before });
    }
}

/// What fetching a server answers: the server alone, or with its channels when
/// they were asked for.
#[derive(Debug)]
pub enum FetchServerResponse {
    JustServer(Server),
    ServerWithChannels { server: Server, channels: Vec<Channel> },
}

/// The server of an answer to a fetch that did not ask for channels; an answer
/// of the other shape is an internal error.
pub fn expect_just_server(response: FetchServerResponse) -> (r: Result<Server, Error>)
    ensures
        match response {
            FetchServerResponse::JustServer(s) => r == Ok::<Server, Error>(s),
            _ => r matches Err(Error::InternalError),
        },
{
    match response {
        FetchServerResponse::JustServer(s) => Ok(s),
        _ => Err(Error::InternalError),
    }
}

/// The server and channels of an answer to a fetch that asked for channels; an
/// answer of the other shape is an internal error.
pub fn expect_server_with_channels(response: FetchServerResponse) -> (r: Result<(Server, Vec<Channel>), Error>)
    ensures
        match response {
            FetchServerResponse::ServerWithChannels { server, channels } => r == Ok::<(Server, Vec<Channel>), Error>((server, channels)),
            _ => r matches Err(Error::InternalError),
        },
{
    match response {
        FetchServerResponse::ServerWithChannels { server, channels } => Ok((server, channels)),
        _ => Err(Error::InternalError),
    }
}

} // verus!
