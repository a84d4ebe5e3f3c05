use vstd::prelude::*;

use crate::cache::{
    find_participant, first_message, first_participant, member_tables, only_channels_differ, only_members_differ,
    only_messages_differ, only_servers_differ, only_users_differ, only_voice_states_differ, participant_joined,
    participant_left, voice_view, GlobalCache,
};
use crate::models::{
    copy_embeds, embeds_view, lemma_roles_view_insert, RelationshipStatus, UserView, lemma_roles_view_remove, texts, RoleView, Channel, ChannelView, ChannelVoiceState, Embed, Emoji, Member, MemberCompositeKey, Message,
    MessageView, OverrideField, Role, Server, ServerView, User, UserVoiceState,
};
use crate::partial::{
    channel_updated, member_updated, message_updated, role_updated, server_updated, update_role, update_user, update_voice_state,
    user_updated, voice_state_updated, update_channel, update_member, update_message,
    update_server, FieldsChannel, FieldsMember, FieldsMessage, FieldsRole, FieldsServer,
    FieldsUser, PartialChannel, PartialMember, PartialMessage, PartialRole, PartialServer, PartialUser,
    PartialUserVoiceState,
};
use crate::text::str_eq;
use crate::ranking::{role_views, sort_roles, sorted_by_rank};
use crate::store::KeyedStore;
use crate::reactions::{add_reaction, reacted, reaction_removed, remove_reaction, take_back_reaction, unreacted};

verus! {

/// Why a member left a server.
#[derive(Debug, Clone, Copy, PartialEq, Eq, Structural)]
pub enum RemovalIntention {
    Leave,
    Kick,
    Ban,
}

/// An event that the server sends over the websocket.
#[derive(Debug)]
pub enum Event {
    Bulk { v: Vec<Event> },
    Authenticated,
    Logout,
    Pong,
    Ready {
        users: Vec<User>,
        servers: Vec<Server>,
        channels: Vec<Channel>,
        members: Vec<Member>,
        emojis: Vec<Emoji>,
        voice_states: Vec<ChannelVoiceState>,
    },
    Message(Message),
    MessageUpdate { id: String, channel: String, data: PartialMessage, clear: Vec<FieldsMessage> },
    MessageAppend { id: String, channel: String, embeds: Option<Vec<Embed>> },
    MessageDelete { id: String, channel: String },
    MessageReact { id: String, channel_id: String, user_id: String, emoji_id: String },
    MessageUnreact { id: String, channel_id: String, user_id: String, emoji_id: String },
    MessageRemoveReaction { id: String, channel_id: String, emoji_id: String },
    BulkMessageDelete { channel: String, ids: Vec<String> },
    ChannelCreate(Channel),
    ChannelUpdate { id: String, data: PartialChannel, clear: Vec<FieldsChannel> },
    ChannelDelete { id: String },
    ChannelGroupJoin { id: String, user: String },
    ChannelGroupLeave { id: String, user: String },
    ChannelStartTyping { id: String, user: String },
    ChannelStopTyping { id: String, user: String },
    ChannelAck { id: String, user: String, message_id: String },
    ServerCreate {
        id: String,
        server: Server,
        channels: Vec<Channel>,
        emojis: Vec<Emoji>,
        voice_states: Vec<ChannelVoiceState>,
    },
    ServerUpdate { id: String, data: PartialServer, clear: Vec<FieldsServer> },
    ServerDelete { id: String },
    ServerMemberJoin { id: String, user: String, member: Member },
    ServerMemberUpdate { id: MemberCompositeKey, data: PartialMember, clear: Vec<FieldsMember> },
    ServerMemberLeave { id: String, user: String, reason: RemovalIntention },
    ServerRoleUpdate { id: String, role_id: String, data: PartialRole, clear: Vec<FieldsRole> },
    ServerRoleDelete { id: String, role_id: String },
    ServerRoleRanksUpdate { id: String, ranks: Vec<String> },
    UserUpdate { id: String, data: PartialUser, clear: Vec<FieldsUser> },
    UserVoiceStateUpdate { id: String, channel_id: String, data: PartialUserVoiceState },
    VoiceChannelJoin { id: String, state: UserVoiceState },
    VoiceChannelLeave { id: String, user: String },
    VoiceChannelMove { user: String, from: String, to: String, state: UserVoiceState },
    EmojiCreate(Emoji),
    EmojiDelete { id: String },
}

/// What the client does after the cache has taken in an event: a call of one
/// of the user's event handlers, or the waking of the tasks that wait for a
/// message or for typing.
#[derive(Debug)]
pub enum Dispatch {
    Authenticated,
    Ready,
    MessageWaiters(Message),
    Message(Message),
    MessageUpdate { before: Message, after: Message, data: PartialMessage, clear: Vec<FieldsMessage> },
    MessageDelete(Message),
    MessageAppend { message: Message, embeds: Vec<Embed> },
    UserUpdate { before: User, after: User, data: PartialUser, clear: Vec<FieldsUser> },
    BulkMessageDelete { channel: String, ids: Vec<String>, found: Vec<Message> },
    ChannelCreate(Channel),
    ChannelUpdate { before: Channel, after: Channel, data: PartialChannel, clear: Vec<FieldsChannel> },
    ChannelDelete(Channel),
    ChannelGroupUserJoin { channel: Channel, user: String },
    ChannelGroupUserLeave { channel: Channel, user: String },
    ServerCreate { server: Server, channels: Vec<Channel>, emojis: Vec<Emoji>, voice_states: Vec<ChannelVoiceState> },
    ServerUpdate { before: Server, after: Server, data: PartialServer, clear: Vec<FieldsServer> },
    ServerDelete { server: Server, channels: Vec<Channel>, voice_states: Vec<ChannelVoiceState> },
    ServerMemberJoin(Member),
    ServerMemberLeave { member: Member, reason: RemovalIntention },
    ServerMemberUpdate { before: Member, after: Member, data: PartialMember, clear: Vec<FieldsMember> },
    ServerRoleUpdate { before: Role, after: Role, data: PartialRole, clear: Vec<FieldsRole> },
    ServerRoleDelete(Role),
    ServerRoleRanksUpdate { before: Vec<Role>, after: Vec<Role> },
    TypingWaiters { channel: String, user: String },
    TypingStart { channel: String, user: String },
    TypingStop { channel: String, user: String },
    UserVoiceStateUpdate { before: UserVoiceState, after: UserVoiceState, data: PartialUserVoiceState },
    UserVoiceChannelJoin { channel: String, state: UserVoiceState },
    UserVoiceChannelMove { user: String, from: String, to: String, before: UserVoiceState, after: UserVoiceState },
    /// The handler is given the channel's identifier where its parameter speaks of a user.
    UserVoiceChannelLeave { channel: String, state: UserVoiceState },
}

/// `b` is `a` with the message at position `i` replaced by one whose values are `v`.
pub open spec fn message_replaced(a: Seq<Message>, b: Seq<Message>, i: int, v: MessageView) -> bool {
    &&& b.len() == a.len()
    &&& b[i]@ == v
    &&& forall|j: int| 0 <= j < a.len() && j != i ==> #[trigger] b[j] == a[j]
}

/// The newest cached message with the identifier `id` is changed to `f` of its values;
/// where there is none the cache stays as it was.
pub open spec fn message_changed(a: GlobalCache, b: GlobalCache, id: Seq<char>, f: spec_fn(MessageView) -> MessageView) -> bool {
    &&& only_messages_differ(a, b)
    &&& match first_message(a.messages@, id) {
        Some(i) => message_replaced(a.messages@, b.messages@, i, f(a.messages@[i]@)),
        None => b.messages == a.messages,
    }
}

/// A message after `embeds`, where there are any, are appended to its embeds.
pub open spec fn embeds_appended(m: MessageView, embeds: Option<Vec<Embed>>) -> MessageView {
    match embeds {
        Some(v) => MessageView {
            embeds: Some(
                match m.embeds {
                    Some(e) => e,
                    None => Seq::empty(),
                } + v@,
            ),
            ..m
        },
        None => m,
    }
}

/// The entry for `id` in `b` is `f` of the entry in `a`, where `a` has one;
/// every other entry stays.
pub open spec fn entry_changed<V, W>(a: Map<Seq<char>, V>, b: Map<Seq<char>, V>, id: Seq<char>, view: spec_fn(V) -> W, f: spec_fn(W) -> W) -> bool {
    if a.contains_key(id) {
        &&& b == a.insert(id, b[id])
        &&& view(b[id]) == f(view(a[id]))
    } else {
        b == a
    }
}

/// The texts of `s` other than `x`, in order.
pub open spec fn without_text(s: Seq<Seq<char>>, x: Seq<char>) -> Seq<Seq<char>>
    decreases s.len(),
{
    if s.len() == 0 {
        s
    } else {
        let rest = without_text(s.drop_last(), x);
        if s.last() == x {
            rest
        } else {
            rest.push(s.last())
        }
    }
}

/// A channel after `user` joins it: a group takes the user at the end of its recipients.
pub open spec fn group_joined(c: ChannelView, user: Seq<char>) -> ChannelView {
    match c {
        ChannelView::Group { id, name, owner, description, recipients, icon, last_message_id, permissions, nsfw } => ChannelView::Group {
            id,
            name,
            owner,
            description,
            recipients: recipients.push(user),
            icon,
            last_message_id,
            permissions,
            nsfw,
        },
        _ => c,
    }
}

/// A channel after `user` leaves it: a group drops the user from its recipients.
pub open spec fn group_left(c: ChannelView, user: Seq<char>) -> ChannelView {
    match c {
        ChannelView::Group { id, name, owner, description, recipients, icon, last_message_id, permissions, nsfw } => ChannelView::Group {
            id,
            name,
            owner,
            description,
            recipients: without_text(recipients, user),
            icon,
            last_message_id,
            permissions,
            nsfw,
        },
        _ => c,
    }
}

/// The view of a channel.
pub open spec fn channel_view(c: Channel) -> ChannelView {
    c@
}

/// The view of a server.
pub open spec fn server_view(s: Server) -> ServerView {
    s@
}

/// The strings of `v` other than `x`, in order.
pub fn strings_without(v: &Vec<String>, x: &str) -> (r: Vec<String>)
    ensures
        texts(r@) == without_text(texts(v@), x@),
{
    let mut r: Vec<String> = Vec::new();
    let mut i: usize = 0;
    while i < v.len()
        invariant
            i <= v@.len(),
            texts(r@) == without_text(texts(v@.take(i as int)), x@),
        decreases v@.len() - i,
    {
        let ghost before = r@;
        assert(texts(v@.take(i + 1)).drop_last() =~= texts(v@.take(i as int)));
        assert(texts(v@.take(i + 1)).last() == v@[i as int]@);
        if !str_eq(v[i].as_str(), x) {
            r.push(v[i].clone());
            assert(texts(r@) =~= texts(before).push(v@[i as int]@));
        }
        i = i + 1;
    }
    assert(v@.take(v@.len() as int) =~= v@);
    r
}

/// The entries of `m` for the keys `ids`, taken out one key after another:
/// what is left, and what was taken, in order. A key that is not there, or no
/// longer there, takes nothing.
pub open spec fn taken_out<V>(m: Map<Seq<char>, V>, ids: Seq<Seq<char>>) -> (Map<Seq<char>, V>, Seq<V>)
    decreases ids.len(),
{
    if ids.len() == 0 {
        (m, Seq::empty())
    } else {
        let (rest, got) = taken_out(m, ids.drop_last());
        let k = ids.last();
        if rest.contains_key(k) {
            (rest.remove(k), got.push(rest[k]))
        } else {
            (rest, got)
        }
    }
}

/// The channels of `m` after each channel of `s` is cached in turn.
pub open spec fn channels_added(m: Map<Seq<char>, Channel>, s: Seq<Channel>) -> Map<Seq<char>, Channel>
    decreases s.len(),
{
    if s.len() == 0 {
        m
    } else {
        channels_added(m, s.drop_last()).insert(s.last().id_view(), s.last())
    }
}

/// The role values of `m` after each role named in `ranks` takes its position in
/// `ranks` as its rank, later positions winning.
pub open spec fn ranks_applied(m: Map<Seq<char>, RoleView>, ranks: Seq<Seq<char>>) -> Map<Seq<char>, RoleView>
    decreases ranks.len(),
{
    if ranks.len() == 0 {
        m
    } else {
        let before = ranks_applied(m, ranks.drop_last());
        let k = ranks.last();
        if before.contains_key(k) {
            before.insert(k, RoleView { rank: (ranks.len() - 1) as i64, ..before[k] })
        } else {
            before
        }
    }
}

/// The values of the roles of a table, in the order of its entries.
pub open spec fn entry_roles(s: Seq<(String, Role)>) -> Seq<RoleView> {
    s.map_values(|e: (String, Role)| e.1@)
}

/// Copies of the roles of a table, in the order of its entries.
pub fn role_copies(roles: &KeyedStore<Role>) -> (r: Vec<Role>)
    ensures
        role_views(r@) == entry_roles(roles.entries()),
{
    let n = roles.len();
    let mut r: Vec<Role> = Vec::new();
    let mut i: usize = 0;
    while i < n
        invariant
            n == roles.entries().len(),
            i <= n,
            role_views(r@) == entry_roles(roles.entries().take(i as int)),
        decreases n - i,
    {
        let (_, v) = roles.entry_at(i);
        let ghost before = r@;
        r.push(v.duplicate());
        assert(entry_roles(roles.entries().take(i + 1)) =~= entry_roles(roles.entries().take(i as int)).push(v@));
        assert(role_views(r@) =~= role_views(before).push(v@));
        i = i + 1;
    }
    assert(roles.entries().take(n as int) =~= roles.entries());
    r
}

/// The entries of `m` after each value of `s` is put under its key in turn.
pub open spec fn added<V>(m: Map<Seq<char>, V>, s: Seq<V>, key: spec_fn(V) -> Seq<char>) -> Map<Seq<char>, V>
    decreases s.len(),
{
    if s.len() == 0 {
        m
    } else {
        added(m, s.drop_last(), key).insert(key(s.last()), s.last())
    }
}

/// The member tables after each member of `s` is cached in turn.
pub open spec fn members_added(
    t: Map<Seq<char>, Map<Seq<char>, Member>>,
    s: Seq<Member>,
) -> Map<Seq<char>, Map<Seq<char>, Member>>
    decreases s.len(),
{
    if s.len() == 0 {
        t
    } else {
        let before = members_added(t, s.drop_last());
        let m = s.last();
        before.insert(
            m.id.server@,
            (if before.contains_key(m.id.server@) { before[m.id.server@] } else { Map::empty() }).insert(m.id.user@, m),
        )
    }
}

/// The last user of `s` whose relationship to the client is being the client.
pub open spec fn last_own_user(s: Seq<User>) -> Option<User>
    decreases s.len(),
{
    if s.len() == 0 {
        None
    } else if s.last().relationship == RelationshipStatus::User {
        Some(s.last())
    } else {
        last_own_user(s.drop_last())
    }
}

/// A new message: it joins the cache, the tasks waiting for messages see it, then the handler.
pub open spec fn message_applied(a: GlobalCache, b: GlobalCache, message: Message, out: Seq<Dispatch>) -> bool {
    &&& ({
            let all = seq![message] + a.messages@;
            &&& b.messages@.len() > 0
            &&& b.messages@[0]@ == message@
            &&& b.messages@.drop_first() == (if all.len() > crate::cache::MESSAGE_CACHE_SIZE {
                all.drop_last()
            } else {
                all
            }).drop_first()
        })
    &&& only_messages_differ(a, b)
    &&& out.len() == 2
    &&& out[0] matches Dispatch::MessageWaiters(w) && w@ == message@
    &&& out[1] == Dispatch::Message(message)
}

/// An edit of a cached message: the handler sees it before and after.
pub open spec fn message_update_applied(a: GlobalCache, b: GlobalCache, id: String, data: PartialMessage, clear: Vec<FieldsMessage>, out: Seq<Dispatch>) -> bool {
    &&& message_changed(a, b, id@, |m: MessageView| message_updated(m, data, clear@))
    &&& match first_message(a.messages@, id@) {
            Some(i) => out.len() == 1 && (out[0] matches Dispatch::MessageUpdate { before, after, data: d, clear: c }
                && before@ == a.messages@[i]@ && after@ == b.messages@[i]@ && d == data && c == clear),
            None => out.len() == 0,
        }
}

/// A deleted message leaves the cache; the handler is called if it was cached.
pub open spec fn message_delete_applied(a: GlobalCache, b: GlobalCache, id: String, out: Seq<Dispatch>) -> bool {
    &&& only_messages_differ(a, b)
    &&& match first_message(a.messages@, id@) {
            Some(i) => b.messages@ == a.messages@.remove(i)
                && out == seq![Dispatch::MessageDelete(a.messages@[i])],
            None => b.messages == a.messages && out.len() == 0,
        }
}

/// Embeds appended to a cached message; the handler sees the message and the new embeds.
pub open spec fn message_append_applied(a: GlobalCache, b: GlobalCache, id: String, embeds: Option<Vec<Embed>>, out: Seq<Dispatch>) -> bool {
    &&& message_changed(a, b, id@, |m: MessageView| embeds_appended(m, embeds))
    &&& match first_message(a.messages@, id@) {
            Some(i) => out.len() == 1 && (out[0] matches Dispatch::MessageAppend { message, embeds: e }
                && message@ == b.messages@[i]@
                && e@ == (match embeds { Some(v) => v@, None => Seq::empty() })),
            None => out.len() == 0,
        }
}

/// A user's reaction joins a cached message.
pub open spec fn message_react_applied(a: GlobalCache, b: GlobalCache, id: String, user_id: String, emoji_id: String, out: Seq<Dispatch>) -> bool {
    &&& message_changed(a, b, id@, |m: MessageView| MessageView { reactions: reacted(m.reactions, emoji_id@, user_id@), ..m })
    &&& out.len() == 0
}

/// A user's reaction leaves a cached message; an emoji left with no users goes too.
pub open spec fn message_unreact_applied(a: GlobalCache, b: GlobalCache, id: String, user_id: String, emoji_id: String, out: Seq<Dispatch>) -> bool {
    &&& message_changed(a, b, id@, |m: MessageView| MessageView { reactions: unreacted(m.reactions, emoji_id@, user_id@, true), ..m })
    &&& out.len() == 0
}

/// Every reaction with one emoji leaves a cached message.
pub open spec fn message_remove_reaction_applied(a: GlobalCache, b: GlobalCache, id: String, emoji_id: String, out: Seq<Dispatch>) -> bool {
    &&& message_changed(a, b, id@, |m: MessageView| MessageView { reactions: reaction_removed(m.reactions, emoji_id@), ..m })
    &&& out.len() == 0
}

/// Messages deleted in bulk.
///
/// The scan of the cache runs while its position is below the number of
/// messages taken out so far, so it never starts: the cache keeps every
/// message and the handler is given no messages as found.
pub open spec fn bulk_message_delete_applied(a: GlobalCache, b: GlobalCache, channel: String, ids: Vec<String>, out: Seq<Dispatch>) -> bool {
    &&& b == a
    &&& out.len() == 1
    &&& out[0] matches Dispatch::BulkMessageDelete { channel: c, ids: i, found } && c == channel && i == ids && found@.len() == 0
}

/// A new channel joins the cache; a server channel is added to its cached server's list.
pub open spec fn channel_create_applied(a: GlobalCache, b: GlobalCache, channel: Channel, out: Seq<Dispatch>) -> bool {
    &&& b.users == a.users
    &&& b.members == a.members
    &&& b.messages == a.messages
    &&& b.emojis == a.emojis
    &&& b.voice_states == a.voice_states
    &&& b.current_user_id == a.current_user_id
    &&& b.channels.map().contains_key(channel.id_view())
    &&& b.channels.map()[channel.id_view()]@ == channel@
    &&& b.channels.map() == a.channels.map().insert(channel.id_view(), b.channels.map()[channel.id_view()])
    &&& match channel {
            Channel::TextChannel { id, server, .. } => entry_changed(
                a.servers.map(),
                b.servers.map(),
                server@,
                |s: Server| s@,
                |v: ServerView| ServerView { channels: v.channels.push(id@), ..v },
            ),
            _ => b.servers == a.servers,
        }
    &&& out == seq![Dispatch::ChannelCreate(channel)]
}

/// A deleted channel leaves the cache and its cached server's list; the handler is
/// called if it was cached.
pub open spec fn channel_delete_applied(a: GlobalCache, b: GlobalCache, id: String, out: Seq<Dispatch>) -> bool {
    &&& b.users == a.users
    &&& b.members == a.members
    &&& b.messages == a.messages
    &&& b.emojis == a.emojis
    &&& b.voice_states == a.voice_states
    &&& b.current_user_id == a.current_user_id
    &&& b.channels.map() == a.channels.map().remove(id@)
    &&& a.channels.map().contains_key(id@) ==> ({
            let c = a.channels.map()[id@];
            &&& out == seq![Dispatch::ChannelDelete(c)]
            &&& match c {
                Channel::TextChannel { id: cid, server, .. } => entry_changed(
                    a.servers.map(),
                    b.servers.map(),
                    server@,
                    |s: Server| s@,
                    |v: ServerView| ServerView { channels: without_text(v.channels, cid@), ..v },
                ),
                _ => b.servers == a.servers,
            }
        })
    &&& !a.channels.map().contains_key(id@) ==> out.len() == 0 && b.servers == a.servers
}

/// A user joins a cached group; the handler sees the channel after the change.
pub open spec fn channel_group_join_applied(a: GlobalCache, b: GlobalCache, id: String, user: String, out: Seq<Dispatch>) -> bool {
    &&& only_channels_differ(a, b)
    &&& entry_changed(a.channels.map(), b.channels.map(), id@, |c: Channel| c@, |v: ChannelView| group_joined(v, user@))
    &&& a.channels.map().contains_key(id@) ==> out.len() == 1
            && (out[0] matches Dispatch::ChannelGroupUserJoin { channel, user: u } && channel@ == b.channels.map()[id@]@ && u == user)
    &&& !a.channels.map().contains_key(id@) ==> out.len() == 0
}

/// A user leaves a cached group; the handler sees the channel after the change.
pub open spec fn channel_group_leave_applied(a: GlobalCache, b: GlobalCache, id: String, user: String, out: Seq<Dispatch>) -> bool {
    &&& only_channels_differ(a, b)
    &&& entry_changed(a.channels.map(), b.channels.map(), id@, |c: Channel| c@, |v: ChannelView| group_left(v, user@))
    &&& a.channels.map().contains_key(id@) ==> out.len() == 1
            && (out[0] matches Dispatch::ChannelGroupUserLeave { channel, user: u } && channel@ == b.channels.map()[id@]@ && u == user)
    &&& !a.channels.map().contains_key(id@) ==> out.len() == 0
}

/// An edit of a cached channel: the handler sees it before and after.
pub open spec fn channel_update_applied(a: GlobalCache, b: GlobalCache, id: String, data: PartialChannel, clear: Vec<FieldsChannel>, out: Seq<Dispatch>) -> bool {
    &&& only_channels_differ(a, b)
    &&& entry_changed(a.channels.map(), b.channels.map(), id@, |c: Channel| c@, |v: ChannelView| channel_updated(v, data, clear@))
    &&& a.channels.map().contains_key(id@) ==> out.len() == 1
            && (out[0] matches Dispatch::ChannelUpdate { before, after, data: d, clear: c }
                && before@ == a.channels.map()[id@]@ && after@ == b.channels.map()[id@]@ && d == data && c == clear)
    &&& !a.channels.map().contains_key(id@) ==> out.len() == 0
}

/// A new server joins the cache with its channels; the handler gets the server,
/// its channels, emojis and voice states.
pub open spec fn server_create_applied(a: GlobalCache, b: GlobalCache, server: Server, channels: Vec<Channel>, emojis: Vec<Emoji>, voice_states: Vec<ChannelVoiceState>, out: Seq<Dispatch>) -> bool {
    &&& b.users == a.users
    &&& b.members == a.members
    &&& b.messages == a.messages
    &&& b.emojis == a.emojis
    &&& b.voice_states == a.voice_states
    &&& b.current_user_id == a.current_user_id
    &&& b.servers.map() == a.servers.map().insert(server.id@, server)
    &&& b.channels.map() == channels_added(a.channels.map(), channels@)
    &&& out.len() == 1
    &&& out[0] matches Dispatch::ServerCreate { server: s, channels: c, emojis: e, voice_states: v }
            && s@ == server@ && c@.len() == channels@.len()
            && (forall|i: int| 0 <= i < channels@.len() ==> (#[trigger] c@[i])@ == channels@[i]@)
            && e == emojis && v == voice_states
}

/// A deleted server leaves the cache with its channels and their voice states;
/// the handler is called if it was cached.
pub open spec fn server_delete_applied(a: GlobalCache, b: GlobalCache, id: String, out: Seq<Dispatch>) -> bool {
    &&& b.users == a.users
    &&& b.members == a.members
    &&& b.messages == a.messages
    &&& b.emojis == a.emojis
    &&& b.current_user_id == a.current_user_id
    &&& b.servers.map() == a.servers.map().remove(id@)
    &&& a.servers.map().contains_key(id@) ==> ({
            let server = a.servers.map()[id@];
            let (channels_left, channels_gone) = taken_out(a.channels.map(), texts(server.channels@));
            let (states_left, states_gone) = taken_out(a.voice_states.map(), texts(server.channels@));
            &&& b.channels.map() == channels_left
            &&& b.voice_states.map() == states_left
            &&& out.len() == 1
            &&& out[0] matches Dispatch::ServerDelete { server: s, channels: c, voice_states: v }
                && s == server && c@ == channels_gone && v@ == states_gone
        })
    &&& !a.servers.map().contains_key(id@) ==> out.len() == 0
            && b.channels == a.channels && b.voice_states == a.voice_states
}

/// An edit of a cached server: the handler sees it before and after.
pub open spec fn server_update_applied(a: GlobalCache, b: GlobalCache, id: String, data: PartialServer, clear: Vec<FieldsServer>, out: Seq<Dispatch>) -> bool {
    &&& only_servers_differ(a, b)
    &&& entry_changed(a.servers.map(), b.servers.map(), id@, |s: Server| s@, |v: ServerView| server_updated(v, data, clear@))
    &&& a.servers.map().contains_key(id@) ==> out.len() == 1
            && (out[0] matches Dispatch::ServerUpdate { before, after, data: d, clear: c }
                && before@ == a.servers.map()[id@]@ && after@ == b.servers.map()[id@]@ && d == data && c == clear)
    &&& !a.servers.map().contains_key(id@) ==> out.len() == 0
}

/// A member joins a server: the member is cached and the handler is called.
pub open spec fn server_member_join_applied(a: GlobalCache, b: GlobalCache, member: Member, out: Seq<Dispatch>) -> bool {
    &&& only_members_differ(a, b)
    &&& member_tables(b.members.map()) == member_tables(a.members.map()).insert(
            member.id.server@,
            (if member_tables(a.members.map()).contains_key(member.id.server@) {
                member_tables(a.members.map())[member.id.server@]
            } else {
                Map::empty()
            }).insert(member.id.user@, member),
        )
    &&& out.len() == 1
    &&& out[0] matches Dispatch::ServerMemberJoin(m) && m@ == member@
}

/// A member leaves a server: the member leaves the cache and the handler is called
/// if it was cached.
pub open spec fn server_member_leave_applied(a: GlobalCache, b: GlobalCache, id: String, user: String, reason: RemovalIntention, out: Seq<Dispatch>) -> bool {
    &&& only_members_differ(a, b)
    &&& ({
            let t = member_tables(a.members.map());
            if t.contains_key(id@) {
                &&& member_tables(b.members.map()) == t.insert(id@, t[id@].remove(user@))
                &&& (t[id@].contains_key(user@) ==> out == seq![
                    (Dispatch::ServerMemberLeave { member: t[id@][user@], reason }),
                ])
                &&& (!t[id@].contains_key(user@) ==> out.len() == 0)
            } else {
                &&& member_tables(b.members.map()) == t
                &&& out.len() == 0
            }
        })
}

/// An edit of a cached member: the handler sees it before and after.
pub open spec fn server_member_update_applied(a: GlobalCache, b: GlobalCache, id: MemberCompositeKey, data: PartialMember, clear: Vec<FieldsMember>, out: Seq<Dispatch>) -> bool {
    &&& only_members_differ(a, b)
    &&& ({
            let t = member_tables(a.members.map());
            let f = member_tables(b.members.map());
            if t.contains_key(id.server@) && t[id.server@].contains_key(id.user@) {
                &&& f == t.insert(id.server@, t[id.server@].insert(id.user@, f[id.server@][id.user@]))
                &&& f[id.server@][id.user@]@ == member_updated(t[id.server@][id.user@]@, data, clear@)
                &&& out.len() == 1
                &&& out[0] matches Dispatch::ServerMemberUpdate { before, after, data: d, clear: c }
                    && before@ == t[id.server@][id.user@]@ && after@ == f[id.server@][id.user@]@ && d == data && c == clear
            } else {
                &&& f == t
                &&& out.len() == 0
            }
        })
}

/// An edit of a role of a cached server: the handler sees the role before and after.
pub open spec fn server_role_update_applied(a: GlobalCache, b: GlobalCache, id: String, role_id: String, data: PartialRole, clear: Vec<FieldsRole>, out: Seq<Dispatch>) -> bool {
    &&& only_servers_differ(a, b)
    &&& ({
            let m = a.servers.map();
            let f = b.servers.map();
            if m.contains_key(id@) && m[id@].roles.map().contains_key(role_id@) {
                let before = m[id@]@;
                &&& f == m.insert(id@, f[id@])
                &&& f[id@]@ == (ServerView {
                    roles: before.roles.insert(role_id@, role_updated(before.roles[role_id@], data, clear@)),
                    ..before
                })
                &&& out.len() == 1
                &&& out[0] matches Dispatch::ServerRoleUpdate { before: b, after: a, data: d, clear: c }
                    && b@ == before.roles[role_id@] && a@ == f[id@]@.roles[role_id@] && d == data && c == clear
            } else {
                &&& f == m
                &&& out.len() == 0
            }
        })
}

/// A role of a cached server is deleted: the handler gets the role.
pub open spec fn server_role_delete_applied(a: GlobalCache, b: GlobalCache, id: String, role_id: String, out: Seq<Dispatch>) -> bool {
    &&& only_servers_differ(a, b)
    &&& ({
            let m = a.servers.map();
            let f = b.servers.map();
            if m.contains_key(id@) && m[id@].roles.map().contains_key(role_id@) {
                let before = m[id@]@;
                &&& f == m.insert(id@, f[id@])
                &&& f[id@]@ == (ServerView { roles: before.roles.remove(role_id@), ..before })
                &&& out == seq![Dispatch::ServerRoleDelete(m[id@].roles.map()[role_id@])]
            } else {
                &&& f == m
                &&& out.len() == 0
            }
        })
}

/// New ranks for the roles of a cached server: each role named in `ranks` takes
/// its position there as its rank. The handler gets the roles before and after,
/// each ordered by rising rank.
pub open spec fn server_role_ranks_update_applied(a: GlobalCache, b: GlobalCache, id: String, ranks: Vec<String>, out: Seq<Dispatch>) -> bool {
    &&& only_servers_differ(a, b)
    &&& ({
            let m = a.servers.map();
            let f = b.servers.map();
            if m.contains_key(id@) {
                let before = m[id@];
                &&& f == m.insert(id@, f[id@])
                &&& f[id@]@ == (ServerView { roles: ranks_applied(before@.roles, texts(ranks@)), ..before@ })
                &&& out.len() == 1
                &&& out[0] matches Dispatch::ServerRoleRanksUpdate { before: b, after: a }
                    && role_views(b@) == sorted_by_rank(entry_roles(before.roles.entries()))
                    && role_views(a@) == sorted_by_rank(entry_roles(f[id@].roles.entries()))
            } else {
                &&& f == m
                &&& out.len() == 0
            }
        })
}

/// An edit of a cached user: the handler sees it before and after.
pub open spec fn user_update_applied(a: GlobalCache, b: GlobalCache, id: String, data: PartialUser, clear: Vec<FieldsUser>, out: Seq<Dispatch>) -> bool {
    &&& only_users_differ(a, b)
    &&& entry_changed(a.users.map(), b.users.map(), id@, |u: User| u@, |v: UserView| user_updated(v, data, clear@))
    &&& a.users.map().contains_key(id@) ==> out.len() == 1
            && (out[0] matches Dispatch::UserUpdate { before, after, data: d, clear: c }
                && before@ == a.users.map()[id@]@ && after@ == b.users.map()[id@]@ && d == data && c == clear)
    &&& !a.users.map().contains_key(id@) ==> out.len() == 0
}

/// An edit of a user's voice state in a cached channel: the handler sees it before and after.
pub open spec fn user_voice_state_update_applied(a: GlobalCache, b: GlobalCache, id: String, channel_id: String, data: PartialUserVoiceState, out: Seq<Dispatch>) -> bool {
    &&& only_voice_states_differ(a, b)
    &&& ({
            let m = a.voice_states.map();
            let f = b.voice_states.map();
            if m.contains_key(channel_id@) && first_participant(m[channel_id@].participants@, id@) is Some {
                let i = first_participant(m[channel_id@].participants@, id@)->0;
                let before = m[channel_id@].participants@[i];
                &&& voice_view(f) == voice_view(m).insert(
                    channel_id@,
                    (m[channel_id@].id@, m[channel_id@].participants@.update(i, voice_state_updated(before, data))),
                )
                &&& out == seq![
                    (Dispatch::UserVoiceStateUpdate { before, after: voice_state_updated(before, data), data }),
                ]
            } else {
                &&& f == m
                &&& out.len() == 0
            }
        })
}

/// A user joins a voice channel: the cache records it and the handler is called.
pub open spec fn voice_channel_join_applied(a: GlobalCache, b: GlobalCache, id: String, state: UserVoiceState, out: Seq<Dispatch>) -> bool {
    &&& only_voice_states_differ(a, b)
    &&& voice_view(b.voice_states.map()) == participant_joined(voice_view(a.voice_states.map()), id@, state)
    &&& out == seq![(Dispatch::UserVoiceChannelJoin { channel: id, state })]
}

/// A user leaves a voice channel: the cache records it and the handler is called if
/// the user's state was cached.
pub open spec fn voice_channel_leave_applied(a: GlobalCache, b: GlobalCache, id: String, user: String, out: Seq<Dispatch>) -> bool {
    &&& only_voice_states_differ(a, b)
    &&& voice_view(b.voice_states.map()) == participant_left(voice_view(a.voice_states.map()), id@, user@)
    &&& ({
            let m = a.voice_states.map();
            if m.contains_key(id@) && first_participant(m[id@].participants@, user@) is Some {
                let i = first_participant(m[id@].participants@, user@)->0;
                out == seq![(Dispatch::UserVoiceChannelLeave { channel: id, state: m[id@].participants@[i] })]
            } else {
                out.len() == 0
            }
        })
}

/// A user moves between voice channels: the cache records it, and the handler is
/// called if the user's state in the first channel was cached.
pub open spec fn voice_channel_move_applied(a: GlobalCache, b: GlobalCache, user: String, from: String, to: String, state: UserVoiceState, out: Seq<Dispatch>) -> bool {
    &&& only_voice_states_differ(a, b)
    &&& voice_view(b.voice_states.map()) == participant_joined(
            participant_left(voice_view(a.voice_states.map()), from@, user@),
            to@,
            state,
        )
    &&& ({
            let m = a.voice_states.map();
            if m.contains_key(from@) && first_participant(m[from@].participants@, user@) is Some {
                let i = first_participant(m[from@].participants@, user@)->0;
                out == seq![
                    (Dispatch::UserVoiceChannelMove { user, from, to, before: m[from@].participants@[i], after: state }),
                ]
            } else {
                out.len() == 0
            }
        })
}

/// The first event of a session: everything it holds is cached, and the user
/// that is the client becomes the current user.
pub open spec fn ready_applied(a: GlobalCache, b: GlobalCache, users: Vec<User>, servers: Vec<Server>, channels: Vec<Channel>, members: Vec<Member>, voice_states: Vec<ChannelVoiceState>, out: Seq<Dispatch>) -> bool {
    &&& b.users.map() == added(a.users.map(), users@, |u: User| u.id@)
    &&& b.servers.map() == added(a.servers.map(), servers@, |s: Server| s.id@)
    &&& b.channels.map() == channels_added(a.channels.map(), channels@)
    &&& member_tables(b.members.map()) == members_added(member_tables(a.members.map()), members@)
    &&& b.voice_states.map() == added(a.voice_states.map(), voice_states@, |v: ChannelVoiceState| v.id@)
    &&& b.current_user_id == match last_own_user(users@) {
            Some(u) => Some(u.id),
            None => a.current_user_id,
        }
    &&& b.messages == a.messages
    &&& b.emojis == a.emojis
    &&& out == seq![Dispatch::Ready]
}

/// A user starts typing: the tasks waiting for typing see it, then the handler.
pub open spec fn typing_start_applied(a: GlobalCache, b: GlobalCache, id: String, user: String, out: Seq<Dispatch>) -> bool {
    &&& b == a
    &&& out.len() == 2
    &&& out[0] matches Dispatch::TypingWaiters { channel, user: u } && channel == id && u == user
    &&& out[1] == (Dispatch::TypingStart { channel: id, user })
}

/// A user stops typing: the handler is called.
pub open spec fn typing_stop_applied(a: GlobalCache, b: GlobalCache, id: String, user: String, out: Seq<Dispatch>) -> bool {
    &&& b == a
    &&& out == seq![(Dispatch::TypingStop { channel: id, user })]
}

/// What taking in `e` does to the cache `a`, giving the cache `b`, and what the
/// client does after it, `out`.
pub open spec fn applied(a: GlobalCache, e: Event, b: GlobalCache, out: Seq<Dispatch>) -> bool
    decreases e,
{
    match e {
        Event::Bulk { v } => applied_all(a, v@, b, out),
        Event::Authenticated => b == a && out == seq![Dispatch::Authenticated],
        Event::Logout => b == a && out.len() == 0,
        Event::Pong => b == a && out.len() == 0,
        Event::Ready { users, servers, channels, members, emojis: _, voice_states } => ready_applied(
            a,
            b,
            users,
            servers,
            channels,
            members,
            voice_states,
            out,
        ),
        Event::Message(m) => message_applied(a, b, m, out),
        Event::MessageUpdate { id, channel: _, data, clear } => message_update_applied(a, b, id, data, clear, out),
        Event::MessageAppend { id, channel: _, embeds } => message_append_applied(a, b, id, embeds, out),
        Event::MessageDelete { id, channel: _ } => message_delete_applied(a, b, id, out),
        Event::MessageReact { id, channel_id: _, user_id, emoji_id } => message_react_applied(a, b, id, user_id, emoji_id, out),
        Event::MessageUnreact { id, channel_id: _, user_id, emoji_id } => message_unreact_applied(a, b, id, user_id, emoji_id, out),
        Event::MessageRemoveReaction { id, channel_id: _, emoji_id } => message_remove_reaction_applied(a, b, id, emoji_id, out),
        Event::BulkMessageDelete { channel, ids } => bulk_message_delete_applied(a, b, channel, ids, out),
        Event::ChannelCreate(c) => channel_create_applied(a, b, c, out),
        Event::ChannelUpdate { id, data, clear } => channel_update_applied(a, b, id, data, clear, out),
        Event::ChannelDelete { id } => channel_delete_applied(a, b, id, out),
        Event::ChannelGroupJoin { id, user } => channel_group_join_applied(a, b, id, user, out),
        Event::ChannelGroupLeave { id, user } => channel_group_leave_applied(a, b, id, user, out),
        Event::ChannelStartTyping { id, user } => typing_start_applied(a, b, id, user, out),
        Event::ChannelStopTyping { id, user } => typing_stop_applied(a, b, id, user, out),
        Event::ChannelAck { .. } => b == a && out.len() == 0,
        Event::ServerCreate { id: _, server, channels, emojis, voice_states } => server_create_applied(
            a,
            b,
            server,
            channels,
            emojis,
            voice_states,
            out,
        ),
        Event::ServerUpdate { id, data, clear } => server_update_applied(a, b, id, data, clear, out),
        Event::ServerDelete { id } => server_delete_applied(a, b, id, out),
        Event::ServerMemberJoin { id: _, user: _, member } => server_member_join_applied(a, b, member, out),
        Event::ServerMemberUpdate { id, data, clear } => server_member_update_applied(a, b, id, data, clear, out),
        Event::ServerMemberLeave { id, user, reason } => server_member_leave_applied(a, b, id, user, reason, out),
        Event::ServerRoleUpdate { id, role_id, data, clear } => server_role_update_applied(a, b, id, role_id, data, clear, out),
        Event::ServerRoleDelete { id, role_id } => server_role_delete_applied(a, b, id, role_id, out),
        Event::ServerRoleRanksUpdate { id, ranks } => server_role_ranks_update_applied(a, b, id, ranks, out),
        Event::UserUpdate { id, data, clear } => user_update_applied(a, b, id, data, clear, out),
        Event::UserVoiceStateUpdate { id, channel_id, data } => user_voice_state_update_applied(a, b, id, channel_id, data, out),
        Event::VoiceChannelJoin { id, state } => voice_channel_join_applied(a, b, id, state, out),
        Event::VoiceChannelLeave { id, user } => voice_channel_leave_applied(a, b, id, user, out),
        Event::VoiceChannelMove { user, from, to, state } => voice_channel_move_applied(a, b, user, from, to, state, out),
        Event::EmojiCreate(_) => b == a && out.len() == 0,
        Event::EmojiDelete { .. } => b == a && out.len() == 0,
    }
}

/// A run cut before its last event: the cache `mid` there, the first `k`
/// actions, which the earlier events gave, and the rest, which the last gave.
pub open spec fn cut_run(mid: GlobalCache, out: Seq<Dispatch>, k: int) -> (GlobalCache, Seq<Dispatch>, Seq<Dispatch>) {
    (mid, out.take(k), out.skip(k))
}

/// What taking in the events `es` one after another does to the cache `a`,
/// giving the cache `b`, and what the client does after each, in order, `out`.
pub open spec fn applied_all(a: GlobalCache, es: Seq<Event>, b: GlobalCache, out: Seq<Dispatch>) -> bool
    decreases es,
{
    if es.len() == 0 {
        b == a && out.len() == 0
    } else {
        exists|mid: GlobalCache, k: int|
            #![trigger cut_run(mid, out, k)]
            0 <= k <= out.len() && applied_all(a, es.drop_last(), cut_run(mid, out, k).0, cut_run(mid, out, k).1) && applied(
                cut_run(mid, out, k).0,
                es[es.len() - 1],
                b,
                cut_run(mid, out, k).2,
            )
    }
}

proof fn lemma_applied_all_step(a: GlobalCache, es: Seq<Event>, mid: GlobalCache, b: GlobalCache, out: Seq<Dispatch>, k: int)
    requires
        es.len() > 0,
        0 <= k <= out.len(),
        applied_all(a, es.drop_last(), mid, out.take(k)),
        applied(mid, es[es.len() - 1], b, out.skip(k)),
    ensures
        applied_all(a, es, b, out),
{
    assert(cut_run(mid, out, k) == (mid, out.take(k), out.skip(k)));
}

/// A batch that holds one event does what that event does.
pub proof fn lemma_bulk_of_one(a: GlobalCache, e: Event, b: GlobalCache, out: Seq<Dispatch>)
    ensures
        applied_all(a, seq![e], b, out) <==> applied(a, e, b, out),
{
    let es = seq![e];
    assert(es.drop_last() =~= Seq::<Event>::empty());
    assert(es[es.len() - 1] == e);
    if applied(a, e, b, out) {
        assert(out.take(0) =~= Seq::<Dispatch>::empty());
        assert(out.skip(0) =~= out);
        assert(applied_all(a, es.drop_last(), a, out.take(0)));
        lemma_applied_all_step(a, es, a, b, out, 0);
    }
    if applied_all(a, es, b, out) {
        let (mid, k) = choose|mid: GlobalCache, k: int|
            #![trigger cut_run(mid, out, k)]
            0 <= k <= out.len() && applied_all(a, es.drop_last(), cut_run(mid, out, k).0, cut_run(mid, out, k).1)
                && applied(cut_run(mid, out, k).0, es[es.len() - 1], b, cut_run(mid, out, k).2);
        assert(0 <= k <= out.len());
        assert(applied_all(a, es.drop_last(), mid, out.take(k)));
        assert(out.take(k).len() == 0);
        assert(out.skip(k) =~= out);
    }
}

/// The events that the client takes in without any change to its cache or any
/// action: a logout, a heartbeat's answer, a read marker and the emoji events.
pub proof fn lemma_ignored_events(a: GlobalCache, e: Event, b: GlobalCache, out: Seq<Dispatch>)
    requires
        e is Logout || e is Pong || e is ChannelAck || e is EmojiCreate || e is EmojiDelete,
        applied(a, e, b, out),
    ensures
        b == a,
        out.len() == 0,
{
}

impl GlobalCache {
    fn change_message_at(&mut self, i: usize, m: Message)
        requires
            i < old(self).messages@.len(),
        ensures
            final(self).messages@ == old(self).messages@.update(i as int, m),
            only_messages_differ(*old(self), *final(self)),
    {
        let ghost s = self.messages@;
        self.messages.remove(i);
        self.messages.insert(i, m);
        assert(self.messages@ =~= s.update(i as int, m));
    }

    /// A new message: it joins the cache, the tasks waiting for messages see it, then the handler.
    pub fn on_message(&mut self, message: Message) -> (out: Vec<Dispatch>)
        ensures
            message_applied(*old(self), *final(self), message, out@),
    {
        let ghost all = seq![message] + self.messages@;
        let copy = message.duplicate();
        let waiting = message.duplicate();
        let ghost s = self.messages@;
        self.insert_message(copy);
        proof {
            let all2 = seq![copy] + s;
            assert(all2.drop_first() =~= all.drop_first());
            if all2.len() > crate::cache::MESSAGE_CACHE_SIZE {
                assert(all2.drop_last().drop_first() =~= all.drop_last().drop_first());
            }
        }
        let mut out: Vec<Dispatch> = Vec::new();
        out.push(Dispatch::MessageWaiters(waiting));
        out.push(Dispatch::Message(message));
        out
    }

    /// An edit of a cached message: the handler sees it before and after.
    pub fn on_message_update(&mut self, id: String, data: PartialMessage, clear: Vec<FieldsMessage>) -> (out: Vec<Dispatch>)
        ensures
            message_update_applied(*old(self), *final(self), id, data, clear, out@),
    {
        let mut out: Vec<Dispatch> = Vec::new();
        match self.find_message(id.as_str()) {
            Some(i) => {
                let before = self.messages[i].duplicate();
                let mut m = self.messages[i].duplicate();
                update_message(&mut m, &data, &clear);
                let after = m.duplicate();
                self.change_message_at(i, m);
                out.push(Dispatch::MessageUpdate { before, after, data, clear });
            },
            None => {},
        }
        out
    }

    /// A deleted message leaves the cache; the handler is called if it was cached.
    pub fn on_message_delete(&mut self, id: String) -> (out: Vec<Dispatch>)
        ensures
            message_delete_applied(*old(self), *final(self), id, out@),
    {
        let mut out: Vec<Dispatch> = Vec::new();
        match self.find_message(id.as_str()) {
            Some(i) => {
                let m = self.messages.remove(i);
                out.push(Dispatch::MessageDelete(m));
            },
            None => {},
        }
        out
    }

    /// Embeds appended to a cached message; the handler sees the message and the new embeds.
    pub fn on_message_append(&mut self, id: String, embeds: Option<Vec<Embed>>) -> (out: Vec<Dispatch>)
        ensures
            message_append_applied(*old(self), *final(self), id, embeds, out@),
    {
        let mut out: Vec<Dispatch> = Vec::new();
        match self.find_message(id.as_str()) {
            Some(i) => {
                let mut m = self.messages[i].duplicate();
                let ghost before = m@;
                let added = match embeds {
                    Some(list) => {
                        let mut all = match &m.embeds {
                            Some(current) => copy_embeds(current),
                            None => Vec::new(),
                        };
                        let mut more = copy_embeds(&list);
                        all.append(&mut more);
                        m.embeds = Some(all);
                        list
                    },
                    None => Vec::new(),
                };
                assert(m@ =~= embeds_appended(before, embeds));
                let message = m.duplicate();
                self.change_message_at(i, m);
                out.push(Dispatch::MessageAppend { message, embeds: added });
            },
            None => {},
        }
        out
    }

    /// A user's reaction joins a cached message.
    pub fn on_message_react(&mut self, id: String, user_id: String, emoji_id: String) -> (out: Vec<Dispatch>)
        ensures
            message_react_applied(*old(self), *final(self), id, user_id, emoji_id, out@),
    {
        match self.find_message(id.as_str()) {
            Some(i) => {
                let mut m = self.messages[i].duplicate();
                add_reaction(&mut m.reactions, emoji_id.as_str(), user_id.as_str());
                self.change_message_at(i, m);
            },
            None => {},
        }
        Vec::new()
    }

    /// A user's reaction leaves a cached message; an emoji left with no users goes too.
    pub fn on_message_unreact(&mut self, id: String, user_id: String, emoji_id: String) -> (out: Vec<Dispatch>)
        ensures
            message_unreact_applied(*old(self), *final(self), id, user_id, emoji_id, out@),
    {
        match self.find_message(id.as_str()) {
            Some(i) => {
                let mut m = self.messages[i].duplicate();
                take_back_reaction(&mut m.reactions, emoji_id.as_str(), user_id.as_str(), true);
                self.change_message_at(i, m);
            },
            None => {},
        }
        Vec::new()
    }

    /// Every reaction with one emoji leaves a cached message.
    pub fn on_message_remove_reaction(&mut self, id: String, emoji_id: String) -> (out: Vec<Dispatch>)
        ensures
            message_remove_reaction_applied(*old(self), *final(self), id, emoji_id, out@),
    {
        match self.find_message(id.as_str()) {
            Some(i) => {
                let mut m = self.messages[i].duplicate();
                remove_reaction(&mut m.reactions, emoji_id.as_str());
                self.change_message_at(i, m);
            },
            None => {},
        }
        Vec::new()
    }

    /// Messages deleted in bulk.
    ///
    /// The scan of the cache runs while its position is below the number of
    /// messages taken out so far, so it never starts: the cache keeps every
    /// message and the handler is given no messages as found.
    pub fn on_bulk_message_delete(&mut self, channel: String, ids: Vec<String>) -> (out: Vec<Dispatch>)
        ensures
            bulk_message_delete_applied(*old(self), *final(self), channel, ids, out@),
    {
        let found = self.remove_messages(ids.as_slice());
        let mut out: Vec<Dispatch> = Vec::new();
        out.push(Dispatch::BulkMessageDelete { channel, ids, found });
        out
    }

    /// A new channel joins the cache; a server channel is added to its cached server's list.
    pub fn on_channel_create(&mut self, channel: Channel) -> (out: Vec<Dispatch>)
        ensures
            channel_create_applied(*old(self), *final(self), channel, out@),
    {
        if let Channel::TextChannel { id, server, .. } = &channel {
            let ghost m = self.servers.map();
            match self.servers.take_entry(server.as_str()) {
                Some((pos, key, mut s)) => {
                    let ghost before = s@;
                    s.channels.push(id.clone());
                    assert(s@ =~= ServerView { channels: before.channels.push(id@), ..before });
                    self.servers.put_entry(pos, key, s);
                    assert(self.servers.map() =~= m.insert(server@, self.servers.map()[server@]));
                },
                None => {
                    assert(self.servers.map() =~= m);
                },
            }
        }
        let copy = channel.duplicate();
        let key = channel.id().clone();
        self.channels.insert(key, copy);
        let mut out: Vec<Dispatch> = Vec::new();
        out.push(Dispatch::ChannelCreate(channel));
        out
    }

    /// A deleted channel leaves the cache and its cached server's list; the handler is
    /// called if it was cached.
    pub fn on_channel_delete(&mut self, id: String) -> (out: Vec<Dispatch>)
        ensures
            channel_delete_applied(*old(self), *final(self), id, out@),
    {
        let mut out: Vec<Dispatch> = Vec::new();
        match self.channels.remove(id.as_str()) {
            Some(channel) => {
                if let Channel::TextChannel { id: cid, server, .. } = &channel {
                    let ghost m = self.servers.map();
                    match self.servers.take_entry(server.as_str()) {
                        Some((pos, key, mut s)) => {
                            let ghost before = s@;
                            s.channels = strings_without(&s.channels, cid.as_str());
                            assert(s@ =~= ServerView { channels: without_text(before.channels, cid@), ..before });
                            self.servers.put_entry(pos, key, s);
                            assert(self.servers.map() =~= m.insert(server@, self.servers.map()[server@]));
                        },
                        None => {
                            assert(self.servers.map() =~= m);
                        },
                    }
                }
                out.push(Dispatch::ChannelDelete(channel));
            },
            None => {},
        }
        out
    }

    /// A user joins a cached group; the handler sees the channel after the change.
    pub fn on_channel_group_join(&mut self, id: String, user: String) -> (out: Vec<Dispatch>)
        ensures
            channel_group_join_applied(*old(self), *final(self), id, user, out@),
    {
        let mut out: Vec<Dispatch> = Vec::new();
        let ghost m = self.channels.map();
        match self.channels.take_entry(id.as_str()) {
            Some((pos, key, mut c)) => {
                let ghost before = c@;
                if let Channel::Group { recipients, .. } = &mut c {
                    recipients.push(user.clone());
                }
                assert(c@ =~= group_joined(before, user@));
                let channel = c.duplicate();
                self.channels.put_entry(pos, key, c);
                assert(self.channels.map() =~= m.insert(id@, self.channels.map()[id@]));
                out.push(Dispatch::ChannelGroupUserJoin { channel, user });
            },
            None => {
                assert(self.channels.map() =~= m);
            },
        }
        out
    }

    /// A user leaves a cached group; the handler sees the channel after the change.
    pub fn on_channel_group_leave(&mut self, id: String, user: String) -> (out: Vec<Dispatch>)
        ensures
            channel_group_leave_applied(*old(self), *final(self), id, user, out@),
    {
        let mut out: Vec<Dispatch> = Vec::new();
        let ghost m = self.channels.map();
        match self.channels.take_entry(id.as_str()) {
            Some((pos, key, mut c)) => {
                let ghost before = c@;
                if let Channel::Group { recipients, .. } = &mut c {
                    *recipients = strings_without(recipients, user.as_str());
                }
                assert(c@ =~= group_left(before, user@));
                let channel = c.duplicate();
                self.channels.put_entry(pos, key, c);
                assert(self.channels.map() =~= m.insert(id@, self.channels.map()[id@]));
                out.push(Dispatch::ChannelGroupUserLeave { channel, user });
            },
            None => {
                assert(self.channels.map() =~= m);
            },
        }
        out
    }

    /// An edit of a cached channel: the handler sees it before and after.
    pub fn on_channel_update(&mut self, id: String, data: PartialChannel, clear: Vec<FieldsChannel>) -> (out: Vec<Dispatch>)
        ensures
            channel_update_applied(*old(self), *final(self), id, data, clear, out@),
    {
        let mut out: Vec<Dispatch> = Vec::new();
        let ghost m = self.channels.map();
        match self.channels.take_entry(id.as_str()) {
            Some((pos, key, mut c)) => {
                let before = c.duplicate();
                update_channel(&mut c, &data, &clear);
                let after = c.duplicate();
                self.channels.put_entry(pos, key, c);
                assert(self.channels.map() =~= m.insert(id@, self.channels.map()[id@]));
                out.push(Dispatch::ChannelUpdate { before, after, data, clear });
            },
            None => {
                assert(self.channels.map() =~= m);
            },
        }
        out
    }

    /// A new server joins the cache with its channels; the handler gets the server,
    /// its channels, emojis and voice states.
    pub fn on_server_create(
        &mut self,
        server: Server,
        channels: Vec<Channel>,
        emojis: Vec<Emoji>,
        voice_states: Vec<ChannelVoiceState>,
    ) -> (out: Vec<Dispatch>)
        ensures
            server_create_applied(*old(self), *final(self), server, channels, emojis, voice_states, out@),
    {
        let copy = server.duplicate();
        let key = server.id.clone();
        let ghost sv = server;
        self.servers.insert(key, server);
        let mut copies: Vec<Channel> = Vec::new();
        let mut i: usize = 0;
        let ghost m = self.channels.map();
        let ghost all = channels@;
        let total: usize = channels.len();
        let mut rest = channels;
        while rest.len() > 0
            invariant
                i <= total,
                total == all.len(),
                rest@ == all.skip(i as int),
                self.channels.map() == channels_added(m, all.take(i as int)),
                copies@.len() == i,
                forall|j: int| 0 <= j < i ==> (#[trigger] copies@[j])@ == all[j]@,
                self.users == old(self).users,
                self.members == old(self).members,
                self.messages == old(self).messages,
                self.emojis == old(self).emojis,
                self.voice_states == old(self).voice_states,
                self.current_user_id == old(self).current_user_id,
                self.servers.map() == old(self).servers.map().insert(sv.id@, sv),
            decreases rest@.len(),
        {
            assert(all.take(i + 1).drop_last() =~= all.take(i as int));
            let stored = rest.remove(0);
            assert(stored == all[i as int]);
            assert(rest@ =~= all.skip(i + 1));
            copies.push(stored.duplicate());
            let k = stored.id().clone();
            self.channels.insert(k, stored);
            i = i + 1;
        }
        assert(all.take(i as int) =~= all);
        let channels = copies;
        let mut out: Vec<Dispatch> = Vec::new();
        out.push(Dispatch::ServerCreate { server: copy, channels, emojis, voice_states });
        out
    }

    /// A deleted server leaves the cache with its channels and their voice states;
    /// the handler is called if it was cached.
    pub fn on_server_delete(&mut self, id: String) -> (out: Vec<Dispatch>)
        ensures
            server_delete_applied(*old(self), *final(self), id, out@),
    {
        let mut out: Vec<Dispatch> = Vec::new();
        match self.servers.remove(id.as_str()) {
            Some(server) => {
                let mut channels: Vec<Channel> = Vec::new();
                let mut voice_states: Vec<ChannelVoiceState> = Vec::new();
                let ghost ids = texts(server.channels@);
                let ghost cm = self.channels.map();
                let ghost vm = self.voice_states.map();
                let mut i: usize = 0;
                while i < server.channels.len()
                    invariant
                        i <= server.channels@.len(),
                        ids == texts(server.channels@),
                        self.channels.map() == taken_out(cm, ids.take(i as int)).0,
                        channels@ == taken_out(cm, ids.take(i as int)).1,
                        self.voice_states.map() == taken_out(vm, ids.take(i as int)).0,
                        voice_states@ == taken_out(vm, ids.take(i as int)).1,
                        self.users == old(self).users,
                        self.members == old(self).members,
                        self.messages == old(self).messages,
                        self.emojis == old(self).emojis,
                        self.current_user_id == old(self).current_user_id,
                        self.servers.map() == old(self).servers.map().remove(id@),
                    decreases server.channels@.len() - i,
                {
                    assert(ids.take(i + 1).drop_last() =~= ids.take(i as int));
                    assert(ids.take(i + 1).last() == server.channels@[i as int]@);
                    let key = server.channels[i].as_str();
                    match self.channels.remove(key) {
                        Some(c) => channels.push(c),
                        None => {},
                    }
                    match self.voice_states.remove(key) {
                        Some(v) => voice_states.push(v),
                        None => {},
                    }
                    i = i + 1;
                }
                assert(ids.take(ids.len() as int) =~= ids);
                out.push(Dispatch::ServerDelete { server, channels, voice_states });
            },
            None => {},
        }
        out
    }

    /// An edit of a cached server: the handler sees it before and after.
    pub fn on_server_update(&mut self, id: String, data: PartialServer, clear: Vec<FieldsServer>) -> (out: Vec<Dispatch>)
        ensures
            server_update_applied(*old(self), *final(self), id, data, clear, out@),
    {
        let mut out: Vec<Dispatch> = Vec::new();
        let ghost m = self.servers.map();
        match self.servers.take_entry(id.as_str()) {
            Some((pos, key, mut s)) => {
                let before = s.duplicate();
                update_server(&mut s, &data, &clear);
                let after = s.duplicate();
                self.servers.put_entry(pos, key, s);
                assert(self.servers.map() =~= m.insert(id@, self.servers.map()[id@]));
                out.push(Dispatch::ServerUpdate { before, after, data, clear });
            },
            None => {
                assert(self.servers.map() =~= m);
            },
        }
        out
    }

    /// A member joins a server: the member is cached and the handler is called.
    pub fn on_server_member_join(&mut self, member: Member) -> (out: Vec<Dispatch>)
        ensures
            server_member_join_applied(*old(self), *final(self), member, out@),
    {
        let copy = member.duplicate();
        self.insert_member(member);
        let mut out: Vec<Dispatch> = Vec::new();
        out.push(Dispatch::ServerMemberJoin(copy));
        out
    }

    /// A member leaves a server: the member leaves the cache and the handler is called
    /// if it was cached.
    pub fn on_server_member_leave(&mut self, id: String, user: String, reason: RemovalIntention) -> (out: Vec<Dispatch>)
        ensures
            server_member_leave_applied(*old(self), *final(self), id, user, reason, out@),
    {
        let mut out: Vec<Dispatch> = Vec::new();
        match self.remove_member(id.as_str(), user.as_str()) {
            Some(member) => out.push(Dispatch::ServerMemberLeave { member, reason }),
            None => {},
        }
        out
    }

    /// An edit of a cached member: the handler sees it before and after.
    pub fn on_server_member_update(&mut self, id: MemberCompositeKey, data: PartialMember, clear: Vec<FieldsMember>) -> (out: Vec<Dispatch>)
        ensures
            server_member_update_applied(*old(self), *final(self), id, data, clear, out@),
    {
        let mut out: Vec<Dispatch> = Vec::new();
        let ghost t = member_tables(self.members.map());
        match self.members.take_entry(id.server.as_str()) {
            Some((pos, key, mut table)) => {
                let ghost tm = table.map();
                match table.take_entry(id.user.as_str()) {
                    Some((mpos, mkey, mut member)) => {
                        let before = member.duplicate();
                        update_member(&mut member, &data, &clear);
                        let after = member.duplicate();
                        table.put_entry(mpos, mkey, member);
                        assert(table.map() =~= tm.insert(id.user@, table.map()[id.user@]));
                        self.members.put_entry(pos, key, table);
                        assert(member_tables(self.members.map()) =~= t.insert(
                            id.server@,
                            t[id.server@].insert(id.user@, member_tables(self.members.map())[id.server@][id.user@]),
                        ));
                        out.push(Dispatch::ServerMemberUpdate { before, after, data, clear });
                    },
                    None => {
                        assert(table.map() =~= tm);
                        self.members.put_entry(pos, key, table);
                        assert(member_tables(self.members.map()) =~= t);
                    },
                }
            },
            None => {
                assert(member_tables(self.members.map()) =~= t);
            },
        }
        out
    }

    /// An edit of a role of a cached server: the handler sees the role before and after.
    pub fn on_server_role_update(&mut self, id: String, role_id: String, data: PartialRole, clear: Vec<FieldsRole>) -> (out: Vec<Dispatch>)
        ensures
            server_role_update_applied(*old(self), *final(self), id, role_id, data, clear, out@),
    {
        let mut out: Vec<Dispatch> = Vec::new();
        let present = match self.servers.get(id.as_str()) {
            Some(s) => s.roles.contains_key(role_id.as_str()),
            None => false,
        };
        if !present {
            return out;
        }
        let ghost m = self.servers.map();
        match self.servers.take_entry(id.as_str()) {
            Some((pos, key, mut s)) => {
                let ghost sv = s@;
                let ghost rm = s.roles.map();
                match s.roles.take_entry(role_id.as_str()) {
                    Some((rpos, rkey, mut role)) => {
                        let before = role.duplicate();
                        update_role(&mut role, &data, &clear);
                        let after = role.duplicate();
                        s.roles.put_entry(rpos, rkey, role);
                        proof {
                            assert(s.roles.map() =~= rm.insert(role_id@, s.roles.map()[role_id@]));
                            lemma_roles_view_insert(rm, role_id@, s.roles.map()[role_id@]);
                            assert(s@ =~= ServerView {
                                roles: sv.roles.insert(role_id@, role_updated(sv.roles[role_id@], data, clear@)),
                                ..sv
                            });
                        }
                        self.servers.put_entry(pos, key, s);
                        assert(self.servers.map() =~= m.insert(id@, self.servers.map()[id@]));
                        out.push(Dispatch::ServerRoleUpdate { before, after, data, clear });
                    },
                    None => {
                        assert(s.roles.map() =~= rm);
                        self.servers.put_entry(pos, key, s);
                        assert(self.servers.map() =~= m);
                    },
                }
            },
            None => {
                assert(self.servers.map() =~= m);
            },
        }
        out
    }

    /// A role of a cached server is deleted: the handler gets the role.
    pub fn on_server_role_delete(&mut self, id: String, role_id: String) -> (out: Vec<Dispatch>)
        ensures
            server_role_delete_applied(*old(self), *final(self), id, role_id, out@),
    {
        let mut out: Vec<Dispatch> = Vec::new();
        let present = match self.servers.get(id.as_str()) {
            Some(s) => s.roles.contains_key(role_id.as_str()),
            None => false,
        };
        if !present {
            return out;
        }
        let ghost m = self.servers.map();
        match self.servers.take_entry(id.as_str()) {
            Some((pos, key, mut s)) => {
                let ghost sv = s@;
                let ghost rm = s.roles.map();
                match s.roles.remove(role_id.as_str()) {
                    Some(role) => {
                        proof {
                            lemma_roles_view_remove(rm, role_id@);
                            assert(s@ =~= ServerView { roles: sv.roles.remove(role_id@), ..sv });
                        }
                        self.servers.put_entry(pos, key, s);
                        assert(self.servers.map() =~= m.insert(id@, self.servers.map()[id@]));
                        out.push(Dispatch::ServerRoleDelete(role));
                    },
                    None => {
                        assert(s.roles.map() =~= rm);
                        self.servers.put_entry(pos, key, s);
                        assert(self.servers.map() =~= m);
                    },
                }
            },
            None => {
                assert(self.servers.map() =~= m);
            },
        }
        out
    }

    /// New ranks for the roles of a cached server: each role named in `ranks` takes
    /// its position there as its rank. The handler gets the roles before and after,
    /// each ordered by rising rank.
    pub fn on_server_role_ranks_update(&mut self, id: String, ranks: Vec<String>) -> (out: Vec<Dispatch>)
        ensures
            server_role_ranks_update_applied(*old(self), *final(self), id, ranks, out@),
    {
        let mut out: Vec<Dispatch> = Vec::new();
        let ghost m = self.servers.map();
        match self.servers.take_entry(id.as_str()) {
            Some((pos, key, mut s)) => {
                let ghost s0 = s@;
                let before = sort_roles(role_copies(&s.roles));
                let ghost names = texts(ranks@);
                let mut idx: usize = 0;
                assert(names.take(0) =~= Seq::<Seq<char>>::empty());
                while idx < ranks.len()
                    invariant
                        idx <= ranks@.len(),
                        names == texts(ranks@),
                        s@ == (ServerView { roles: ranks_applied(s0.roles, names.take(idx as int)), ..s0 }),
                    decreases ranks@.len() - idx,
                {
                    let ghost rm = s.roles.map();
                    let ghost t = names.take(idx + 1);
                    assert(t.drop_last() =~= names.take(idx as int));
                    assert(t.last() == ranks@[idx as int]@);
                    match s.roles.take_entry(ranks[idx].as_str()) {
                        Some((rpos, rkey, mut role)) => {
                            let ghost rv = role@;
                            role.rank = idx as i64;
                            assert(role@ == (RoleView { rank: idx as i64, ..rv }));
                            s.roles.put_entry(rpos, rkey, role);
                            proof {
                                assert(s.roles.map() =~= rm.insert(ranks@[idx as int]@, s.roles.map()[ranks@[idx as int]@]));
                                lemma_roles_view_insert(rm, ranks@[idx as int]@, s.roles.map()[ranks@[idx as int]@]);
                                assert(s@ =~= (ServerView { roles: ranks_applied(s0.roles, t), ..s0 }));
                            }
                        },
                        None => {
                            assert(s.roles.map() =~= rm);
                            assert(s@ =~= (ServerView { roles: ranks_applied(s0.roles, t), ..s0 }));
                        },
                    }
                    idx = idx + 1;
                }
                assert(names.take(ranks@.len() as int) =~= names);
                let after = sort_roles(role_copies(&s.roles));
                self.servers.put_entry(pos, key, s);
                assert(self.servers.map() =~= m.insert(id@, self.servers.map()[id@]));
                out.push(Dispatch::ServerRoleRanksUpdate { before, after });
            },
            None => {
                assert(self.servers.map() =~= m);
            },
        }
        out
    }

    /// An edit of a cached user: the handler sees it before and after.
    pub fn on_user_update(&mut self, id: String, data: PartialUser, clear: Vec<FieldsUser>) -> (out: Vec<Dispatch>)
        ensures
            user_update_applied(*old(self), *final(self), id, data, clear, out@),
    {
        let mut out: Vec<Dispatch> = Vec::new();
        let ghost m = self.users.map();
        match self.users.take_entry(id.as_str()) {
            Some((pos, key, mut u)) => {
                let before = u.duplicate();
                update_user(&mut u, &data, &clear);
                let after = u.duplicate();
                self.users.put_entry(pos, key, u);
                assert(self.users.map() =~= m.insert(id@, self.users.map()[id@]));
                out.push(Dispatch::UserUpdate { before, after, data, clear });
            },
            None => {
                assert(self.users.map() =~= m);
            },
        }
        out
    }

    /// An edit of a user's voice state in a cached channel: the handler sees it before and after.
    pub fn on_user_voice_state_update(&mut self, id: String, channel_id: String, data: PartialUserVoiceState) -> (out: Vec<Dispatch>)
        ensures
            user_voice_state_update_applied(*old(self), *final(self), id, channel_id, data, out@),
    {
        let mut out: Vec<Dispatch> = Vec::new();
        let position = match self.voice_states.get(channel_id.as_str()) {
            Some(state) => find_participant(&state.participants, id.as_str()),
            None => None,
        };
        let i = match position {
            Some(i) => i,
            None => {
                return out;
            },
        };
        let ghost m = self.voice_states.map();
        match self.voice_states.take_entry(channel_id.as_str()) {
            Some((pos, key, state)) => {
                let ChannelVoiceState { id: cid, mut participants } = state;
                let ghost ps = participants@;
                let mut p = participants.remove(i);
                let before = p.duplicate();
                update_voice_state(&mut p, &data);
                let after = p.duplicate();
                participants.insert(i, p);
                assert(participants@ =~= ps.update(i as int, voice_state_updated(before, data)));
                self.voice_states.put_entry(pos, key, ChannelVoiceState { id: cid, participants });
                assert(voice_view(self.voice_states.map()) =~= voice_view(m).insert(
                    channel_id@,
                    (m[channel_id@].id@, ps.update(i as int, voice_state_updated(before, data))),
                ));
                out.push(Dispatch::UserVoiceStateUpdate { before, after, data });
            },
            None => {},
        }
        out
    }

    /// A user joins a voice channel: the cache records it and the handler is called.
    pub fn on_voice_channel_join(&mut self, id: String, state: UserVoiceState) -> (out: Vec<Dispatch>)
        ensures
            voice_channel_join_applied(*old(self), *final(self), id, state, out@),
    {
        self.insert_voice_state_partipant(id.as_str(), state.duplicate());
        let mut out: Vec<Dispatch> = Vec::new();
        out.push(Dispatch::UserVoiceChannelJoin { channel: id, state });
        out
    }

    /// A user leaves a voice channel: the cache records it and the handler is called if
    /// the user's state was cached.
    pub fn on_voice_channel_leave(&mut self, id: String, user: String) -> (out: Vec<Dispatch>)
        ensures
            voice_channel_leave_applied(*old(self), *final(self), id, user, out@),
    {
        let mut out: Vec<Dispatch> = Vec::new();
        match self.remove_voice_state_partipant(id.as_str(), user.as_str()) {
            Some(state) => out.push(Dispatch::UserVoiceChannelLeave { channel: id, state }),
            None => {},
        }
        out
    }

    /// A user moves between voice channels: the cache records it, and the handler is
    /// called if the user's state in the first channel was cached.
    pub fn on_voice_channel_move(&mut self, user: String, from: String, to: String, state: UserVoiceState) -> (out: Vec<Dispatch>)
        ensures
            voice_channel_move_applied(*old(self), *final(self), user, from, to, state, out@),
    {
        let before = self.remove_voice_state_partipant(from.as_str(), user.as_str());
        self.insert_voice_state_partipant(to.as_str(), state.duplicate());
        let mut out: Vec<Dispatch> = Vec::new();
        match before {
            Some(before) => out.push(Dispatch::UserVoiceChannelMove { user, from, to, before, after: state }),
            None => {},
        }
        out
    }

    /// The first event of a session: everything it holds is cached, and the user
    /// that is the client becomes the current user.
    pub fn on_ready(
        &mut self,
        users: Vec<User>,
        servers: Vec<Server>,
        channels: Vec<Channel>,
        members: Vec<Member>,
        voice_states: Vec<ChannelVoiceState>,
    ) -> (out: Vec<Dispatch>)
        ensures
            ready_applied(*old(self), *final(self), users, servers, channels, members, voice_states, out@),
    {
        self.ready_users(users);
        self.ready_servers(servers);
        self.ready_channels(channels);
        self.ready_members(members);
        self.ready_voice_states(voice_states);
        let mut out: Vec<Dispatch> = Vec::new();
        out.push(Dispatch::Ready);
        out
    }

    fn ready_users(&mut self, users: Vec<User>)
        ensures
            final(self).users.map() == added(old(self).users.map(), users@, |u: User| u.id@),
            final(self).current_user_id == match last_own_user(users@) {
                Some(u) => Some(u.id),
                None => old(self).current_user_id,
            },
            final(self).servers == old(self).servers,
            final(self).channels == old(self).channels,
            final(self).members == old(self).members,
            final(self).messages == old(self).messages,
            final(self).emojis == old(self).emojis,
            final(self).voice_states == old(self).voice_states,
    {
        let ghost all = users@;
        let ghost m = self.users.map();
        let total: usize = users.len();
        let mut rest = users;
        let mut i: usize = 0;
        while rest.len() > 0
            invariant
                i <= total,
                total == all.len(),
                rest@ == all.skip(i as int),
                self.users.map() == added(m, all.take(i as int), |u: User| u.id@),
                self.current_user_id == match last_own_user(all.take(i as int)) {
                    Some(u) => Some(u.id),
                    None => old(self).current_user_id,
                },
                self.servers == old(self).servers,
                self.channels == old(self).channels,
                self.members == old(self).members,
                self.messages == old(self).messages,
                self.emojis == old(self).emojis,
                self.voice_states == old(self).voice_states,
            decreases rest@.len(),
        {
            let user = rest.remove(0);
            assert(user == all[i as int]);
            assert(rest@ =~= all.skip(i + 1));
            assert(all.take(i + 1).drop_last() =~= all.take(i as int));
            assert(all.take(i + 1).last() == user);
            if user.relationship == RelationshipStatus::User {
                self.current_user_id = Some(user.id.clone());
            }
            let key = user.id.clone();
            self.users.insert(key, user);
            i = i + 1;
        }
        assert(all.take(i as int) =~= all);
    }

    fn ready_servers(&mut self, servers: Vec<Server>)
        ensures
            final(self).servers.map() == added(old(self).servers.map(), servers@, |s: Server| s.id@),
            only_servers_differ(*old(self), *final(self)),
    {
        let ghost all = servers@;
        let ghost m = self.servers.map();
        let total: usize = servers.len();
        let mut rest = servers;
        let mut i: usize = 0;
        while rest.len() > 0
            invariant
                i <= total,
                total == all.len(),
                rest@ == all.skip(i as int),
                self.servers.map() == added(m, all.take(i as int), |s: Server| s.id@),
                only_servers_differ(*old(self), *self),
            decreases rest@.len(),
        {
            let server = rest.remove(0);
            assert(server == all[i as int]);
            assert(rest@ =~= all.skip(i + 1));
            assert(all.take(i + 1).drop_last() =~= all.take(i as int));
            assert(all.take(i + 1).last() == server);
            let key = server.id.clone();
            self.servers.insert(key, server);
            i = i + 1;
        }
        assert(all.take(i as int) =~= all);
    }

    fn ready_channels(&mut self, channels: Vec<Channel>)
        ensures
            final(self).channels.map() == channels_added(old(self).channels.map(), channels@),
            only_channels_differ(*old(self), *final(self)),
    {
        let ghost all = channels@;
        let ghost m = self.channels.map();
        let total: usize = channels.len();
        let mut rest = channels;
        let mut i: usize = 0;
        while rest.len() > 0
            invariant
                i <= total,
                total == all.len(),
                rest@ == all.skip(i as int),
                self.channels.map() == channels_added(m, all.take(i as int)),
                only_channels_differ(*old(self), *self),
            decreases rest@.len(),
        {
            let channel = rest.remove(0);
            assert(channel == all[i as int]);
            assert(rest@ =~= all.skip(i + 1));
            assert(all.take(i + 1).drop_last() =~= all.take(i as int));
            assert(all.take(i + 1).last() == channel);
            let key = channel.id().clone();
            self.channels.insert(key, channel);
            i = i + 1;
        }
        assert(all.take(i as int) =~= all);
    }

    fn ready_members(&mut self, members: Vec<Member>)
        ensures
            member_tables(final(self).members.map()) == members_added(member_tables(old(self).members.map()), members@),
            only_members_differ(*old(self), *final(self)),
    {
        let ghost all = members@;
        let ghost t = member_tables(self.members.map());
        let total: usize = members.len();
        let mut rest = members;
        let mut i: usize = 0;
        while rest.len() > 0
            invariant
                i <= total,
                total == all.len(),
                rest@ == all.skip(i as int),
                member_tables(self.members.map()) == members_added(t, all.take(i as int)),
                only_members_differ(*old(self), *self),
            decreases rest@.len(),
        {
            let member = rest.remove(0);
            assert(member == all[i as int]);
            assert(rest@ =~= all.skip(i + 1));
            assert(all.take(i + 1).drop_last() =~= all.take(i as int));
            assert(all.take(i + 1).last() == member);
            self.insert_member(member);
            i = i + 1;
        }
        assert(all.take(i as int) =~= all);
    }

    fn ready_voice_states(&mut self, voice_states: Vec<ChannelVoiceState>)
        ensures
            final(self).voice_states.map() == added(old(self).voice_states.map(), voice_states@, |v: ChannelVoiceState| v.id@),
            only_voice_states_differ(*old(self), *final(self)),
    {
        let ghost all = voice_states@;
        let ghost m = self.voice_states.map();
        let total: usize = voice_states.len();
        let mut rest = voice_states;
        let mut i: usize = 0;
        while rest.len() > 0
            invariant
                i <= total,
                total == all.len(),
                rest@ == all.skip(i as int),
                self.voice_states.map() == added(m, all.take(i as int), |v: ChannelVoiceState| v.id@),
                only_voice_states_differ(*old(self), *self),
            decreases rest@.len(),
        {
            let state = rest.remove(0);
            assert(state == all[i as int]);
            assert(rest@ =~= all.skip(i + 1));
            assert(all.take(i + 1).drop_last() =~= all.take(i as int));
            assert(all.take(i + 1).last() == state);
            let key = state.id.clone();
            self.voice_states.insert(key, state);
            i = i + 1;
        }
        assert(all.take(i as int) =~= all);
    }

    /// Takes in one event: the cache follows it, and the result says what the client
    /// does next, in order.
    pub fn update_state(&mut self, event: Event) -> (out: Vec<Dispatch>)
        ensures
            applied(*old(self), event, *final(self), out@),
        decreases event,
    {
        match event {
            Event::Bulk { v } => self.update_all(v),
            Event::Authenticated => {
                let mut out: Vec<Dispatch> = Vec::new();
                out.push(Dispatch::Authenticated);
                out
            },
            Event::Logout => Vec::new(),
            Event::Pong => Vec::new(),
            Event::Ready { users, servers, channels, members, emojis: _, voice_states } => self.on_ready(
                users,
                servers,
                channels,
                members,
                voice_states,
            ),
            Event::Message(m) => self.on_message(m),
            Event::MessageUpdate { id, channel: _, data, clear } => self.on_message_update(id, data, clear),
            Event::MessageAppend { id, channel: _, embeds } => self.on_message_append(id, embeds),
            Event::MessageDelete { id, channel: _ } => self.on_message_delete(id),
            Event::MessageReact { id, channel_id: _, user_id, emoji_id } => self.on_message_react(id, user_id, emoji_id),
            Event::MessageUnreact { id, channel_id: _, user_id, emoji_id } => self.on_message_unreact(id, user_id, emoji_id),
            Event::MessageRemoveReaction { id, channel_id: _, emoji_id } => self.on_message_remove_reaction(id, emoji_id),
            Event::BulkMessageDelete { channel, ids } => self.on_bulk_message_delete(channel, ids),
            Event::ChannelCreate(c) => self.on_channel_create(c),
            Event::ChannelUpdate { id, data, clear } => self.on_channel_update(id, data, clear),
            Event::ChannelDelete { id } => self.on_channel_delete(id),
            Event::ChannelGroupJoin { id, user } => self.on_channel_group_join(id, user),
            Event::ChannelGroupLeave { id, user } => self.on_channel_group_leave(id, user),
            Event::ChannelStartTyping { id, user } => self.on_typing_start(id, user),
            Event::ChannelStopTyping { id, user } => self.on_typing_stop(id, user),
            Event::ChannelAck { .. } => Vec::new(),
            Event::ServerCreate { id: _, server, channels, emojis, voice_states } => self.on_server_create(
                server,
                channels,
                emojis,
                voice_states,
            ),
            Event::ServerUpdate { id, data, clear } => self.on_server_update(id, data, clear),
            Event::ServerDelete { id } => self.on_server_delete(id),
            Event::ServerMemberJoin { id: _, user: _, member } => self.on_server_member_join(member),
            Event::ServerMemberUpdate { id, data, clear } => self.on_server_member_update(id, data, clear),
            Event::ServerMemberLeave { id, user, reason } => self.on_server_member_leave(id, user, reason),
            Event::ServerRoleUpdate { id, role_id, data, clear } => self.on_server_role_update(id, role_id, data, clear),
            Event::ServerRoleDelete { id, role_id } => self.on_server_role_delete(id, role_id),
            Event::ServerRoleRanksUpdate { id, ranks } => self.on_server_role_ranks_update(id, ranks),
            Event::UserUpdate { id, data, clear } => self.on_user_update(id, data, clear),
            Event::UserVoiceStateUpdate { id, channel_id, data } => self.on_user_voice_state_update(id, channel_id, data),
            Event::VoiceChannelJoin { id, state } => self.on_voice_channel_join(id, state),
            Event::VoiceChannelLeave { id, user } => self.on_voice_channel_leave(id, user),
            Event::VoiceChannelMove { user, from, to, state } => self.on_voice_channel_move(user, from, to, state),
            Event::EmojiCreate(_) => Vec::new(),
            Event::EmojiDelete { .. } => Vec::new(),
        }
    }

    /// Takes in the events one after another.
    pub fn update_all(&mut self, events: Vec<Event>) -> (out: Vec<Dispatch>)
        ensures
            applied_all(*old(self), events@, *final(self), out@),
        decreases events,
    {
        let ghost all = events@;
        let ghost start = *self;
        let total: usize = events.len();
        let mut rest = events;
        let mut out: Vec<Dispatch> = Vec::new();
        let mut i: usize = 0;
        assert(all.take(0) =~= Seq::<Event>::empty());
        while rest.len() > 0
            invariant
                i <= total,
                total == all.len(),
                all == events@,
                rest@ == all.skip(i as int),
                applied_all(start, all.take(i as int), *self, out@),
            decreases rest@.len(),
        {
            let e = rest.remove(0);
            assert(e == all[i as int]);
            assert(rest@ =~= all.skip(i + 1));
            let ghost mid = *self;
            let ghost before = out@;
            proof {
                assert(decreases_to!(events => events@));
                assert(decreases_to!(events@ => events@[i as int]));
            }
            let mut more = self.update_state(e);
            let ghost added = more@;
            out.append(&mut more);
            proof {
                let t = all.take(i + 1);
                assert(t.len() == i + 1);
                assert(t.drop_last() =~= all.take(i as int));
                assert(t[t.len() - 1] == e);
                assert(out@.take(before.len() as int) =~= before);
                assert(out@.skip(before.len() as int) =~= added);
                assert(applied_all(start, t.drop_last(), mid, out@.take(before.len() as int)));
                assert(applied(mid, e, *self, added));
                assert(applied(mid, t[t.len() - 1], *self, out@.skip(before.len() as int)));
                lemma_applied_all_step(start, t, mid, *self, out@, before.len() as int);
            }
            i = i + 1;
        }
        assert(all.take(i as int) =~= all);
        out
    }

    /// A user starts typing: the tasks waiting for typing see it, then the handler.
    pub fn on_typing_start(&mut self, id: String, user: String) -> (out: Vec<Dispatch>)
        ensures
            typing_start_applied(*old(self), *final(self), id, user, out@),
    {
        let mut out: Vec<Dispatch> = Vec::new();
        out.push(Dispatch::TypingWaiters { channel: id.clone(), user: user.clone() });
        out.push(Dispatch::TypingStart { channel: id, user });
        out
    }

    /// A user stops typing: the handler is called.
    pub fn on_typing_stop(&mut self, id: String, user: String) -> (out: Vec<Dispatch>)
        ensures
            typing_stop_applied(*old(self), *final(self), id, user, out@),
    {
        let mut out: Vec<Dispatch> = Vec::new();
        out.push(Dispatch::TypingStop { channel: id, user });
        out
    }
}

/// Appending embeds to a cached message keeps every embed it had, in order, in
/// front of the new ones: the message's embeds become the old ones (none where
/// it had none) followed by the appended ones, and only that message changes.
pub proof fn lemma_append_keeps_embeds(a: GlobalCache, b: GlobalCache, id: String, v: Vec<Embed>, out: Seq<Dispatch>)
    requires
        message_append_applied(a, b, id, Some(v), out),
        first_message(a.messages@, id@) is Some,
    ensures
        ({
            let i = first_message(a.messages@, id@)->0;
            let before: Seq<Embed> = match a.messages@[i].embeds {
                Some(e) => e@,
                None => Seq::empty(),
            };
            &&& b.messages@[i].embeds matches Some(after) && {
                &&& after@.len() == before.len() + v@.len()
                &&& forall|j: int| 0 <= j < before.len() ==> after@[j] == before[j]
                &&& forall|j: int| 0 <= j < v@.len() ==> after@[before.len() + j] == v@[j]
            }
            &&& b.messages@.len() == a.messages@.len()
            &&& forall|j: int| 0 <= j < a.messages@.len() && j != i ==> b.messages@[j] == a.messages@[j]
        }),
{
    let i = first_message(a.messages@, id@)->0;
    assert(b.messages@[i]@ == embeds_appended(a.messages@[i]@, Some(v)));
    assert(embeds_view(b.messages@[i].embeds) == b.messages@[i]@.embeds);
    assert(embeds_view(a.messages@[i].embeds) == a.messages@[i]@.embeds);
}

/// A member update that brings a list of roles, without clearing the roles,
/// gives the cached member exactly those roles, in order.
pub proof fn lemma_member_roles_assigned(
    a: GlobalCache,
    b: GlobalCache,
    id: MemberCompositeKey,
    data: PartialMember,
    clear: Vec<FieldsMember>,
    out: Seq<Dispatch>,
    roles: Vec<String>,
)
    requires
        server_member_update_applied(a, b, id, data, clear, out),
        member_tables(a.members.map()).contains_key(id.server@),
        member_tables(a.members.map())[id.server@].contains_key(id.user@),
        data.roles == Some(roles),
        !clear@.contains(FieldsMember::Roles),
    ensures
        member_tables(b.members.map()).contains_key(id.server@),
        member_tables(b.members.map())[id.server@].contains_key(id.user@),
        ({
            let after = member_tables(b.members.map())[id.server@][id.user@];
            &&& after.roles@.len() == roles@.len()
            &&& forall|j: int| 0 <= j < roles@.len() ==> (#[trigger] after.roles@[j])@ == roles@[j]@
        }),
{
    let t = member_tables(a.members.map());
    let f = member_tables(b.members.map());
    let after = f[id.server@][id.user@];
    assert(after@ == member_updated(t[id.server@][id.user@]@, data, clear@));
    assert(after@.roles == texts(roles@));
    assert forall|j: int| 0 <= j < roles@.len() implies (#[trigger] after.roles@[j])@ == roles@[j]@ by {
        assert(texts(after.roles@)[j] == after.roles@[j]@);
        assert(texts(roles@)[j] == roles@[j]@);
    }
}

/// A role update that brings permissions gives the cached role exactly those
/// permissions.
pub proof fn lemma_role_permissions_assigned(
    a: GlobalCache,
    b: GlobalCache,
    id: String,
    role_id: String,
    data: PartialRole,
    clear: Vec<FieldsRole>,
    out: Seq<Dispatch>,
    p: OverrideField,
)
    requires
        server_role_update_applied(a, b, id, role_id, data, clear, out),
        a.servers.map().contains_key(id@),
        a.servers.map()[id@].roles.map().contains_key(role_id@),
        data.permissions == Some(p),
    ensures
        b.servers.map().contains_key(id@),
        b.servers.map()[id@]@.roles.contains_key(role_id@),
        b.servers.map()[id@]@.roles[role_id@].permissions == p,
{
    let before = a.servers.map()[id@]@;
    assert(before.roles.contains_key(role_id@));
    assert(b.servers.map()[id@]@.roles == before.roles.insert(role_id@, role_updated(before.roles[role_id@], data, clear@)));
}

/// A user update that brings a relationship gives the cached user exactly that
/// relationship.
pub proof fn lemma_user_relationship_assigned(
    a: GlobalCache,
    b: GlobalCache,
    id: String,
    data: PartialUser,
    clear: Vec<FieldsUser>,
    out: Seq<Dispatch>,
    rel: RelationshipStatus,
)
    requires
        user_update_applied(a, b, id, data, clear, out),
        a.users.map().contains_key(id@),
        data.relationship == Some(rel),
    ensures
        b.users.map().contains_key(id@),
        b.users.map()[id@].relationship == rel,
{
    assert(b.users.map()[id@]@ == user_updated(a.users.map()[id@]@, data, clear@));
}

} // verus!
