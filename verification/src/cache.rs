use vstd::prelude::*;

use crate::models::{Channel, ChannelVoiceState, Emoji, EmojiParent, Member, Message, Server, User, UserVoiceState};
use crate::store::{entries_map, KeyedStore};
use crate::text::str_eq;

verus! {

/// How many messages the cache keeps.
pub const MESSAGE_CACHE_SIZE: usize = 1000;

/// The position of the first message with the identifier `id`.
pub open spec fn first_message(s: Seq<Message>, id: Seq<char>) -> Option<int>
    decreases s.len(),
{
    if s.len() == 0 {
        None
    } else if s[0].id@ == id {
        Some(0)
    } else {
        match first_message(s.drop_first(), id) {
            Some(i) => Some(i + 1),
            None => None,
        }
    }
}

proof fn lemma_first_message(s: Seq<Message>, id: Seq<char>)
    ensures
        first_message(s, id) matches Some(i) ==> 0 <= i < s.len() && s[i].id@ == id
            && forall|j: int| 0 <= j < i ==> (#[trigger] s[j]).id@ != id,
        first_message(s, id) is None ==> forall|j: int| 0 <= j < s.len() ==> (#[trigger] s[j]).id@ != id,
    decreases s.len(),
{
    if s.len() > 0 {
        lemma_first_message(s.drop_first(), id);
        if s[0].id@ != id {
            assert forall|j: int| 0 < j < s.len() implies s[j] == s.drop_first()[j - 1] by {}
        }
    }
}

/// The message cache after `message` joins `messages`: the newest first, the
/// oldest dropped once there are more than the cache holds.
pub open spec fn messages_after_insert(messages: Seq<Message>, message: Message) -> Seq<Message> {
    let all = seq![message] + messages;
    if all.len() > MESSAGE_CACHE_SIZE {
        all.drop_last()
    } else {
        all
    }
}

/// A message just cached is the one a lookup of its identifier finds, and the
/// cache never holds more messages than its size once it holds no more than that.
pub proof fn lemma_message_cache_insert(messages: Seq<Message>, message: Message)
    ensures
        first_message(messages_after_insert(messages, message), message.id@) == Some(0int),
        messages_after_insert(messages, message)[0] == message,
        messages.len() <= MESSAGE_CACHE_SIZE ==> messages_after_insert(messages, message).len() <= MESSAGE_CACHE_SIZE,
{
}

/// The participants of `ps` other than the user `id`, in order.
pub open spec fn without_user(ps: Seq<UserVoiceState>, id: Seq<char>) -> Seq<UserVoiceState>
    decreases ps.len(),
{
    if ps.len() == 0 {
        ps
    } else {
        let p = without_user(ps.drop_last(), id);
        if ps.last().id@ == id {
            p
        } else {
            p.push(ps.last())
        }
    }
}

/// The position of the first participant that is the user `id`.
pub open spec fn first_participant(ps: Seq<UserVoiceState>, id: Seq<char>) -> Option<int>
    decreases ps.len(),
{
    if ps.len() == 0 {
        None
    } else if ps[0].id@ == id {
        Some(0)
    } else {
        match first_participant(ps.drop_first(), id) {
            Some(i) => Some(i + 1),
            None => None,
        }
    }
}

proof fn lemma_first_participant(s: Seq<UserVoiceState>, id: Seq<char>)
    ensures
        first_participant(s, id) matches Some(i) ==> 0 <= i < s.len() && s[i].id@ == id
            && forall|j: int| 0 <= j < i ==> (#[trigger] s[j]).id@ != id,
        first_participant(s, id) is None ==> forall|j: int| 0 <= j < s.len() ==> (#[trigger] s[j]).id@ != id,
    decreases s.len(),
{
    if s.len() > 0 {
        lemma_first_participant(s.drop_first(), id);
        if s[0].id@ != id {
            assert forall|j: int| 0 < j < s.len() implies s[j] == s.drop_first()[j - 1] by {}
        }
    }
}

/// The member tables of a cache, by server and then by user.
pub open spec fn member_tables(members: Map<Seq<char>, KeyedStore<Member>>) -> Map<Seq<char>, Map<Seq<char>, Member>> {
    members.map_values(|s: KeyedStore<Member>| s.map())
}

/// The entries of `s` whose emoji belongs to the server `id`, in order.
pub open spec fn server_emojis(s: Seq<(String, Emoji)>, id: Seq<char>) -> Seq<(String, Emoji)>
    decreases s.len(),
{
    if s.len() == 0 {
        s
    } else {
        let rest = server_emojis(s.drop_last(), id);
        if emoji_of_server(s.last().1, id) {
            rest.push(s.last())
        } else {
            rest
        }
    }
}

/// Whether an emoji belongs to the server `id`.
pub open spec fn emoji_of_server(e: Emoji, id: Seq<char>) -> bool {
    e.parent matches EmojiParent::Server { id: sid } && sid@ == id
}

/// Only the servers differ between `a` and `b`.
pub open spec fn only_servers_differ(a: GlobalCache, b: GlobalCache) -> bool {
    b == (GlobalCache { servers: b.servers, ..a })
}

/// Only the users differ between `a` and `b`.
pub open spec fn only_users_differ(a: GlobalCache, b: GlobalCache) -> bool {
    b == (GlobalCache { users: b.users, ..a })
}

/// Only the members differ between `a` and `b`.
pub open spec fn only_members_differ(a: GlobalCache, b: GlobalCache) -> bool {
    b == (GlobalCache { members: b.members, ..a })
}

/// Only the channels differ between `a` and `b`.
pub open spec fn only_channels_differ(a: GlobalCache, b: GlobalCache) -> bool {
    b == (GlobalCache { channels: b.channels, ..a })
}

/// Only the messages differ between `a` and `b`.
pub open spec fn only_messages_differ(a: GlobalCache, b: GlobalCache) -> bool {
    b == (GlobalCache { messages: b.messages, ..a })
}

/// Only the emojis differ between `a` and `b`.
pub open spec fn only_emojis_differ(a: GlobalCache, b: GlobalCache) -> bool {
    b == (GlobalCache { emojis: b.emojis, ..a })
}

/// Only the voice states differ between `a` and `b`.
pub open spec fn only_voice_states_differ(a: GlobalCache, b: GlobalCache) -> bool {
    b == (GlobalCache { voice_states: b.voice_states, ..a })
}

/// Only the current user differ between `a` and `b`.
pub open spec fn only_current_user_id_differ(a: GlobalCache, b: GlobalCache) -> bool {
    b == (GlobalCache { current_user_id: b.current_user_id, ..a })
}

/// The voice states of a cache as plain values: for each channel, its identifier
/// and its participants.
pub open spec fn voice_view(m: Map<Seq<char>, ChannelVoiceState>) -> Map<Seq<char>, (Seq<char>, Seq<UserVoiceState>)> {
    m.map_values(|c: ChannelVoiceState| (c.id@, c.participants@))
}

/// The voice states after `state` joins the channel `channel`, replacing the user's
/// earlier state there; a channel with no voice state gets one.
pub open spec fn participant_joined(
    vm: Map<Seq<char>, (Seq<char>, Seq<UserVoiceState>)>,
    channel: Seq<char>,
    state: UserVoiceState,
) -> Map<Seq<char>, (Seq<char>, Seq<UserVoiceState>)> {
    let (id, before) = if vm.contains_key(channel) { vm[channel] } else { (channel, Seq::empty()) };
    vm.insert(channel, (id, without_user(before, state.id@).push(state)))
}

/// The voice states after the user `user` leaves the channel `channel`.
pub open spec fn participant_left(
    vm: Map<Seq<char>, (Seq<char>, Seq<UserVoiceState>)>,
    channel: Seq<char>,
    user: Seq<char>,
) -> Map<Seq<char>, (Seq<char>, Seq<UserVoiceState>)> {
    if vm.contains_key(channel) {
        match first_participant(vm[channel].1, user) {
            Some(i) => vm.insert(channel, (vm[channel].0, vm[channel].1.remove(i))),
            None => vm,
        }
    } else {
        vm
    }
}

proof fn lemma_without_user(ps: Seq<UserVoiceState>, id: Seq<char>)
    ensures
        forall|j: int| 0 <= j < without_user(ps, id).len() ==> (#[trigger] without_user(ps, id)[j]).id@ != id,
    decreases ps.len(),
{
    if ps.len() > 0 {
        lemma_without_user(ps.drop_last(), id);
        let p = without_user(ps.drop_last(), id);
        if ps.last().id@ != id {
            assert forall|j: int| 0 <= j < p.push(ps.last()).len() implies (#[trigger] p.push(ps.last())[j]).id@ != id by {
                if j < p.len() {
                    assert(p.push(ps.last())[j] == p[j]);
                }
            }
        }
    }
}

proof fn lemma_without_absent(ps: Seq<UserVoiceState>, id: Seq<char>)
    requires
        forall|j: int| 0 <= j < ps.len() ==> (#[trigger] ps[j]).id@ != id,
    ensures
        without_user(ps, id) == ps,
    decreases ps.len(),
{
    if ps.len() > 0 {
        assert forall|j: int| 0 <= j < ps.drop_last().len() implies (#[trigger] ps.drop_last()[j]).id@ != id by {
            assert(ps.drop_last()[j] == ps[j]);
        }
        lemma_without_absent(ps.drop_last(), id);
        assert(ps[ps.len() - 1].id@ != id);
        assert(ps.drop_last().push(ps.last()) =~= ps);
    }
}

/// A user who joins a voice channel and then leaves it: leaving gives back the
/// state the user joined with, and the channel keeps its other participants in
/// their order, without the user; a channel in which the user was not before is
/// as it was, and leaving once more finds no one and changes nothing.
pub proof fn lemma_join_then_leave(
    vm: Map<Seq<char>, (Seq<char>, Seq<UserVoiceState>)>,
    channel: Seq<char>,
    state: UserVoiceState,
)
    ensures
        ({
            let joined = participant_joined(vm, channel, state);
            let left = participant_left(joined, channel, state.id@);
            let before = if vm.contains_key(channel) { vm[channel].1 } else { Seq::<UserVoiceState>::empty() };
            let id = if vm.contains_key(channel) { vm[channel].0 } else { channel };
            &&& first_participant(joined[channel].1, state.id@) matches Some(i) && joined[channel].1[i] == state
            &&& left == vm.insert(channel, (id, without_user(before, state.id@)))
            &&& forall|j: int| 0 <= j < left[channel].1.len() ==> (#[trigger] left[channel].1[j]).id@ != state.id@
            &&& (vm.contains_key(channel) && first_participant(before, state.id@) is None) ==> left == vm
            &&& first_participant(left[channel].1, state.id@) is None
            &&& participant_left(left, channel, state.id@) == left
        }),
{
    let joined = participant_joined(vm, channel, state);
    let before = if vm.contains_key(channel) { vm[channel].1 } else { Seq::<UserVoiceState>::empty() };
    let id = if vm.contains_key(channel) { vm[channel].0 } else { channel };
    let kept = without_user(before, state.id@);
    lemma_joined_once(vm, channel, state);
    assert(joined[channel].1 == kept.push(state));
    assert(kept.push(state).remove(kept.len() as int) =~= kept);
    let left = participant_left(joined, channel, state.id@);
    assert(left == vm.insert(channel, (id, kept)));
    lemma_without_user(before, state.id@);
    assert(left[channel].1 == kept);
    lemma_first_participant(kept, state.id@);
    if first_participant(kept, state.id@) is Some {
        let i = first_participant(kept, state.id@)->0;
        assert(kept[i].id@ != state.id@);
    }
    if vm.contains_key(channel) && first_participant(before, state.id@) is None {
        lemma_first_participant(before, state.id@);
        lemma_without_absent(before, state.id@);
        assert(left =~= vm);
    }
}

/// After a user joins a voice channel, the user is in it exactly once: the
/// newest participant, with the state it joined with.
pub proof fn lemma_joined_once(
    vm: Map<Seq<char>, (Seq<char>, Seq<UserVoiceState>)>,
    channel: Seq<char>,
    state: UserVoiceState,
)
    ensures
        ({
            let ps = participant_joined(vm, channel, state)[channel].1;
            &&& ps.len() > 0
            &&& ps.last() == state
            &&& first_participant(ps, state.id@) == Some(ps.len() - 1)
        }),
{
    let before = if vm.contains_key(channel) { vm[channel].1 } else { Seq::empty() };
    let kept = without_user(before, state.id@);
    let ps = kept.push(state);
    assert(participant_joined(vm, channel, state)[channel].1 == ps);
    lemma_without_user(before, state.id@);
    lemma_first_participant(ps, state.id@);
    if first_participant(ps, state.id@) != Some(ps.len() - 1) {
        match first_participant(ps, state.id@) {
            Some(i) => {
                assert(ps[i] == kept[i]);
            },
            None => {
                assert(ps[ps.len() - 1] == state);
            },
        }
    }
}

/// The models the client has seen, kept up to date from the events it receives.
#[derive(Debug)]
pub struct GlobalCache {
    pub servers: KeyedStore<Server>,
    pub users: KeyedStore<User>,
    pub members: KeyedStore<KeyedStore<Member>>,
    pub channels: KeyedStore<Channel>,
    /// The most recent messages, newest first.
    pub messages: Vec<Message>,
    pub emojis: KeyedStore<Emoji>,
    pub voice_states: KeyedStore<ChannelVoiceState>,
    pub current_user_id: Option<String>,
}

pub(crate) fn find_participant(ps: &Vec<UserVoiceState>, user_id: &str) -> (r: Option<usize>)
    ensures
        r matches Some(i) ==> first_participant(ps@, user_id@) == Some(i as int) && i < ps@.len(),
        r is None <==> first_participant(ps@, user_id@) is None,
{
    proof {
        lemma_first_participant(ps@, user_id@);
    }
    let mut i: usize = 0;
    while i < ps.len()
        invariant
            i <= ps@.len(),
            forall|j: int| 0 <= j < i ==> (#[trigger] ps@[j]).id@ != user_id@,
        decreases ps@.len() - i,
    {
        if str_eq(ps[i].id.as_str(), user_id) {
            proof {
                lemma_first_participant(ps@, user_id@);
                if first_participant(ps@, user_id@) != Some(i as int) {
                    let k = first_participant(ps@, user_id@)->0;
                    assert(k < i || k > i);
                }
            }
            return Some(i);
        }
        i = i + 1;
    }
    None
}

impl GlobalCache {
    /// An empty cache.
    pub fn new() -> (r: GlobalCache)
        ensures
            r.servers.map() == Map::<Seq<char>, Server>::empty(),
            r.users.map() == Map::<Seq<char>, User>::empty(),
            r.members.map() == Map::<Seq<char>, KeyedStore<Member>>::empty(),
            r.channels.map() == Map::<Seq<char>, Channel>::empty(),
            r.messages@.len() == 0,
            r.emojis.map() == Map::<Seq<char>, Emoji>::empty(),
            r.voice_states.map() == Map::<Seq<char>, ChannelVoiceState>::empty(),
            r.current_user_id is None,
    {
        GlobalCache {
            servers: KeyedStore::new(),
            users: KeyedStore::new(),
            members: KeyedStore::new(),
            channels: KeyedStore::new(),
            messages: Vec::new(),
            emojis: KeyedStore::new(),
            voice_states: KeyedStore::new(),
            current_user_id: None,
        }
    }

    /// The server `server_id`, if cached.
    pub fn get_server(&self, server_id: &str) -> (r: Option<&Server>)
        ensures
            r matches Some(s) ==> self.servers.map().contains_key(server_id@) && *s == self.servers.map()[server_id@],
            r is None <==> !self.servers.map().contains_key(server_id@),
    {
        self.servers.get(server_id)
    }

    /// Caches `server` under its identifier.
    pub fn insert_server(&mut self, server: Server)
        ensures
            only_servers_differ(*old(self), *final(self)),
            final(self).servers.map() == old(self).servers.map().insert(server.id@, server),
    {
        let key = server.id.clone();
        self.servers.insert(key, server);
    }

    /// Takes the server `server_id` out of the cache.
    pub fn remove_server(&mut self, server_id: &str) -> (r: Option<Server>)
        ensures
            only_servers_differ(*old(self), *final(self)),
            final(self).servers.map() == old(self).servers.map().remove(server_id@),
            r matches Some(s) ==> old(self).servers.map().contains_key(server_id@) && s == old(self).servers.map()[server_id@],
            r is None <==> !old(self).servers.map().contains_key(server_id@),
    {
        self.servers.remove(server_id)
    }

    /// The user `user_id`, if cached.
    pub fn get_user(&self, user_id: &str) -> (r: Option<&User>)
        ensures
            r matches Some(u) ==> self.users.map().contains_key(user_id@) && *u == self.users.map()[user_id@],
            r is None <==> !self.users.map().contains_key(user_id@),
    {
        self.users.get(user_id)
    }

    /// Caches `user` under its identifier.
    pub fn insert_user(&mut self, user: User)
        ensures
            only_users_differ(*old(self), *final(self)),
            final(self).users.map() == old(self).users.map().insert(user.id@, user),
    {
        let key = user.id.clone();
        self.users.insert(key, user);
    }

    /// Takes the user `user_id` out of the cache.
    pub fn remove_user(&mut self, user_id: &str) -> (r: Option<User>)
        ensures
            only_users_differ(*old(self), *final(self)),
            final(self).users.map() == old(self).users.map().remove(user_id@),
            r matches Some(u) ==> old(self).users.map().contains_key(user_id@) && u == old(self).users.map()[user_id@],
            r is None <==> !old(self).users.map().contains_key(user_id@),
    {
        self.users.remove(user_id)
    }

    /// The member `user_id` of the server `server_id`, if cached.
    pub fn get_member(&self, server_id: &str, user_id: &str) -> (r: Option<&Member>)
        ensures
            r matches Some(m) ==> member_tables(self.members.map()).contains_key(server_id@)
                && member_tables(self.members.map())[server_id@].contains_key(user_id@)
                && *m == member_tables(self.members.map())[server_id@][user_id@],
            r is None <==> !(member_tables(self.members.map()).contains_key(server_id@)
                && member_tables(self.members.map())[server_id@].contains_key(user_id@)),
    {
        match self.members.get(server_id) {
            Some(table) => table.get(user_id),
            None => None,
        }
    }

    /// Caches `member` in its server's table.
    pub fn insert_member(&mut self, member: Member)
        ensures
            only_members_differ(*old(self), *final(self)),
            member_tables(final(self).members.map()) == member_tables(old(self).members.map()).insert(
                member.id.server@,
                (if member_tables(old(self).members.map()).contains_key(member.id.server@) {
                    member_tables(old(self).members.map())[member.id.server@]
                } else {
                    Map::empty()
                }).insert(member.id.user@, member),
            ),
    {
        let server = member.id.server.clone();
        let user = member.id.user.clone();
        let ghost old_tables = member_tables(self.members.map());
        match self.members.take_entry(server.as_str()) {
            Some((pos, k, mut table)) => {
                table.insert(user, member);
                self.members.put_entry(pos, k, table);
            },
            None => {
                let mut table = KeyedStore::new();
                table.insert(user, member);
                self.members.insert(server, table);
            },
        }
        assert(member_tables(self.members.map()) =~= old_tables.insert(
            member.id.server@,
            (if old_tables.contains_key(member.id.server@) { old_tables[member.id.server@] } else { Map::empty() }).insert(member.id.user@, member),
        ));
    }

    /// Takes the member `user_id` out of the server `server_id`'s table; the table stays.
    pub fn remove_member(&mut self, server_id: &str, user_id: &str) -> (r: Option<Member>)
        ensures
            only_members_differ(*old(self), *final(self)),
            ({
                let t = member_tables(old(self).members.map());
                if t.contains_key(server_id@) {
                    &&& member_tables(final(self).members.map()) == t.insert(server_id@, t[server_id@].remove(user_id@))
                    &&& (r matches Some(m) ==> t[server_id@].contains_key(user_id@) && m == t[server_id@][user_id@])
                    &&& (r is None <==> !t[server_id@].contains_key(user_id@))
                } else {
                    &&& member_tables(final(self).members.map()) == t
                    &&& r is None
                }
            }),
    {
        let ghost t = member_tables(self.members.map());
        match self.members.take_entry(server_id) {
            Some((pos, k, mut table)) => {
                let r = table.remove(user_id);
                self.members.put_entry(pos, k, table);
                assert(member_tables(self.members.map()) =~= t.insert(server_id@, t[server_id@].remove(user_id@)));
                r
            },
            None => {
                assert(member_tables(self.members.map()) =~= t);
                None
            },
        }
    }

    /// The channel `channel_id`, if cached.
    pub fn get_channel(&self, channel_id: &str) -> (r: Option<&Channel>)
        ensures
            r matches Some(c) ==> self.channels.map().contains_key(channel_id@) && *c == self.channels.map()[channel_id@],
            r is None <==> !self.channels.map().contains_key(channel_id@),
    {
        self.channels.get(channel_id)
    }

    /// Caches `channel` under its identifier.
    pub fn insert_channel(&mut self, channel: Channel)
        ensures
            only_channels_differ(*old(self), *final(self)),
            final(self).channels.map() == old(self).channels.map().insert(channel.id_view(), channel),
    {
        let key = channel.id().clone();
        self.channels.insert(key, channel);
    }

    /// Takes the channel `channel_id` out of the cache.
    pub fn remove_channel(&mut self, channel_id: &str) -> (r: Option<Channel>)
        ensures
            only_channels_differ(*old(self), *final(self)),
            final(self).channels.map() == old(self).channels.map().remove(channel_id@),
            r matches Some(c) ==> old(self).channels.map().contains_key(channel_id@) && c == old(self).channels.map()[channel_id@],
            r is None <==> !old(self).channels.map().contains_key(channel_id@),
    {
        self.channels.remove(channel_id)
    }

    /// The newest cached message with the identifier `message_id`.
    pub fn get_message(&self, message_id: &str) -> (r: Option<&Message>)
        ensures
            r matches Some(m) ==> first_message(self.messages@, message_id@) matches Some(i) && *m == self.messages@[i],
            r is None <==> first_message(self.messages@, message_id@) is None,
    {
        match self.find_message(message_id) {
            Some(i) => Some(&self.messages[i]),
            None => None,
        }
    }

    pub(crate) fn find_message(&self, message_id: &str) -> (r: Option<usize>)
        ensures
            r matches Some(i) ==> first_message(self.messages@, message_id@) == Some(i as int) && i < self.messages@.len(),
            r is None <==> first_message(self.messages@, message_id@) is None,
    {
        proof {
            lemma_first_message(self.messages@, message_id@);
        }
        let mut i: usize = 0;
        while i < self.messages.len()
            invariant
                i <= self.messages@.len(),
                forall|j: int| 0 <= j < i ==> (#[trigger] self.messages@[j]).id@ != message_id@,
            decreases self.messages@.len() - i,
        {
            if str_eq(self.messages[i].id.as_str(), message_id) {
                proof {
                    lemma_first_message(self.messages@, message_id@);
                    if first_message(self.messages@, message_id@) != Some(i as int) {
                        let k = first_message(self.messages@, message_id@)->0;
                        assert(k < i || k > i);
                    }
                }
                return Some(i);
            }
            i = i + 1;
        }
        None
    }

    /// Caches `message` as the newest; the oldest is dropped once the cache holds more than its size.
    pub fn insert_message(&mut self, message: Message)
        ensures
            only_messages_differ(*old(self), *final(self)),
            final(self).messages@ == messages_after_insert(old(self).messages@, message),
    {
        let ghost all = seq![message] + self.messages@;
        self.messages.insert(0, message);
        assert(self.messages@ =~= all);
        if self.messages.len() > MESSAGE_CACHE_SIZE {
            self.messages.pop();
            assert(self.messages@ =~= all.drop_last());
        }
    }

    /// Takes the newest cached message with the identifier `message_id` out of the cache.
    pub fn remove_message(&mut self, message_id: &str) -> (r: Option<Message>)
        ensures
            only_messages_differ(*old(self), *final(self)),
            match first_message(old(self).messages@, message_id@) {
                Some(i) => r == Some(old(self).messages@[i]) && final(self).messages@ == old(self).messages@.remove(i),
                None => r is None && final(self).messages@ == old(self).messages@,
            },
    {
        match self.find_message(message_id) {
            Some(i) => Some(self.messages.remove(i)),
            None => None,
        }
    }

    /// The cached messages among `message_ids`, taken out of the cache.
    ///
    /// The scan runs while its position is below the number of messages taken
    /// out so far, so it never starts: nothing is taken out and nothing comes back.
    pub fn remove_messages(&mut self, message_ids: &[String]) -> (r: Vec<Message>)
        ensures
            *final(self) == *old(self),
            r@.len() == 0,
    {
        let mut i: usize = 0;
        let end = self.messages.len();
        let mut messages: Vec<Message> = Vec::new();
        while i < self.messages.len() - end
            invariant
                end == self.messages@.len(),
                *self == *old(self),
                messages@.len() == 0,
            decreases self.messages@.len() - i,
        {
            i = i + 1;
        }
        messages
    }

    /// The identifier of the user the client is logged in as.
    pub fn get_current_user_id(&self) -> (r: Option<&String>)
        ensures
            r matches Some(s) ==> self.current_user_id == Some(*s),
            r is None <==> self.current_user_id is None,
    {
        self.current_user_id.as_ref()
    }

    /// Records the identifier of the user the client is logged in as.
    pub fn set_current_user_id(&mut self, user_id: String)
        ensures
            only_current_user_id_differ(*old(self), *final(self)),
            final(self).current_user_id == Some(user_id),
    {
        self.current_user_id = Some(user_id);
    }

    /// The user the client is logged in as, if known and cached.
    pub fn get_current_user(&self) -> (r: Option<&User>)
        ensures
            r matches Some(u) ==> (self.current_user_id matches Some(id) && self.users.map().contains_key(id@) && *u == self.users.map()[id@]),
            r is None <==> !(self.current_user_id matches Some(id) && self.users.map().contains_key(id@)),
    {
        match &self.current_user_id {
            Some(id) => self.users.get(id.as_str()),
            None => None,
        }
    }

    /// Caches `voice_state` under its channel.
    pub fn insert_voice_state(&mut self, voice_state: ChannelVoiceState)
        ensures
            only_voice_states_differ(*old(self), *final(self)),
            final(self).voice_states.map() == old(self).voice_states.map().insert(voice_state.id@, voice_state),
    {
        let key = voice_state.id.clone();
        self.voice_states.insert(key, voice_state);
    }

    /// Takes the voice state of the channel `channel_id` out of the cache.
    pub fn remove_voice_state(&mut self, channel_id: &str) -> (r: Option<ChannelVoiceState>)
        ensures
            only_voice_states_differ(*old(self), *final(self)),
            final(self).voice_states.map() == old(self).voice_states.map().remove(channel_id@),
            r matches Some(v) ==> old(self).voice_states.map().contains_key(channel_id@) && v == old(self).voice_states.map()[channel_id@],
            r is None <==> !old(self).voice_states.map().contains_key(channel_id@),
    {
        self.voice_states.remove(channel_id)
    }

    /// The voice state of the channel `channel_id`, if cached.
    pub fn get_voice_state(&self, channel_id: &str) -> (r: Option<&ChannelVoiceState>)
        ensures
            r matches Some(v) ==> self.voice_states.map().contains_key(channel_id@) && *v == self.voice_states.map()[channel_id@],
            r is None <==> !self.voice_states.map().contains_key(channel_id@),
    {
        self.voice_states.get(channel_id)
    }

    /// Takes the user `user_id` out of the voice state of the channel `channel_id`.
    pub fn remove_voice_state_partipant(&mut self, channel_id: &str, user_id: &str) -> (r: Option<UserVoiceState>)
        ensures
            only_voice_states_differ(*old(self), *final(self)),
            ({
                let m = old(self).voice_states.map();
                let f = final(self).voice_states.map();
                if m.contains_key(channel_id@) {
                    match first_participant(m[channel_id@].participants@, user_id@) {
                        Some(i) => {
                            &&& r == Some(m[channel_id@].participants@[i])
                            &&& f == m.insert(channel_id@, ChannelVoiceState {
                                id: m[channel_id@].id,
                                participants: f[channel_id@].participants,
                            })
                            &&& f[channel_id@].participants@ == m[channel_id@].participants@.remove(i)
                        },
                        None => r is None && f == m,
                    }
                } else {
                    r is None && f == m
                }
            }),
            voice_view(final(self).voice_states.map()) == participant_left(
                voice_view(old(self).voice_states.map()),
                channel_id@,
                user_id@,
            ),
    {
        let ghost m = self.voice_states.map();
        match self.voice_states.take_entry(channel_id) {
            Some((pos, key, state)) => {
                let ChannelVoiceState { id, mut participants } = state;
                match find_participant(&participants, user_id) {
                    Some(i) => {
                        let removed = participants.remove(i);
                        self.voice_states.put_entry(pos, key, ChannelVoiceState { id, participants });
                        assert(voice_view(self.voice_states.map()) =~= participant_left(voice_view(m), channel_id@, user_id@));
                        Some(removed)
                    },
                    None => {
                        self.voice_states.put_entry(pos, key, ChannelVoiceState { id, participants });
                        assert(self.voice_states.map() =~= m);
                        None
                    },
                }
            },
            None => None,
        }
    }

    /// Caches `emoji` under its identifier.
    pub fn insert_emoji(&mut self, emoji: Emoji)
        ensures
            only_emojis_differ(*old(self), *final(self)),
            final(self).emojis.map() == old(self).emojis.map().insert(emoji.id@, emoji),
    {
        let key = emoji.id.clone();
        self.emojis.insert(key, emoji);
    }

    /// The emoji `emoji_id`, if cached.
    pub fn get_emoji(&self, emoji_id: &str) -> (r: Option<&Emoji>)
        ensures
            r matches Some(e) ==> self.emojis.map().contains_key(emoji_id@) && *e == self.emojis.map()[emoji_id@],
            r is None <==> !self.emojis.map().contains_key(emoji_id@),
    {
        self.emojis.get(emoji_id)
    }

    /// Takes the emoji `emoji_id` out of the cache.
    pub fn remove_emoji(&mut self, emoji_id: &str) -> (r: Option<Emoji>)
        ensures
            only_emojis_differ(*old(self), *final(self)),
            final(self).emojis.map() == old(self).emojis.map().remove(emoji_id@),
            r matches Some(e) ==> old(self).emojis.map().contains_key(emoji_id@) && e == old(self).emojis.map()[emoji_id@],
            r is None <==> !old(self).emojis.map().contains_key(emoji_id@),
    {
        self.emojis.remove(emoji_id)
    }

    /// Keeps only the emojis of the server `server_id` and gives back copies of them.
    ///
    /// The emojis of every other owner leave the cache; those of the server stay.
    pub fn remove_server_emojis(&mut self, server_id: &str) -> (r: Vec<Emoji>)
        ensures
            only_emojis_differ(*old(self), *final(self)),
            final(self).emojis.map() == entries_map(server_emojis(old(self).emojis.entries(), server_id@)),
            r@ == server_emojis(old(self).emojis.entries(), server_id@).map_values(|e: (String, Emoji)| e.1),
    {
        let n = self.emojis.len();
        let mut kept: KeyedStore<Emoji> = KeyedStore::new();
        let mut found: Vec<Emoji> = Vec::new();
        let mut i: usize = 0;
        while i < n
            invariant
                n == self.emojis.entries().len(),
                i <= n,
                self.emojis == old(self).emojis,
                kept.map() == entries_map(server_emojis(self.emojis.entries().take(i as int), server_id@)),
                found@ == server_emojis(self.emojis.entries().take(i as int), server_id@).map_values(|e: (String, Emoji)| e.1),
            decreases n - i,
        {
            let (k, e) = self.emojis.entry_at(i);
            let ghost prefix = self.emojis.entries().take(i + 1);
            assert(prefix.drop_last() =~= self.emojis.entries().take(i as int));
            assert(prefix.last() == self.emojis.entries()[i as int]);
            let matches = match &e.parent {
                EmojiParent::Server { id } => str_eq(id.as_str(), server_id),
                EmojiParent::Detached => false,
            };
            assert(matches == emoji_of_server(*e, server_id@));
            let ghost before = server_emojis(self.emojis.entries().take(i as int), server_id@);
            if matches {
                assert(server_emojis(prefix, server_id@) == before.push(prefix.last()));
                assert(before.push(prefix.last()).drop_last() =~= before);
                kept.insert(k.clone(), e.duplicate());
                found.push(e.duplicate());
                assert(found@ =~= server_emojis(prefix, server_id@).map_values(|e: (String, Emoji)| e.1));
            }
            else {
                assert(server_emojis(prefix, server_id@) == before);
            }
            i = i + 1;
        }
        assert(self.emojis.entries().take(n as int) =~= self.emojis.entries());
        self.emojis = kept;
        found
    }

    /// Puts `user_voice_state` in the channel's voice state, replacing the user's
    /// earlier state there; the channel's state is made if it had none.
    pub fn insert_voice_state_partipant(&mut self, channel_id: &str, user_voice_state: UserVoiceState)
        ensures
            only_voice_states_differ(*old(self), *final(self)),
            ({
                let m = old(self).voice_states.map();
                let f = final(self).voice_states.map();
                let before = if m.contains_key(channel_id@) { m[channel_id@].participants@ } else { Seq::empty() };
                &&& f.dom() == m.dom().insert(channel_id@)
                &&& forall|k: Seq<char>| k != channel_id@ && #[trigger] m.contains_key(k) ==> f[k] == m[k]
                &&& f[channel_id@].participants@ == without_user(before, user_voice_state.id@).push(user_voice_state)
                &&& f[channel_id@].id@ == if m.contains_key(channel_id@) { m[channel_id@].id@ } else { channel_id@ }
            }),
            voice_view(final(self).voice_states.map()) == participant_joined(
                voice_view(old(self).voice_states.map()),
                channel_id@,
                user_voice_state,
            ),
    {
        let ghost m = self.voice_states.map();
        let (pos, key, state) = match self.voice_states.take_entry(channel_id) {
            Some((pos, key, state)) => (pos, key, state),
            None => {
                let n = self.voice_states.len();
                (n, String::from_str(channel_id), ChannelVoiceState { id: String::from_str(channel_id), participants: Vec::new() })
            },
        };
        let ChannelVoiceState { id, participants } = state;
        let ghost before = participants@;
        let mut rest = participants;
        let mut kept: Vec<UserVoiceState> = Vec::new();
        let mut i: usize = 0;
        let total: usize = rest.len();
        assert(before.take(0) =~= Seq::<UserVoiceState>::empty());
        while rest.len() > 0
            invariant
                i <= before.len(),
                before.len() == total,
                rest@ == before.skip(i as int),
                kept@ == without_user(before.take(i as int), user_voice_state.id@),
            decreases rest@.len(),
        {
            assert(before.take(i + 1).drop_last() =~= before.take(i as int));
            let p = rest.remove(0);
            assert(p == before[i as int]);
            assert(rest@ =~= before.skip(i + 1));
            if !str_eq(p.id.as_str(), user_voice_state.id.as_str()) {
                kept.push(p);
            }
            i = i + 1;
        }
        assert(before.take(i as int) =~= before);
        kept.push(user_voice_state);
        self.voice_states.put_entry(pos, key, ChannelVoiceState { id, participants: kept });
        assert(voice_view(self.voice_states.map()) =~= participant_joined(voice_view(m), channel_id@, user_voice_state));
    }
}

impl GlobalCache {
    /// Runs `f` on the cached server `server_id`, if there is one, keeping what
    /// `f` leaves behind, and gives back its answer.
    pub fn update_server_with<R, F: FnOnce(&mut Server) -> R>(&mut self, server_id: &str, f: F) -> (r: Option<R>)
        requires
            forall|x: &mut Server| call_requires(f, (x,)),
        ensures
            only_servers_differ(*old(self), *final(self)),
            match r {
                None => !old(self).servers.map().contains_key(server_id@) && final(self).servers.map() == old(self).servers.map(),
                Some(out) => old(self).servers.map().contains_key(server_id@) && exists|m: &mut Server| {
                    &&& *m == old(self).servers.map()[server_id@]
                    &&& call_ensures(f, (m,), out)
                    &&& final(self).servers.map() == old(self).servers.map().insert(server_id@, *final(m))
                },
            },
    {
        self.servers.update_with(server_id, f)
    }

    /// Runs `f` on the cached user `user_id`, if there is one, keeping what `f`
    /// leaves behind, and gives back its answer.
    pub fn update_user_with<R, F: FnOnce(&mut User) -> R>(&mut self, user_id: &str, f: F) -> (r: Option<R>)
        requires
            forall|x: &mut User| call_requires(f, (x,)),
        ensures
            only_users_differ(*old(self), *final(self)),
            match r {
                None => !old(self).users.map().contains_key(user_id@) && final(self).users.map() == old(self).users.map(),
                Some(out) => old(self).users.map().contains_key(user_id@) && exists|m: &mut User| {
                    &&& *m == old(self).users.map()[user_id@]
                    &&& call_ensures(f, (m,), out)
                    &&& final(self).users.map() == old(self).users.map().insert(user_id@, *final(m))
                },
            },
    {
        self.users.update_with(user_id, f)
    }

    /// Runs `f` on the cached channel `channel_id`, if there is one, keeping
    /// what `f` leaves behind, and gives back its answer.
    pub fn update_channel_with<R, F: FnOnce(&mut Channel) -> R>(&mut self, channel_id: &str, f: F) -> (r: Option<R>)
        requires
            forall|x: &mut Channel| call_requires(f, (x,)),
        ensures
            only_channels_differ(*old(self), *final(self)),
            match r {
                None => !old(self).channels.map().contains_key(channel_id@) && final(self).channels.map() == old(self).channels.map(),
                Some(out) => old(self).channels.map().contains_key(channel_id@) && exists|m: &mut Channel| {
                    &&& *m == old(self).channels.map()[channel_id@]
                    &&& call_ensures(f, (m,), out)
                    &&& final(self).channels.map() == old(self).channels.map().insert(channel_id@, *final(m))
                },
            },
    {
        self.channels.update_with(channel_id, f)
    }

    /// Runs `f` on the member `user_id` of the server `server_id`, if cached,
    /// keeping what `f` leaves behind, and gives back its answer.
    pub fn update_member_with<R, F: FnOnce(&mut Member) -> R>(&mut self, server_id: &str, user_id: &str, f: F) -> (r: Option<R>)
        requires
            forall|x: &mut Member| call_requires(f, (x,)),
        ensures
            only_members_differ(*old(self), *final(self)),
            ({
                let t = member_tables(old(self).members.map());
                match r {
                    None => !(t.contains_key(server_id@) && t[server_id@].contains_key(user_id@))
                        && member_tables(final(self).members.map()) == t,
                    Some(out) => t.contains_key(server_id@) && t[server_id@].contains_key(user_id@)
                        && exists|m: &mut Member| {
                            &&& *m == t[server_id@][user_id@]
                            &&& call_ensures(f, (m,), out)
                            &&& member_tables(final(self).members.map())
                                == t.insert(server_id@, t[server_id@].insert(user_id@, *final(m)))
                        },
                }
            }),
    {
        let ghost t = member_tables(self.members.map());
        match self.members.take_entry(server_id) {
            Some((pos, key, mut table)) => {
                let out = table.update_with(user_id, f);
                self.members.put_entry(pos, key, table);
                match out {
                    Some(_) => {
                        assert(member_tables(self.members.map()) =~= t.insert(server_id@, table.map()));
                    },
                    None => {
                        assert(member_tables(self.members.map()) =~= t);
                    },
                }
                out
            },
            None => {
                assert(member_tables(self.members.map()) =~= t);
                None
            },
        }
    }
}

} // verus!
