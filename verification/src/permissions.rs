use vstd::prelude::*;

use crate::cache::{member_tables, GlobalCache};
use crate::models::{Channel, Member, OverrideField, RelationshipStatus, Server, User};
use crate::text::str_eq;

verus! {

broadcast use vstd::seq_lib::group_to_multiset_ensures;

/// The kind of channel a permission is computed for.
#[derive(Debug, Clone, Copy, PartialEq, Eq)]
pub enum ChannelType {
    SavedMessages,
    DirectMessage,
    Group,
    ServerChannel,
    Unknown,
}

/// The permissions a channel grants before any role's override.
#[derive(Debug, Clone, Copy, PartialEq, Eq)]
pub enum DefaultChannelPermissions {
    /// An override that only allows these bits.
    Allow(u64),
    /// The channel's stored override.
    Field(OverrideField),
    /// The empty override.
    Empty,
}

/// Where `x` goes in `s` when `s` is ordered by falling rank and `x` goes after
/// every entry of rank at least its own.
pub open spec fn rank_slot(s: Seq<(i64, OverrideField)>, x: (i64, OverrideField)) -> int
    decreases s.len(),
{
    if s.len() == 0 {
        0
    } else if s.last().0 >= x.0 {
        s.len() as int
    } else {
        rank_slot(s.drop_last(), x)
    }
}

/// The entries of `s` ordered by falling rank, entries of equal rank in the order they come in.
pub open spec fn sort_by_rank(s: Seq<(i64, OverrideField)>) -> Seq<(i64, OverrideField)>
    decreases s.len(),
{
    if s.len() == 0 {
        s
    } else {
        let t = sort_by_rank(s.drop_last());
        t.insert(rank_slot(t, s.last()), s.last())
    }
}

/// The ranks never rise along `s`.
pub open spec fn falls_by_rank(s: Seq<(i64, OverrideField)>) -> bool {
    forall|i: int, j: int| 0 <= i < j < s.len() ==> (#[trigger] s[i]).0 >= (#[trigger] s[j]).0
}

proof fn lemma_slot_bounds(s: Seq<(i64, OverrideField)>, x: (i64, OverrideField))
    ensures
        0 <= rank_slot(s, x) <= s.len(),
        forall|j: int| rank_slot(s, x) <= j < s.len() ==> (#[trigger] s[j]).0 < x.0,
        rank_slot(s, x) > 0 ==> s[rank_slot(s, x) - 1].0 >= x.0,
    decreases s.len(),
{
    if s.len() > 0 && s.last().0 < x.0 {
        lemma_slot_bounds(s.drop_last(), x);
        let p = rank_slot(s, x);
        assert forall|j: int| p <= j < s.len() implies (#[trigger] s[j]).0 < x.0 by {
            if j < s.len() - 1 {
                assert(s[j] == s.drop_last()[j]);
            }
        }
        if p > 0 {
            assert(s[p - 1] == s.drop_last()[p - 1]);
        }
    }
}

/// Sorting by rank orders by falling rank and keeps every entry.
pub proof fn lemma_sort_by_rank(s: Seq<(i64, OverrideField)>)
    ensures
        falls_by_rank(sort_by_rank(s)),
        sort_by_rank(s).to_multiset() == s.to_multiset(),
        sort_by_rank(s).len() == s.len(),
    decreases s.len(),
{
    if s.len() > 0 {
        let t = sort_by_rank(s.drop_last());
        lemma_sort_by_rank(s.drop_last());
        let x = s.last();
        let p = rank_slot(t, x);
        lemma_slot_bounds(t, x);
        let u = t.insert(p, x);
        assert forall|i: int, j: int| 0 <= i < j < u.len() implies (#[trigger] u[i]).0 >= (#[trigger] u[j]).0 by {
            if j < p {
                assert(u[i] == t[i] && u[j] == t[j]);
            } else if j == p {
                assert(u[j] == x);
                assert(u[i] == t[i]);
                assert(t[i].0 >= t[p - 1].0);
            } else if i < p {
                assert(u[i] == t[i] && u[j] == t[j - 1]);
            } else if i == p {
                assert(u[i] == x && u[j] == t[j - 1]);
            } else {
                assert(u[i] == t[i - 1] && u[j] == t[j - 1]);
            }
        }
        assert(s.drop_last().push(x) =~= s);
    }
}

/// Orders override entries by falling rank, keeping the order of equal ranks.
pub fn sort_overrides(items: Vec<(i64, OverrideField)>) -> (r: Vec<OverrideField>)
    ensures
        r@ == sort_by_rank(items@).map_values(|e: (i64, OverrideField)| e.1),
{
    let mut out: Vec<(i64, OverrideField)> = Vec::new();
    let mut i: usize = 0;
    assert(items@.take(0) =~= Seq::<(i64, OverrideField)>::empty());
    while i < items.len()
        invariant
            i <= items@.len(),
            out@ == sort_by_rank(items@.take(i as int)),
        decreases items@.len() - i,
    {
        let x = items[i];
        assert(items@.take(i + 1).drop_last() =~= items@.take(i as int));
        let mut p = out.len();
        assert(out@.take(p as int) =~= out@);
        while p > 0 && out[p - 1].0 < x.0
            invariant
                p <= out@.len(),
                rank_slot(out@, x) == rank_slot(out@.take(p as int), x),
            decreases p,
        {
            assert(out@.take(p as int).drop_last() =~= out@.take(p - 1));
            p = p - 1;
        }
        proof {
            assert(out@.take(out@.len() as int) =~= out@);
            if p > 0 {
                assert(out@.take(p as int).last() == out@[p - 1]);
            }
        }
        assert(rank_slot(out@, x) == p);
        out.insert(p, x);
        i = i + 1;
    }
    assert(items@.take(items@.len() as int) =~= items@);
    let mut res: Vec<OverrideField> = Vec::new();
    let mut j: usize = 0;
    while j < out.len()
        invariant
            j <= out@.len(),
            res@ == out@.take(j as int).map_values(|e: (i64, OverrideField)| e.1),
        decreases out@.len() - j,
    {
        res.push(out[j].1);
        assert(out@.take(j + 1).map_values(|e: (i64, OverrideField)| e.1) =~= out@.take(j as int).map_values(|e: (i64, OverrideField)| e.1).push(out@[j as int].1));
        j = j + 1;
    }
    assert(out@.take(out@.len() as int) =~= out@);
    res
}

/// The facts a permission calculation asks about, gathered from one user's point of view.
pub struct PermissionQuery<'a> {
    perspective: &'a User,
    user: Option<&'a User>,
    channel: Option<&'a Channel>,
    server: Option<&'a Server>,
    member: Option<&'a Member>,
}

/// The relationship status that a user records for `other`, from the first of its relations that names it.
pub open spec fn recorded_status(relations: Seq<crate::models::Relationship>, other: Seq<char>) -> RelationshipStatus
    decreases relations.len(),
{
    if relations.len() == 0 {
        RelationshipStatus::NoRelation
    } else if relations[0].user_id@ == other {
        relations[0].status
    } else {
        recorded_status(relations.drop_first(), other)
    }
}

/// Whether `s` holds an entry with the text `k`.
pub open spec fn has_text(s: Seq<String>, k: Seq<char>) -> bool {
    exists|i: int| 0 <= i < s.len() && (#[trigger] s[i])@ == k
}

fn contains_text(v: &Vec<String>, k: &str) -> (r: bool)
    ensures
        r == has_text(v@, k@),
{
    let mut i: usize = 0;
    while i < v.len()
        invariant
            i <= v@.len(),
            forall|j: int| 0 <= j < i ==> (#[trigger] v@[j])@ != k@,
        decreases v@.len() - i,
    {
        if str_eq(v[i].as_str(), k) {
            return true;
        }
        i = i + 1;
    }
    false
}

/// The roles of `member`, or none when there is no member.
pub open spec fn member_roles(member: Option<Member>) -> Seq<String> {
    match member {
        Some(m) => m.roles@,
        None => Seq::empty(),
    }
}

/// The server's roles that `roles` names, with their ranks, in the order the server lists them.
pub open spec fn held_roles(entries: Seq<(String, crate::models::Role)>, roles: Seq<String>) -> Seq<(i64, OverrideField)>
    decreases entries.len(),
{
    if entries.len() == 0 {
        Seq::empty()
    } else {
        let p = held_roles(entries.drop_last(), roles);
        let e = entries.last();
        if has_text(roles, e.0@) {
            p.push((e.1.rank, e.1.permissions))
        } else {
            p
        }
    }
}

/// The channel overrides for roles that `roles` names and the server knows, with the server's ranks.
pub open spec fn held_channel_roles(
    entries: Seq<(String, OverrideField)>,
    roles: Seq<String>,
    server_roles: Map<Seq<char>, crate::models::Role>,
) -> Seq<(i64, OverrideField)>
    decreases entries.len(),
{
    if entries.len() == 0 {
        Seq::empty()
    } else {
        let p = held_channel_roles(entries.drop_last(), roles, server_roles);
        let e = entries.last();
        if has_text(roles, e.0@) && server_roles.contains_key(e.0@) {
            p.push((server_roles[e.0@].rank, e.1))
        } else {
            p
        }
    }
}

/// Some recipient in `rs` is not `id`.
pub open spec fn has_other(rs: Seq<String>, id: Seq<char>) -> bool {
    exists|i: int| 0 <= i < rs.len() && (#[trigger] rs[i])@ != id
}

/// `i` is the first recipient in `rs` that is not `id`.
pub open spec fn is_first_other(rs: Seq<String>, id: Seq<char>, i: int) -> bool {
    &&& 0 <= i < rs.len()
    &&& rs[i]@ != id
    &&& forall|j: int| 0 <= j < i ==> (#[trigger] rs[j])@ == id
}

fn first_other(rs: &Vec<String>, id: &str) -> (r: usize)
    requires
        has_other(rs@, id@),
    ensures
        is_first_other(rs@, id@, r as int),
{
    let mut i: usize = 0;
    while i < rs.len()
        invariant
            i <= rs@.len(),
            has_other(rs@, id@),
            forall|j: int| 0 <= j < i ==> (#[trigger] rs@[j])@ == id@,
        decreases rs@.len() - i,
    {
        if !str_eq(rs[i].as_str(), id) {
            return i;
        }
        i = i + 1;
    }
    proof {
        let k = choose|k: int| 0 <= k < rs@.len() && (#[trigger] rs@[k])@ != id@;
        assert(rs@[k]@ == id@);
    }
    0
}

/// The query's channel is one `set_recipient_as_user` handles: none, or a
/// direct message with a recipient other than the perspective user.
pub open spec fn recipient_settable(channel: Option<Channel>, perspective: Seq<char>) -> bool {
    match channel {
        None => true,
        Some(Channel::DirectMessage { recipients, .. }) => has_other(recipients@, perspective),
        _ => false,
    }
}

impl<'a> PermissionQuery<'a> {
    /// The user whose permissions are asked about.
    pub closed spec fn perspective_view(self) -> User {
        *self.perspective
    }

    /// The other user taken into account, if any.
    pub closed spec fn user_view(self) -> Option<User> {
        match self.user { Some(u) => Some(*u), None => None }
    }

    /// The channel taken into account, if any.
    pub closed spec fn channel_view(self) -> Option<Channel> {
        match self.channel { Some(c) => Some(*c), None => None }
    }

    /// The server taken into account, if any.
    pub closed spec fn server_view(self) -> Option<Server> {
        match self.server { Some(c) => Some(*c), None => None }
    }

    /// The perspective user's membership taken into account, if any.
    pub closed spec fn member_view(self) -> Option<Member> {
        match self.member { Some(c) => Some(*c), None => None }
    }

    /// A query from `perspective`'s point of view, with nothing else known.
    pub fn new(perspective: &'a User) -> (r: Self)
        ensures
            r.perspective_view() == *perspective,
            r.user_view() is None,
            r.channel_view() is None,
            r.server_view() is None,
            r.member_view() is None,
    {
        PermissionQuery { perspective, user: None, channel: None, server: None, member: None }
    }

    /// Takes `user` into account.
    pub fn user(self, user: &'a User) -> (r: Self)
        ensures
            r.user_view() == Some(*user),
            r.perspective_view() == self.perspective_view(),
            r.channel_view() == self.channel_view(),
            r.server_view() == self.server_view(),
            r.member_view() == self.member_view(),
    {
        PermissionQuery { user: Some(user), ..self }
    }

    /// Takes `channel` into account.
    pub fn channel(self, channel: &'a Channel) -> (r: Self)
        ensures
            r.channel_view() == Some(*channel),
            r.perspective_view() == self.perspective_view(),
            r.user_view() == self.user_view(),
            r.server_view() == self.server_view(),
            r.member_view() == self.member_view(),
    {
        PermissionQuery { channel: Some(channel), ..self }
    }

    /// Takes `server` into account.
    pub fn server(self, server: &'a Server) -> (r: Self)
        ensures
            r.server_view() == Some(*server),
            r.perspective_view() == self.perspective_view(),
            r.user_view() == self.user_view(),
            r.channel_view() == self.channel_view(),
            r.member_view() == self.member_view(),
    {
        PermissionQuery { server: Some(server), ..self }
    }

    /// Takes the perspective user's `member`ship into account.
    pub fn member(self, member: &'a Member) -> (r: Self)
        ensures
            r.member_view() == Some(*member),
            r.perspective_view() == self.perspective_view(),
            r.user_view() == self.user_view(),
            r.channel_view() == self.channel_view(),
            r.server_view() == self.server_view(),
    {
        PermissionQuery { member: Some(member), ..self }
    }

    /// Whether the perspective user is privileged.
    pub fn are_we_privileged(&self) -> (r: bool)
        ensures
            r == self.perspective_view().privileged,
    {
        self.perspective.privileged
    }

    /// Whether the perspective user is a bot.
    pub fn are_we_a_bot(&self) -> (r: bool)
        ensures
            r == self.perspective_view().bot is Some,
    {
        self.perspective.bot.is_some()
    }

    /// Whether the perspective user and the other user are the same.
    pub fn are_the_users_same(&self) -> (r: bool)
        ensures
            r == (self.user_view() matches Some(u) && u.id@ == self.perspective_view().id@),
    {
        match self.user {
            Some(u) => str_eq(self.perspective.id.as_str(), u.id.as_str()),
            None => false,
        }
    }

    /// How the perspective user stands to the other user: as itself (also
    /// towards the bots it owns), else as its relations record, else no relation.
    #[verifier::loop_isolation(false)]
    pub fn user_relationship(&self) -> (r: RelationshipStatus)
        ensures
            r == match self.user_view() {
                None => RelationshipStatus::NoRelation,
                Some(o) => if self.perspective_view().id@ == o.id@ {
                    RelationshipStatus::User
                } else if o.bot matches Some(b) && self.perspective_view().id@ == b.owner_id@ {
                    RelationshipStatus::User
                } else {
                    recorded_status(self.perspective_view().relations@, o.id@)
                },
            },
    {
        match self.user {
            None => RelationshipStatus::NoRelation,
            Some(other) => {
                if str_eq(self.perspective.id.as_str(), other.id.as_str()) {
                    return RelationshipStatus::User;
                }
                if let Some(bot) = &other.bot {
                    if str_eq(self.perspective.id.as_str(), bot.owner_id.as_str()) {
                        return RelationshipStatus::User;
                    }
                }
                let rels = &self.perspective.relations;
                let mut i: usize = 0;
                assert(rels@.skip(0) =~= rels@);
                while i < rels.len()
                    invariant
                        i <= rels@.len(),
                        recorded_status(rels@, other.id@) == recorded_status(rels@.skip(i as int), other.id@),
                    decreases rels@.len() - i,
                {
                    assert(rels@.skip(i as int).drop_first() =~= rels@.skip(i + 1));
                    assert(rels@.skip(i as int)[0] == rels@[i as int]);
                    if str_eq(rels[i].user_id.as_str(), other.id.as_str()) {
                        return rels[i].status;
                    }
                    i = i + 1;
                }
                assert(rels@.skip(i as int) =~= Seq::<crate::models::Relationship>::empty());
                RelationshipStatus::NoRelation
            },
        }
    }

    /// Whether the other user is a bot.
    pub fn user_is_bot(&self) -> (r: bool)
        ensures
            r == (self.user_view() matches Some(u) && u.bot is Some),
    {
        match self.user {
            Some(u) => u.bot.is_some(),
            None => false,
        }
    }

    /// Whether the two users share a server or a group; always granted here.
    pub fn have_mutual_connection(&self) -> (r: bool)
        ensures
            r,
    {
        true
    }

    /// Whether the perspective user owns the server.
    pub fn are_we_server_owner(&self) -> (r: bool)
        ensures
            r == (self.server_view() matches Some(s) && s.owner@ == self.perspective_view().id@),
    {
        match self.server {
            Some(s) => str_eq(s.owner.as_str(), self.perspective.id.as_str()),
            None => false,
        }
    }

    /// Whether the perspective user is a member of the server, looking the
    /// membership up in `cache` where the query has none: `Some(false)` without
    /// a server; `Some(true)` with a membership at hand, or with one cached, which
    /// the query then takes into account; `None` when neither holds, and the
    /// membership must be fetched (see `after_member_fetch`).
    pub fn are_we_a_member(&mut self, cache: &'a GlobalCache) -> (r: Option<bool>)
        ensures
            match old(self).server_view() {
                None => r == Some(false) && *final(self) == *old(self),
                Some(s) => if old(self).member_view() is Some {
                    r == Some(true) && *final(self) == *old(self)
                } else if member_tables(cache.members.map()).contains_key(s.id@)
                    && member_tables(cache.members.map())[s.id@].contains_key(old(self).perspective_view().id@) {
                    &&& r == Some(true)
                    &&& final(self).member_view() == Some(member_tables(cache.members.map())[s.id@][old(self).perspective_view().id@])
                    &&& final(self).perspective_view() == old(self).perspective_view()
                    &&& final(self).user_view() == old(self).user_view()
                    &&& final(self).channel_view() == old(self).channel_view()
                    &&& final(self).server_view() == old(self).server_view()
                } else {
                    r is None && *final(self) == *old(self)
                },
            },
    {
        match self.server {
            None => Some(false),
            Some(server) => {
                if self.member.is_some() {
                    Some(true)
                } else {
                    match cache.get_member(server.id.as_str(), self.perspective.id.as_str()) {
                        Some(m) => {
                            self.member = Some(m);
                            Some(true)
                        },
                        None => None,
                    }
                }
            },
        }
    }

    /// Finishes `are_we_a_member` once the membership was fetched: a fetched
    /// membership is taken into account and makes the answer yes; a failed fetch
    /// makes it no and leaves the query as it was.
    pub fn after_member_fetch(&mut self, fetched: Option<&'a Member>) -> (r: bool)
        ensures
            r == fetched is Some,
            match fetched {
                Some(m) => {
                    &&& final(self).member_view() == Some(*m)
                    &&& final(self).perspective_view() == old(self).perspective_view()
                    &&& final(self).user_view() == old(self).user_view()
                    &&& final(self).channel_view() == old(self).channel_view()
                    &&& final(self).server_view() == old(self).server_view()
                },
                None => *final(self) == *old(self),
            },
    {
        match fetched {
            Some(m) => {
                self.member = Some(m);
                true
            },
            None => false,
        }
    }

    /// The server's default permissions, or none without a server.
    pub fn get_default_server_permissions(&self) -> (r: u64)
        ensures
            r == match self.server_view() {
                Some(s) => s.default_permissions as u64,
                None => 0u64,
            },
    {
        match self.server {
            Some(s) => s.default_permissions as u64,
            None => 0,
        }
    }

    /// The overrides of the server roles the perspective user holds, by falling rank.
    pub fn get_our_server_role_overrides(&self) -> (r: Vec<OverrideField>)
        ensures
            r@ == match self.server_view() {
                Some(s) => sort_by_rank(held_roles(s.roles.entries(), member_roles(self.member_view()))).map_values(
                    |e: (i64, OverrideField)| e.1,
                ),
                None => Seq::empty(),
            },
    {
        match self.server {
            Some(server) => {
                let empty: Vec<String> = Vec::new();
                let roles = match self.member {
                    Some(m) => &m.roles,
                    None => &empty,
                };
                let n = server.roles.len();
                let mut items: Vec<(i64, OverrideField)> = Vec::new();
                let mut i: usize = 0;
                assert(server.roles.entries().take(0) =~= Seq::<(String, crate::models::Role)>::empty());
                while i < n
                    invariant
                        n == server.roles.entries().len(),
                        i <= n,
                        roles@ == member_roles(self.member_view()),
                        items@ == held_roles(server.roles.entries().take(i as int), roles@),
                    decreases n - i,
                {
                    let (id, role) = server.roles.entry_at(i);
                    assert(server.roles.entries().take(i + 1).drop_last() =~= server.roles.entries().take(i as int));
                    if contains_text(roles, id.as_str()) {
                        items.push((role.rank, role.permissions));
                    }
                    i = i + 1;
                }
                assert(server.roles.entries().take(n as int) =~= server.roles.entries());
                sort_overrides(items)
            },
            None => Vec::new(),
        }
    }

    /// Whether the perspective user is timed out in the server.
    pub fn are_we_timed_out(&self) -> (r: bool)
        ensures
            r == (self.member_view() matches Some(m) && m.timeout is Some),
    {
        match self.member {
            Some(m) => m.timeout.is_some(),
            None => false,
        }
    }

    /// Whether the perspective user may publish voice: yes unless its membership says no.
    pub fn do_we_have_publish_overwrites(&self) -> (r: bool)
        ensures
            r == match self.member_view() {
                Some(m) => m.can_publish,
                None => true,
            },
    {
        match self.member {
            Some(m) => m.can_publish,
            None => true,
        }
    }

    /// Whether the perspective user may receive voice: yes unless its membership says no.
    pub fn do_we_have_receive_overwrites(&self) -> (r: bool)
        ensures
            r == match self.member_view() {
                Some(m) => m.can_receive,
                None => true,
            },
    {
        match self.member {
            Some(m) => m.can_receive,
            None => true,
        }
    }

    /// The kind of the channel, or `Unknown` without one.
    pub fn get_channel_type(&self) -> (r: ChannelType)
        ensures
            r == match self.channel_view() {
                Some(Channel::DirectMessage { .. }) => ChannelType::DirectMessage,
                Some(Channel::Group { .. }) => ChannelType::Group,
                Some(Channel::SavedMessages { .. }) => ChannelType::SavedMessages,
                Some(Channel::TextChannel { .. }) => ChannelType::ServerChannel,
                None => ChannelType::Unknown,
            },
    {
        match self.channel {
            Some(Channel::DirectMessage { .. }) => ChannelType::DirectMessage,
            Some(Channel::Group { .. }) => ChannelType::Group,
            Some(Channel::SavedMessages { .. }) => ChannelType::SavedMessages,
            Some(Channel::TextChannel { .. }) => ChannelType::ServerChannel,
            None => ChannelType::Unknown,
        }
    }

    /// The permissions the channel grants before role overrides: a group's own
    /// permissions (else `dm_default`) as an allow-only override, a server
    /// channel's stored default, or the empty override.
    pub fn get_default_channel_permissions(&self, dm_default: u64) -> (r: DefaultChannelPermissions)
        ensures
            r == match self.channel_view() {
                Some(Channel::Group { permissions, .. }) => DefaultChannelPermissions::Allow(
                    match permissions {
                        Some(p) => p as u64,
                        None => ((dm_default as i64) as u64),
                    },
                ),
                Some(Channel::TextChannel { default_permissions, .. }) => DefaultChannelPermissions::Field(
                    match default_permissions {
                        Some(f) => f,
                        None => OverrideField { a: 0, d: 0 },
                    },
                ),
                _ => DefaultChannelPermissions::Empty,
            },
    {
        match self.channel {
            Some(Channel::Group { permissions, .. }) => {
                let p: i64 = match permissions {
                    Some(p) => *p,
                    None => dm_default as i64,
                };
                DefaultChannelPermissions::Allow(p as u64)
            },
            Some(Channel::TextChannel { default_permissions, .. }) => DefaultChannelPermissions::Field(
                match default_permissions {
                    Some(f) => *f,
                    None => OverrideField { a: 0, d: 0 },
                },
            ),
            _ => DefaultChannelPermissions::Empty,
        }
    }

    /// The channel overrides of the server roles the perspective user holds, by falling rank.
    pub fn get_our_channel_role_overrides(&self) -> (r: Vec<OverrideField>)
        ensures
            r@ == match (self.channel_view(), self.server_view()) {
                (Some(Channel::TextChannel { role_permissions, .. }), Some(s)) => sort_by_rank(
                    held_channel_roles(role_permissions@, member_roles(self.member_view()), s.roles.map()),
                ).map_values(|e: (i64, OverrideField)| e.1),
                _ => Seq::empty(),
            },
    {
        match (self.channel, self.server) {
            (Some(Channel::TextChannel { role_permissions, .. }), Some(server)) => {
                let empty: Vec<String> = Vec::new();
                let roles = match self.member {
                    Some(m) => &m.roles,
                    None => &empty,
                };
                let mut items: Vec<(i64, OverrideField)> = Vec::new();
                let mut i: usize = 0;
                assert(role_permissions@.take(0) =~= Seq::<(String, OverrideField)>::empty());
                while i < role_permissions.len()
                    invariant
                        i <= role_permissions@.len(),
                        roles@ == member_roles(self.member_view()),
                        items@ == held_channel_roles(role_permissions@.take(i as int), roles@, server.roles.map()),
                    decreases role_permissions@.len() - i,
                {
                    let e = &role_permissions[i];
                    assert(role_permissions@.take(i + 1).drop_last() =~= role_permissions@.take(i as int));
                    if contains_text(roles, e.0.as_str()) {
                        match server.roles.get(e.0.as_str()) {
                            Some(role) => items.push((role.rank, e.1)),
                            None => {},
                        }
                    }
                    i = i + 1;
                }
                assert(role_permissions@.take(role_permissions@.len() as int) =~= role_permissions@);
                sort_overrides(items)
            },
            _ => Vec::new(),
        }
    }

    /// Whether the perspective user owns the group, or is the user of the saved-messages channel.
    pub fn do_we_own_the_channel(&self) -> (r: bool)
        ensures
            r == match self.channel_view() {
                Some(Channel::Group { owner, .. }) => owner@ == self.perspective_view().id@,
                Some(Channel::SavedMessages { user, .. }) => user@ == self.perspective_view().id@,
                _ => false,
            },
    {
        match self.channel {
            Some(Channel::Group { owner, .. }) => str_eq(owner.as_str(), self.perspective.id.as_str()),
            Some(Channel::SavedMessages { user, .. }) => str_eq(user.as_str(), self.perspective.id.as_str()),
            _ => false,
        }
    }

    /// Whether the perspective user is a recipient of the direct message or group.
    pub fn are_we_part_of_the_channel(&self) -> (r: bool)
        ensures
            r == match self.channel_view() {
                Some(Channel::DirectMessage { recipients, .. }) => has_text(recipients@, self.perspective_view().id@),
                Some(Channel::Group { recipients, .. }) => has_text(recipients@, self.perspective_view().id@),
                _ => false,
            },
    {
        match self.channel {
            Some(Channel::DirectMessage { recipients, .. }) => contains_text(recipients, self.perspective.id.as_str()),
            Some(Channel::Group { recipients, .. }) => contains_text(recipients, self.perspective.id.as_str()),
            _ => false,
        }
    }

    /// Takes the other recipient of the direct message channel into account as
    /// the user, from the cache; where the cache lacks that user, the query is
    /// left as it is and the identifier to fetch the user by is returned with it.
    pub fn set_recipient_as_user(self, cache: &'a GlobalCache) -> (r: (Self, Option<String>))
        requires
            recipient_settable(self.channel_view(), self.perspective_view().id@),
        ensures
            match self.channel_view() {
                Some(Channel::DirectMessage { recipients, .. }) => exists|i: int| {
                    &&& #[trigger] is_first_other(recipients@, self.perspective_view().id@, i)
                    &&& if cache.users.map().contains_key(recipients@[i]@) {
                        &&& r.0.user_view() == Some(cache.users.map()[recipients@[i]@])
                        &&& r.0.perspective_view() == self.perspective_view()
                        &&& r.0.channel_view() == self.channel_view()
                        &&& r.0.server_view() == self.server_view()
                        &&& r.0.member_view() == self.member_view()
                        &&& r.1 is None
                    } else {
                        &&& r.0 == self
                        &&& r.1 matches Some(id) && id@ == recipients@[i]@
                    }
                },
                _ => r.0 == self && r.1 is None,
            },
    {
        match self.channel {
            Some(Channel::DirectMessage { recipients, .. }) => {
                let i = first_other(recipients, self.perspective.id.as_str());
                let id = &recipients[i];
                match cache.get_user(id.as_str()) {
                    Some(u) => (self.user(u), None),
                    None => (self, Some(id.clone())),
                }
            },
            _ => (self, None),
        }
    }

    /// Takes the server of the server channel into account, from the cache,
    /// unless the query already has that server.
    pub fn set_server_from_channel(self, cache: &'a GlobalCache) -> (r: Self)
        requires
            self.channel_view() matches Some(c) ==> c is TextChannel,
        ensures
            match self.channel_view() {
                Some(Channel::TextChannel { server, .. }) => {
                    if self.server_view() matches Some(s) && s.id@ == server@ {
                        r == self
                    } else if cache.servers.map().contains_key(server@) {
                        &&& r.server_view() == Some(cache.servers.map()[server@])
                        &&& r.perspective_view() == self.perspective_view()
                        &&& r.user_view() == self.user_view()
                        &&& r.channel_view() == self.channel_view()
                        &&& r.member_view() == self.member_view()
                    } else {
                        r == self
                    }
                },
                _ => r == self,
            },
    {
        match self.channel {
            Some(Channel::TextChannel { server, .. }) => {
                if let Some(known) = self.server {
                    if str_eq(server.as_str(), known.id.as_str()) {
                        return self;
                    }
                }
                match cache.get_server(server.as_str()) {
                    Some(s) => self.server(s),
                    None => self,
                }
            },
            _ => self,
        }
    }

}

/// A query from the point of view of the user the client is logged in as,
/// about `user`.
pub fn user_permissions_query<'a>(cache: &'a GlobalCache, user: &'a User) -> (r: PermissionQuery<'a>)
    requires
        cache.current_user_id matches Some(id) && cache.users.map().contains_key(id@),
    ensures
        r.perspective_view() == cache.users.map()[cache.current_user_id->0@],
        r.user_view() == Some(*user),
        r.channel_view() is None,
        r.server_view() is None,
        r.member_view() is None,
{
    let ourself = cache.get_current_user().unwrap();
    PermissionQuery::new(ourself).user(user)
}

} // verus!
