use vstd::prelude::*;

use crate::models::{reactions_view, texts};
use crate::text::str_eq;

verus! {

/// Reactions as plain values: for each emoji, the users who reacted with it.
pub type ReactionsView = Seq<(Seq<char>, Seq<Seq<char>>)>;

/// The position of the first entry for `emoji`.
pub open spec fn emoji_position(rs: ReactionsView, emoji: Seq<char>) -> Option<int>
    decreases rs.len(),
{
    if rs.len() == 0 {
        None
    } else if rs[0].0 == emoji {
        Some(0)
    } else {
        match emoji_position(rs.drop_first(), emoji) {
            Some(i) => Some(i + 1),
            None => None,
        }
    }
}

/// The position of the first occurrence of `x` in `s`.
pub open spec fn text_position(s: Seq<Seq<char>>, x: Seq<char>) -> Option<int>
    decreases s.len(),
{
    if s.len() == 0 {
        None
    } else if s[0] == x {
        Some(0)
    } else {
        match text_position(s.drop_first(), x) {
            Some(i) => Some(i + 1),
            None => None,
        }
    }
}

/// `s` with the element at `i` replaced by the last one, and the last one dropped.
pub open spec fn swap_removed<A>(s: Seq<A>, i: int) -> Seq<A> {
    s.update(i, s.last()).drop_last()
}

/// The reactions after `user` reacts with `emoji`: the user joins the end of the
/// emoji's list unless already in it, and a new emoji joins the end of the reactions.
pub open spec fn reacted(rs: ReactionsView, emoji: Seq<char>, user: Seq<char>) -> ReactionsView {
    match emoji_position(rs, emoji) {
        Some(i) => if text_position(rs[i].1, user) is Some {
            rs
        } else {
            rs.update(i, (rs[i].0, rs[i].1.push(user)))
        },
        None => rs.push((emoji, seq![user])),
    }
}

/// The users of a reaction after `user` leaves it: the last user takes the leaver's place.
pub open spec fn without_reactor(users: Seq<Seq<char>>, user: Seq<char>) -> Seq<Seq<char>> {
    match text_position(users, user) {
        Some(j) => swap_removed(users, j),
        None => users,
    }
}

/// The reactions after `user` takes back the reaction `emoji`; when `drop_empty`
/// holds, an emoji left with no users is taken out, the last entry taking its place.
pub open spec fn unreacted(rs: ReactionsView, emoji: Seq<char>, user: Seq<char>, drop_empty: bool) -> ReactionsView {
    match emoji_position(rs, emoji) {
        Some(i) => {
            let users = without_reactor(rs[i].1, user);
            if drop_empty && users.len() == 0 {
                swap_removed(rs, i)
            } else {
                rs.update(i, (rs[i].0, users))
            }
        },
        None => rs,
    }
}

/// The reactions after the reaction `emoji` is taken off; the last entry takes its place.
pub open spec fn reaction_removed(rs: ReactionsView, emoji: Seq<char>) -> ReactionsView {
    match emoji_position(rs, emoji) {
        Some(i) => swap_removed(rs, i),
        None => rs,
    }
}

proof fn lemma_emoji_position(rs: ReactionsView, emoji: Seq<char>)
    ensures
        emoji_position(rs, emoji) matches Some(i) ==> 0 <= i < rs.len() && rs[i].0 == emoji
            && forall|j: int| 0 <= j < i ==> (#[trigger] rs[j]).0 != emoji,
        emoji_position(rs, emoji) is None ==> forall|j: int| 0 <= j < rs.len() ==> (#[trigger] rs[j]).0 != emoji,
    decreases rs.len(),
{
    if rs.len() > 0 {
        lemma_emoji_position(rs.drop_first(), emoji);
        if rs[0].0 != emoji {
            assert forall|j: int| 0 < j < rs.len() implies rs[j] == rs.drop_first()[j - 1] by {}
        }
    }
}

proof fn lemma_text_position(s: Seq<Seq<char>>, x: Seq<char>)
    ensures
        text_position(s, x) matches Some(i) ==> 0 <= i < s.len() && s[i] == x
            && forall|j: int| 0 <= j < i ==> (#[trigger] s[j]) != x,
        text_position(s, x) is None ==> forall|j: int| 0 <= j < s.len() ==> (#[trigger] s[j]) != x,
    decreases s.len(),
{
    if s.len() > 0 {
        lemma_text_position(s.drop_first(), x);
        if s[0] != x {
            assert forall|j: int| 0 < j < s.len() implies s[j] == s.drop_first()[j - 1] by {}
        }
    }
}

proof fn lemma_emoji_position_push(rs: ReactionsView, x: (Seq<char>, Seq<Seq<char>>))
    requires
        emoji_position(rs, x.0) is None,
    ensures
        emoji_position(rs.push(x), x.0) == Some(rs.len() as int),
    decreases rs.len(),
{
    if rs.len() > 0 {
        assert(rs.push(x).drop_first() =~= rs.drop_first().push(x));
        lemma_emoji_position_push(rs.drop_first(), x);
    }
}

proof fn lemma_text_position_push(s: Seq<Seq<char>>, x: Seq<char>)
    requires
        text_position(s, x) is None,
    ensures
        text_position(s.push(x), x) == Some(s.len() as int),
    decreases s.len(),
{
    if s.len() > 0 {
        assert(s.push(x).drop_first() =~= s.drop_first().push(x));
        lemma_text_position_push(s.drop_first(), x);
    }
}

proof fn lemma_emoji_position_update(rs: ReactionsView, i: int, users: Seq<Seq<char>>, emoji: Seq<char>)
    requires
        emoji_position(rs, emoji) == Some(i),
    ensures
        emoji_position(rs.update(i, (rs[i].0, users)), emoji) == Some(i),
    decreases rs.len(),
{
    lemma_emoji_position(rs, emoji);
    if i > 0 {
        let u = rs.update(i, (rs[i].0, users));
        assert(u.drop_first() =~= rs.drop_first().update(i - 1, (rs[i].0, users)));
        lemma_emoji_position_update(rs.drop_first(), i - 1, users, emoji);
    }
}

/// A reaction that a user takes back right after making it leaves the reactions as
/// they were, provided the user had not reacted with that emoji before and an emoji
/// already there had at least one user.
pub proof fn lemma_react_then_unreact(rs: ReactionsView, emoji: Seq<char>, user: Seq<char>)
    requires
        match emoji_position(rs, emoji) {
            Some(i) => text_position(rs[i].1, user) is None && rs[i].1.len() > 0,
            None => true,
        },
    ensures
        unreacted(reacted(rs, emoji, user), emoji, user, true) == rs,
{
    match emoji_position(rs, emoji) {
        Some(i) => {
            lemma_emoji_position(rs, emoji);
            let users = rs[i].1;
            let r2 = rs.update(i, (rs[i].0, users.push(user)));
            assert(reacted(rs, emoji, user) == r2);
            lemma_emoji_position_update(rs, i, users.push(user), emoji);
            lemma_text_position_push(users, user);
            assert(without_reactor(users.push(user), user) =~= users);
            assert(r2.update(i, (r2[i].0, users)) =~= rs);
        },
        None => {
            let r2 = rs.push((emoji, seq![user]));
            lemma_emoji_position_push(rs, (emoji, seq![user]));
            assert(text_position(seq![user], user) == Some(0int));
            assert(without_reactor(seq![user], user) =~= Seq::<Seq<char>>::empty());
            assert(swap_removed(r2, rs.len() as int) =~= rs);
        },
    }
}

fn find_emoji(rs: &Vec<(String, Vec<String>)>, emoji: &str) -> (r: Option<usize>)
    ensures
        r matches Some(i) ==> emoji_position(reactions_view(rs@), emoji@) == Some(i as int) && i < rs@.len(),
        r is None <==> emoji_position(reactions_view(rs@), emoji@) is None,
{
    let ghost v = reactions_view(rs@);
    proof {
        lemma_emoji_position(v, emoji@);
    }
    let mut i: usize = 0;
    while i < rs.len()
        invariant
            i <= rs@.len(),
            v == reactions_view(rs@),
            forall|j: int| 0 <= j < i ==> (#[trigger] v[j]).0 != emoji@,
        decreases rs@.len() - i,
    {
        assert(v[i as int].0 == rs@[i as int].0@);
        if str_eq(rs[i].0.as_str(), emoji) {
            proof {
                lemma_emoji_position(v, emoji@);
                if emoji_position(v, emoji@) != Some(i as int) {
                    let k = emoji_position(v, emoji@)->0;
                    assert(k < i || k > i);
                }
            }
            return Some(i);
        }
        i = i + 1;
    }
    None
}

fn find_text(s: &Vec<String>, x: &str) -> (r: Option<usize>)
    ensures
        r matches Some(i) ==> text_position(texts(s@), x@) == Some(i as int) && i < s@.len(),
        r is None <==> text_position(texts(s@), x@) is None,
{
    let ghost v = texts(s@);
    proof {
        lemma_text_position(v, x@);
    }
    let mut i: usize = 0;
    while i < s.len()
        invariant
            i <= s@.len(),
            v == texts(s@),
            forall|j: int| 0 <= j < i ==> (#[trigger] v[j]) != x@,
        decreases s@.len() - i,
    {
        assert(v[i as int] == s@[i as int]@);
        if str_eq(s[i].as_str(), x) {
            proof {
                lemma_text_position(v, x@);
                if text_position(v, x@) != Some(i as int) {
                    let k = text_position(v, x@)->0;
                    assert(k < i || k > i);
                }
            }
            return Some(i);
        }
        i = i + 1;
    }
    None
}

proof fn lemma_reactions_update(s: Seq<(String, Vec<String>)>, i: int, e: (String, Vec<String>))
    requires
        0 <= i < s.len(),
    ensures
        reactions_view(s.remove(i).insert(i, e)) == reactions_view(s).update(i, (e.0@, texts(e.1@))),
{
    assert(reactions_view(s.remove(i).insert(i, e)) =~= reactions_view(s).update(i, (e.0@, texts(e.1@))));
}

/// Records that `user` reacted with `emoji`.
pub fn add_reaction(rs: &mut Vec<(String, Vec<String>)>, emoji: &str, user: &str)
    ensures
        reactions_view(final(rs)@) == reacted(reactions_view(old(rs)@), emoji@, user@),
{
    match find_emoji(rs, emoji) {
        Some(i) => {
            let ghost s = rs@;
            let (k, mut users) = rs.remove(i);
            assert(reactions_view(s)[i as int] == (k@, texts(users@)));
            if find_text(&users, user).is_none() {
                users.push(String::from_str(user));
                assert(texts(users@) =~= texts(s[i as int].1@).push(user@));
            }
            rs.insert(i, (k, users));
            proof {
                lemma_reactions_update(s, i as int, rs@[i as int]);
                assert(s.remove(i as int).insert(i as int, rs@[i as int]) =~= rs@);
            }
        },
        None => {
            let mut users: Vec<String> = Vec::new();
            users.push(String::from_str(user));
            let ghost s = rs@;
            assert(texts(users@) =~= seq![user@]);
            rs.push((String::from_str(emoji), users));
            assert(reactions_view(rs@) =~= reactions_view(s).push((emoji@, seq![user@])));
        },
    }
}

/// Takes back the reaction of `user` with `emoji`; when `drop_empty` holds, an
/// emoji left with no users is taken out.
pub fn take_back_reaction(rs: &mut Vec<(String, Vec<String>)>, emoji: &str, user: &str, drop_empty: bool)
    ensures
        reactions_view(final(rs)@) == unreacted(reactions_view(old(rs)@), emoji@, user@, drop_empty),
{
    match find_emoji(rs, emoji) {
        Some(i) => {
            let ghost s = rs@;
            let (k, mut users) = rs.remove(i);
            assert(reactions_view(s)[i as int] == (k@, texts(users@)));
            let ghost before = users@;
            match find_text(&users, user) {
                Some(j) => {
                    users.swap_remove(j);
                    assert(texts(users@) =~= swap_removed(texts(before), j as int));
                },
                None => {},
            }
            if drop_empty && users.len() == 0 {
                let ghost e = (k, users);
                rs.insert(i, (k, users));
                assert(rs@ =~= s.update(i as int, e));
                rs.swap_remove(i);
                assert(reactions_view(rs@) =~= swap_removed(reactions_view(s), i as int));
            } else {
                rs.insert(i, (k, users));
                proof {
                    lemma_reactions_update(s, i as int, rs@[i as int]);
                    assert(s.remove(i as int).insert(i as int, rs@[i as int]) =~= rs@);
                }
            }
        },
        None => {},
    }
}

/// Takes the reaction `emoji` off entirely.
pub fn remove_reaction(rs: &mut Vec<(String, Vec<String>)>, emoji: &str)
    ensures
        reactions_view(final(rs)@) == reaction_removed(reactions_view(old(rs)@), emoji@),
{
    match find_emoji(rs, emoji) {
        Some(i) => {
            let ghost s = rs@;
            rs.swap_remove(i);
            assert(reactions_view(rs@) =~= swap_removed(reactions_view(s), i as int));
        },
        None => {},
    }
}

} // verus!
