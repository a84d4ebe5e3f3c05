use vstd::prelude::*;

use crate::models::copy_texts;
use crate::text::concat3;

verus! {

/// The prefix that a mention of the user `user_id` makes, followed by a space.
pub open spec fn mention_prefix(user_id: Seq<char>) -> Seq<char> {
    "<@"@ + user_id + "> "@
}

/// The prefixes of a bot that answers when it is mentioned: the mention of its
/// own user, `current_user_id`.
pub fn when_mentioned(current_user_id: &str) -> (r: Vec<String>)
    ensures
        r@.len() == 1,
        r@[0]@ == mention_prefix(current_user_id@),
{
    let mut v: Vec<String> = Vec::new();
    v.push(concat3("<@", current_user_id, "> "));
    v
}

/// The prefixes of a bot that answers when it is mentioned or when a message
/// starts with one of `prefixes`: the mention first, then the prefixes in order.
pub fn when_mentioned_or(current_user_id: &str, prefixes: &Vec<String>) -> (r: Vec<String>)
    ensures
        r@.len() == prefixes@.len() + 1,
        r@[0]@ == mention_prefix(current_user_id@),
        r@.skip(1) == prefixes@,
{
    let mut v = when_mentioned(current_user_id);
    let mut rest = copy_texts(prefixes);
    v.append(&mut rest);
    assert(v@.skip(1) =~= prefixes@);
    v
}

} // verus!
