use vstd::prelude::*;

use crate::builders::{EditWebhookBuilder, ExecuteWebhookBuilder};
use crate::error::Error;
use crate::models::copy_opt_text;
use crate::text::chars_of;

verus! {

/// The position of the last `/` of `s` before position `end`.
pub open spec fn last_slash_before(s: Seq<char>, end: int) -> Option<int>
    decreases end,
{
    if end <= 0 {
        None
    } else if s[end - 1] == '/' {
        Some(end - 1)
    } else {
        last_slash_before(s, end - 1)
    }
}

/// The identifier and token that a webhook address ends with: the last two parts
/// of the address cut at each `/`. An address with no `/` has no identifier.
pub open spec fn webhook_url_parts(s: Seq<char>) -> Option<(Seq<char>, Seq<char>)> {
    match last_slash_before(s, s.len() as int) {
        Some(p) => {
            let start = match last_slash_before(s, p) {
                Some(q) => q + 1,
                None => 0,
            };
            Some((s.subrange(start, p), s.subrange(p + 1, s.len() as int)))
        },
        None => None,
    }
}

/// The last `/` before `end` is at `q` when `s[q]` is one and none follows it
/// before `end`.
proof fn lemma_last_slash_at(s: Seq<char>, q: int, end: int)
    requires
        0 <= q < end <= s.len(),
        s[q] == '/',
        forall|j: int| q < j < end ==> s[j] != '/',
    ensures
        last_slash_before(s, end) == Some(q),
    decreases end - q,
{
    if end - 1 != q {
        lemma_last_slash_at(s, q, end - 1);
    }
}

/// The address of a webhook ends with its identifier and its token, each after
/// a `/`: reading such an address gives back that identifier and token.
pub proof fn lemma_webhook_url_round_trip(base: Seq<char>, id: Seq<char>, token: Seq<char>)
    requires
        forall|j: int| 0 <= j < id.len() ==> id[j] != '/',
        forall|j: int| 0 <= j < token.len() ==> token[j] != '/',
    ensures
        webhook_url_parts(base + seq!['/'] + id + seq!['/'] + token) == Some((id, token)),
{
    let s = base + seq!['/'] + id + seq!['/'] + token;
    let p: int = (base.len() + 1 + id.len()) as int;
    let q = base.len() as int;
    assert(s[p] == '/');
    assert forall|j: int| p < j < s.len() implies s[j] != '/' by {
        assert(s[j] == token[j - p - 1]);
    }
    lemma_last_slash_at(s, p, s.len() as int);
    assert(s[q] == '/');
    assert forall|j: int| q < j < p implies s[j] != '/' by {
        assert(s[j] == id[j - q - 1]);
    }
    lemma_last_slash_at(s, q, p);
    assert(s.subrange(q + 1, p) =~= id);
    assert(s.subrange(p + 1, s.len() as int) =~= token);
}

fn find_last_slash(cs: &Vec<char>, end: usize) -> (r: Option<usize>)
    requires
        end <= cs@.len(),
    ensures
        match r {
            Some(p) => last_slash_before(cs@, end as int) == Some(p as int) && p < end,
            None => last_slash_before(cs@, end as int) is None,
        },
{
    let mut e = end;
    while e > 0
        invariant
            e <= end,
            end <= cs@.len(),
            last_slash_before(cs@, end as int) == last_slash_before(cs@, e as int),
        decreases e,
    {
        if cs[e - 1] == '/' {
            return Some(e - 1);
        }
        e = e - 1;
    }
    None
}

/// The identifier and the token of a webhook, read from its address.
pub fn parse_webhook_url(url: &str) -> (r: Result<(String, String), Error>)
    ensures
        match webhook_url_parts(url@) {
            Some((id, token)) => r matches Ok((i, t)) && i@ == id && t@ == token,
            None => r matches Err(Error::InvalidUrl),
        },
{
    let cs = chars_of(url);
    let n = cs.len();
    match find_last_slash(&cs, n) {
        Some(p) => {
            let start = match find_last_slash(&cs, p) {
                Some(q) => q + 1,
                None => 0,
            };
            let id = String::from_str(url.substring_char(start, p));
            let token = String::from_str(url.substring_char(p + 1, n));
            Ok((id, token))
        },
        None => Err(Error::InvalidUrl),
    }
}

/// A webhook of a channel; `token` is known to its creator only.
#[derive(Debug)]
pub struct Webhook {
    pub id: String,
    pub name: String,
    pub avatar: Option<String>,
    pub creator_id: String,
    pub channel_id: String,
    pub permissions: u64,
    pub token: Option<String>,
}

impl Webhook {
    /// An edit of this webhook, made through its token where it is known.
    pub fn edit(&self) -> (r: EditWebhookBuilder)
        ensures
            r.webhook_id == self.id,
            r.token == self.token,
            r.data.name is None,
            r.data.avatar is None,
            r.data.permissions is None,
            r.data.remove@.len() == 0,
    {
        EditWebhookBuilder::new(self.id.clone(), copy_opt_text(&self.token))
    }

    /// A message for this webhook to send; only a webhook whose token is known can.
    pub fn execute(&self) -> (r: ExecuteWebhookBuilder)
        requires
            self.token is Some,
        ensures
            r.webhook_id == self.id,
            r.token == self.token->0,
            r.data.content is None,
            r.data.nonce is None,
            r.data.attachments is None,
            r.data.replies is None,
            r.data.embeds is None,
            r.data.flags is None,
    {
        let token = match &self.token {
            Some(t) => t.clone(),
            None => String::new(),
        };
        ExecuteWebhookBuilder::new(self.id.clone(), token)
    }

    /// Whether deleting this webhook goes through its token (where it is known)
    /// rather than through the bot's own rights.
    pub fn deletes_with_token(&self) -> (r: bool)
        ensures
            r == self.token is Some,
    {
        self.token.is_some()
    }
}

} // verus!
