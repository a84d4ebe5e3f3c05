use vstd::prelude::*;

use crate::cache::{member_tables, GlobalCache};
use crate::error::Error;
use crate::models::{Channel, Member, Server, User};

verus! {

/// The server that the cached channel `channel_id` belongs to, where it is a
/// cached server channel.
pub open spec fn server_of_channel(cache: GlobalCache, channel_id: Seq<char>) -> Option<Seq<char>> {
    if cache.channels.map().contains_key(channel_id) {
        match cache.channels.map()[channel_id] {
            Channel::TextChannel { server, .. } => Some(server@),
            _ => None,
        }
    } else {
        None
    }
}

/// The channel that a command's message was sent in, from the cache.
pub fn get_current_channel<'a>(cache: &'a GlobalCache, channel_id: &str) -> (r: Result<&'a Channel, Error>)
    ensures
        cache.channels.map().contains_key(channel_id@) ==> (r matches Ok(c) && *c == cache.channels.map()[channel_id@]),
        !cache.channels.map().contains_key(channel_id@) ==> r matches Err(Error::InternalError),
{
    match cache.get_channel(channel_id) {
        Some(c) => Ok(c),
        None => Err(Error::InternalError),
    }
}

/// The server that a command's message was sent in, from the cache: only a
/// message in a cached server channel of a cached server has one.
pub fn get_current_server<'a>(cache: &'a GlobalCache, channel_id: &str) -> (r: Result<&'a Server, Error>)
    ensures
        match server_of_channel(*cache, channel_id@) {
            Some(s) => if cache.servers.map().contains_key(s) {
                r matches Ok(v) && *v == cache.servers.map()[s]
            } else {
                r matches Err(Error::InternalError)
            },
            None => r matches Err(Error::InternalError),
        },
{
    match get_current_channel(cache, channel_id) {
        Ok(Channel::TextChannel { server, .. }) => match cache.get_server(server.as_str()) {
            Some(s) => Ok(s),
            None => Err(Error::InternalError),
        },
        _ => Err(Error::InternalError),
    }
}

/// Where the author of a command's message is to be found.
#[derive(Debug)]
pub enum AuthorLookup<T> {
    /// Sent with the message, or cached.
    Known(T),
    /// Neither: it is fetched, by the identifier given.
    Fetch(String),
}

/// Where the author of a command's message is found as a user: the user sent
/// with the message first, then the cache; otherwise it is fetched.
pub fn author_user(attached: Option<&User>, cache: &GlobalCache, author: &str) -> (r: AuthorLookup<User>)
    ensures
        match attached {
            Some(u) => r matches AuthorLookup::Known(v) && v@ == u@,
            None => if cache.users.map().contains_key(author@) {
                r matches AuthorLookup::Known(v) && v@ == cache.users.map()[author@]@
            } else {
                r matches AuthorLookup::Fetch(id) && id@ == author@
            },
        },
{
    match attached {
        Some(u) => AuthorLookup::Known(u.duplicate()),
        None => match cache.get_user(author) {
            Some(u) => AuthorLookup::Known(u.duplicate()),
            None => AuthorLookup::Fetch(String::from_str(author)),
        },
    }
}

/// Where the author of a command's message is found as a member: the member
/// sent with the message first; then, in a server the cache knows, the cached
/// member (looked up by the cached server's own identifier), or else a fetch
/// from that server, by that identifier.
/// Outside such a server there is none.
pub fn author_member(
    attached: Option<&Member>,
    cache: &GlobalCache,
    channel_id: &str,
    author: &str,
) -> (r: Result<AuthorLookup<Member>, Error>)
    ensures
        match attached {
            Some(m) => r matches Ok(AuthorLookup::Known(v)) && v@ == m@,
            None => match server_of_channel(*cache, channel_id@) {
                Some(s) => if !cache.servers.map().contains_key(s) {
                    r matches Err(Error::InternalError)
                } else if member_tables(cache.members.map()).contains_key(cache.servers.map()[s].id@)
                    && member_tables(cache.members.map())[cache.servers.map()[s].id@].contains_key(author@) {
                    r matches Ok(AuthorLookup::Known(v))
                        && v@ == member_tables(cache.members.map())[cache.servers.map()[s].id@][author@]@
                } else {
                    r matches Ok(AuthorLookup::Fetch(id)) && id == cache.servers.map()[s].id
                },
                None => r matches Err(Error::InternalError),
            },
        },
{
    match attached {
        Some(m) => Ok(AuthorLookup::Known(m.duplicate())),
        None => match get_current_server(cache, channel_id) {
            Ok(server) => match cache.get_member(server.id.as_str(), author) {
                Some(m) => Ok(AuthorLookup::Known(m.duplicate())),
                None => Ok(AuthorLookup::Fetch(server.id.clone())),
            },
            Err(e) => Err(e),
        },
    }
}

} // verus!
