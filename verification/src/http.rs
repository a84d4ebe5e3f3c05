use vstd::prelude::*;

use crate::text::{concat2, concat3};

verus! {

/// The method of an API request.
#[derive(Debug, Clone, Copy, PartialEq, Eq, Structural)]
pub enum Method {
    Get,
    Post,
    Put,
    Patch,
    Delete,
}

/// A request to the API, ready to be sent: its method, full address and headers.
#[derive(Debug)]
pub struct HttpRequest {
    pub method: Method,
    pub url: String,
    pub headers: Vec<(String, String)>,
}

/// The headers every request carries: JSON is asked for, and the bot's token
/// is given where there is one.
pub open spec fn request_headers(token: Option<Seq<char>>) -> Seq<(Seq<char>, Seq<char>)> {
    match token {
        Some(t) => seq![("Accept"@, "application/json"@), ("x-bot-token"@, t)],
        None => seq![("Accept"@, "application/json"@)],
    }
}

/// The plain values of a list of headers.
pub open spec fn header_views(h: Seq<(String, String)>) -> Seq<(Seq<char>, Seq<char>)> {
    h.map_values(|p: (String, String)| (p.0@, p.1@))
}

/// The API at the address `base`, as the bot whose token is `token`, if any.
#[derive(Debug, Clone)]
pub struct HttpClient {
    pub base: String,
    pub token: Option<String>,
}

impl HttpClient {
    /// A client of the API at `base`.
    pub fn new(base: String, token: Option<String>) -> (r: HttpClient)
        ensures
            r.base == base,
            r.token == token,
    {
        HttpClient { base, token }
    }

    /// A request of `method` to `route` under the API's address.
    pub fn request(&self, method: Method, route: &str) -> (r: HttpRequest)
        ensures
            r.method == method,
            r.url@ == self.base@ + route@,
            header_views(r.headers@) == request_headers(match self.token {
                Some(t) => Some(t@),
                None => None,
            }),
    {
        let mut headers: Vec<(String, String)> = Vec::new();
        headers.push((String::from_str("Accept"), String::from_str("application/json")));
        match &self.token {
            Some(t) => {
                headers.push((String::from_str("x-bot-token"), t.clone()));
            },
            None => {},
        }
        proof {
            reveal_strlit("Accept");
            reveal_strlit("application/json");
            reveal_strlit("x-bot-token");
        }
        assert(header_views(headers@) =~= request_headers(match self.token {
            Some(t) => Some(t@),
            None => None,
        }));
        HttpRequest { method, url: concat2(self.base.as_str(), route), headers }
    }
}

/// Whether a response with status `code` is a failure: a client or server error.
pub fn is_failure_status(code: u16) -> (r: bool)
    ensures
        r == (400 <= code && code < 600),
{
    400 <= code && code < 600
}

/// The route of the API's root, which describes the instance.
pub fn root_route() -> (r: String)
    ensures
        r@ == "/"@,
{
    String::from_str("/")
}

/// The route that messages of the channel `channel_id` are sent to and fetched from.
pub fn channel_messages_route(channel_id: &str) -> (r: String)
    ensures
        r@ == "/channels/"@ + channel_id@ + "/messages"@,
{
    concat3("/channels/", channel_id, "/messages")
}

/// The route of the message `message_id` of the channel `channel_id`.
pub fn channel_message_route(channel_id: &str, message_id: &str) -> (r: String)
    ensures
        r@ == "/channels/"@ + channel_id@ + "/messages/"@ + message_id@,
{
    let head = concat3("/channels/", channel_id, "/messages/");
    concat2(head.as_str(), message_id)
}

/// The route of the user `user_id`.
pub fn user_route(user_id: &str) -> (r: String)
    ensures
        r@ == "/users/"@ + user_id@,
{
    concat2("/users/", user_id)
}

/// The route that opens a direct message with the user `user_id`.
pub fn open_dm_route(user_id: &str) -> (r: String)
    ensures
        r@ == "/users/"@ + user_id@ + "/dm"@,
{
    concat3("/users/", user_id, "/dm")
}

/// The route of the member `user_id` of the server `server_id`.
pub fn member_route(server_id: &str, user_id: &str) -> (r: String)
    ensures
        r@ == "/servers/"@ + server_id@ + "/members/"@ + user_id@,
{
    let head = concat3("/servers/", server_id, "/members/");
    concat2(head.as_str(), user_id)
}

/// The route that joins the call of the channel `channel_id`.
pub fn join_call_route(channel_id: &str) -> (r: String)
    ensures
        r@ == "/channels/"@ + channel_id@ + "/join_call"@,
{
    concat3("/channels/", channel_id, "/join_call")
}

} // verus!
