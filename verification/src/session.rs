use vstd::prelude::*;

use crate::error::Error;
use crate::text::concat2;

verus! {

/// The address of the event socket at `ws`, for the bot token `token`, asking
/// for MessagePack frames or for JSON ones.
pub fn websocket_uri(ws: &str, token: &str, msgpack: bool) -> (r: String)
    ensures
        r@ == ws@ + "/?token="@ + token@ + "&format="@ + (if msgpack { "msgpack"@ } else { "json"@ }),
{
    let mut r = concat2(ws, "/?token=");
    r.append(token);
    r.append("&format=");
    if msgpack {
        r.append("msgpack");
    } else {
        r.append("json");
    }
    r
}

/// What the client does once the event socket has ended.
#[derive(Debug, Clone, Copy, PartialEq, Eq, Structural)]
pub enum Reconnect {
    /// The client was asked to close: it stops.
    Stop,
    /// It connects again after this many milliseconds.
    RetryAfterMs(u64),
}

/// How long the client waits before connecting again, in milliseconds.
pub const RECONNECT_DELAY_MS: u64 = 10000;

/// What the client does once the event socket has ended with `outcome`.
pub fn after_disconnect(outcome: &Result<(), Error>) -> (r: Reconnect)
    ensures
        r == (match outcome {
            Err(Error::Close) => Reconnect::Stop,
            _ => Reconnect::RetryAfterMs(RECONNECT_DELAY_MS),
        }),
{
    match outcome {
        Err(Error::Close) => Reconnect::Stop,
        _ => Reconnect::RetryAfterMs(RECONNECT_DELAY_MS),
    }
}

/// The number that the heartbeat after the one numbered `i` carries.
pub fn next_ping(i: usize) -> (r: usize)
    ensures
        r == (if i == usize::MAX { 0 } else { i + 1 }),
{
    i.wrapping_add(1)
}

/// How a wait for an event ended.
#[derive(Debug)]
pub enum WaitOutcome<M> {
    /// The event came.
    Received(M),
    /// The channel that should have brought it closed.
    Closed,
    /// The time allowed ran out.
    TimedOut,
}

/// The answer of a wait for an event.
pub fn wait_result<M>(outcome: WaitOutcome<M>) -> (r: Result<M, Error>)
    ensures
        match outcome {
            WaitOutcome::Received(m) => r == Ok::<M, Error>(m),
            WaitOutcome::Closed => r matches Err(Error::BrokenChannel),
            WaitOutcome::TimedOut => r matches Err(Error::Timeout),
        },
{
    match outcome {
        WaitOutcome::Received(m) => Ok(m),
        WaitOutcome::Closed => Err(Error::BrokenChannel),
        WaitOutcome::TimedOut => Err(Error::Timeout),
    }
}

} // verus!
