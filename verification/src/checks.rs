use vstd::prelude::*;

use crate::error::Error;
use crate::models::Channel;

verus! {

/// Passes in server channels only.
pub fn server_only(channel: Option<&Channel>) -> (r: Result<bool, Error>)
    ensures
        match channel {
            Some(Channel::TextChannel { .. }) => r == Ok::<bool, Error>(true),
            _ => r matches Err(Error::NotInServer),
        },
{
    match channel {
        Some(Channel::TextChannel { .. }) => Ok(true),
        _ => Err(Error::NotInServer),
    }
}

/// Passes in direct messages, groups and saved messages only.
pub fn dm_only(channel: Option<&Channel>) -> (r: Result<bool, Error>)
    ensures
        match channel {
            Some(Channel::DirectMessage { .. }) => r == Ok::<bool, Error>(true),
            Some(Channel::Group { .. }) => r == Ok::<bool, Error>(true),
            Some(Channel::SavedMessages { .. }) => r == Ok::<bool, Error>(true),
            _ => r matches Err(Error::NotInDM),
        },
{
    match channel {
        Some(Channel::DirectMessage { .. }) => Ok(true),
        Some(Channel::Group { .. }) => Ok(true),
        Some(Channel::SavedMessages { .. }) => Ok(true),
        _ => Err(Error::NotInDM),
    }
}

/// What a run of checks does after one check answers `outcome`: carry on (`None`),
/// or stop with the run's answer. A failing check stops the run with its error,
/// a check that says no stops it with a check failure.
pub fn after_check(outcome: Result<bool, Error>) -> (r: Option<Result<bool, Error>>)
    ensures
        match outcome {
            Ok(true) => r is None,
            Ok(false) => r matches Some(Err(Error::CheckFailure)),
            Err(e) => r == Some(Err::<bool, Error>(e)),
        },
{
    match outcome {
        Ok(true) => None,
        Ok(false) => Some(Err(Error::CheckFailure)),
        Err(e) => Some(Err(e)),
    }
}

/// Whether a check among alternatives lets the command run: only an answer of yes
/// does; an error counts as no.
pub fn any_check_passes(outcome: &Result<bool, Error>) -> (r: bool)
    ensures
        r == (*outcome == Ok::<bool, Error>(true)),
{
    match outcome {
        Ok(b) => *b,
        Err(_) => false,
    }
}

/// The answer of a run of alternative checks in which none said yes.
pub fn no_check_passed() -> (r: Result<bool, Error>)
    ensures
        r matches Err(Error::CheckFailure),
{
    Err(Error::CheckFailure)
}

} // verus!
