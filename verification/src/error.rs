use vstd::prelude::*;

use crate::text::{concat2, concat3, decimal, decimal_text};

verus! {

/// The answer of the API when a request was rate limited.
#[derive(Debug, Clone)]
pub struct RatelimitFailure {
    /// Milliseconds to wait before trying again.
    pub retry_after: u128,
}

/// Every error of the library.
///
/// Errors that come from the network layers carry the text that those layers
/// give for them.
#[derive(Debug, Clone)]
pub enum Error {
    ReqwestError(String),
    HttpError(String),
    RatelimitReached(RatelimitFailure),
    WsError(String),
    LiveKit(String),
    MissingParameter,
    ConverterError(String),
    Timeout,
    BrokenChannel,
    InternalError,
    CheckFailure,
    MissingChannelPermission { permissions: String },
    NotInServer,
    NotInDM,
    NotOwner,
    NotNsfw,
    InvalidTag,
    MalformedID,
    InvalidUrl,
    NotAudioTrack,
    NotVideoTrack,
    Close,
}

/// The human readable text of an error.
pub open spec fn error_message(e: Error) -> Seq<char> {
    match e {
        Error::ReqwestError(m) => "Reqwest Error: "@ + m@,
        Error::HttpError(m) => "HTTP Error: "@ + m@,
        Error::RatelimitReached(f) => "Ratelimit Reached: try again in "@ + decimal(
            f.retry_after as nat,
        ) + "ms"@,
        Error::WsError(m) => "Websocket Error: "@ + m@,
        Error::LiveKit(m) => "Livekit Room Error: "@ + m@,
        Error::MissingParameter => "Missing Required Parameter"@,
        Error::ConverterError(m) => "Converter Error: "@ + m@,
        Error::Timeout => "Timed out"@,
        Error::BrokenChannel => "Broken Channel"@,
        Error::InternalError => "Interal Error"@,
        Error::CheckFailure => "Check Failure"@,
        Error::MissingChannelPermission { permissions } => "Missing Required Permission "@
            + permissions@,
        Error::NotInServer => "Not In Server"@,
        Error::NotInDM => "Not In DMs"@,
        Error::NotOwner => "Not Owner"@,
        Error::NotNsfw => "Not In NSFW Channel"@,
        Error::InvalidTag => "Invalid File Tag"@,
        Error::MalformedID => "Malformed ULID ID"@,
        Error::InvalidUrl => "Invalid URL"@,
        Error::NotAudioTrack => "Not Audio Track"@,
        Error::NotVideoTrack => "Not Video Track"@,
        Error::Close => "Close"@,
    }
}

impl Error {
    /// The text that the error shows to people.
    pub fn message(&self) -> (r: String)
        ensures
            r@ == error_message(*self),
    {
        match self {
            Error::ReqwestError(m) => concat2("Reqwest Error: ", m.as_str()),
            Error::HttpError(m) => concat2("HTTP Error: ", m.as_str()),
            Error::RatelimitReached(f) => {
                let n = decimal_text(f.retry_after);
                concat3("Ratelimit Reached: try again in ", n.as_str(), "ms")
            },
            Error::WsError(m) => concat2("Websocket Error: ", m.as_str()),
            Error::LiveKit(m) => concat2("Livekit Room Error: ", m.as_str()),
            Error::MissingParameter => String::from_str("Missing Required Parameter"),
            Error::ConverterError(m) => concat2("Converter Error: ", m.as_str()),
            Error::Timeout => String::from_str("Timed out"),
            Error::BrokenChannel => String::from_str("Broken Channel"),
            Error::InternalError => String::from_str("Interal Error"),
            Error::CheckFailure => String::from_str("Check Failure"),
            Error::MissingChannelPermission { permissions } => concat2(
                "Missing Required Permission ",
                permissions.as_str(),
            ),
            Error::NotInServer => String::from_str("Not In Server"),
            Error::NotInDM => String::from_str("Not In DMs"),
            Error::NotOwner => String::from_str("Not Owner"),
            Error::NotNsfw => String::from_str("Not In NSFW Channel"),
            Error::InvalidTag => String::from_str("Invalid File Tag"),
            Error::MalformedID => String::from_str("Malformed ULID ID"),
            Error::InvalidUrl => String::from_str("Invalid URL"),
            Error::NotAudioTrack => String::from_str("Not Audio Track"),
            Error::NotVideoTrack => String::from_str("Not Video Track"),
            Error::Close => String::from_str("Close"),
        }
    }
}

} // verus!
