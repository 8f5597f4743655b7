//! The error type of the crate.

use vstd::prelude::*;
use vstd::std_specs::convert::FromSpecImpl;
use vstd::string::to_string_from_display_ensures;
use crate::codec::DecodeError;
use crate::pubkey::ParsePubkeyError;

verus! {

/// `reqwest::Error`: a failure of the transport. The library hands it on and
/// looks at nothing inside.
#[verifier::external_type_specification]
#[verifier::external_body]
pub struct ExReqwestError(reqwest::Error);

/// `serde_json::Error`: a response that is not the JSON that was expected.
/// The library hands it on and looks at nothing inside.
#[verifier::external_type_specification]
#[verifier::external_body]
pub struct ExSerdeJsonError(serde_json::Error);

/// The errors that may occur while using this crate.
#[derive(Debug)]
pub enum ClientError {
    /// The request could not be sent or the response could not be read.
    Reqwest(reqwest::Error),
    /// A field of a response that should hold an address holds none.
    ParsePubkey(ParsePubkeyError),
    /// A payload of a response is no valid base64.
    Base64Decode(DecodeError),
    /// The bytes of a payload are no transaction.
    Bincode(Box<bincode::ErrorKind>),
    /// The service answered with an error of its own; this is its message.
    JupiterApi(String),
    /// A response is not the JSON that was expected.
    SerdeJson(serde_json::Error),
    /// A text that should name a swap mode names none.
    ParseSwapMode { value: String },
}

impl ClientError {
    /// What the message of the error starts with.
    pub open spec fn prefix(&self) -> Seq<char> {
        match self {
            ClientError::Reqwest(_) => "reqwest: "@,
            ClientError::ParsePubkey(_) => "invalid pubkey in response data: "@,
            ClientError::Base64Decode(_) => "base64: "@,
            ClientError::Bincode(_) => "bincode: "@,
            ClientError::JupiterApi(_) => "Jupiter API: "@,
            ClientError::SerdeJson(_) => "serde_json: "@,
            ClientError::ParseSwapMode { .. } => "parse SwapMode: Invalid value `"@,
        }
    }

    /// Whether `tail` is what follows the prefix in the message of the error:
    /// the message of the cause, the text that the service sent, or the
    /// rejected value and a backquote.
    pub open spec fn is_tail(&self, tail: Seq<char>) -> bool {
        match self {
            ClientError::Reqwest(e) => exists|cause: String|
                #[trigger] to_string_from_display_ensures(e, cause) && tail == cause@,
            ClientError::ParsePubkey(e) => tail == e.text(),
            ClientError::Base64Decode(e) => tail == e.text(),
            ClientError::Bincode(e) => exists|cause: String|
                #[trigger] to_string_from_display_ensures(e, cause) && tail == cause@,
            ClientError::JupiterApi(message) => tail == message@,
            ClientError::SerdeJson(e) => exists|cause: String|
                #[trigger] to_string_from_display_ensures(e, cause) && tail == cause@,
            ClientError::ParseSwapMode { value } => tail == value@ + "`"@,
        }
    }

    /// Whether `s` is the message of the error.
    pub open spec fn is_message(&self, s: Seq<char>) -> bool {
        exists|tail: Seq<char>| #[trigger] self.is_tail(tail) && s == self.prefix() + tail
    }

    /// The message of the error.
    pub fn to_string(&self) -> (s: String)
        ensures
            self.is_message(s@),
    {
        let tail = match self {
            ClientError::Reqwest(e) => e.to_string(),
            ClientError::ParsePubkey(e) => e.to_string(),
            ClientError::Base64Decode(e) => e.to_string(),
            ClientError::Bincode(e) => e.to_string(),
            ClientError::JupiterApi(message) => message.clone(),
            ClientError::SerdeJson(e) => e.to_string(),
            ClientError::ParseSwapMode { value } => value.clone().concat("`"),
        };
        assert(self.is_tail(tail@));
        let head = match self {
            ClientError::Reqwest(_) => "reqwest: ",
            ClientError::ParsePubkey(_) => "invalid pubkey in response data: ",
            ClientError::Base64Decode(_) => "base64: ",
            ClientError::Bincode(_) => "bincode: ",
            ClientError::JupiterApi(_) => "Jupiter API: ",
            ClientError::SerdeJson(_) => "serde_json: ",
            ClientError::ParseSwapMode { .. } => "parse SwapMode: Invalid value `",
        };
        String::from_str(head).concat(tail.as_str())
    }
}

impl From<reqwest::Error> for ClientError {
    fn from(e: reqwest::Error) -> (error: ClientError) {
        ClientError::Reqwest(e)
    }
}

impl FromSpecImpl<reqwest::Error> for ClientError {
    open spec fn obeys_from_spec() -> bool {
        true
    }

    open spec fn from_spec(e: reqwest::Error) -> ClientError {
        ClientError::Reqwest(e)
    }
}

impl From<ParsePubkeyError> for ClientError {
    fn from(e: ParsePubkeyError) -> (error: ClientError) {
        ClientError::ParsePubkey(e)
    }
}

impl FromSpecImpl<ParsePubkeyError> for ClientError {
    open spec fn obeys_from_spec() -> bool {
        true
    }

    open spec fn from_spec(e: ParsePubkeyError) -> ClientError {
        ClientError::ParsePubkey(e)
    }
}

impl From<DecodeError> for ClientError {
    fn from(e: DecodeError) -> (error: ClientError) {
        ClientError::Base64Decode(e)
    }
}

impl FromSpecImpl<DecodeError> for ClientError {
    open spec fn obeys_from_spec() -> bool {
        true
    }

    open spec fn from_spec(e: DecodeError) -> ClientError {
        ClientError::Base64Decode(e)
    }
}

impl From<Box<bincode::ErrorKind>> for ClientError {
    fn from(e: Box<bincode::ErrorKind>) -> (error: ClientError) {
        ClientError::Bincode(e)
    }
}

impl FromSpecImpl<Box<bincode::ErrorKind>> for ClientError {
    open spec fn obeys_from_spec() -> bool {
        true
    }

    open spec fn from_spec(e: Box<bincode::ErrorKind>) -> ClientError {
        ClientError::Bincode(e)
    }
}

impl From<serde_json::Error> for ClientError {
    fn from(e: serde_json::Error) -> (error: ClientError) {
        ClientError::SerdeJson(e)
    }
}

impl FromSpecImpl<serde_json::Error> for ClientError {
    open spec fn obeys_from_spec() -> bool {
        true
    }

    open spec fn from_spec(e: serde_json::Error) -> ClientError {
        ClientError::SerdeJson(e)
    }
}

} // verus!
