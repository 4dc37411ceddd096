//! Why a fetch of the rate-limit status failed.

use vstd::prelude::*;
use crate::decimal::{append_decimal, decimal};

verus! {

/// A failed fetch. The poller treats every kind alike: it reports the failure
/// and keeps the snapshot it had.
#[derive(Clone, Debug, PartialEq, Eq)]
pub enum FetchError {
    /// The request could not be sent or no response came back.
    Transport(String),
    /// The server answered with a status other than success.
    Status(u16),
    /// The body of the response could not be decoded.
    Malformed(String),
}

/// A failed fetch as text and numbers.
pub enum FetchErrorModel {
    Transport(Seq<char>),
    Status(u16),
    Malformed(Seq<char>),
}

impl View for FetchError {
    type V = FetchErrorModel;

    open spec fn view(&self) -> FetchErrorModel {
        match self {
            FetchError::Transport(detail) => FetchErrorModel::Transport(detail@),
            FetchError::Status(code) => FetchErrorModel::Status(*code),
            FetchError::Malformed(detail) => FetchErrorModel::Malformed(detail@),
        }
    }
}

impl FetchErrorModel {
    /// The failure in words.
    pub open spec fn message(self) -> Seq<char> {
        match self {
            FetchErrorModel::Transport(detail) => "request failed: "@ + detail,
            FetchErrorModel::Status(code) => "unexpected status "@ + decimal(code as nat),
            FetchErrorModel::Malformed(detail) => "malformed response: "@ + detail,
        }
    }

    /// The line shown to the user for the failure.
    pub open spec fn report(self) -> Seq<char> {
        "Error "@ + self.message()
    }
}

impl FetchError {
    /// The failure in words.
    pub fn message(&self) -> (text: String)
        ensures
            text@ == self@.message(),
    {
        match self {
            FetchError::Transport(detail) => {
                let mut text = String::from_str("request failed: ");
                text.append(detail.as_str());
                text
            },
            FetchError::Status(code) => {
                let mut text = String::from_str("unexpected status ");
                append_decimal(&mut text, *code as u128);
                text
            },
            FetchError::Malformed(detail) => {
                let mut text = String::from_str("malformed response: ");
                text.append(detail.as_str());
                text
            },
        }
    }

    /// The line shown to the user for the failure: `Error`, a space, and the
    /// failure in words.
    pub fn report(&self) -> (line: String)
        ensures
            line@ == self@.report(),
    {
        let mut line = String::from_str("Error ");
        let message = self.message();
        line.append(message.as_str());
        line
    }
}

} // verus!
