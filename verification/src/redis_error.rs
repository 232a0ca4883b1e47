//! The one error type that every fallible operation reports.

use vstd::prelude::*;
use vstd::string::*;

verus! {

/// What went wrong, with a message for a human reader.
#[derive(Debug, Clone, PartialEq, Eq)]
pub enum RedisError {
    /// The configuration was unusable before any transport was opened.
    SetupError(String),
    /// A write, a read or the server itself failed a command.
    CommandError(String),
    /// The transport to the server could not be opened.
    ConnectionError(String),
}

/// The mathematical value of a [`RedisError`]: its kind and its message.
pub ghost enum RedisErrorView {
    SetupError(Seq<char>),
    CommandError(Seq<char>),
    ConnectionError(Seq<char>),
}

impl View for RedisError {
    type V = RedisErrorView;

    open spec fn view(&self) -> RedisErrorView {
        match self {
            RedisError::SetupError(m) => RedisErrorView::SetupError(m@),
            RedisError::CommandError(m) => RedisErrorView::CommandError(m@),
            RedisError::ConnectionError(m) => RedisErrorView::ConnectionError(m@),
        }
    }
}

impl RedisErrorView {
    /// The message that the error carries.
    pub open spec fn message(self) -> Seq<char> {
        match self {
            RedisErrorView::SetupError(m) => m,
            RedisErrorView::CommandError(m) => m,
            RedisErrorView::ConnectionError(m) => m,
        }
    }

    /// The name of the kind, followed by a colon and a space.
    pub open spec fn prefix(self) -> Seq<char> {
        match self {
            RedisErrorView::SetupError(_) => "SetupError: "@,
            RedisErrorView::CommandError(_) => "CommandError: "@,
            RedisErrorView::ConnectionError(_) => "ConnectionError: "@,
        }
    }

    /// The error as one line of text: the prefix of its kind, then the message.
    pub open spec fn text(self) -> Seq<char> {
        self.prefix() + self.message()
    }
}

impl RedisError {
    /// The message that the error carries, without the name of its kind.
    pub fn message(&self) -> (m: &str)
        ensures
            m@ == self@.message(),
    {
        match self {
            RedisError::SetupError(m) => m.as_str(),
            RedisError::CommandError(m) => m.as_str(),
            RedisError::ConnectionError(m) => m.as_str(),
        }
    }

    /// Renders the error as `Kind: message`.
    pub fn to_string(&self) -> (s: String)
        ensures
            s@ == self@.text(),
    {
        let mut s = match self {
            RedisError::SetupError(_) => String::from_str("SetupError: "),
            RedisError::CommandError(_) => String::from_str("CommandError: "),
            RedisError::ConnectionError(_) => String::from_str("ConnectionError: "),
        };
        s.append(self.message());
        s
    }
}

} // verus!
