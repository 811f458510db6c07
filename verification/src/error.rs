//! The errors of the Google Play client.
use vstd::prelude::*;

use crate::text::concat2;

verus! {

/// What went wrong.
#[derive(Debug)]
pub enum ErrorKind {
    /// The store answered without the app data that was asked for.
    InvalidApp,
    /// Google refused the credentials.
    Authentication,
    /// The terms of service must be accepted first.
    TermsOfService,
    /// The remote host answered with something unusable.
    InvalidResponse,
    /// The action needs a logged-in session.
    LoginRequired,
    /// An I/O failure, by its message.
    IO(String),
    /// A failure described by a message.
    Str(String),
    /// Any other failure, by its message.
    Other(String),
}

/// An error of the Google Play client.
#[derive(Debug)]
pub struct Error {
    kind: ErrorKind,
}

/// The text that an error of kind `k` displays.
pub open spec fn kind_message(k: ErrorKind) -> Seq<char> {
    match k {
        ErrorKind::InvalidApp => "Invalid app response"@,
        ErrorKind::Authentication => "Could not authenticate with Google. Please provide a new oAuth token."@,
        ErrorKind::TermsOfService => "Must accept Google Play Terms of Service before proceeding."@,
        ErrorKind::InvalidResponse => "Invalid response from the remote host"@,
        ErrorKind::LoginRequired => "Logging in is required for this action"@,
        ErrorKind::IO(m) => m@,
        ErrorKind::Str(m) => m@,
        ErrorKind::Other(m) => m@,
    }
}

impl Error {
    /// The kind of this error.
    pub closed spec fn kind_spec(&self) -> ErrorKind {
        self.kind
    }

    /// An error of kind `k`.
    pub fn new(k: ErrorKind) -> (r: Self)
        ensures
            r.kind_spec() == k,
    {
        Self { kind: k }
    }

    /// The kind of this error.
    pub fn kind(&self) -> (r: &ErrorKind)
        ensures
            *r == self.kind_spec(),
    {
        &self.kind
    }

    /// Whether the store answered without the app data that was asked for.
    pub fn is_invalid_app(&self) -> (r: bool)
        ensures
            r == (self.kind_spec() is InvalidApp),
    {
        match &self.kind {
            ErrorKind::InvalidApp => true,
            _ => false,
        }
    }

    /// The text this error displays.
    pub fn message(&self) -> (r: String)
        ensures
            r@ == kind_message(self.kind_spec()),
    {
        match &self.kind {
            ErrorKind::InvalidApp => "Invalid app response".to_owned(),
            ErrorKind::Authentication => "Could not authenticate with Google. Please provide a new oAuth token.".to_owned(),
            ErrorKind::TermsOfService => "Must accept Google Play Terms of Service before proceeding.".to_owned(),
            ErrorKind::InvalidResponse => "Invalid response from the remote host".to_owned(),
            ErrorKind::LoginRequired => "Logging in is required for this action".to_owned(),
            ErrorKind::IO(m) => m.clone(),
            ErrorKind::Str(m) => m.clone(),
            ErrorKind::Other(m) => m.clone(),
        }
    }

    /// An error described by the message `m`.
    pub fn from_message(m: &str) -> (r: Self)
        ensures
            r.kind_spec() is Str,
            kind_message(r.kind_spec()) == m@,
    {
        Self { kind: ErrorKind::Str(m.to_owned()) }
    }

    /// An error whose message is `prefix` followed by `detail`.
    pub fn with_detail(prefix: &str, detail: &str) -> (r: Self)
        ensures
            r.kind_spec() is Str,
            kind_message(r.kind_spec()) == prefix@ + detail@,
    {
        Self { kind: ErrorKind::Str(concat2(prefix, detail)) }
    }
}

impl From<String> for Error {
    fn from(err: String) -> (r: Self) {
        Self { kind: ErrorKind::Str(err) }
    }
}

impl vstd::std_specs::convert::FromSpecImpl<String> for Error {
    open spec fn obeys_from_spec() -> bool {
        true
    }

    open spec fn from_spec(v: String) -> Self {
        Error::from_kind_spec(ErrorKind::Str(v))
    }
}

impl Error {
    /// The error of kind `k`, in specifications.
    pub closed spec fn from_kind_spec(k: ErrorKind) -> Self {
        Error { kind: k }
    }
}

} // verus!
