use vstd::prelude::*;
use crate::token::str_eq;

verus! {

/// What kind of failure an [`Error`] reports.
#[derive(Clone, Copy, Debug, PartialEq, Eq, Structural)]
pub enum ErrorKind {
    /// A failure reported by the encoder or decoder under test, or by this
    /// library when the tokens do not match.
    Custom,
    /// An assertion of the checking layer failed.
    AssertFailed,
}

/// A failure while encoding to or decoding from a token script: a message
/// and its kind.
#[derive(Clone, Debug)]
pub struct Error {
    msg: String,
    kind: ErrorKind,
}

impl View for Error {
    type V = Seq<char>;

    /// The message.
    closed spec fn view(&self) -> Seq<char> {
        self.msg@
    }
}

impl Error {
    /// The kind of the failure.
    pub closed spec fn spec_kind(&self) -> ErrorKind {
        self.kind
    }

    /// A custom error with the given message.
    pub fn new(msg: &str) -> (r: Error)
        ensures
            r@ == msg@,
            r.spec_kind() == ErrorKind::Custom,
    {
        Error { msg: msg.to_owned(), kind: ErrorKind::Custom }
    }

    /// An error that reports a failed assertion.
    pub fn assert_failed(msg: &str) -> (r: Error)
        ensures
            r@ == msg@,
            r.spec_kind() == ErrorKind::AssertFailed,
    {
        Error { msg: msg.to_owned(), kind: ErrorKind::AssertFailed }
    }

    /// A custom error that takes ownership of its message.
    pub fn from_message(msg: String) -> (r: Error)
        ensures
            r@ == msg@,
            r.spec_kind() == ErrorKind::Custom,
    {
        Error { msg, kind: ErrorKind::Custom }
    }

    /// The message.
    pub fn msg(&self) -> (r: &str)
        ensures
            r@ == self@,
    {
        self.msg.as_str()
    }

    /// The kind of the failure.
    pub fn kind(&self) -> (r: ErrorKind)
        ensures
            r == self.spec_kind(),
    {
        self.kind
    }
}

impl PartialEq<str> for Error {
    fn eq(&self, other: &str) -> (r: bool) {
        str_eq(self.msg.as_str(), other)
    }
}

impl vstd::std_specs::cmp::PartialEqSpecImpl<str> for Error {
    open spec fn obeys_eq_spec() -> bool {
        true
    }

    open spec fn eq_spec(&self, other: &str) -> bool {
        self@ == other@
    }
}

/// `r` is the outcome that `s` describes: the same value, or an error with
/// the same message.
pub open spec fn outcome_is<T>(r: Result<T, Error>, s: Result<T, Seq<char>>) -> bool {
    match (r, s) {
        (Result::Ok(a), Result::Ok(b)) => a == b,
        (Result::Err(e), Result::Err(m)) => e@ == m,
        _ => false,
    }
}

} // verus!
