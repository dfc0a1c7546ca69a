//! The errors that handlers answer with.
use vstd::prelude::*;

verus! {

/// Why a request was refused, with the message for the caller.
#[derive(Debug, Clone, PartialEq, Eq)]
pub enum Error {
    /// The caller is not signed in.
    Auth(String),
    /// The request itself is at fault.
    Validation(String),
    /// The caller may not do this.
    Forbidden(String),
    /// What the request speaks of does not exist.
    NotFound(String),
    /// The store failed.
    Database(String),
    /// Anything else failed.
    Internal(String),
}

/// An [`Error`] with its message as characters.
pub enum Fault {
    Auth(Seq<char>),
    Validation(Seq<char>),
    Forbidden(Seq<char>),
    NotFound(Seq<char>),
    Database(Seq<char>),
    Internal(Seq<char>),
}

impl View for Error {
    type V = Fault;

    open spec fn view(&self) -> Fault {
        match self {
            Error::Auth(m) => Fault::Auth(m@),
            Error::Validation(m) => Fault::Validation(m@),
            Error::Forbidden(m) => Fault::Forbidden(m@),
            Error::NotFound(m) => Fault::NotFound(m@),
            Error::Database(m) => Fault::Database(m@),
            Error::Internal(m) => Fault::Internal(m@),
        }
    }
}

/// The message of a fault.
pub open spec fn fault_message(f: Fault) -> Seq<char> {
    match f {
        Fault::Auth(m) => m,
        Fault::Validation(m) => m,
        Fault::Forbidden(m) => m,
        Fault::NotFound(m) => m,
        Fault::Database(m) => m,
        Fault::Internal(m) => m,
    }
}

impl Error {
    /// The message for the caller.
    pub fn message(&self) -> (r: &str)
        ensures
            r@ == fault_message(self@),
    {
        match self {
            Error::Auth(m) => m.as_str(),
            Error::Validation(m) => m.as_str(),
            Error::Forbidden(m) => m.as_str(),
            Error::NotFound(m) => m.as_str(),
            Error::Database(m) => m.as_str(),
            Error::Internal(m) => m.as_str(),
        }
    }
}

/// `Error::Auth` with this message.
pub fn auth_error(m: &str) -> (r: Error)
    ensures
        r@ == Fault::Auth(m@),
{
    Error::Auth(m.to_owned())
}

/// `Error::Validation` with this message.
pub fn validation(m: &str) -> (r: Error)
    ensures
        r@ == Fault::Validation(m@),
{
    Error::Validation(m.to_owned())
}

/// `Error::Forbidden` with this message.
pub fn forbidden(m: &str) -> (r: Error)
    ensures
        r@ == Fault::Forbidden(m@),
{
    Error::Forbidden(m.to_owned())
}

/// `Error::NotFound` with this message.
pub fn not_found(m: &str) -> (r: Error)
    ensures
        r@ == Fault::NotFound(m@),
{
    Error::NotFound(m.to_owned())
}

} // verus!
