//! The single tagged error type that every fallible operation of the core
//! surfaces, together with one constructor per error condition.

use vstd::prelude::*;

verus! {

/// The distinct failure conditions of the object store, the reference
/// resolver and the traversals.
#[derive(Clone, Copy, Debug, PartialEq, Eq, Structural)]
pub enum ErrorKind {
    /// Filesystem, compression or scanning failure.
    Io,
    /// A stored frame whose declared length disagrees with its payload, or an
    /// object read where a specific kind was structurally expected.
    MalformedObject,
    /// A frame kind outside the four recognized kinds, or a resolved kind
    /// that does not match what the caller required and cannot be followed.
    UnknownObject,
    /// A name that resolves to zero candidate digests.
    UnknownReference,
    /// A name that resolves to more than one candidate digest.
    AmbiguousReference,
    /// A blob or tree constructed without the payload bytes it requires.
    MissingData,
    /// A persisting write on an object that carries no repository context.
    RepoNotFound,
    /// Header or payload bytes that are not valid text where text is required.
    Encoding,
}

/// A failure, tagged with its kind and carrying a human-readable message.
#[derive(Debug)]
pub struct WitError {
    pub kind: ErrorKind,
    pub message: String,
}

impl WitError {
    pub fn new(kind: ErrorKind, message: String) -> (e: WitError)
        ensures
            e.kind == kind,
            e.message == message,
    {
        WitError { kind, message }
    }
}

pub fn io_err(message: String) -> (e: WitError)
    ensures
        e.kind == ErrorKind::Io,
        e.message == message,
{
    WitError::new(ErrorKind::Io, message)
}

pub fn malformed_object_err(message: String) -> (e: WitError)
    ensures
        e.kind == ErrorKind::MalformedObject,
        e.message == message,
{
    WitError::new(ErrorKind::MalformedObject, message)
}

pub fn unknown_object_err(message: String) -> (e: WitError)
    ensures
        e.kind == ErrorKind::UnknownObject,
        e.message == message,
{
    WitError::new(ErrorKind::UnknownObject, message)
}

pub fn unknown_reference_err(message: String) -> (e: WitError)
    ensures
        e.kind == ErrorKind::UnknownReference,
        e.message == message,
{
    WitError::new(ErrorKind::UnknownReference, message)
}

pub fn ambiguous_reference_err(message: String) -> (e: WitError)
    ensures
        e.kind == ErrorKind::AmbiguousReference,
        e.message == message,
{
    WitError::new(ErrorKind::AmbiguousReference, message)
}

pub fn missing_data_err(message: String) -> (e: WitError)
    ensures
        e.kind == ErrorKind::MissingData,
        e.message == message,
{
    WitError::new(ErrorKind::MissingData, message)
}

pub fn repo_not_found_err(message: String) -> (e: WitError)
    ensures
        e.kind == ErrorKind::RepoNotFound,
        e.message == message,
{
    WitError::new(ErrorKind::RepoNotFound, message)
}

pub fn encoding_err(message: String) -> (e: WitError)
    ensures
        e.kind == ErrorKind::Encoding,
        e.message == message,
{
    WitError::new(ErrorKind::Encoding, message)
}

} // verus!
