//! An error of a kind that the library does not know.

use vstd::prelude::*;

verus! {

/// An error value of unknown kind, with what it reports of itself: its
/// description and the error that caused it, if it names one.
///
/// `E` is the value itself. Only converters look into it.
#[derive(Debug)]
pub struct OpaqueError<E> {
    /// The value itself.
    pub error: E,
    /// The description that the value gives of itself by default.
    pub description: String,
    /// The underlying cause that the value reports, if it reports one.
    pub source: Option<Box<OpaqueError<E>>>,
}

impl<E> OpaqueError<E> {
    /// The descriptions along the cause chain: first the error's own, then
    /// its cause's, and so on to the last cause.
    pub open spec fn chain(&self) -> Seq<Seq<char>>
        decreases self,
    {
        match self.source {
            Some(cause) => seq![self.description@] + cause.chain(),
            None => seq![self.description@],
        }
    }

    /// An error with no cause.
    pub fn new(error: E, description: String) -> (opaque: OpaqueError<E>)
        ensures
            opaque.error == error,
            opaque.description == description,
            opaque.source is None,
    {
        OpaqueError { error, description, source: None }
    }

    /// An error with `cause` as the cause that it reports.
    pub fn caused_by(error: E, description: String, cause: OpaqueError<E>) -> (opaque: OpaqueError<E>)
        ensures
            opaque.error == error,
            opaque.description == description,
            opaque.source == Some(Box::new(cause)),
    {
        OpaqueError { error, description, source: Some(Box::new(cause)) }
    }
}

} // verus!
