//! The failure value shared by all operations.

use vstd::prelude::*;

verus! {

/// The classes of failure that the operations tell apart.
#[derive(Clone, Copy, Debug, PartialEq, Eq, Structural)]
pub enum ErrorKind {
    NotFound,
    AlreadyExists,
    Interrupted,
    InvalidInput,
    InvalidData,
    WouldBlock,
    PermissionDenied,
    Other,
}

/// A failure: its class and a message for a human reader.
#[derive(Debug, PartialEq, Eq)]
pub struct IoError {
    pub kind: ErrorKind,
    pub message: String,
}

/// Mathematical model of [`IoError`].
pub ghost struct IoErrorView {
    pub kind: ErrorKind,
    pub message: Seq<char>,
}

impl View for IoError {
    type V = IoErrorView;

    open spec fn view(&self) -> IoErrorView {
        IoErrorView { kind: self.kind, message: self.message@ }
    }
}

impl Clone for IoError {
    fn clone(&self) -> (r: Self)
        ensures
            r == *self,
    {
        IoError { kind: self.kind, message: self.message.clone() }
    }
}

impl IoError {
    /// A failure of class `kind` with the text `message`.
    pub fn new(kind: ErrorKind, message: &str) -> (r: IoError)
        ensures
            r@ == (IoErrorView { kind, message: message@ }),
    {
        IoError { kind, message: String::from_str(message) }
    }

    /// A failure of class [`ErrorKind::Other`] that carries only a message.
    pub fn other(message: String) -> (r: IoError)
        ensures
            r@ == failure(message@),
    {
        IoError { kind: ErrorKind::Other, message }
    }
}

/// A failure that carries only the message `prefix` followed by the message of
/// `cause`.
pub fn prefixed(prefix: &str, cause: &IoError) -> (r: IoError)
    ensures
        r@ == failure(prefix@ + cause@.message),
{
    let mut message = String::from_str(prefix);
    message.append(cause.message.as_str());
    IoError::other(message)
}

/// A failure that carries only the message `prefix` followed by `detail`.
pub fn described(prefix: &str, detail: &str) -> (r: IoError)
    ensures
        r@ == failure(prefix@ + detail@),
{
    let mut message = String::from_str(prefix);
    message.append(detail);
    IoError::other(message)
}

/// The model of a failure that carries only a message.
pub open spec fn failure(message: Seq<char>) -> IoErrorView {
    IoErrorView { kind: ErrorKind::Other, message }
}

} // verus!
