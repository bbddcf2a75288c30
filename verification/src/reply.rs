//! What request handlers answer.

use vstd::prelude::*;

verus! {

/// An error as clients of the API see it.
#[derive(Debug, Clone, Copy, PartialEq, Eq)]
pub struct ErrorResponse {
    /// The HTTP status.
    pub status: u16,
    /// The kind of error, for programs.
    pub errcode: &'static str,
    /// The error in words, for people.
    pub error: &'static str,
}

/// An error with this status, kind and text.
pub fn error(status: u16, errcode: &'static str, text: &'static str) -> (r: ErrorResponse)
    ensures
        r == (ErrorResponse { status, errcode, error: text }),
{
    ErrorResponse { status, errcode, error: text }
}

/// What the handling of a request needs next, or what came of it.
#[derive(Debug, PartialEq, Eq)]
pub enum Flow<A, T> {
    /// Do this, record the answer and call again.
    Ask(A),
    /// The request succeeded with this.
    Reply(T),
    /// The request was refused.
    Refuse(ErrorResponse),
    /// The server is at fault, for this reason; clients do not see it.
    Fail(&'static str),
}

impl<A, T> Flow<A, T> {
    /// Whether this asks for just that.
    pub open spec fn asks(self, ask: A) -> bool {
        self == Flow::<A, T>::Ask(ask)
    }

    /// Whether the request succeeds with just that.
    pub open spec fn replies(self, response: T) -> bool {
        self == Flow::<A, T>::Reply(response)
    }

    /// Whether the request is refused with this status, kind and text.
    pub open spec fn refuses(
        self,
        status: u16,
        errcode: &'static str,
        error: &'static str,
    ) -> bool {
        self == Flow::<A, T>::Refuse(ErrorResponse { status, errcode, error })
    }

    /// Whether the server is at fault for this reason.
    pub open spec fn fails(self, reason: &'static str) -> bool {
        self == Flow::<A, T>::Fail(reason)
    }
}

} // verus!
