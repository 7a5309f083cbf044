//! The client-visible response envelope.

use vstd::prelude::*;

verus! {

/// The envelope every endpoint answers with: an explicit success or failure
/// indicator beside the payload.
pub struct APIResponse<T> {
    pub status: i16,
    pub message: T,
}

impl<T> APIResponse<T> {
    /// Build a response with the given status indicator.
    pub fn new(status: i16, message: T) -> (r: Self)
        ensures
            r.status == status,
            r.message == message,
    {
        APIResponse { status: status, message: message }
    }

    /// A success response: status zero.
    pub fn success(message: T) -> (r: Self)
        ensures
            r.status == 0,
            r.message == message,
    {
        APIResponse { status: 0, message: message }
    }

    /// A failure response: status minus one.
    pub fn fail(message: T) -> (r: Self)
        ensures
            r.status == -1,
            r.message == message,
    {
        APIResponse { status: -1, message: message }
    }
}

} // verus!
