//! The envelopes in which modules hand each other messages.

use vstd::prelude::*;

verus! {

/// A request from one module to another.
#[derive(Clone)]
pub struct Request<T> where T: Send {
    pub message: T,
}

impl<T> Request<T> where T: Send {
    /// The request that carries `message`.
    pub fn new(message: T) -> (request: Self)
        ensures
            request.message == message,
    {
        Self { message }
    }
}

/// A response from one module to another.
#[derive(Clone)]
pub struct Response<T> where T: Send {
    pub message: T,
}

} // verus!
