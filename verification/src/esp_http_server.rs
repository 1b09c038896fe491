//! The request and response interface that page handlers are written against,
//! independent of the HTTP server that carries them.
use vstd::prelude::*;

verus! {

/// The request methods a handler can be registered for.
#[derive(Clone, Copy, PartialEq, Eq, Structural, Debug)]
pub enum TMethod {
    Delete,
    Get,
    Head,
    Post,
}

/// A response being written. Its implementations also implement
/// `std::io::Write`, through which the body is written.
pub trait TResponse {}

/// A request as a handler sees it.
pub trait TRequest: Sized {
    type Resp: TResponse;

    /// The request method, or an error for one the interface does not name.
    fn method(&self) -> anyhow::Result<TMethod>;

    /// The request URI.
    fn uri(&self) -> &str;

    /// Starts the response with the given status, reason phrase and headers.
    fn into_response(self, status: u16, msg: Option<&str>, headers: &[(&str, &str)]) -> anyhow::Result<Self::Resp>;

    /// Starts a `200 OK` response with no headers.
    fn into_ok_response(self) -> anyhow::Result<Self::Resp>;
}

} // verus!
