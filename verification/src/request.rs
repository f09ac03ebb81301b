//! Requests to the API, as the endpoints describe them. Sending a request and
//! reading the answer is the caller's business.

use vstd::prelude::*;

verus! {

/// The HTTP method of a request.
#[derive(Debug, Clone, Copy, PartialEq, Eq, Hash, Structural)]
pub enum Method {
    /// `GET`
    Get,
    /// `POST`
    Post,
    /// `PUT`
    Put,
    /// `PATCH`
    Patch,
    /// `DELETE`
    Delete,
}

/// A request to an endpoint of the API.
#[derive(Debug)]
pub struct Request<P> {
    /// The HTTP method.
    pub method: Method,
    /// The path of the endpoint, below the base URL of the API.
    pub path: String,
    /// What is sent along: the query parameters of a `GET` request, the body
    /// of any other; `()` where nothing is sent.
    pub payload: P,
}

} // verus!
