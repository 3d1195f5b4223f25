use std::rc::Rc;
use vstd::prelude::*;

verus! {

/// The HTTP method of a request, with the body that a `POST` carries.
#[derive(Debug, Clone)]
pub enum Method<T> {
    Get,
    Post(T),
    Delete,
}

/// A request to a MeiliSearch server, described as plain values: where it
/// goes, the key that authorizes it, how it is sent and which status code
/// means success.
#[derive(Debug)]
pub struct Request<T> {
    pub url: String,
    pub api_key: Rc<String>,
    pub method: Method<T>,
    pub expected_status_code: u16,
}

/// The body of the request that creates an index.
#[derive(Debug, Clone)]
pub struct CreateIndexBody {
    pub uid: String,
    pub primary_key: Option<String>,
}

impl<T> Request<T> {
    /// Whether an answer with `status_code` is the success this request waits for.
    pub fn accepts(&self, status_code: u16) -> (ok: bool)
        ensures
            ok == (status_code == self.expected_status_code),
    {
        status_code == self.expected_status_code
    }
}

} // verus!
