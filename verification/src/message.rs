//! The boundary types a router works on: a read-only request exposing the
//! path that patterns are matched against, and a response whose status code
//! the router (on a miss) or a handler (on a hit) sets.

use vstd::prelude::*;

verus! {

/// Status code set on a response when no route matches.
pub const NOT_FOUND: u16 = 404;

/// An inbound request. The router reads only the path; everything else about
/// a request is a concern of the handlers.
pub struct Request {
    path: String,
}

impl View for Request {
    type V = Seq<char>;

    closed spec fn view(&self) -> Seq<char> {
        self.path@
    }
}

impl Request {
    /// Builds a request for the given path.
    pub fn new(path: String) -> (r: Self)
        ensures
            r@ == path@,
    {
        Request { path }
    }

    /// The path this request asks for.
    pub fn path(&self) -> (p: &str)
        ensures
            p@ == self@,
    {
        self.path.as_str()
    }
}

/// An outbound response. The router touches only the status code; a handler
/// may set it to anything.
pub struct Response {
    status: u16,
}

impl View for Response {
    type V = u16;

    closed spec fn view(&self) -> u16 {
        self.status
    }
}

impl Response {
    /// A fresh response, status 200 until a handler or the router says
    /// otherwise.
    pub fn new() -> (r: Self)
        ensures
            r@ == 200,
    {
        Response { status: 200 }
    }

    /// Sets the status code.
    pub fn set_status(&mut self, status: u16)
        ensures
            final(self)@ == status,
    {
        self.status = status;
    }

    /// The current status code.
    pub fn status(&self) -> (s: u16)
        ensures
            s == self@,
    {
        self.status
    }
}

} // verus!
