//! The handler capability: one operation, `handle(request, response)`, that
//! may read the request and mutate the response. The router never inspects a
//! handler beyond calling it.

use vstd::prelude::*;
use crate::message::{Request, Response};

verus! {

/// A unit of behaviour a route delegates matched requests to.
///
/// `effect` is the handler's specification: the status it leaves on the
/// response, as a function of the request's path and the status it found.
/// Each implementation's `handle` is verified against its own `effect`.
pub trait Handler: Sized {
    /// The status this handler leaves on the response.
    spec fn effect(&self, path: Seq<char>, status: u16) -> u16;

    /// Handles a matched request: may read the request and mutate the
    /// response's status.
    fn handle(&self, req: &Request, res: &mut Response)
        ensures
            final(res)@ == self.effect(req@, old(res)@),
    ;
}

/// A handler that answers every request it is given with one fixed status
/// code. Enough to tell routes apart by the response they leave.
#[derive(Clone, Copy, Debug, PartialEq, Eq, Structural)]
pub struct StatusHandler {
    /// The status code this handler answers with.
    pub code: u16,
}

impl StatusHandler {
    /// A handler that always answers with `code`.
    pub fn new(code: u16) -> (h: Self)
        ensures
            h.code == code,
    {
        StatusHandler { code }
    }
}

impl Handler for StatusHandler {
    open spec fn effect(&self, path: Seq<char>, status: u16) -> u16 {
        self.code
    }

    fn handle(&self, req: &Request, res: &mut Response) {
        res.set_status(self.code);
    }
}

} // verus!
