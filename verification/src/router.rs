//! The router façade: a lightweight, cloneable handle to one shared route
//! table, protected by a reader-writer lock — unlimited concurrent
//! dispatchers, at most one registrar, writers excluding all readers.
//! Cloning a router yields a second handle to the *same* table, so routes
//! added through any handle are visible to dispatches through any other.

use std::sync::Arc;
use vstd::prelude::*;
use vstd::rwlock::RwLock;
use crate::handler::Handler;
use crate::message::{Request, Response};
use crate::pattern::{pattern_accepts, PatternCompileError};
use crate::table::{dispatch_result, table_wf, RouteTable};

verus! {

/// The invariant every value stored in a router's lock satisfies: the table
/// is well-formed, so a dispatcher never sees a half-constructed entry.
pub open spec fn table_lock_pred<H: Handler>() -> spec_fn(RouteTable<H>) -> bool {
    |t: RouteTable<H>| t.wf()
}

/// A handle to a shared route table. `add` registers a route; `dispatch`
/// scans a consistent snapshot of the table and delegates to the first
/// matching handler, or answers 404.
#[verifier::reject_recursive_types(H)]
pub struct Router<H: Handler> {
    routes: Arc<RwLock<RouteTable<H>, spec_fn(RouteTable<H>) -> bool>>,
}

impl<H: Handler> Router<H> {
    #[verifier::type_invariant]
    spec fn locked_wf(self) -> bool {
        (*self.routes).pred() == table_lock_pred::<H>()
    }

    /// A router over a fresh, empty, shared route table.
    pub fn new() -> (r: Self) {
        let table = RouteTable::<H>::new();
        proof {
            assert(table_lock_pred::<H>()(table));
        }
        Router { routes: Arc::new(RwLock::new(table, Ghost(table_lock_pred::<H>()))) }
    }

    /// Compiles `pattern_source` and appends the (pattern, handler) entry
    /// to the end of the shared table, waiting for exclusive access to it.
    /// Succeeds exactly when the source compiles; on a compile error the
    /// table is left unchanged — registration is atomic. The new route is
    /// visible to every later dispatch through any handle of this router.
    pub fn add(&self, pattern_source: &str, handler: H) -> (r: Result<(), PatternCompileError>)
        ensures
            r is Ok <==> pattern_accepts(pattern_source@),
    {
        proof {
            use_type_invariant(self);
        }
        let (mut table, write_handle) = self.routes.acquire_write();
        let result = table.add_route(pattern_source, handler);
        write_handle.release_write(table);
        result
    }

    /// Takes shared access to the table, scans one consistent snapshot of
    /// it and invokes the first matching entry's handler on the response,
    /// or sets the status to 404 when nothing matches. Which snapshot is
    /// seen depends on how the call interleaves with concurrent `add`s;
    /// every snapshot is a well-formed table, never a partial one.
    pub fn dispatch(&self, req: &Request, res: &mut Response)
        ensures
            exists|t: Seq<(Seq<char>, H)>|
                #[trigger] table_wf(t) && final(res)@ == dispatch_result(t, req@, old(res)@),
    {
        proof {
            use_type_invariant(self);
        }
        let read_handle = self.routes.acquire_read();
        let table = read_handle.borrow();
        let ghost snapshot = table@;
        proof {
            assert(table_wf(snapshot));
        }
        table.dispatch_on(req, res);
        read_handle.release_read();
    }
}

impl<H: Handler> Clone for Router<H> {
    /// A second handle to the very same shared route table: clones are
    /// interchangeable for both `add` and `dispatch`.
    fn clone(&self) -> (r: Self)
        ensures
            r == *self,
    {
        proof {
            use_type_invariant(self);
        }
        Router { routes: self.routes.clone() }
    }
}

} // verus!
