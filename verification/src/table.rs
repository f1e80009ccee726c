//! The route table: the ordered, append-only sequence of (pattern, handler)
//! entries, with the linear first-match scan over it. Registration order is
//! preserved and is the match-priority order: the scan goes left to right
//! and the first entry whose pattern matches wins, never a later or a more
//! specific one.

use vstd::prelude::*;
use crate::handler::Handler;
use crate::message::{Request, Response, NOT_FOUND};
use crate::pattern::{pattern_accepts, pattern_matches, Pattern, PatternCompileError};

verus! {

/// An immutable (pattern, handler) pair: never edited in place, only
/// appended to the table.
struct RouteEntry<H: Handler> {
    pattern: Pattern,
    handler: H,
}

/// The index of the first entry of `t` whose pattern matches `path`, if
/// any. An entry is viewed as the pair (pattern source, handler).
pub open spec fn first_match<H: Handler>(t: Seq<(Seq<char>, H)>, path: Seq<char>) -> Option<int>
    decreases t.len(),
{
    if t.len() == 0 {
        None
    } else if pattern_matches(t[0].0, path) {
        Some(0int)
    } else {
        match first_match(t.drop_first(), path) {
            Some(i) => Some(i + 1),
            None => None,
        }
    }
}

/// The status a dispatch over table `t` leaves on the response: the first
/// matching entry's handler decides it, and a table without a matching
/// entry leaves 404.
pub open spec fn dispatch_result<H: Handler>(
    t: Seq<(Seq<char>, H)>,
    path: Seq<char>,
    status: u16,
) -> u16 {
    match first_match(t, path) {
        Some(i) => t[i].1.effect(path, status),
        None => NOT_FOUND,
    }
}

/// Every entry of the table view `t` holds a pattern its compiler accepted:
/// no half-constructed entry is ever visible.
pub open spec fn table_wf<H: Handler>(t: Seq<(Seq<char>, H)>) -> bool {
    forall|i: int| 0 <= i < t.len() ==> pattern_accepts(#[trigger] t[i].0)
}

/// First-match-wins: the scan's winner is a matching entry no earlier entry
/// beats, and where there is no winner, no entry matches at all.
pub proof fn lemma_first_match_wins<H: Handler>(t: Seq<(Seq<char>, H)>, path: Seq<char>)
    ensures
        match first_match(t, path) {
            Some(i) => 0 <= i < t.len() && pattern_matches(t[i].0, path) && forall|j: int|
                0 <= j < i ==> !pattern_matches(#[trigger] t[j].0, path),
            None => forall|j: int| 0 <= j < t.len() ==> !pattern_matches(#[trigger] t[j].0, path),
        },
    decreases t.len(),
{
    if t.len() == 0 {
    } else if pattern_matches(t[0].0, path) {
    } else {
        let s = t.drop_first();
        lemma_first_match_wins(s, path);
        assert(forall|j: int| 0 <= j < s.len() ==> #[trigger] s[j] == t[j + 1]);
        match first_match(s, path) {
            Some(i) => {
                assert(first_match(t, path) == Some(i + 1));
                assert forall|j: int| 0 <= j < i + 1 implies !pattern_matches(
                    #[trigger] t[j].0,
                    path,
                ) by {
                    if j > 0 {
                        assert(!pattern_matches(s[j - 1].0, path));
                    }
                }
            },
            None => {
                assert forall|j: int| 0 <= j < t.len() implies !pattern_matches(
                    #[trigger] t[j].0,
                    path,
                ) by {
                    if j > 0 {
                        assert(!pattern_matches(s[j - 1].0, path));
                    }
                }
            },
        }
    }
}

/// The scan's result is pinned by what it promises: a matching entry that
/// no earlier entry beats is the winner.
proof fn lemma_first_match_unique<H: Handler>(t: Seq<(Seq<char>, H)>, path: Seq<char>, i: int)
    requires
        0 <= i < t.len(),
        pattern_matches(t[i].0, path),
        forall|j: int| 0 <= j < i ==> !pattern_matches(#[trigger] t[j].0, path),
    ensures
        first_match(t, path) == Some(i),
{
    lemma_first_match_wins(t, path);
}

/// Order sensitivity: when two patterns both match a path, whichever was
/// registered first handles it — in either registration order.
pub proof fn lemma_order_sensitivity<H: Handler>(
    first: (Seq<char>, H),
    second: (Seq<char>, H),
    path: Seq<char>,
    status: u16,
)
    requires
        pattern_matches(first.0, path),
        pattern_matches(second.0, path),
    ensures
        dispatch_result(seq![first, second], path, status) == first.1.effect(path, status),
        dispatch_result(seq![second, first], path, status) == second.1.effect(path, status),
{
    assert(first_match(seq![first, second], path) == Some(0int));
    assert(first_match(seq![second, first], path) == Some(0int));
}

/// Empty table: a dispatch against any path finds no entry and leaves 404.
pub proof fn lemma_empty_table<H: Handler>(path: Seq<char>, status: u16)
    ensures
        first_match(Seq::<(Seq<char>, H)>::empty(), path) is None,
        dispatch_result(Seq::<(Seq<char>, H)>::empty(), path, status) == NOT_FOUND,
{
}

/// The route table. Its view is the sequence of (pattern source, handler)
/// pairs, in registration order.
pub struct RouteTable<H: Handler> {
    entries: Vec<RouteEntry<H>>,
}

impl<H: Handler> View for RouteTable<H> {
    type V = Seq<(Seq<char>, H)>;

    closed spec fn view(&self) -> Seq<(Seq<char>, H)> {
        self.entries@.map_values(|e: RouteEntry<H>| (e.pattern@, e.handler))
    }
}

impl<H: Handler> RouteTable<H> {
    /// Well-formedness of this table: see `table_wf`.
    pub open spec fn wf(&self) -> bool {
        table_wf(self@)
    }

    /// A fresh, empty table.
    pub fn new() -> (t: Self)
        ensures
            t@ == Seq::<(Seq<char>, H)>::empty(),
    {
        let t = RouteTable { entries: Vec::new() };
        proof {
            assert(t@ =~= Seq::<(Seq<char>, H)>::empty());
        }
        t
    }

    /// How many routes the table holds.
    pub fn len(&self) -> (n: usize)
        ensures
            n == self@.len(),
    {
        self.entries.len()
    }

    /// Appends an entry at the end of the sequence. Always succeeds: there
    /// is no duplicate detection and no capacity bound.
    pub fn append(&mut self, pattern: Pattern, handler: H)
        ensures
            final(self)@ == old(self)@.push((pattern@, handler)),
    {
        let ghost entry_view = (pattern@, handler);
        self.entries.push(RouteEntry { pattern, handler });
        proof {
            assert(self@ =~= old(self)@.push(entry_view));
        }
    }

    /// Registers a route: compiles `source` and appends the entry.
    /// Registration is atomic — on a compile error nothing changes and the
    /// error is reported; the entry appears in full or not at all.
    pub fn add_route(&mut self, source: &str, handler: H) -> (r: Result<
        (),
        PatternCompileError,
    >)
        ensures
            r is Ok <==> pattern_accepts(source@),
            r is Ok ==> final(self)@ == old(self)@.push((source@, handler)),
            r is Err ==> final(self)@ == old(self)@,
    {
        match Pattern::compile(source) {
            Ok(pattern) => {
                self.append(pattern, handler);
                Ok(())
            },
            Err(e) => Err(e),
        }
    }

    /// One linear scan, left to right in registration order: the index of
    /// the first entry whose pattern matches `path`, or `None`. Evaluating
    /// a pattern is a pure boolean test; ties are broken purely by
    /// registration order.
    pub fn find_first_match(&self, path: &str) -> (r: Option<usize>)
        ensures
            match r {
                Some(i) => first_match(self@, path@) == Some(i as int),
                None => first_match(self@, path@) is None,
            },
    {
        let n = self.entries.len();
        let mut i: usize = 0;
        while i < n
            invariant
                n == self.entries.len(),
                0 <= i <= n,
                forall|j: int| 0 <= j < i ==> !pattern_matches(#[trigger] self@[j].0, path@),
            decreases n - i,
        {
            if self.entries[i].pattern.matches(path) {
                proof {
                    assert(self@[i as int].0 == self.entries@[i as int].pattern@);
                    lemma_first_match_unique(self@, path@, i as int);
                }
                return Some(i);
            }
            i += 1;
        }
        proof {
            lemma_first_match_wins(self@, path@);
        }
        None
    }

    /// Dispatches `req` against this table: invokes the first matching
    /// entry's handler on the response, or sets the status to 404 when no
    /// entry matches. A failure inside the handler is the handler's own
    /// concern: nothing is masked or retried here.
    pub fn dispatch_on(&self, req: &Request, res: &mut Response)
        ensures
            final(res)@ == dispatch_result(self@, req@, old(res)@),
    {
        let found = self.find_first_match(req.path());
        match found {
            Some(i) => {
                proof {
                    lemma_first_match_wins(self@, req@);
                }
                self.entries[i].handler.handle(req, res);
            },
            None => {
                res.set_status(NOT_FOUND);
            },
        }
    }
}

} // verus!
