//! The error-queue drain both instruments share: the error query is repeated
//! until the device reports an empty queue, and every earlier response is
//! collected in order.  The queries themselves are issued by the caller; the
//! drain holds the decision of when to stop and what to keep.

use vstd::prelude::*;

use crate::text::{cld_queue_empty, mpm_queue_empty, spec_cld_queue_empty, spec_mpm_queue_empty};

verus! {

/// Which instrument's empty-queue sentinel applies.
#[derive(Clone, Copy, PartialEq, Eq, Structural)]
pub enum DrainKind {
    Laser,
    Meter,
}

/// The response that ends a drain for the given instrument.
pub open spec fn spec_queue_empty(kind: DrainKind, s: Seq<char>) -> bool {
    match kind {
        DrainKind::Laser => spec_cld_queue_empty(s),
        DrainKind::Meter => spec_mpm_queue_empty(s),
    }
}

/// What a drain collects from a sequence of responses: every response before
/// the first empty-queue sentinel.
pub open spec fn drain_collects(kind: DrainKind, rs: Seq<Seq<char>>) -> Seq<Seq<char>>
    decreases rs.len(),
{
    if rs.len() == 0 {
        Seq::empty()
    } else if spec_queue_empty(kind, rs[0]) {
        Seq::empty()
    } else {
        seq![rs[0]] + drain_collects(kind, rs.drop_first())
    }
}

/// How many responses a drain consumes: one per collected entry, plus the
/// sentinel that ends it (all of them if no sentinel arrives).
pub open spec fn drain_consumes(kind: DrainKind, rs: Seq<Seq<char>>) -> nat
    decreases rs.len(),
{
    if rs.len() == 0 {
        0
    } else if spec_queue_empty(kind, rs[0]) {
        1
    } else {
        1 + drain_consumes(kind, rs.drop_first())
    }
}

/// The drain terminates at the first empty-queue sentinel, having collected
/// exactly the responses before it, in order.
pub proof fn lemma_drain_stops_at_first_sentinel(kind: DrainKind, rs: Seq<Seq<char>>, k: int)
    requires
        0 <= k < rs.len(),
        spec_queue_empty(kind, rs[k]),
        forall|j: int| 0 <= j < k ==> !spec_queue_empty(kind, rs[j]),
    ensures
        drain_collects(kind, rs) == rs.take(k),
        drain_consumes(kind, rs) == k + 1,
    decreases k,
{
    if k == 0 {
        assert(drain_collects(kind, rs) =~~= rs.take(0));
    } else {
        lemma_drain_stops_at_first_sentinel(kind, rs.drop_first(), k - 1);
        assert(seq![rs[0]] + rs.drop_first().take(k - 1) =~~= rs.take(k));
    }
}

/// One in-progress error-queue drain: the entries collected so far and
/// whether the empty-queue sentinel has arrived.
pub struct ErrorDrain {
    pub kind: DrainKind,
    pub collected: Vec<String>,
    pub done: bool,
}

impl ErrorDrain {
    /// A drain that has seen no response yet.
    pub fn new(kind: DrainKind) -> (r: ErrorDrain)
        ensures
            r.kind == kind,
            r.collected@ =~= Seq::<String>::empty(),
            !r.done,
    {
        ErrorDrain { kind, collected: Vec::new(), done: false }
    }

    /// Account one response of the error query: the sentinel ends the drain
    /// and is not collected; any other response is appended.
    pub fn feed(&mut self, response: String) -> (done: bool)
        requires
            !old(self).done,
        ensures
            final(self).kind == old(self).kind,
            done == final(self).done,
            done == spec_queue_empty(old(self).kind, response@),
            done ==> final(self).collected@ == old(self).collected@,
            !done ==> final(self).collected@ == old(self).collected@.push(response),
    {
        let empty = match self.kind {
            DrainKind::Laser => cld_queue_empty(response.as_str()),
            DrainKind::Meter => mpm_queue_empty(response.as_str()),
        };
        if empty {
            self.done = true;
            true
        } else {
            self.collected.push(response);
            false
        }
    }
}

} // verus!
