//! The outbound side of the ownership bridge: boundary-owned response
//! nodes.
//!
//! Each successful command produces one node holding the returned value;
//! the node's id crosses the boundary and the caller owes exactly one
//! matching release. The table counts allocations and releases, so that
//! balance — every node released exactly once, no double free and no leak —
//! is an invariant rather than a convention.

use vstd::prelude::*;
use redis::Value;

verus! {

/// How many nodes of `s` are still held (allocated and not yet released).
pub open spec fn live_count(s: Seq<Option<Value>>) -> nat
    decreases s.len(),
{
    if s.len() == 0 {
        0
    } else {
        live_count(s.drop_last()) + (if s.last() is Some {
            1nat
        } else {
            0
        })
    }
}

/// The table of boundary-owned response nodes, keyed by opaque integer
/// ids. `allocated` and `released` count the two halves of the ownership
/// protocol.
pub struct ResponseTable {
    pub nodes: Vec<Option<Value>>,
    pub allocated: usize,
    pub released: usize,
}

impl ResponseTable {
    /// Well-formedness: the counters match the table — every id ever
    /// allocated has a slot, and the allocation surplus is exactly the
    /// number of nodes still held.
    pub open spec fn wf(self) -> bool {
        &&& self.allocated == self.nodes@.len()
        &&& self.released <= self.allocated
        &&& self.allocated - self.released == live_count(self.nodes@)
    }

    /// Whether `id` denotes a node that is allocated and not yet released.
    pub open spec fn live(self, id: int) -> bool {
        0 <= id < self.nodes@.len() && self.nodes@[id] is Some
    }

    /// The value a live node holds.
    pub open spec fn value_at(self, id: int) -> Value {
        self.nodes@[id].unwrap()
    }

    /// An empty table: nothing allocated, nothing released.
    pub fn empty() -> (t: ResponseTable)
        ensures
            t.wf(),
            t.allocated == 0,
            t.released == 0,
            t.nodes@.len() == 0,
    {
        ResponseTable { nodes: Vec::new(), allocated: 0, released: 0 }
    }

    /// Allocates one node owning `value` and hands back its fresh id; every
    /// other node is untouched.
    pub fn allocate(&mut self, value: Value) -> (id: usize)
        requires
            old(self).wf(),
        ensures
            final(self).wf(),
            id == old(self).nodes@.len(),
            final(self).nodes@ == old(self).nodes@.push(Some(value)),
            final(self).live(id as int),
            final(self).value_at(id as int) == value,
            final(self).allocated == old(self).allocated + 1,
            final(self).released == old(self).released,
    {
        let id = self.nodes.len();
        self.nodes.push(Some(value));
        self.allocated = self.nodes.len();
        proof {
            lemma_live_count_push(old(self).nodes@, Some(value));
        }
        id
    }

    /// Releases a held node, freeing the value it owns — the caller's one
    /// matching release. The id is dead afterwards and every other node is
    /// untouched.
    pub fn release(&mut self, id: usize)
        requires
            old(self).wf(),
            old(self).live(id as int),
        ensures
            final(self).wf(),
            final(self).nodes@ == old(self).nodes@.update(id as int, None),
            !final(self).live(id as int),
            final(self).allocated == old(self).allocated,
            final(self).released == old(self).released + 1,
    {
        proof {
            lemma_live_count_update_to_none(self.nodes@, id as int);
        }
        self.nodes.set(id, None);
        self.released = self.released + 1;
    }

    /// Whether `id` denotes a node still held.
    pub fn is_live(&self, id: usize) -> (b: bool)
        ensures
            b == self.live(id as int),
    {
        id < self.nodes.len() && self.nodes[id].is_some()
    }
}

/// Appending a node adds one to the held count exactly when it is present.
proof fn lemma_live_count_push(s: Seq<Option<Value>>, node: Option<Value>)
    ensures
        live_count(s.push(node)) == live_count(s) + (if node is Some {
            1nat
        } else {
            0
        }),
{
    assert(s.push(node).drop_last() =~= s);
}

/// Clearing a held slot removes exactly one from the held count.
proof fn lemma_live_count_update_to_none(s: Seq<Option<Value>>, id: int)
    requires
        0 <= id < s.len(),
        s[id] is Some,
    ensures
        live_count(s) >= 1,
        live_count(s.update(id, None)) == live_count(s) - 1,
    decreases s.len(),
{
    if id == s.len() - 1 {
        assert(s.update(id, None).drop_last() =~= s.drop_last());
    } else {
        lemma_live_count_update_to_none(s.drop_last(), id);
        assert(s.update(id, None).drop_last() =~= s.drop_last().update(id, None));
        assert(s.update(id, None).last() == s.last());
    }
}

/// Law: with the table well formed, the allocation and release counts are
/// balanced exactly when no node is still held — N dispatches matched by N
/// releases leave nothing behind, and nothing can be released twice.
pub proof fn lemma_release_balance(t: ResponseTable)
    requires
        t.wf(),
    ensures
        (t.released == t.allocated) <==> (live_count(t.nodes@) == 0),
{
}

} // verus!
