//! The registry of client handles.
//!
//! A handle is exposed to the foreign caller as an opaque integer id into
//! this table. Each registered handle owns a shared execution core and a
//! count of the references held against it: the foreign caller's single
//! logical reference, plus one per in-flight command. A handle is live from
//! the moment Create registers it until a release drops its last reference;
//! the execution core is immutable for that whole lifetime.

use vstd::prelude::*;

verus! {

/// What every in-flight command shares: the live store-client connection
/// and the two callback entry points the foreign caller registered at
/// creation time. Immutable after construction — nothing here mutates it.
pub struct ExecutionCore<C> {
    pub client: C,
    pub success_callback: u64,
    pub failure_callback: u64,
}

/// The handle registry, keyed by opaque integer ids. `cores[id]` holds the
/// handle's execution core while it is live; `refs[id]` counts the
/// references held against it.
pub struct HandleTable<C> {
    pub cores: Vec<Option<ExecutionCore<C>>>,
    pub refs: Vec<u64>,
}

impl<C> HandleTable<C> {
    /// Well-formedness: the two columns agree — same length, and a handle
    /// holds references exactly while its core is present.
    pub open spec fn wf(self) -> bool {
        &&& self.cores@.len() == self.refs@.len()
        &&& forall|id: int| 0 <= id < self.cores@.len()
            ==> ((#[trigger] self.cores@[id]) is Some <==> self.refs@[id] >= 1)
    }

    /// Whether `id` denotes a registered handle that has not yet lost its
    /// last reference.
    pub open spec fn live(self, id: int) -> bool {
        0 <= id < self.cores@.len() && self.cores@[id] is Some
    }

    /// The number of references held against handle `id`.
    pub open spec fn refs_of(self, id: int) -> u64 {
        self.refs@[id]
    }

    /// The execution core shared by everything working on handle `id`.
    pub open spec fn core_at(self, id: int) -> ExecutionCore<C> {
        self.cores@[id].unwrap()
    }

    /// An empty registry.
    pub fn empty() -> (t: HandleTable<C>)
        ensures
            t.wf(),
            t.cores@.len() == 0,
    {
        HandleTable { cores: Vec::new(), refs: Vec::new() }
    }

    /// Registers a freshly created handle around `core`, holding the one
    /// logical reference delivered to the foreign caller. The id is fresh
    /// and every other handle is untouched.
    pub fn register(&mut self, core: ExecutionCore<C>) -> (id: usize)
        requires
            old(self).wf(),
        ensures
            final(self).wf(),
            id == old(self).cores@.len(),
            final(self).cores@ == old(self).cores@.push(Some(core)),
            final(self).refs@ == old(self).refs@.push(1u64),
            final(self).live(id as int),
            final(self).refs_of(id as int) == 1,
            final(self).core_at(id as int) == core,
    {
        let id = self.cores.len();
        self.cores.push(Some(core));
        self.refs.push(1);
        id
    }

    /// Adds one counted reference to a live handle — taken by each command
    /// dispatched against it, so the core outlives the command even if the
    /// caller releases the handle mid-flight.
    pub fn retain(&mut self, id: usize)
        requires
            old(self).wf(),
            old(self).live(id as int),
            old(self).refs_of(id as int) < u64::MAX,
        ensures
            final(self).wf(),
            final(self).cores@ == old(self).cores@,
            final(self).refs@ == old(self).refs@.update(
                id as int,
                (old(self).refs_of(id as int) + 1) as u64,
            ),
            final(self).live(id as int),
            final(self).core_at(id as int) == old(self).core_at(id as int),
    {
        let n = self.refs[id];
        self.refs.set(id, n + 1);
    }

    /// Drops one reference from a live handle. With other references still
    /// held the handle stays live; dropping the last one ends it and frees
    /// its core. No other handle is touched either way.
    pub fn release(&mut self, id: usize)
        requires
            old(self).wf(),
            old(self).live(id as int),
        ensures
            final(self).wf(),
            old(self).refs_of(id as int) > 1 ==> {
                &&& final(self).cores@ == old(self).cores@
                &&& final(self).refs@ == old(self).refs@.update(
                    id as int,
                    (old(self).refs_of(id as int) - 1) as u64,
                )
                &&& final(self).live(id as int)
                &&& final(self).core_at(id as int) == old(self).core_at(id as int)
            },
            old(self).refs_of(id as int) == 1 ==> {
                &&& final(self).cores@ == old(self).cores@.update(id as int, None)
                &&& final(self).refs@ == old(self).refs@.update(id as int, 0u64)
                &&& !final(self).live(id as int)
            },
    {
        let n = self.refs[id];
        if n > 1 {
            self.refs.set(id, n - 1);
        } else {
            self.cores.set(id, None);
            self.refs.set(id, 0);
        }
    }

    /// The execution core of a live handle, borrowed for the caller to work
    /// with.
    pub fn core_of(&self, id: usize) -> (core: &ExecutionCore<C>)
        requires
            self.wf(),
            self.live(id as int),
        ensures
            *core == self.core_at(id as int),
    {
        match &self.cores[id] {
            Some(core) => core,
            None => unreached(),
        }
    }

    /// Whether `id` denotes a live handle.
    pub fn is_live(&self, id: usize) -> (b: bool)
        ensures
            b == self.live(id as int),
    {
        id < self.cores.len() && self.cores[id].is_some()
    }

    /// The reference count held against a live handle.
    pub fn ref_count(&self, id: usize) -> (n: u64)
        requires
            self.wf(),
            self.live(id as int),
        ensures
            n == self.refs_of(id as int),
    {
        self.refs[id]
    }
}

/// Law: a handle from a successful Create remains usable until exactly one
/// release of its last reference — its Close. Registering further handles
/// or releasing a different one never ends it; only the release that drops
/// its own last reference does.
pub proof fn lemma_handle_usable_until_close<C>(
    cores: Seq<Option<ExecutionCore<C>>>,
    id: int,
    other: int,
    late_core: Option<ExecutionCore<C>>,
)
    requires
        0 <= id < cores.len(),
        cores[id] is Some,
        0 <= other < cores.len(),
        other != id,
    ensures
        cores.push(late_core)[id] is Some,
        cores.update(other, None)[id] is Some,
        cores.update(id, None)[id] is None,
{
}

} // verus!
