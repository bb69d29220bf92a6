//! The request store: numbers in-flight requests and holds the reply slot of
//! each until it is claimed by a response or abandoned by its requester.
use std::collections::HashMap;
use vstd::prelude::*;

verus! {

broadcast use vstd::std_specs::hash::group_hash_axioms;

/// Largest value of the id counter; the id it names is never handed out, so
/// that the counter cannot wrap.
pub const ID_LIMIT: u64 = 0xffff_ffff_ffff_ffff;

/// Maps each outstanding request id to its reply slot `S`.
pub struct RequestStore<S> {
    next_id: u64,
    slots: HashMap<u64, S>,
    /// Every id handed out so far.
    issued: Ghost<Set<u64>>,
    /// Every id whose slot has been claimed or abandoned.
    released: Ghost<Set<u64>>,
}

impl<S> RequestStore<S> {
    /// The id the next allocation hands out.
    pub closed spec fn next_id(&self) -> u64 {
        self.next_id
    }

    /// The outstanding ids and their reply slots.
    pub closed spec fn pending(&self) -> Map<u64, S> {
        self.slots@
    }

    /// The ids handed out so far.
    pub closed spec fn issued(&self) -> Set<u64> {
        self.issued@
    }

    /// The ids whose slots have left the store.
    pub closed spec fn released(&self) -> Set<u64> {
        self.released@
    }

    pub closed spec fn wf(&self) -> bool {
        &&& self.next_id >= 1
        &&& forall|i: u64| #[trigger] self.issued@.contains(i) ==> 0 < i < self.next_id
        &&& self.released@.subset_of(self.issued@)
        &&& forall|i: u64|
            #[trigger] self.slots@.contains_key(i) <==> (self.issued@.contains(i)
                && !self.released@.contains(i))
    }

    /// An empty store whose first id is 1; id 0 stays reserved for answers
    /// that belong to no request.
    pub fn new() -> (r: RequestStore<S>)
        ensures
            r.wf(),
            r.next_id() == 1,
            r.pending() == Map::<u64, S>::empty(),
            r.issued() == Set::<u64>::empty(),
            r.released() == Set::<u64>::empty(),
    {
        let r = RequestStore {
            next_id: 1,
            slots: HashMap::new(),
            issued: Ghost(Set::empty()),
            released: Ghost(Set::empty()),
        };
        assert(r.slots@ =~= Map::<u64, S>::empty());
        r
    }

    /// Whether `id` is outstanding.
    pub fn is_pending(&self, id: u64) -> (r: bool)
        requires
            self.wf(),
        ensures
            r == self.pending().contains_key(id),
    {
        self.slots.contains_key(&id)
    }

    /// Number of outstanding requests.
    pub fn len(&self) -> (r: usize)
        requires
            self.wf(),
        ensures
            r == self.pending().len(),
    {
        self.slots.len()
    }

    /// Hands out the next id and keeps `slot` under it; refuses, changing
    /// nothing, once the ids are used up.
    pub fn allocate(&mut self, slot: S) -> (r: Option<u64>)
        requires
            old(self).wf(),
        ensures
            allocated(*old(self), *final(self), slot, r),
    {
        if self.next_id == ID_LIMIT {
            return None;
        }
        let id = self.next_id;
        self.next_id = id + 1;
        self.slots.insert(id, slot);
        self.issued = Ghost(self.issued@.insert(id));
        assert(self.slots@.dom() =~= old(self).slots@.dom().insert(id));
        Some(id)
    }

    /// Removes and returns the slot kept under `id`; `None` where `id` is not
    /// outstanding (unknown, or already claimed or abandoned).
    pub fn claim(&mut self, id: u64) -> (r: Option<S>)
        requires
            old(self).wf(),
        ensures
            claimed(*old(self), *final(self), id, r),
    {
        let r = self.slots.remove(&id);
        if r.is_some() {
            self.released = Ghost(self.released@.insert(id));
            assert(self.slots@ == old(self).slots@.remove(id));
            assert(self.released@.subset_of(self.issued@));
        } else {
            assert(self.slots@ =~= old(self).slots@);
        }
        r
    }

    /// Drops the slot kept under `id`, if `id` is outstanding; says whether
    /// it was.
    pub fn abandon(&mut self, id: u64) -> (r: bool)
        requires
            old(self).wf(),
        ensures
            claimed(*old(self), *final(self), id, if r { Some(old(self).pending()[id]) } else { None }),
    {
        let slot = self.claim(id);
        slot.is_some()
    }
}

/// `new` is `old` after `allocate(slot)` returned `r`.
pub open spec fn allocated<S>(old: RequestStore<S>, new: RequestStore<S>, slot: S, r: Option<u64>) -> bool {
    &&& new.wf()
    &&& match r {
        None => {
            &&& old.next_id() == ID_LIMIT
            &&& new.next_id() == old.next_id()
            &&& new.pending() == old.pending()
            &&& new.issued() == old.issued()
            &&& new.released() == old.released()
        },
        Some(id) => {
            &&& id == old.next_id()
            &&& 0 < id < ID_LIMIT
            &&& forall|i: u64| #[trigger] old.issued().contains(i) ==> i < id
            &&& new.next_id() == id + 1
            &&& new.pending() == old.pending().insert(id, slot)
            &&& new.issued() == old.issued().insert(id)
            &&& new.released() == old.released()
        },
    }
}

/// `new` is `old` after `claim(id)` returned `r`.
pub open spec fn claimed<S>(old: RequestStore<S>, new: RequestStore<S>, id: u64, r: Option<S>) -> bool {
    &&& new.wf()
    &&& new.next_id() == old.next_id()
    &&& new.issued() == old.issued()
    &&& match r {
        None => {
            &&& !old.pending().contains_key(id)
            &&& new.pending() == old.pending()
            &&& new.released() == old.released()
        },
        Some(slot) => {
            &&& old.pending().contains_key(id)
            &&& slot == old.pending()[id]
            &&& new.pending() == old.pending().remove(id)
            &&& new.released() == old.released().insert(id)
        },
    }
}

/// `new` comes from `old` by any number of store operations: ids handed
/// out stay handed out, released ids stay released, the counter only grows.
pub open spec fn later<S>(old: RequestStore<S>, new: RequestStore<S>) -> bool {
    &&& old.issued().subset_of(new.issued())
    &&& old.released().subset_of(new.released())
    &&& old.next_id() <= new.next_id()
}

/// Allocating and claiming each move the store forward, and moving forward
/// composes.
pub proof fn lemma_steps_are_later<S>(
    s0: RequestStore<S>,
    s1: RequestStore<S>,
    s2: RequestStore<S>,
    slot: S,
    a: Option<u64>,
    id: u64,
    c: Option<S>,
)
    ensures
        allocated(s0, s1, slot, a) ==> later(s0, s1),
        claimed(s0, s1, id, c) ==> later(s0, s1),
        later(s0, s1) && later(s1, s2) ==> later(s0, s2),
{
}

/// Every id handed out is above zero and above every id handed out before
/// it, whatever happened to the store in between.
pub proof fn law_ids_increase<S>(
    s0: RequestStore<S>,
    s1: RequestStore<S>,
    s2: RequestStore<S>,
    s3: RequestStore<S>,
    x: S,
    y: S,
    a: u64,
    b: u64,
)
    requires
        allocated(s0, s1, x, Some(a)),
        later(s1, s2),
        allocated(s2, s3, y, Some(b)),
    ensures
        0 < a < b,
        s3.issued().contains(a),
        s3.issued().contains(b),
{
}

/// Claiming or abandoning an id that was handed out leaves it released, and
/// hands its slot out exactly when it had not been released before: each id
/// is released once.
pub proof fn law_released_exactly_once<S>(s0: RequestStore<S>, s1: RequestStore<S>, id: u64, r: Option<S>)
    requires
        s0.wf(),
        s0.issued().contains(id),
        claimed(s0, s1, id, r),
    ensures
        s1.released().contains(id),
        r is Some <==> !s0.released().contains(id),
{
}

/// An id that was handed out and is no longer outstanding has been released:
/// its slot left by a claim or an abandon.
pub proof fn law_gone_means_released<S>(s: RequestStore<S>, id: u64)
    requires
        s.wf(),
        s.issued().contains(id),
        !s.pending().contains_key(id),
    ensures
        s.released().contains(id),
{
}

/// A claim returns the slot that was registered under its id: not the slot
/// of another id, whatever other id is claimed in between; and an id claimed
/// in between leaves nothing to claim.
pub proof fn law_no_cross_delivery<S>(
    s0: RequestStore<S>,
    s1: RequestStore<S>,
    s2: RequestStore<S>,
    s3: RequestStore<S>,
    slot: S,
    id: u64,
    other: u64,
    r2: Option<S>,
    r3: Option<S>,
)
    requires
        s0.wf(),
        allocated(s0, s1, slot, Some(id)),
        claimed(s1, s2, other, r2),
        claimed(s2, s3, id, r3),
    ensures
        other != id ==> r3 == Some(slot),
        other == id ==> r2 == Some(slot) && r3 is None,
{
    if other != id {
        assert(s2.pending().contains_key(id));
    }
}

/// Requests numbered one after another get consecutive ids from some
/// `k >= 1` on, in the order they were numbered, each with its own slot.
pub proof fn law_consecutive_ids<S>(
    s0: RequestStore<S>,
    s1: RequestStore<S>,
    s2: RequestStore<S>,
    s3: RequestStore<S>,
    x: S,
    y: S,
    z: S,
    a: u64,
    b: u64,
    c: u64,
)
    requires
        allocated(s0, s1, x, Some(a)),
        allocated(s1, s2, y, Some(b)),
        allocated(s2, s3, z, Some(c)),
    ensures
        a >= 1,
        a == s0.next_id(),
        b == a + 1,
        c == a + 2,
        s3.pending().contains_key(a) && s3.pending()[a] == x,
        s3.pending().contains_key(b) && s3.pending()[b] == y,
        s3.pending().contains_key(c) && s3.pending()[c] == z,
{
}

} // verus!
