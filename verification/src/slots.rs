//! The correlation table: a dense table of reusable small-integer slots,
//! one per outstanding method call.
//!
//! Allocation hands out the lowest free id and grows the table up to a
//! configured maximum of outstanding calls; releasing an id frees its
//! slot for reuse. The table itself only tracks occupancy: delivery to
//! the waiting caller is the pump driver's side of the bargain, keyed by
//! the id.

use vstd::prelude::*;

verus! {

/// Mathematical state of the table: which slots exist and are occupied,
/// and how many may exist at most.
pub struct SlotsModel {
    pub used: Seq<bool>,
    pub cap: int,
}

impl SlotsModel {
    /// The table never outgrows its cap, and the cap is a real count.
    pub open spec fn wf(self) -> bool {
        self.used.len() <= self.cap <= usize::MAX
    }

    /// Is `i` an occupied slot?
    pub open spec fn occupied(self, i: int) -> bool {
        0 <= i < self.used.len() && self.used[i]
    }
}

/// The lowest free slot, if any slot is free.
pub open spec fn spec_first_free(used: Seq<bool>) -> Option<int>
    decreases used.len(),
{
    if used.len() == 0 {
        None
    } else if !used[0] {
        Some(0int)
    } else {
        match spec_first_free(used.drop_first()) {
            Some(i) => Some(i + 1),
            None => None,
        }
    }
}

/// What allocation does to the model: occupy the lowest free slot, or
/// grow the table by one occupied slot, or fail when the cap is reached.
pub open spec fn spec_alloc(s: SlotsModel) -> (SlotsModel, Option<int>) {
    match spec_first_free(s.used) {
        Some(i) => (SlotsModel { used: s.used.update(i, true), ..s }, Some(i)),
        None => if s.used.len() < s.cap {
            (SlotsModel { used: s.used.push(true), ..s }, Some(s.used.len() as int))
        } else {
            (s, None)
        },
    }
}

/// What releasing `i` does to the model.
pub open spec fn spec_release(s: SlotsModel, i: int) -> SlotsModel {
    if s.occupied(i) {
        SlotsModel { used: s.used.update(i, false), ..s }
    } else {
        s
    }
}

/// The occupied ids, in ascending order.
pub open spec fn spec_occupied_ids(used: Seq<bool>) -> Seq<int>
    decreases used.len(),
{
    if used.len() == 0 {
        Seq::empty()
    } else if used.last() {
        spec_occupied_ids(used.drop_last()).push(used.len() - 1)
    } else {
        spec_occupied_ids(used.drop_last())
    }
}

/// The occupied-id list names exactly the occupied slots, each once,
/// in strictly ascending order.
pub proof fn lemma_occupied_ids(used: Seq<bool>)
    ensures
        ({
            let ids = spec_occupied_ids(used);
            &&& forall|k: int| 0 <= k < ids.len() ==> 0 <= #[trigger] ids[k] < used.len() && used[ids[k]]
            &&& forall|k1: int, k2: int| 0 <= k1 < k2 < ids.len() ==> ids[k1] < ids[k2]
            &&& forall|i: int| 0 <= i < used.len() && used[i] ==> ids.contains(i)
        }),
    decreases used.len(),
{
    if used.len() > 0 {
        lemma_occupied_ids(used.drop_last());
        let ids = spec_occupied_ids(used);
        let prev = spec_occupied_ids(used.drop_last());
        assert(forall|k: int| 0 <= k < used.len() - 1 ==> used.drop_last()[k] == used[k]);
        assert forall|i: int| 0 <= i < used.len() && used[i] implies ids.contains(i) by {
            if i < used.len() - 1 {
                assert(used.drop_last()[i]);
                assert(prev.contains(i));
                let k = choose|k: int| 0 <= k < prev.len() && prev[k] == i;
                assert(ids[k] == i);
            } else {
                assert(used.last());
                assert(ids.last() == i);
            }
        }
    }
}

/// The correlation table.
pub struct Slots {
    used: Vec<bool>,
    max: usize,
}

impl View for Slots {
    type V = SlotsModel;

    closed spec fn view(&self) -> SlotsModel {
        SlotsModel { used: self.used@, cap: self.max as int }
    }
}

impl Slots {
    /// An empty table allowing at most `max` outstanding calls.
    pub fn new(max: usize) -> (r: Slots)
        ensures
            r@.used == Seq::<bool>::empty(),
            r@.cap == max as int,
    {
        Slots { used: Vec::new(), max }
    }

    /// Allocates the lowest free id, `None` when `cap` calls are
    /// already outstanding.
    pub fn allocate(&mut self) -> (r: Option<usize>)
        requires
            old(self)@.wf(),
        ensures
            final(self)@.wf(),
            final(self)@.cap == old(self)@.cap,
            match r {
                Some(i) => {
                    &&& spec_alloc(old(self)@) == (final(self)@, Some(i as int))
                    &&& !old(self)@.occupied(i as int)
                    &&& final(self)@.occupied(i as int)
                    &&& forall|j: int| j != i ==> old(self)@.occupied(j) == final(self)@.occupied(j)
                },
                None => {
                    &&& spec_alloc(old(self)@) == (final(self)@, None::<int>)
                    &&& final(self)@ == old(self)@
                    &&& old(self)@.used.len() == old(self)@.cap
                    &&& forall|j: int| 0 <= j < old(self)@.cap ==> old(self)@.occupied(j)
                },
            },
    {
        let ghost ud = self.used@;
        let mut i: usize = 0;
        while i < self.used.len()
            invariant
                i <= self.used.len(),
                self.used@ == ud,
                self.max == old(self).max,
                forall|k: int| 0 <= k < i ==> ud[k],
            decreases self.used.len() - i,
        {
            if !self.used[i] {
                proof {
                    lemma_first_free(ud);
                }
                self.used.set(i, true);
                return Some(i);
            }
            i += 1;
        }
        proof {
            lemma_first_free(ud);
        }
        if self.used.len() < self.max {
            let id = self.used.len();
            self.used.push(true);
            Some(id)
        } else {
            None
        }
    }

    /// Frees the slot `i` if it is occupied; says whether it was.
    pub fn release(&mut self, i: usize) -> (was: bool)
        ensures
            final(self)@ == spec_release(old(self)@, i as int),
            was == old(self)@.occupied(i as int),
    {
        if i < self.used.len() {
            if self.used[i] {
                self.used.set(i, false);
                return true;
            }
        }
        false
    }

    /// Frees every slot and returns the ids that were occupied, in
    /// ascending order.
    pub fn drain(&mut self) -> (r: Vec<usize>)
        ensures
            final(self)@.cap == old(self)@.cap,
            final(self)@.used.len() == old(self)@.used.len(),
            forall|j: int| !final(self)@.occupied(j),
            r@.len() == spec_occupied_ids(old(self)@.used).len(),
            forall|k: int| 0 <= k < r@.len() ==> r@[k] as int == spec_occupied_ids(
                old(self)@.used,
            )[k],
    {
        let ghost ud = self.used@;
        let mut out: Vec<usize> = Vec::new();
        let mut i: usize = 0;
        while i < self.used.len()
            invariant
                i <= self.used.len(),
                self.used@.len() == ud.len(),
                self.max == old(self).max,
                forall|k: int| i <= k < ud.len() ==> self.used@[k] == ud[k],
                forall|k: int| 0 <= k < i ==> !self.used@[k],
                ({
                    let ids = spec_occupied_ids(ud.take(i as int));
                    &&& out@.len() == ids.len()
                    &&& forall|k: int| 0 <= k < ids.len() ==> out@[k] as int == ids[k]
                }),
            decreases self.used.len() - i,
        {
            proof {
                assert(ud.take(i + 1).drop_last() =~= ud.take(i as int));
                assert(ud.take(i + 1).last() == ud[i as int]);
            }
            if self.used[i] {
                out.push(i);
                self.used.set(i, false);
            }
            i += 1;
        }
        proof {
            assert(ud.take(ud.len() as int) =~= ud);
        }
        out
    }
}

/// What the first free slot means for each index.
proof fn lemma_first_free(used: Seq<bool>)
    ensures
        match spec_first_free(used) {
            Some(i) => 0 <= i < used.len() && !used[i] && forall|j: int| 0 <= j < i ==> used[j],
            None => forall|j: int| 0 <= j < used.len() ==> used[j],
        },
    decreases used.len(),
{
    if used.len() > 0 && used[0] {
        lemma_first_free(used.drop_first());
        match spec_first_free(used.drop_first()) {
            Some(i) => {
                assert forall|j: int| 0 <= j < i + 1 implies used[j] by {
                    if j > 0 {
                        assert(used.drop_first()[j - 1] == used[j]);
                    }
                }
            },
            None => {
                assert forall|j: int| 0 <= j < used.len() implies used[j] by {
                    if j > 0 {
                        assert(used.drop_first()[j - 1] == used[j]);
                    }
                }
            },
        }
    }
}

} // verus!
