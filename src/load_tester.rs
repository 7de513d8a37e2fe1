//! The sequence store: an append-only vector of `u64` in contract storage.
use crate::storage::{stored, storage_get, storage_len, storage_new, storage_push, StoredValues};
use ink_prelude::vec::Vec;
use vstd::prelude::*;

verus! {

/// The values that one call of `bloat(count)` appends: `1, 2, ..., count`.
pub open spec fn counting_run(count: nat) -> Seq<u64> {
    Seq::new(count, |i: int| (i + 1) as u64)
}

/// The contents after `bloat(count)` on a store holding `s`.
pub open spec fn after_bloat(s: Seq<u64>, count: u64) -> Seq<u64> {
    s + counting_run(count as nat)
}

/// A store that holds an ordered sequence of `u64` and only ever grows.
pub struct LoadTester {
    vector: StoredValues,
}

impl View for LoadTester {
    type V = Seq<u64>;

    closed spec fn view(&self) -> Seq<u64> {
        stored(self.vector)
    }
}

impl LoadTester {
    /// An empty store.
    pub fn new() -> (r: LoadTester)
        ensures
            r@ == Seq::<u64>::empty(),
    {
        LoadTester { vector: storage_new() }
    }

    /// Appends `1, 2, ..., count`; the run restarts at 1 on every call.
    /// The storage vector holds at most `u32::MAX` elements.
    pub fn bloat(&mut self, count: u64)
        requires
            old(self)@.len() + count <= u32::MAX,
        ensures
            final(self)@ == after_bloat(old(self)@, count),
    {
        let mut i: u64 = 0;
        while i < count
            invariant
                i <= count,
                old(self)@.len() + count <= u32::MAX,
                self@ == old(self)@ + counting_run(i as nat),
            decreases count - i,
        {
            storage_push(&mut self.vector, i + 1);
            i = i + 1;
            assert(self@ =~= old(self)@ + counting_run(i as nat));
        }
    }

    /// A copy of the whole stored sequence, in order of insertion.
    pub fn get(&self) -> (r: Vec<u64>)
        ensures
            r@ == self@,
    {
        let mut data: Vec<u64> = Vec::new();
        let n: u32 = storage_len(&self.vector);
        let mut idx: u32 = 0;
        while idx < n
            invariant
                n as int == self@.len(),
                idx <= n,
                data@ == self@.take(idx as int),
            decreases n - idx,
        {
            if let Some(value) = storage_get(&self.vector, idx) {
                data.push(value);
            }
            idx = idx + 1;
            assert(data@ =~= self@.take(idx as int));
        }
        assert(data@ =~= self@);
        data
    }
}

} // verus!
