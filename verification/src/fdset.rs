//! Sets of descriptors in the form that `select` takes and gives: one bit
//! for each descriptor below a fixed number.

use crate::sys::{fd_setsize, set_size};
use vstd::prelude::*;

verus! {

/// Whether bit number `k` of `word` is set.
pub open spec fn has_bit(word: u64, k: u64) -> bool {
    (word >> k) & 1 == 1
}

proof fn lemma_no_bit(k: u64)
    by (bit_vector)
    requires
        k < 64,
    ensures
        !has_bit(0, k),
{
}

proof fn lemma_set_bit(word: u64, k: u64, j: u64)
    by (bit_vector)
    requires
        k < 64,
        j < 64,
    ensures
        has_bit(word | (1u64 << k), j) == (j == k || has_bit(word, j)),
{
}

/// A set of descriptors below `set_size()`. Its view is the set of the
/// descriptors that it holds.
#[derive(Clone, Copy, Debug, PartialEq, Eq)]
pub struct FdSet {
    words: [u64; 16],
}

impl View for FdSet {
    type V = Set<i32>;

    closed spec fn view(&self) -> Set<i32> {
        Set::new(
            |fd: i32|
                0 <= fd < set_size() && has_bit(
                    self.words@[fd as int / 64],
                    (fd as int % 64) as u64,
                ),
        )
    }
}

impl FdSet {
    /// A set holds no descriptor outside the range.
    pub proof fn lemma_range(self)
        ensures
            forall|fd: i32| #[trigger] self@.contains(fd) ==> 0 <= fd < set_size(),
    {
    }

    /// The empty set.
    pub fn new() -> (r: FdSet)
        ensures
            r@ == Set::<i32>::empty(),
    {
        let r = FdSet { words: [0u64;16] };
        proof {
            assert forall|fd: i32| !(#[trigger] r@.contains(fd)) by {
                if 0 <= fd < 1024 {
                    lemma_no_bit((fd as int % 64) as u64);
                }
            }
            assert(r@ =~= Set::<i32>::empty());
        }
        r
    }

    /// Puts `fd` into the set. A descriptor outside the range cannot be
    /// held: the set stays as it is, and the result says so.
    pub fn insert(&mut self, fd: i32) -> (done: bool)
        ensures
            done == (0 <= fd < set_size()),
            done ==> final(self)@ == old(self)@.insert(fd),
            !done ==> final(self)@ == old(self)@,
    {
        if fd < 0 || fd as usize >= fd_setsize() {
            return false;
        }
        let at: usize = fd as usize / 64;
        let k: u64 = (fd as usize % 64) as u64;
        let mut words = self.words;
        words[at] = words[at] | (1u64 << k);
        self.words = words;
        proof {
            assert forall|other: i32| self@.contains(other) == old(self)@.insert(fd).contains(
                other,
            ) by {
                if 0 <= other < 1024 {
                    if other as int / 64 == at {
                        lemma_set_bit(old(self).words@[at as int], k, (other as int % 64) as u64);
                    }
                }
            }
            assert(self@ =~= old(self)@.insert(fd));
        }
        true
    }

    /// Whether the set holds `fd`.
    pub fn contains(&self, fd: i32) -> (r: bool)
        ensures
            r == self@.contains(fd),
    {
        if fd < 0 || fd as usize >= fd_setsize() {
            return false;
        }
        let word: u64 = self.words[fd as usize / 64];
        let k: u64 = (fd as usize % 64) as u64;
        (word >> k) & 1 == 1
    }
}

} // verus!
