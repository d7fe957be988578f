//! A 256-bucket histogram of byte values: the shared accumulator behind the
//! chi-square, mean, and Shannon calculators. Each of those owns its own
//! histogram, fed identically, so no state is shared between them.

use vstd::prelude::*;

verus! {

/// The number of times the byte value `v` occurs in the stream `s`.
pub open spec fn count_occ(s: Seq<u8>, v: u8) -> nat
    decreases s.len(),
{
    if s.len() == 0 {
        0
    } else {
        count_occ(s.drop_last(), v) + if s.last() == v {
            1nat
        } else {
            0nat
        }
    }
}

/// Appending one byte raises exactly that byte's count by one.
pub proof fn lemma_count_occ_push(s: Seq<u8>, b: u8, v: u8)
    ensures
        count_occ(s.push(b), v) == count_occ(s, v) + if b == v {
            1nat
        } else {
            0nat
        },
{
    assert(s.push(b).drop_last() =~= s);
    assert(s.push(b).last() == b);
}

/// The full count table of a stream: entry `v` is the occurrence count of
/// byte value `v`, as a machine word (exact whenever the stream's length fits
/// one, which every histogram's invariant guarantees).
pub open spec fn counts_of(s: Seq<u8>) -> Seq<u64> {
    Seq::new(256, |v: int| count_occ(s, v as u8) as u64)
}

/// A byte's count never exceeds the stream's length.
pub proof fn lemma_count_occ_le_len(s: Seq<u8>, v: u8)
    ensures
        count_occ(s, v) <= s.len(),
    decreases s.len(),
{
    if s.len() > 0 {
        lemma_count_occ_le_len(s.drop_last(), v);
    }
}

/// A 256-bucket counter of byte-value occurrences plus the running total.
/// The ghost `stream` is the sequence of all bytes fed so far; the invariant
/// ties every bucket and the total to it exactly: no byte is dropped and none
/// is counted twice.
pub struct Histogram {
    buckets: Vec<u64>,
    total: u64,
    stream: Ghost<Seq<u8>>,
}

impl View for Histogram {
    type V = Seq<u8>;

    closed spec fn view(&self) -> Seq<u8> {
        self.stream@
    }
}

impl Histogram {
    /// The histogram is exactly the bucket-by-bucket count of its stream.
    pub closed spec fn wf(&self) -> bool {
        &&& self.buckets@.len() == 256
        &&& self.total == self.stream@.len()
        &&& self.stream@.len() <= u64::MAX
        &&& forall|v: int|
            0 <= v < 256 ==> self.buckets@[v] == count_occ(self.stream@, v as u8)
    }

    /// An empty histogram: every bucket zero, nothing fed yet.
    pub fn new() -> (r: Histogram)
        ensures
            r.wf(),
            r@ == Seq::<u8>::empty(),
    {
        let mut buckets: Vec<u64> = Vec::new();
        let mut i: usize = 0;
        while i < 256
            invariant
                i <= 256,
                buckets@.len() == i,
                forall|v: int| 0 <= v < i ==> buckets@[v] == 0,
            decreases 256 - i,
        {
            buckets.push(0);
            i = i + 1;
        }
        let r = Histogram { buckets, total: 0, stream: Ghost(Seq::empty()) };
        assert forall|v: int| 0 <= v < 256 implies r.buckets@[v] == count_occ(r.stream@, v as u8) by {
            assert(count_occ(Seq::<u8>::empty(), v as u8) == 0);
        }
        r
    }

    /// Count every byte of `bytes`, in order, into the histogram.
    pub fn feed(&mut self, bytes: &[u8])
        requires
            old(self).wf(),
            old(self)@.len() + bytes@.len() <= u64::MAX,
        ensures
            final(self).wf(),
            final(self)@ == old(self)@ + bytes@,
    {
        let ghost start = self.stream@;
        let mut i: usize = 0;
        while i < bytes.len()
            invariant
                i <= bytes@.len(),
                self.wf(),
                self.stream@ == start + bytes@.take(i as int),
                start.len() + bytes@.len() <= u64::MAX,
            decreases bytes@.len() - i,
        {
            let b = bytes[i];
            let ghost pre = self.stream@;
            let idx = b as usize;
            proof {
                lemma_count_occ_le_len(pre, b);
            }
            let count = self.buckets[idx];
            self.buckets.set(idx, count + 1);
            self.total = self.total + 1;
            self.stream = Ghost(pre.push(b));
            proof {
                assert forall|v: int|
                    0 <= v < 256 implies self.buckets@[v] == count_occ(self.stream@, v as u8) by {
                    lemma_count_occ_push(pre, b, v as u8);
                }
                assert(start + bytes@.take(i as int + 1) =~= pre.push(b));
            }
            i = i + 1;
        }
        proof {
            assert(start + bytes@.take(bytes@.len() as int) =~= start + bytes@);
        }
    }

    /// The total number of bytes fed so far.
    pub fn total(&self) -> (r: u64)
        requires
            self.wf(),
        ensures
            r == self@.len(),
    {
        self.total
    }

    /// The occurrence count of one byte value.
    pub fn bucket(&self, v: usize) -> (r: u64)
        requires
            self.wf(),
            v < 256,
        ensures
            r == count_occ(self@, v as u8),
    {
        self.buckets[v]
    }

    /// The buckets, for whole-table walks: exactly the count table of the
    /// absorbed stream.
    pub fn buckets(&self) -> (r: &Vec<u64>)
        requires
            self.wf(),
        ensures
            r@.len() == 256,
            r@ == counts_of(self@),
            forall|v: int| 0 <= v < 256 ==> r@[v] == count_occ(self@, v as u8),
    {
        proof {
            assert forall|v: int| 0 <= v < 256 implies self.buckets@[v] == counts_of(self@)[v] by {
                lemma_count_occ_le_len(self.stream@, v as u8);
            }
            assert(self.buckets@ =~= counts_of(self@));
        }
        &self.buckets
    }
}

} // verus!
