//! The segment buffer: a growable accumulator of the samples belonging to
//! the in-progress utterance.
//!
//! The buffer is created at pipeline start and reused for the whole process
//! lifetime: a completed utterance resets its content, never its identity.
//! The host serializes every access through one mutual-exclusion lock, so a
//! snapshot paired with the clear in one call is a single atomic step: no
//! append can interleave between the two.

use vstd::prelude::*;

verus! {

/// The shared accumulator of the current utterance's samples.
pub struct SegmentBuffer {
    samples: Vec<i16>,
}

impl View for SegmentBuffer {
    type V = Seq<i16>;

    closed spec fn view(&self) -> Seq<i16> {
        self.samples@
    }
}

impl SegmentBuffer {
    /// An empty buffer, ready for the first utterance.
    pub fn new() -> (b: SegmentBuffer)
        ensures
            b@ == Seq::<i16>::empty(),
    {
        SegmentBuffer { samples: Vec::new() }
    }

    /// How many samples the in-progress utterance holds.
    pub fn len(&self) -> (n: usize)
        ensures
            n == self@.len(),
    {
        self.samples.len()
    }

    /// Appends freshly ingested samples at the end, keeping their order.
    pub fn append(&mut self, samples: &[i16])
        ensures
            final(self)@ == old(self)@ + samples@,
    {
        let len: usize = samples.len();
        let mut i: usize = 0;
        while i < len
            invariant
                len == samples@.len(),
                i <= len,
                self@ == old(self)@ + samples@.take(i as int),
            decreases len - i,
        {
            let s = samples[i];
            self.samples.push(s);
            proof {
                assert(old(self)@ + samples@.take(i as int + 1) =~= (old(self)@ + samples@.take(
                    i as int,
                )).push(samples@[i as int]));
            }
            i += 1;
        }
        proof {
            assert(samples@.take(len as int) =~= samples@);
        }
    }

    /// The trailing `n` samples, for window classification.
    pub fn tail(&self, n: usize) -> (w: &[i16])
        requires
            n <= self@.len(),
        ensures
            w@ == self@.subrange(self@.len() - n, self@.len() as int),
    {
        let len = self.samples.len();
        vstd::slice::slice_subrange(self.samples.as_slice(), len - n, len)
    }

    /// Reads the whole in-progress utterance and empties the buffer, as one
    /// step: under the host's lock no sample can land between the read and
    /// the clear, so none is lost and none can appear in two snapshots.
    pub fn snapshot_and_clear(&mut self) -> (snapshot: Vec<i16>)
        ensures
            snapshot@ == old(self)@,
            final(self)@ == Seq::<i16>::empty(),
    {
        let mut snapshot: Vec<i16> = Vec::new();
        core::mem::swap(&mut snapshot, &mut self.samples);
        snapshot
    }
}

/// A buffer to which samples were just appended.
pub open spec fn appended(buf: Seq<i16>, samples: Seq<i16>) -> Seq<i16> {
    buf + samples
}

/// What a snapshot-and-clear hands to the worker.
pub open spec fn snapshot_of(buf: Seq<i16>) -> Seq<i16> {
    buf
}

/// What a snapshot-and-clear leaves behind.
pub open spec fn after_clear() -> Seq<i16> {
    Seq::<i16>::empty()
}

/// Snapshot-and-clear is atomic with respect to the serialized appends
/// around it: an append that lands before a snapshot is contained in that
/// snapshot in full, one that lands after it is contained in full in the
/// next snapshot, and two consecutive snapshots together carry exactly the
/// samples that arrived — none lost, none duplicated.
pub proof fn lemma_snapshot_clear_atomic(initial: Seq<i16>, before: Seq<i16>, after: Seq<i16>)
    ensures
        snapshot_of(appended(initial, before)) == initial + before,
        snapshot_of(appended(after_clear(), after)) == after,
        snapshot_of(appended(initial, before)) + snapshot_of(appended(after_clear(), after))
            == initial + before + after,
{
    assert(snapshot_of(appended(after_clear(), after)) =~= after);
    assert(snapshot_of(appended(initial, before)) + snapshot_of(appended(after_clear(), after))
        =~= initial + before + after);
}

} // verus!
