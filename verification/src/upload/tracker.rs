//! Tracks how far a file is contiguously uploaded when blocks finish out of order.

use std::collections::HashMap;
use vstd::prelude::*;

verus! {

broadcast use vstd::std_specs::hash::group_hash_axioms;

/// The mathematical state of a tracker: the low-water mark and the blocks
/// (start offset to length) that finished ahead of it.
#[verifier::ext_equal]
pub struct TrackerState {
    pub complete_up_to: nat,
    pub pending: Map<u64, u64>,
}

/// The state of a tracker that takes everything below `start` as complete
/// and to which nothing was reported.
pub open spec fn started_at(start: nat) -> TrackerState {
    TrackerState { complete_up_to: start, pending: Map::empty() }
}

/// The state of a tracker to which nothing was reported.
pub open spec fn fresh() -> TrackerState {
    started_at(0)
}

/// Follows the pending blocks from `cursor` for as long as one starts exactly there.
pub open spec fn drain(cursor: nat, pending: Map<u64, u64>) -> TrackerState
    decreases pending.dom().len(),
    when pending.dom().finite()
{
    if cursor <= u64::MAX && pending.contains_key(cursor as u64) {
        drain((cursor + pending[cursor as u64]) as nat, pending.remove(cursor as u64))
    } else {
        TrackerState { complete_up_to: cursor, pending }
    }
}

/// The state after a block `[offset, offset + len)` is reported complete. A
/// block at the low-water mark moves the mark to its end and on through the
/// pending blocks that follow without a gap; a block beyond the mark is kept
/// as pending; a block that starts below the mark changes nothing.
pub open spec fn after_block(s: TrackerState, offset: u64, len: u64) -> TrackerState {
    if offset == s.complete_up_to {
        drain((s.complete_up_to + len) as nat, s.pending)
    } else if offset > s.complete_up_to {
        TrackerState { complete_up_to: s.complete_up_to, pending: s.pending.insert(offset, len) }
    } else {
        s
    }
}

/// The low-water mark only moves forward while pending blocks are folded in.
pub proof fn lemma_drain_advances(cursor: nat, pending: Map<u64, u64>)
    requires
        pending.dom().finite(),
    ensures
        drain(cursor, pending).complete_up_to >= cursor,
    decreases pending.dom().len(),
{
    if cursor <= u64::MAX && pending.contains_key(cursor as u64) {
        lemma_drain_advances(
            (cursor + pending[cursor as u64]) as nat,
            pending.remove(cursor as u64),
        );
    }
}

/// Monotonicity: reporting a block never moves the low-water mark back.
pub proof fn lemma_after_block_advances(s: TrackerState, offset: u64, len: u64)
    requires
        s.pending.dom().finite(),
    ensures
        after_block(s, offset, len).complete_up_to >= s.complete_up_to,
{
    if offset == s.complete_up_to {
        lemma_drain_advances((s.complete_up_to + len) as nat, s.pending);
    }
}

/// Every pending block ends within the range of offsets.
pub open spec fn pending_in_range(pending: Map<u64, u64>) -> bool {
    forall|k: u64| #[trigger] pending.contains_key(k) ==> k + pending[k] <= u64::MAX
}

/// Keeps the offset up to which a file is completely uploaded.
pub struct CompletionTracker {
    complete_up_to: u64,
    uploaded_blocks: HashMap<u64, u64>,
}

impl View for CompletionTracker {
    type V = TrackerState;

    closed spec fn view(&self) -> TrackerState {
        TrackerState { complete_up_to: self.complete_up_to as nat, pending: self.uploaded_blocks@ }
    }
}

/// The pending blocks of a tracker are finitely many, and each ends within
/// the range of offsets.
pub proof fn lemma_tracker_pending(tracker: CompletionTracker)
    requires
        tracker.wf(),
    ensures
        tracker@.pending.dom().finite(),
        pending_in_range(tracker@.pending),
{
}

impl Default for CompletionTracker {
    /// A tracker for a fresh upload: nothing is complete.
    fn default() -> (t: CompletionTracker)
        ensures
            t.wf(),
            t@ == fresh(),
    {
        CompletionTracker::new()
    }
}

impl CompletionTracker {
    /// What holds of every tracker: the pending blocks are finitely many and each ends in range.
    pub closed spec fn wf(&self) -> bool {
        &&& self.uploaded_blocks@.dom().finite()
        &&& pending_in_range(self.uploaded_blocks@)
    }

    /// A tracker for a fresh upload: nothing is complete.
    pub fn new() -> (t: CompletionTracker)
        ensures
            t.wf(),
            t@ == fresh(),
    {
        CompletionTracker { complete_up_to: 0, uploaded_blocks: HashMap::new() }
    }

    /// A tracker that takes everything below `complete_up_to` as complete.
    pub fn resume_from(complete_up_to: u64) -> (t: CompletionTracker)
        ensures
            t.wf(),
            t@ == started_at(complete_up_to as nat),
    {
        CompletionTracker { complete_up_to, uploaded_blocks: HashMap::new() }
    }

    /// The offset below which every byte is known to be uploaded.
    pub fn complete_up_to(&self) -> (r: u64)
        ensures
            r == self@.complete_up_to,
    {
        self.complete_up_to
    }

    /// Marks the block `[block_offset, block_offset + block_len)` as uploaded.
    pub fn complete_block(&mut self, block_offset: u64, block_len: u64)
        requires
            old(self).wf(),
            block_offset + block_len <= u64::MAX,
        ensures
            final(self).wf(),
            final(self)@ == after_block(old(self)@, block_offset, block_len),
            final(self)@.complete_up_to >= old(self)@.complete_up_to,
    {
        proof {
            lemma_after_block_advances(old(self)@, block_offset, block_len);
        }
        if block_offset == self.complete_up_to {
            self.complete_up_to = self.complete_up_to + block_len;
            loop
                invariant
                    self.wf(),
                    drain(self@.complete_up_to, self@.pending) == after_block(
                        old(self)@,
                        block_offset,
                        block_len,
                    ),
                ensures
                    self.wf(),
                    self@ == after_block(old(self)@, block_offset, block_len),
                decreases self.uploaded_blocks@.dom().len(),
            {
                let cursor: u64 = self.complete_up_to;
                let ghost before = self.uploaded_blocks@;
                match self.uploaded_blocks.remove(&cursor) {
                    Some(len) => {
                        assert(before.contains_key(cursor) && before[cursor] == len);
                        self.complete_up_to = self.complete_up_to + len;
                    },
                    None => {
                        assert(self.uploaded_blocks@ =~= before);
                        break ;
                    },
                }
            }
        } else if block_offset > self.complete_up_to {
            self.uploaded_blocks.insert(block_offset, block_len);
        }
    }
}

} // verus!
