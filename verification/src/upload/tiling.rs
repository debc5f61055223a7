//! The laws of the completion tracker. Safety: whatever is reported, in
//! whatever order, every byte below the low-water mark was reported.
//! Contiguity: blocks that tile a file, reported in any order, bring the
//! low-water mark to the file's end.

use crate::upload::tracker::{after_block, drain, fresh, started_at, TrackerState};
use vstd::prelude::*;

verus! {

/// A block, as its start offset and its length.
pub type Block = (u64, u64);

/// The block `b` holds the byte at position `p`.
pub open spec fn covers(b: Block, p: int) -> bool {
    b.0 <= p < b.0 + b.1
}

/// One of the first `k` blocks holds the byte at position `p`.
pub open spec fn covered(blocks: Seq<Block>, k: int, p: int) -> bool {
    exists|i: int| 0 <= i < k && covers(#[trigger] blocks[i], p)
}

/// Two blocks share no byte.
pub open spec fn disjoint(a: Block, b: Block) -> bool {
    a.0 + a.1 <= b.0 || b.0 + b.1 <= a.0
}

/// The blocks tile `[0, n)`: none is empty, none reaches past `n`, every byte
/// below `n` lies in one of them, and no two of them overlap.
pub open spec fn tiles(blocks: Seq<Block>, n: nat) -> bool {
    &&& forall|i: int|
        0 <= i < blocks.len() ==> (#[trigger] blocks[i]).1 > 0 && blocks[i].0 + blocks[i].1 <= n
    &&& forall|p: int| 0 <= p < n ==> #[trigger] covered(blocks, blocks.len() as int, p)
    &&& forall|i: int, j: int|
        0 <= i < j < blocks.len() ==> disjoint(#[trigger] blocks[i], #[trigger] blocks[j])
}

/// The state of a tracker after the blocks were reported to it one by one, first to last.
pub open spec fn feed(s: TrackerState, blocks: Seq<Block>) -> TrackerState
    decreases blocks.len(),
{
    if blocks.len() == 0 {
        s
    } else {
        after_block(feed(s, blocks.drop_last()), blocks.last().0, blocks.last().1)
    }
}

/// The pending block at `key` is one of the first `k` blocks.
spec fn reported(blocks: Seq<Block>, k: int, key: u64, len: u64) -> bool {
    exists|i: int| 0 <= i < k && #[trigger] blocks[i] == (key, len)
}

/// What holds of a tracker that started at `start`, after the first `k`
/// blocks were reported: every byte from `start` to the low-water mark lies
/// in one of them, and every pending block is one of them.
spec fn safe(blocks: Seq<Block>, start: nat, k: int, s: TrackerState) -> bool {
    &&& s.pending.dom().finite()
    &&& start <= s.complete_up_to
    &&& forall|p: int| start <= p < s.complete_up_to ==> #[trigger] covered(blocks, k, p)
    &&& forall|key: u64| #[trigger]
        s.pending.contains_key(key) ==> reported(blocks, k, key, s.pending[key])
}

/// Folding pending blocks in keeps a tracker safe.
proof fn lemma_drain_is_safe(blocks: Seq<Block>, start: nat, k: int, s: TrackerState)
    requires
        safe(blocks, start, k, s),
    ensures
        safe(blocks, start, k, drain(s.complete_up_to, s.pending)),
    decreases s.pending.dom().len(),
{
    let c = s.complete_up_to;
    if c <= u64::MAX && s.pending.contains_key(c as u64) {
        let key = c as u64;
        let len = s.pending[key];
        assert(reported(blocks, k, key, len));
        let i = choose|i: int| 0 <= i < k && #[trigger] blocks[i] == (key, len);
        let next = TrackerState {
            complete_up_to: (c + len) as nat,
            pending: s.pending.remove(key),
        };
        assert forall|p: int| start <= p < next.complete_up_to implies #[trigger] covered(
            blocks,
            k,
            p,
        ) by {
            if p >= c {
                assert(covers(blocks[i], p));
            }
        }
        assert forall|q: u64| #[trigger] next.pending.contains_key(q) implies reported(
            blocks,
            k,
            q,
            next.pending[q],
        ) by {
            assert(s.pending.contains_key(q));
        }
        lemma_drain_is_safe(blocks, start, k, next);
    }
}

/// After the first `k` blocks were reported to a tracker that started at `start`, it is safe.
proof fn lemma_feed_is_safe(blocks: Seq<Block>, start: nat, k: int)
    requires
        0 <= k <= blocks.len(),
    ensures
        safe(blocks, start, k, feed(started_at(start), blocks.take(k))),
    decreases k,
{
    if k == 0 {
        assert(blocks.take(0).len() == 0);
    } else {
        lemma_feed_is_safe(blocks, start, k - 1);
        assert(blocks.take(k).drop_last() =~= blocks.take(k - 1));
        assert(blocks.take(k).last() == blocks[k - 1]);
        let s = feed(started_at(start), blocks.take(k - 1));
        let b = blocks[k - 1];
        assert forall|p: int| #[trigger] covered(blocks, k - 1, p) implies covered(blocks, k, p) by {
            let i = choose|i: int| 0 <= i < k - 1 && covers(#[trigger] blocks[i], p);
            assert(0 <= i < k && covers(blocks[i], p));
        }
        assert forall|q: u64, len: u64| #[trigger]
            reported(blocks, k - 1, q, len) implies reported(blocks, k, q, len) by {
            let i = choose|i: int| 0 <= i < k - 1 && #[trigger] blocks[i] == (q, len);
            assert(0 <= i < k && blocks[i] == (q, len));
        }
        if b.0 == s.complete_up_to {
            let next = TrackerState {
                complete_up_to: (s.complete_up_to + b.1) as nat,
                pending: s.pending,
            };
            assert forall|p: int| start <= p < next.complete_up_to implies #[trigger] covered(
                blocks,
                k,
                p,
            ) by {
                if p >= s.complete_up_to {
                    assert(covers(blocks[k - 1], p));
                } else {
                    assert(covered(blocks, k - 1, p));
                }
            }
            assert forall|q: u64| #[trigger] next.pending.contains_key(q) implies reported(
                blocks,
                k,
                q,
                next.pending[q],
            ) by {
                assert(reported(blocks, k - 1, q, s.pending[q]));
            }
            lemma_drain_is_safe(blocks, start, k, next);
        } else {
            let next = TrackerState {
                complete_up_to: s.complete_up_to,
                pending: s.pending.insert(b.0, b.1),
            };
            assert forall|p: int| start <= p < next.complete_up_to implies #[trigger] covered(
                blocks,
                k,
                p,
            ) by {
                assert(covered(blocks, k - 1, p));
            }
            assert forall|q: u64| #[trigger] next.pending.contains_key(q) implies reported(
                blocks,
                k,
                q,
                next.pending[q],
            ) by {
                if q == b.0 {
                    assert(0 <= k - 1 < k && blocks[k - 1] == (q, b.1));
                } else {
                    assert(reported(blocks, k - 1, q, s.pending[q]));
                }
            }
        }
    }
}

/// Safety: after any blocks were reported, in any order, to a tracker that
/// started at `start`, every byte from `start` up to the low-water mark lies
/// in a block that was reported. The mark never passes a gap.
pub proof fn lemma_mark_is_safe(blocks: Seq<Block>, start: u64, p: int)
    requires
        start <= p < feed(started_at(start as nat), blocks).complete_up_to,
    ensures
        covered(blocks, blocks.len() as int, p),
{
    lemma_feed_is_safe(blocks, start as nat, blocks.len() as int);
    assert(blocks.take(blocks.len() as int) =~= blocks);
}

/// Whatever is reported to a tracker that started at `start`, its low-water
/// mark stays at `start` or beyond it.
pub proof fn lemma_mark_never_falls(blocks: Seq<Block>, start: u64)
    ensures
        feed(started_at(start as nat), blocks).complete_up_to >= start,
{
    lemma_feed_is_safe(blocks, start as nat, blocks.len() as int);
    assert(blocks.take(blocks.len() as int) =~= blocks);
}

/// The key is the start of one of the first `k` blocks.
spec fn starts(blocks: Seq<Block>, k: int, key: u64) -> bool {
    exists|i: int| 0 <= i < k && (#[trigger] blocks[i]).0 == key
}

/// What holds while pending blocks are folded in, after the first `k` blocks were reported.
spec fn folding(blocks: Seq<Block>, n: nat, k: int, s: TrackerState) -> bool {
    let c = s.complete_up_to;
    &&& 0 <= k <= blocks.len()
    &&& s.pending.dom().finite()
    &&& c <= n
    &&& forall|i: int| 0 <= i < k && (#[trigger] blocks[i]).0 < c ==> blocks[i].0 + blocks[i].1 <= c
    &&& forall|p: int| 0 <= p < c ==> #[trigger] covered(blocks, k, p)
    &&& forall|i: int|
        0 <= i < k && (#[trigger] blocks[i]).0 >= c ==> s.pending.contains_key(blocks[i].0)
            && s.pending[blocks[i].0] == blocks[i].1
    &&& forall|key: u64| #[trigger]
        s.pending.contains_key(key) ==> key >= c && starts(blocks, k, key)
}

/// What holds between two reports, after the first `k` blocks were reported.
spec fn settled(blocks: Seq<Block>, n: nat, k: int, s: TrackerState) -> bool {
    &&& folding(blocks, n, k, s)
    &&& forall|i: int| 0 <= i < k ==> (#[trigger] blocks[i]).0 != s.complete_up_to
}

/// Two blocks of a tiling that hold the same byte are the same block.
proof fn lemma_one_cover(blocks: Seq<Block>, n: nat, i: int, j: int, p: int)
    requires
        tiles(blocks, n),
        0 <= i < blocks.len(),
        0 <= j < blocks.len(),
        covers(blocks[i], p),
        covers(blocks[j], p),
    ensures
        i == j,
{
    if i < j {
        assert(disjoint(blocks[i], blocks[j]));
    } else if j < i {
        assert(disjoint(blocks[j], blocks[i]));
    }
}

/// Folding the pending blocks in ends in a settled state.
proof fn lemma_drain_settles(blocks: Seq<Block>, n: nat, k: int, s: TrackerState)
    requires
        tiles(blocks, n),
        n <= u64::MAX,
        folding(blocks, n, k, s),
    ensures
        settled(blocks, n, k, drain(s.complete_up_to, s.pending)),
    decreases s.pending.dom().len(),
{
    let c = s.complete_up_to;
    if s.pending.contains_key(c as u64) {
        let key = c as u64;
        assert(starts(blocks, k, key));
        let i = choose|i: int| 0 <= i < k && (#[trigger] blocks[i]).0 == key;
        let len = s.pending[key];
        assert(len == blocks[i].1);
        let next = TrackerState {
            complete_up_to: (c + len) as nat,
            pending: s.pending.remove(key),
        };
        let c1 = next.complete_up_to;
        assert forall|j: int| 0 <= j < k && (#[trigger] blocks[j]).0 < c1 implies blocks[j].0
            + blocks[j].1 <= c1 by {
            if blocks[j].0 >= c {
                assert(covers(blocks[j], blocks[j].0 as int));
                assert(covers(blocks[i], blocks[j].0 as int));
                lemma_one_cover(blocks, n, i, j, blocks[j].0 as int);
            }
        }
        assert forall|p: int| 0 <= p < c1 implies #[trigger] covered(blocks, k, p) by {
            if p >= c {
                assert(covers(blocks[i], p));
            }
        }
        assert forall|j: int| 0 <= j < k && (#[trigger] blocks[j]).0 >= c1 implies
            next.pending.contains_key(blocks[j].0) && next.pending[blocks[j].0] == blocks[j].1 by {
            assert(blocks[j].0 >= c);
        }
        assert forall|q: u64| #[trigger] next.pending.contains_key(q) implies q >= c1 && starts(
            blocks,
            k,
            q,
        ) by {
            assert(s.pending.contains_key(q));
            assert(starts(blocks, k, q));
            let j = choose|j: int| 0 <= j < k && (#[trigger] blocks[j]).0 == q;
            if q < c1 {
                assert(covers(blocks[j], q as int));
                assert(covers(blocks[i], q as int));
                lemma_one_cover(blocks, n, i, j, q as int);
            }
        }
        assert(folding(blocks, n, k, next));
        lemma_drain_settles(blocks, n, k, next);
    } else {
        assert forall|i: int| 0 <= i < k implies (#[trigger] blocks[i]).0 != c by {
            if blocks[i].0 == c {
                assert(s.pending.contains_key(blocks[i].0));
            }
        }
    }
}

/// Reporting the next block of a tiling leads from a settled state to a settled state.
proof fn lemma_report_settles(blocks: Seq<Block>, n: nat, k: int, s: TrackerState)
    requires
        tiles(blocks, n),
        n <= u64::MAX,
        settled(blocks, n, k, s),
        k < blocks.len(),
    ensures
        settled(blocks, n, k + 1, after_block(s, blocks[k].0, blocks[k].1)),
{
    let c = s.complete_up_to;
    let b = blocks[k];
    if b.0 < c {
        assert(covered(blocks, k, b.0 as int));
        let i = choose|i: int| 0 <= i < k && covers(#[trigger] blocks[i], b.0 as int);
        assert(covers(b, b.0 as int));
        lemma_one_cover(blocks, n, i, k, b.0 as int);
    }
    assert forall|p: int| #[trigger] covered(blocks, k, p) implies covered(blocks, k + 1, p) by {
        let i = choose|i: int| 0 <= i < k && covers(#[trigger] blocks[i], p);
        assert(0 <= i < k + 1 && covers(blocks[i], p));
    }
    assert forall|q: u64| #[trigger] starts(blocks, k, q) implies starts(blocks, k + 1, q) by {
        let i = choose|i: int| 0 <= i < k && (#[trigger] blocks[i]).0 == q;
        assert(0 <= i < k + 1 && blocks[i].0 == q);
    }
    if b.0 == c {
        let next = TrackerState { complete_up_to: (c + b.1) as nat, pending: s.pending };
        let c1 = next.complete_up_to;
        assert forall|j: int| 0 <= j < k + 1 && (#[trigger] blocks[j]).0 < c1 implies blocks[j].0
            + blocks[j].1 <= c1 by {
            if j < k && blocks[j].0 >= c {
                assert(covers(blocks[j], blocks[j].0 as int));
                assert(covers(b, blocks[j].0 as int));
                lemma_one_cover(blocks, n, j, k, blocks[j].0 as int);
            }
        }
        assert forall|p: int| 0 <= p < c1 implies #[trigger] covered(blocks, k + 1, p) by {
            if p >= c {
                assert(covers(blocks[k], p));
            } else {
                assert(covered(blocks, k, p));
            }
        }
        assert forall|j: int| 0 <= j < k + 1 && (#[trigger] blocks[j]).0 >= c1 implies
            next.pending.contains_key(blocks[j].0) && next.pending[blocks[j].0] == blocks[j].1 by {
            assert(j < k);
        }
        assert forall|q: u64| #[trigger] next.pending.contains_key(q) implies q >= c1 && starts(
            blocks,
            k + 1,
            q,
        ) by {
            assert(starts(blocks, k, q));
            let j = choose|j: int| 0 <= j < k && (#[trigger] blocks[j]).0 == q;
            if q < c1 {
                assert(covers(blocks[j], q as int));
                assert(covers(b, q as int));
                lemma_one_cover(blocks, n, j, k, q as int);
            }
        }
        assert(folding(blocks, n, k + 1, next));
        lemma_drain_settles(blocks, n, k + 1, next);
    } else {
        let next = TrackerState { complete_up_to: c, pending: s.pending.insert(b.0, b.1) };
        assert forall|p: int| 0 <= p < c implies #[trigger] covered(blocks, k + 1, p) by {
            assert(covered(blocks, k, p));
        }
        assert forall|j: int| 0 <= j < k + 1 && (#[trigger] blocks[j]).0 >= c implies
            next.pending.contains_key(blocks[j].0) && next.pending[blocks[j].0] == blocks[j].1 by {
            if j < k && blocks[j].0 == b.0 {
                assert(covers(blocks[j], b.0 as int));
                assert(covers(b, b.0 as int));
                lemma_one_cover(blocks, n, j, k, b.0 as int);
            }
        }
        assert forall|q: u64| #[trigger] next.pending.contains_key(q) implies q >= c && starts(
            blocks,
            k + 1,
            q,
        ) by {
            if q == b.0 {
                assert(0 <= k < k + 1 && blocks[k].0 == q);
            } else {
                assert(s.pending.contains_key(q));
            }
        }
        assert(settled(blocks, n, k + 1, next));
    }
}

/// After the first `k` blocks of a tiling were reported to a fresh tracker, its state is settled.
proof fn lemma_feed_settles(blocks: Seq<Block>, n: nat, k: int)
    requires
        tiles(blocks, n),
        n <= u64::MAX,
        0 <= k <= blocks.len(),
    ensures
        settled(blocks, n, k, feed(fresh(), blocks.take(k))),
    decreases k,
{
    if k == 0 {
        assert(blocks.take(0).len() == 0);
    } else {
        lemma_feed_settles(blocks, n, k - 1);
        assert(blocks.take(k).drop_last() =~= blocks.take(k - 1));
        assert(blocks.take(k).last() == blocks[k - 1]);
        lemma_report_settles(blocks, n, k - 1, feed(fresh(), blocks.take(k - 1)));
    }
}

/// Contiguity: when the blocks tile `[0, n)`, then after all of them were
/// reported to a fresh tracker, in whatever order they come, the low-water
/// mark is `n` and nothing is left pending.
pub proof fn lemma_tiling_completes(blocks: Seq<Block>, n: u64)
    requires
        tiles(blocks, n as nat),
    ensures
        feed(fresh(), blocks).complete_up_to == n,
        feed(fresh(), blocks).pending == Map::<u64, u64>::empty(),
{
    let k = blocks.len() as int;
    lemma_feed_settles(blocks, n as nat, k);
    assert(blocks.take(k) =~= blocks);
    let s = feed(fresh(), blocks);
    let c = s.complete_up_to;
    if c < n {
        assert(covered(blocks, k, c as int));
        let i = choose|i: int| 0 <= i < k && covers(#[trigger] blocks[i], c as int);
        assert(blocks[i].0 != c);
    }
    assert forall|q: u64| !s.pending.contains_key(q) by {
        if s.pending.contains_key(q) {
            assert(starts(blocks, k, q));
            let i = choose|i: int| 0 <= i < k && (#[trigger] blocks[i]).0 == q;
            assert(blocks[i].0 + blocks[i].1 <= n);
        }
    }
    assert(s.pending =~= Map::<u64, u64>::empty());
}

} // verus!
