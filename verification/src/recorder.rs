//! Command-recorder bookkeeping: how many secondary command buffers each
//! image's pool holds, how many a frame records, and where each renderable
//! instance stands in the scene grid.
//!
//! Pools only grow: shrinking the model count records fewer buffers but
//! never frees any within a swapchain's lifetime.

use vstd::prelude::*;

verus! {

/// A pool that held `allocated` secondary buffers holds this many after a
/// frame records `model_count` of them: grown to the larger of the two,
/// never shrunk.
pub open spec fn grown_pool(allocated: nat, model_count: nat) -> nat {
    if allocated >= model_count {
        allocated
    } else {
        model_count
    }
}

/// The pool size after a run of frames that recorded the given model
/// counts, starting from `initial` buffers.
pub open spec fn pool_after(initial: nat, counts: Seq<nat>) -> nat
    decreases counts.len(),
{
    if counts.len() == 0 {
        initial
    } else {
        grown_pool(pool_after(initial, counts.drop_last()), counts.last())
    }
}

/// Model-count monotonic growth: however the model count moves between
/// frames, an image's secondary-buffer pool never shrinks below any count
/// it ever recorded — raising the count and lowering it again leaves the
/// pool at its high-water mark.
pub proof fn lemma_pool_never_shrinks(initial: nat, counts: Seq<nat>)
    ensures
        pool_after(initial, counts) >= initial,
        forall|i: int|
            0 <= i < counts.len() ==> pool_after(initial, counts) >= #[trigger] counts[i],
    decreases counts.len(),
{
    if counts.len() > 0 {
        lemma_pool_never_shrinks(initial, counts.drop_last());
        assert forall|i: int|
            0 <= i < counts.len() implies pool_after(initial, counts) >= #[trigger] counts[i] by {
            if i < counts.len() - 1 {
                assert(counts.drop_last()[i] == counts[i]);
            }
        }
    }
}

/// Recording one more frame never shrinks the pool.
pub proof fn lemma_pool_monotonic(initial: nat, counts: Seq<nat>, next: nat)
    ensures
        pool_after(initial, counts.push(next)) >= pool_after(initial, counts),
{
    assert(counts.push(next).drop_last() =~= counts);
}

/// Grows a pool for a frame that records `model_count` buffers, returning
/// the new pool size: never smaller than before, and large enough for the
/// frame.
pub fn grow_pool(allocated: usize, model_count: usize) -> (r: usize)
    ensures
        r as nat == grown_pool(allocated as nat, model_count as nat),
        r >= allocated,
        r >= model_count,
{
    if allocated >= model_count {
        allocated
    } else {
        model_count
    }
}

/// The scene-grid cell of a renderable instance: instances alternate
/// between two rows and advance one column every two instances.  The
/// caller places the model at an offset derived from this cell.
pub fn instance_cell(model_index: usize) -> (r: (usize, usize))
    ensures
        r.0 == model_index % 2,
        r.1 == model_index / 2,
{
    (model_index % 2, model_index / 2)
}

/// Opacity of a renderable instance in quarter steps: instance `i` draws
/// at `(i + 1) / 4` opacity, so the four instances step from one quarter
/// to fully opaque.
pub fn instance_opacity_quarters(model_index: usize) -> (r: usize)
    requires
        model_index < 4,
    ensures
        r == model_index + 1,
        1 <= r <= 4,
{
    model_index + 1
}

} // verus!
