//! Task dumps: which frames of a leaf's backtrace belong to a task's trace.
use vstd::prelude::*;

verus! {

/// Whether frame `j` of a backtrace (innermost first, given by the address
/// of each frame's symbol) belongs to the task's trace: some frame before
/// it is the leaf, and neither it nor any frame before it is the root.
pub open spec fn keeps_frame(frames: Seq<u64>, leaf: u64, root: u64, j: int) -> bool {
    &&& 0 <= j < frames.len()
    &&& exists|k: int| 0 <= k < j && frames[k] == leaf
    &&& forall|m: int| 0 <= m <= j ==> frames[m] != root
}

/// The frames of a backtrace taken at a trace leaf that belong to the task's
/// trace: those above the leaf's own frame and below the root's, as indices
/// in increasing order. The walk stops at the root's frame, as unwinding does.
pub fn trace_leaf_frames(frames: &Vec<u64>, leaf: u64, root: u64) -> (res: Vec<usize>)
    ensures
        forall|a: int, b: int| 0 <= a < b < res@.len() ==> res@[a] < res@[b],
        forall|t: int| 0 <= t < res@.len() ==> keeps_frame(frames@, leaf, root, res@[t] as int),
        forall|j: int| keeps_frame(frames@, leaf, root, j) ==> res@.contains(j as usize),
{
    let mut out: Vec<usize> = Vec::new();
    let mut above_leaf = false;
    let mut below_root = true;
    let mut i: usize = 0;
    let n = frames.len();
    while i < n && below_root
        invariant
            n == frames@.len(),
            i <= n,
            above_leaf == exists|k: int| 0 <= k < i && frames@[k] == leaf,
            below_root == forall|m: int| 0 <= m < i ==> frames@[m] != root,
            forall|a: int, b: int| 0 <= a < b < out@.len() ==> out@[a] < out@[b],
            forall|t: int| 0 <= t < out@.len() ==> out@[t] < i && keeps_frame(frames@, leaf, root, out@[t] as int),
            forall|j: int| 0 <= j < i && keeps_frame(frames@, leaf, root, j) ==> out@.contains(j as usize),
        decreases n - i,
    {
        let ghost prev = out@;
        let f = frames[i];
        below_root = f != root;
        // only capture frames above the leaf and below the root.
        if above_leaf && below_root {
            out.push(i);
            assert(out@[out@.len() - 1] == i);
        }
        if f == leaf {
            above_leaf = true;
        }
        proof {
            assert forall|j: int| 0 <= j < i + 1 && keeps_frame(frames@, leaf, root, j) implies out@.contains(
                j as usize,
            ) by {
                if j < i {
                    assert(prev.contains(j as usize));
                    let w = choose|w: int| 0 <= w < prev.len() && prev[w] == j as usize;
                    assert(out@[w] == prev[w]);
                } else {
                    assert(out@[out@.len() - 1] == i);
                }
            }
        }
        i = i + 1;
    }
    proof {
        assert forall|j: int| keeps_frame(frames@, leaf, root, j) implies out@.contains(j as usize) by {
            if j >= i {
                // the walk stopped at a root frame before `j`
                assert(!below_root);
                let m = choose|m: int| 0 <= m < i && frames@[m] == root;
                assert(frames@[m] != root);
            }
        }
    }
    out
}

} // verus!
