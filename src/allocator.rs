//! Strip packing of test plots over an unbounded half-plane.
//!
//! Plots are handed out left to right along a row; once the cursor has moved
//! past the row width the next plot starts a new row below the deepest plot
//! of the current one. Space is never reclaimed, so a long test run grows the
//! used area without bound.
use vstd::prelude::*;

use crate::position::CoordinatePosition;

verus! {

/// Blocks left free between two plots, in both directions.
pub const PLOT_GAP: i64 = 4;

/// Once the cursor is this far east of the row start, the next plot starts a
/// new row.
pub const ROW_WIDTH: i64 = 200;

/// The allocator's state as plain integers.
pub struct AllocState {
    /// East coordinate of the next plot.
    pub x: int,
    /// South coordinate of the current row.
    pub z: int,
    /// East coordinate at which every row starts.
    pub origin_x: int,
    /// The deepest plot seen in the current row.
    pub tallest: int,
}

/// A fresh allocator: the cursor at the row start, no plot in the row.
pub open spec fn fresh(s: AllocState) -> bool {
    s.x == s.origin_x && s.tallest == 0
}

/// One allocation of a `w` by `d` plot: the state after it and the plot's
/// corner `(x, z)`.
pub open spec fn alloc_step(s: AllocState, w: int, d: int) -> (AllocState, (int, int)) {
    let row = if s.x - s.origin_x >= ROW_WIDTH {
        AllocState { x: s.origin_x, z: s.z + s.tallest + PLOT_GAP, origin_x: s.origin_x, tallest: 0 }
    } else {
        s
    };
    (
        AllocState {
            x: row.x + w + PLOT_GAP,
            z: row.z,
            origin_x: row.origin_x,
            tallest: if row.tallest >= d { row.tallest } else { d },
        },
        (row.x, row.z),
    )
}

/// The state after a sequence of `(width, depth)` requests.
pub open spec fn state_after(s: AllocState, reqs: Seq<(nat, nat)>) -> AllocState
    decreases reqs.len(),
{
    if reqs.len() == 0 {
        s
    } else {
        let prev = state_after(s, reqs.drop_last());
        alloc_step(prev, reqs.last().0 as int, reqs.last().1 as int).0
    }
}

/// The corners handed out for a sequence of `(width, depth)` requests, in order.
pub open spec fn corners(s: AllocState, reqs: Seq<(nat, nat)>) -> Seq<(int, int)>
    decreases reqs.len(),
{
    if reqs.len() == 0 {
        Seq::empty()
    } else {
        let prev = state_after(s, reqs.drop_last());
        corners(s, reqs.drop_last()).push(
            alloc_step(prev, reqs.last().0 as int, reqs.last().1 as int).1,
        )
    }
}

/// Two plots, each grown by the gap, do not overlap: one lies a full gap
/// east, west, north or south of the other.
pub open spec fn separated(a: (int, int), ra: (nat, nat), b: (int, int), rb: (nat, nat)) -> bool {
    ||| a.0 + ra.0 + PLOT_GAP <= b.0
    ||| b.0 + rb.0 + PLOT_GAP <= a.0
    ||| a.1 + ra.1 + PLOT_GAP <= b.1
    ||| b.1 + rb.1 + PLOT_GAP <= a.1
}

/// Plot `c` with size `r` lies behind the cursor of `s`: west of it in the
/// current row, or in an earlier row.
pub open spec fn behind(s: AllocState, c: (int, int), r: (nat, nat)) -> bool {
    ||| (c.1 == s.z && c.0 + r.0 + PLOT_GAP <= s.x && r.1 <= s.tallest)
    ||| c.1 + r.1 + PLOT_GAP <= s.z
}

proof fn lemma_run_invariant(s: AllocState, reqs: Seq<(nat, nat)>)
    requires
        fresh(s),
    ensures
        corners(s, reqs).len() == reqs.len(),
        state_after(s, reqs).tallest >= 0,
        state_after(s, reqs).origin_x == s.origin_x,
        state_after(s, reqs).x >= s.origin_x,
        forall|i: int|
            0 <= i < reqs.len() ==> behind(state_after(s, reqs), #[trigger] corners(s, reqs)[i], reqs[i]),
        forall|i: int, j: int|
            0 <= i < j < reqs.len() ==> separated(
                #[trigger] corners(s, reqs)[i],
                reqs[i],
                #[trigger] corners(s, reqs)[j],
                reqs[j],
            ),
    decreases reqs.len(),
{
    if reqs.len() > 0 {
        let pre = reqs.drop_last();
        lemma_run_invariant(s, pre);
        let st = state_after(s, pre);
        let (w, d) = reqs.last();
        let cs = corners(s, reqs);
        let next = state_after(s, reqs);
        let c = alloc_step(st, w as int, d as int).1;
        assert(cs == corners(s, pre).push(c));
        assert forall|i: int| 0 <= i < reqs.len() implies behind(next, #[trigger] cs[i], reqs[i]) by {
            if i < pre.len() {
                assert(cs[i] == corners(s, pre)[i]);
                assert(reqs[i] == pre[i]);
                assert(behind(st, corners(s, pre)[i], pre[i]));
            }
        }
        assert forall|i: int, j: int|
            0 <= i < j < reqs.len() implies separated(
                #[trigger] cs[i],
                reqs[i],
                #[trigger] cs[j],
                reqs[j],
            ) by {
            assert(cs[i] == corners(s, pre)[i]);
            assert(reqs[i] == pre[i]);
            if j < pre.len() {
                assert(cs[j] == corners(s, pre)[j]);
                assert(reqs[j] == pre[j]);
            } else {
                assert(behind(st, corners(s, pre)[i], pre[i]));
            }
        }
    }
}

/// For every sequence of requests from a fresh allocator, no two plots
/// handed out overlap once each is grown by the gap.
pub proof fn lemma_plots_never_overlap(s: AllocState, reqs: Seq<(nat, nat)>)
    requires
        fresh(s),
    ensures
        corners(s, reqs).len() == reqs.len(),
        forall|i: int, j: int|
            0 <= i < j < reqs.len() ==> separated(
                #[trigger] corners(s, reqs)[i],
                reqs[i],
                #[trigger] corners(s, reqs)[j],
                reqs[j],
            ),
{
    lemma_run_invariant(s, reqs);
}

/// Hands out non-overlapping plots of world space, one per test session.
pub struct PlotAllocator {
    /// Where the next plot goes.
    next_plot_corner: CoordinatePosition,
    /// East coordinate at which every row starts.
    origin_x: i64,
    /// The deepest plot seen in the current row.
    highest_z: i64,
}

impl PlotAllocator {
    pub closed spec fn state(&self) -> AllocState {
        AllocState {
            x: self.next_plot_corner.x as int,
            z: self.next_plot_corner.z as int,
            origin_x: self.origin_x as int,
            tallest: self.highest_z as int,
        }
    }

    /// The height at which plots are laid out.
    pub closed spec fn level(&self) -> i64 {
        self.next_plot_corner.y
    }

    pub closed spec fn wf(&self) -> bool {
        &&& self.origin_x <= self.next_plot_corner.x
        &&& 0 <= self.highest_z
    }

    /// An allocator whose first plot has its corner at `start`.
    pub fn new(start: CoordinatePosition) -> (r: Self)
        ensures
            r.wf(),
            fresh(r.state()),
            r.state().x == start.x,
            r.state().z == start.z,
            r.level() == start.y,
    {
        PlotAllocator { next_plot_corner: start, origin_x: start.x, highest_z: 0 }
    }

    /// Lease the next plot of `width` by `depth` blocks and return its corner.
    ///
    /// Returns `None`, and changes nothing, only when the next cursor would
    /// leave the range of world coordinates.
    pub fn allocate(&mut self, width: u16, depth: u16) -> (r: Option<CoordinatePosition>)
        requires
            old(self).wf(),
        ensures
            final(self).wf(),
            final(self).level() == old(self).level(),
            ({
                let (next, c) = alloc_step(old(self).state(), width as int, depth as int);
                let row_z = if old(self).state().x - old(self).state().origin_x >= ROW_WIDTH {
                    old(self).state().z + old(self).state().tallest + PLOT_GAP
                } else {
                    old(self).state().z
                };
                let fits = next.x <= i64::MAX && row_z <= i64::MAX;
                &&& r.is_some() <==> fits
                &&& r.is_some() ==> final(self).state() == next && r.unwrap().x == c.0
                    && r.unwrap().z == c.1 && r.unwrap().y == old(self).level()
                &&& r.is_none() ==> *final(self) == *old(self)
            }),
    {
        let cur = self.next_plot_corner;
        let mut x: i128 = cur.x as i128;
        let mut z: i128 = cur.z as i128;
        let mut tallest: i128 = self.highest_z as i128;
        if x - self.origin_x as i128 >= ROW_WIDTH as i128 {
            z = z + tallest + PLOT_GAP as i128;
            x = self.origin_x as i128;
            tallest = 0;
        }
        let next_x = x + width as i128 + PLOT_GAP as i128;
        if next_x > i64::MAX as i128 || z > i64::MAX as i128 {
            return None;
        }
        if (depth as i128) > tallest {
            tallest = depth as i128;
        }
        let corner = CoordinatePosition { x: x as i64, y: cur.y, z: z as i64 };
        self.next_plot_corner = CoordinatePosition { x: next_x as i64, y: cur.y, z: z as i64 };
        self.highest_z = tallest as i64;
        Some(corner)
    }
}

} // verus!
