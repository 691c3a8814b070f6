//! Pure conversion from a window snapshot to plot-ready coordinates.
//!
//! A snapshot `[s0, .., s_{n-1}]`, oldest first, becomes points whose X
//! coordinate is `n - 1 - i` — the newest sample at `x == 0`, the oldest at
//! `x == n - 1`, time flowing right to left — and whose Y coordinate is the
//! sample scaled to a 0–100 display range, still in fixed-point units: a
//! display value of `100.0` is `100 * SAMPLE_SCALE` units.

use vstd::prelude::*;
use crate::ring::SampleBuffer;

verus! {

/// One plot coordinate, in fixed-point units on the Y axis.
#[derive(Clone, Copy, Debug, PartialEq, Eq, Structural)]
pub struct ChartPoint {
    /// Ticks before the most recent sample: the newest sample is at `x == 0`.
    pub x: u64,
    /// Displayed pressure, scaled so full pull is `100 * SAMPLE_SCALE` units.
    pub y: u64,
}

/// The point a snapshot of length `n` yields for the sample at index `i`.
pub open spec fn point_for(n: nat, i: nat, sample: u32) -> ChartPoint {
    ChartPoint { x: (n - 1 - i) as u64, y: (sample * 100) as u64 }
}

/// Converts a snapshot, oldest first, into its plot points: index `i` of a
/// length-`n` snapshot maps to `x == n - 1 - i` and `y == sample * 100`.
/// Pure: derived from the snapshot alone.
pub fn to_points(snapshot: &Vec<u32>) -> (pts: Vec<ChartPoint>)
    ensures
        pts@.len() == snapshot@.len(),
        forall|i: int|
            0 <= i < pts@.len() ==> pts@[i] == point_for(
                snapshot@.len(),
                i as nat,
                snapshot@[i],
            ),
{
    let n = snapshot.len();
    let mut pts: Vec<ChartPoint> = Vec::new();
    let mut i: usize = 0;
    while i < n
        invariant
            n == snapshot@.len(),
            i <= n,
            pts@.len() == i as nat,
            forall|j: int|
                0 <= j < i ==> pts@[j] == point_for(snapshot@.len(), j as nat, snapshot@[j]),
        decreases n - i,
    {
        let x = (n - 1 - i) as u64;
        let y = (snapshot[i] as u64) * 100;
        pts.push(ChartPoint { x, y });
        i = i + 1;
    }
    pts
}

/// Snapshots one channel's window and converts it to plot points in one
/// step: the renderer's per-paint read of a channel.
pub fn channel_points(buf: &SampleBuffer) -> (pts: Vec<ChartPoint>)
    ensures
        pts@.len() == buf@.len(),
        forall|i: int|
            0 <= i < pts@.len() ==> pts@[i] == point_for(buf@.len(), i as nat, buf@[i]),
{
    let snapshot = buf.snapshot();
    to_points(&snapshot)
}

/// Coordinate-mapping law, endpoints included: in a nonempty snapshot's
/// points, every index `i` carries `x == n - 1 - i` and `y == s_i * 100`;
/// the first point (oldest sample) sits at `x == n - 1` and the last point
/// (newest sample) at `x == 0`.
pub proof fn lemma_coordinate_mapping(snapshot: Seq<u32>, pts: Seq<ChartPoint>)
    requires
        pts.len() == snapshot.len(),
        0 < snapshot.len() <= u64::MAX,
        forall|i: int|
            0 <= i < pts.len() ==> pts[i] == point_for(snapshot.len(), i as nat, snapshot[i]),
    ensures
        forall|i: int|
            0 <= i < pts.len() ==> pts[i].x == snapshot.len() - 1 - i && pts[i].y == snapshot[i]
                * 100,
        pts.first().x == snapshot.len() - 1,
        pts.last().x == 0,
        pts.last().y == snapshot.last() * 100,
{
    assert(pts[0] == point_for(snapshot.len(), 0, snapshot[0]));
    assert(pts[pts.len() - 1] == point_for(
        snapshot.len(),
        (pts.len() - 1) as nat,
        snapshot[pts.len() - 1],
    ));
}

} // verus!
