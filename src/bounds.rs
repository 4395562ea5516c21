use vstd::prelude::*;
use crate::metric::Metric;

verus! {

/// One sweep step's result: the length of its query in characters, and
/// the metric that the report gave.
#[derive(Clone, Copy, Debug, PartialEq, Eq, Structural)]
pub struct Sample {
    pub x: usize,
    pub y: Metric,
}

/// The extent of a series on each axis.
#[derive(Clone, Copy, Debug, PartialEq, Eq, Structural)]
pub struct Bounds {
    pub min_x: usize,
    pub max_x: usize,
    pub min_y: Metric,
    pub max_y: Metric,
}

/// `b` gives the least and the greatest value of each axis over `s`.
pub open spec fn is_bounds(s: Seq<Sample>, b: Bounds) -> bool {
    &&& forall|i: int|
        0 <= i < s.len() ==> b.min_x <= (#[trigger] s[i]).x <= b.max_x && b.min_y.scaled
            <= s[i].y.scaled <= b.max_y.scaled
    &&& exists|i: int| 0 <= i < s.len() && (#[trigger] s[i]).x == b.min_x
    &&& exists|i: int| 0 <= i < s.len() && (#[trigger] s[i]).x == b.max_x
    &&& exists|i: int| 0 <= i < s.len() && (#[trigger] s[i]).y == b.min_y
    &&& exists|i: int| 0 <= i < s.len() && (#[trigger] s[i]).y == b.max_y
}

/// The axis extents of a series, found over each axis on its own, in
/// whatever order the samples stand; none for an empty series.
pub fn compute_bounds(series: &Vec<Sample>) -> (r: Option<Bounds>)
    ensures
        series.len() == 0 ==> r is None,
        series.len() > 0 ==> (r matches Some(b) && is_bounds(series@, b)),
{
    if series.len() == 0 {
        return None;
    }
    let mut b = Bounds { min_x: series[0].x, max_x: series[0].x, min_y: series[0].y, max_y: series[0].y };
    let mut i: usize = 1;
    let ghost (mut ix0, mut ix1, mut iy0, mut iy1) = (0int, 0int, 0int, 0int);
    while i < series.len()
        invariant
            1 <= i <= series.len(),
            forall|j: int|
                0 <= j < i ==> b.min_x <= (#[trigger] series@[j]).x <= b.max_x && b.min_y.scaled
                    <= series@[j].y.scaled <= b.max_y.scaled,
            0 <= ix0 < i && series@[ix0].x == b.min_x,
            0 <= ix1 < i && series@[ix1].x == b.max_x,
            0 <= iy0 < i && series@[iy0].y == b.min_y,
            0 <= iy1 < i && series@[iy1].y == b.max_y,
        decreases series.len() - i,
    {
        let s = series[i];
        if s.x < b.min_x {
            b.min_x = s.x;
            proof { ix0 = i as int; }
        }
        if s.x > b.max_x {
            b.max_x = s.x;
            proof { ix1 = i as int; }
        }
        if s.y.scaled < b.min_y.scaled {
            b.min_y = s.y;
            proof { iy0 = i as int; }
        }
        if s.y.scaled > b.max_y.scaled {
            b.max_y = s.y;
            proof { iy1 = i as int; }
        }
        i = i + 1;
    }
    assert(series@[ix0].x == b.min_x);
    assert(series@[ix1].x == b.max_x);
    assert(series@[iy0].y == b.min_y);
    assert(series@[iy1].y == b.max_y);
    Some(b)
}

/// The extents depend only on which samples a series holds, not on their
/// order: two series with the same samples have the same bounds.
pub proof fn lemma_bounds_order_free(s1: Seq<Sample>, s2: Seq<Sample>, b1: Bounds, b2: Bounds)
    requires
        forall|e: Sample| s1.contains(e) <==> s2.contains(e),
        is_bounds(s1, b1),
        is_bounds(s2, b2),
    ensures
        b1 == b2,
{
    let i0 = choose|i: int| 0 <= i < s1.len() && (#[trigger] s1[i]).x == b1.min_x;
    let i1 = choose|i: int| 0 <= i < s1.len() && (#[trigger] s1[i]).x == b1.max_x;
    let i2 = choose|i: int| 0 <= i < s1.len() && (#[trigger] s1[i]).y == b1.min_y;
    let i3 = choose|i: int| 0 <= i < s1.len() && (#[trigger] s1[i]).y == b1.max_y;
    let j0 = choose|i: int| 0 <= i < s2.len() && (#[trigger] s2[i]).x == b2.min_x;
    let j1 = choose|i: int| 0 <= i < s2.len() && (#[trigger] s2[i]).x == b2.max_x;
    let j2 = choose|i: int| 0 <= i < s2.len() && (#[trigger] s2[i]).y == b2.min_y;
    let j3 = choose|i: int| 0 <= i < s2.len() && (#[trigger] s2[i]).y == b2.max_y;
    assert(s1.contains(s1[i0]) && s1.contains(s1[i1]) && s1.contains(s1[i2]) && s1.contains(s1[i3]));
    assert(s2.contains(s2[j0]) && s2.contains(s2[j1]) && s2.contains(s2[j2]) && s2.contains(s2[j3]));
    let k0 = choose|k: int| 0 <= k < s2.len() && s2[k] == s1[i0];
    let k1 = choose|k: int| 0 <= k < s2.len() && s2[k] == s1[i1];
    let k2 = choose|k: int| 0 <= k < s2.len() && s2[k] == s1[i2];
    let k3 = choose|k: int| 0 <= k < s2.len() && s2[k] == s1[i3];
    let l0 = choose|k: int| 0 <= k < s1.len() && s1[k] == s2[j0];
    let l1 = choose|k: int| 0 <= k < s1.len() && s1[k] == s2[j1];
    let l2 = choose|k: int| 0 <= k < s1.len() && s1[k] == s2[j2];
    let l3 = choose|k: int| 0 <= k < s1.len() && s1[k] == s2[j3];
    assert(s2[k0].x >= b2.min_x && s1[l0].x >= b1.min_x);
    assert(s2[k1].x <= b2.max_x && s1[l1].x <= b1.max_x);
    assert(s2[k2].y.scaled >= b2.min_y.scaled && s1[l2].y.scaled >= b1.min_y.scaled);
    assert(s2[k3].y.scaled <= b2.max_y.scaled && s1[l3].y.scaled <= b1.max_y.scaled);
}

} // verus!
