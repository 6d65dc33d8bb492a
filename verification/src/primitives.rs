use vstd::prelude::*;

verus! {

/// Common anchor options
///
/// - `TopLeft`: position is the rectangle's top-left corner (the default)
/// - `Center`: position is the rectangle's center
#[derive(Clone, Copy, Debug, PartialEq, Eq, Structural)]
pub enum Anchor {
    Center,
    TopLeft,
}

/// Fewest segments a regular polygon is drawn with.
pub const MIN_SEGMENTS: usize = 3;

/// The segment count a polygon is drawn with: at least three.
pub fn clamp_segments(segments: usize) -> (r: usize)
    ensures
        r == if segments < MIN_SEGMENTS { MIN_SEGMENTS } else { segments },
{
    if segments < MIN_SEGMENTS {
        MIN_SEGMENTS
    } else {
        segments
    }
}

/// The two triangles of a quad whose four vertices start at `base`:
/// (0, 1, 2) and (2, 3, 0).
pub fn quad_indices(base: u16) -> (r: [u16; 6])
    requires
        base + 3 <= u16::MAX,
    ensures
        r@ == seq![base, (base + 1) as u16, (base + 2) as u16, (base + 2) as u16, (base + 3) as u16, base],
{
    let r = [base, base + 1, base + 2, base + 2, base + 3, base];
    assert(r@ =~= seq![base, (base + 1) as u16, (base + 2) as u16, (base + 2) as u16, (base + 3) as u16, base]);
    r
}

/// Number of triangles in a fan over `points` vertices.
pub open spec fn fan_triangles(points: int) -> int {
    if points >= 2 {
        points - 2
    } else {
        0
    }
}

/// Number of indices of a triangle fan over `points` vertices.
pub fn fan_index_count(points: usize) -> (r: usize)
    requires
        fan_triangles(points as int) * 3 <= usize::MAX,
    ensures
        r == fan_triangles(points as int) * 3,
        points >= 2 ==> r == 3 * (points - 2),
        points < 2 ==> r == 0,
{
    if points >= 2 {
        (points - 2) * 3
    } else {
        0
    }
}

/// The triangle fan of a convex polygon whose `points` vertices start at
/// `base`: triangle `i` is (first vertex, vertex i + 1, vertex i + 2).
pub fn fan_indices(base: u16, points: usize) -> (r: Vec<u16>)
    requires
        points < 3 || base + points - 1 <= u16::MAX,
    ensures
        r@.len() == fan_triangles(points as int) * 3,
        points >= 3 ==> r@.len() == 3 * (points - 2) && r@[0] == base && r@[1] == base + 1
            && r@[2] == base + 2,
        forall|i: int|
            0 <= i < fan_triangles(points as int) ==> #[trigger] r@[3 * i] == base && r@[3 * i + 1]
                == base + i + 1 && r@[3 * i + 2] == base + i + 2,
        forall|j: int| 0 <= j < r@.len() ==> base <= #[trigger] r@[j] < base + points,
{
    let mut r: Vec<u16> = Vec::new();
    if points < 3 {
        return r;
    }
    let triangles = points - 2;
    let mut i: usize = 0;
    while i < triangles
        invariant
            triangles == points - 2,
            points >= 3,
            base + points - 1 <= u16::MAX,
            i <= triangles,
            r@.len() == 3 * i,
            forall|k: int|
                0 <= k < i ==> #[trigger] r@[3 * k] == base && r@[3 * k + 1] == base + k + 1
                    && r@[3 * k + 2] == base + k + 2,
            forall|j: int| 0 <= j < r@.len() ==> base <= #[trigger] r@[j] < base + points,
        decreases triangles - i,
    {
        let step = i as u16;
        let ghost prev = r@;
        r.push(base);
        r.push(base + step + 1);
        r.push(base + step + 2);
        assert forall|k: int| 0 <= k < i + 1 implies #[trigger] r@[3 * k] == base && r@[3 * k + 1]
            == base + k + 1 && r@[3 * k + 2] == base + k + 2 by {
            if k < i {
                assert(r@[3 * k] == prev[3 * k]);
                assert(r@[3 * k + 1] == prev[3 * k + 1]);
                assert(r@[3 * k + 2] == prev[3 * k + 2]);
            }
        }
        i += 1;
    }
    proof {
        assert(i >= 1);
        let z: int = 0;
        assert(0 <= z < i);
        assert(r@[3 * z] == base);
    }
    r
}

/// Number of segments of a polyline through `points` points: one per pair of
/// neighbours, plus one back to the start when `closed`; none with fewer
/// than two points.
pub fn polyline_segments(points: usize, closed: bool) -> (r: usize)
    ensures
        r == if points < 2 {
            0
        } else if closed {
            points as int
        } else {
            points - 1
        },
{
    if points < 2 {
        0
    } else if closed {
        points
    } else {
        points - 1
    }
}

/// The points that segment `s` of a polyline through `points` points joins:
/// point `s` and the next one, wrapping to the first.
pub fn polyline_segment_points(s: usize, points: usize) -> (r: (usize, usize))
    requires
        s < points,
    ensures
        r == (s, ((s + 1) % (points as int)) as usize),
        r.1 < points,
{
    (s, (s + 1) % points)
}

/// Indices of a stroked polyline whose segments are quads of four vertices
/// each, starting at `base`: segment `s` uses vertices `base + 4s .. base + 4s + 4`.
pub fn polyline_indices(base: u16, segments: usize) -> (r: Vec<u16>)
    requires
        base + 4 * segments <= u16::MAX,
    ensures
        r@.len() == 6 * segments,
        forall|s: int|
            0 <= s < segments ==> {
                let b = base + 4 * s;
                &&& #[trigger] r@[6 * s] == b
                &&& r@[6 * s + 1] == b + 1
                &&& r@[6 * s + 2] == b + 2
                &&& r@[6 * s + 3] == b + 2
                &&& r@[6 * s + 4] == b + 3
                &&& r@[6 * s + 5] == b
            },
        forall|j: int| 0 <= j < r@.len() ==> base <= #[trigger] r@[j] < base + 4 * segments,
{
    let mut r: Vec<u16> = Vec::new();
    let mut b: u16 = base;
    let mut s: usize = 0;
    while s < segments
        invariant
            base + 4 * segments <= u16::MAX,
            s <= segments,
            b == base + 4 * s,
            r@.len() == 6 * s,
            forall|k: int|
                0 <= k < s ==> {
                    let c = base + 4 * k;
                    &&& #[trigger] r@[6 * k] == c
                    &&& r@[6 * k + 1] == c + 1
                    &&& r@[6 * k + 2] == c + 2
                    &&& r@[6 * k + 3] == c + 2
                    &&& r@[6 * k + 4] == c + 3
                    &&& r@[6 * k + 5] == c
                },
            forall|j: int| 0 <= j < r@.len() ==> base <= #[trigger] r@[j] < base + 4 * s,
        decreases segments - s,
    {
        let ghost prev = r@;
        r.push(b);
        r.push(b + 1);
        r.push(b + 2);
        r.push(b + 2);
        r.push(b + 3);
        r.push(b);
        assert forall|k: int| 0 <= k < s + 1 implies {
            let c = base + 4 * k;
            &&& #[trigger] r@[6 * k] == c
            &&& r@[6 * k + 1] == c + 1
            &&& r@[6 * k + 2] == c + 2
            &&& r@[6 * k + 3] == c + 2
            &&& r@[6 * k + 4] == c + 3
            &&& r@[6 * k + 5] == c
        } by {
            if k < s {
                assert(r@[6 * k] == prev[6 * k]);
                assert(r@[6 * k + 1] == prev[6 * k + 1]);
                assert(r@[6 * k + 2] == prev[6 * k + 2]);
                assert(r@[6 * k + 3] == prev[6 * k + 3]);
                assert(r@[6 * k + 4] == prev[6 * k + 4]);
                assert(r@[6 * k + 5] == prev[6 * k + 5]);
            }
        }
        b = b + 4;
        s += 1;
    }
    r
}

/// Indices of a mesh whose vertices were placed starting at `base`: each
/// index moved up by `base`.
pub fn offset_indices(base: u16, indices: &[u16]) -> (r: Vec<u16>)
    requires
        forall|j: int| 0 <= j < indices@.len() ==> #[trigger] indices@[j] + base <= u16::MAX,
    ensures
        r@.len() == indices@.len(),
        forall|j: int| 0 <= j < indices@.len() ==> #[trigger] r@[j] == indices@[j] + base,
{
    let mut r: Vec<u16> = Vec::new();
    let mut j: usize = 0;
    while j < indices.len()
        invariant
            j <= indices@.len(),
            r@.len() == j,
            forall|k: int| 0 <= k < j ==> #[trigger] r@[k] == indices@[k] + base,
            forall|k: int| 0 <= k < indices@.len() ==> #[trigger] indices@[k] + base <= u16::MAX,
        decreases indices.len() - j,
    {
        r.push(indices[j] + base);
        j += 1;
    }
    r
}

/// A fan over `n >= 2` points has `n - 2` triangles (a triangle has one, a
/// quad two), and its last triangle (i + 1, i + 2 for the last i) ends on the
/// last point, so every point is drawn.
pub proof fn law_fan_covers_polygon(n: int)
    ensures
        n >= 2 ==> fan_triangles(n) == n - 2,
        n >= 3 ==> fan_triangles(n) >= 1 && (fan_triangles(n) - 1) + 2 == n - 1,
{
}

} // verus!
