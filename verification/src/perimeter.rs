//! The length of a region's outline, counted in pixel sides.
//!
//! A region is given as the list of its pixels, each by its row-major position in the
//! region map. A side of a region pixel is open when the pixel across it is no pixel of
//! the region, or when there is none because the side lies on the border of the map. The
//! open sides of a region make up its outline, holes included.

use std::collections::HashSet;
use vstd::prelude::*;
use crate::engine::MAX_SIDE;
use crate::outline::MAX_OUTLINE_EDGES;
use crate::pixels::lemma_grid_index;

verus! {

broadcast use vstd::std_specs::hash::group_hash_axioms;

/// Whether position `q` is one of the listed pixels.
pub open spec fn in_region(pixels: Seq<u32>, q: int) -> bool {
    exists|k: int| 0 <= k < pixels.len() && #[trigger] pixels[k] == q
}

/// One for an open side and zero for a closed one. The side is closed when there is
/// a pixel across it (`inside`) and that pixel, `q`, belongs to the region.
pub open spec fn open_side(pixels: Seq<u32>, inside: bool, q: int) -> nat {
    if inside && in_region(pixels, q) {
        0
    } else {
        1
    }
}

/// The number of open sides of the pixel at position `p`: left, right, top and bottom.
pub open spec fn open_sides(pixels: Seq<u32>, p: int, width: int, height: int) -> nat {
    let x = p % width;
    let y = p / width;
    open_side(pixels, x > 0, p - 1) + open_side(pixels, x + 1 < width, p + 1) + open_side(
        pixels,
        y > 0,
        p - width,
    ) + open_side(pixels, y + 1 < height, p + width)
}

/// The number of open sides of the first `n` listed pixels.
pub open spec fn outline_edges(pixels: Seq<u32>, n: nat, width: int, height: int) -> nat
    decreases n,
{
    if n == 0 {
        0
    } else {
        outline_edges(pixels, (n - 1) as nat, width, height) + open_sides(
            pixels,
            pixels[n - 1] as int,
            width,
            height,
        )
    }
}

/// Every listed pixel lies on a map of `area` pixels.
pub open spec fn all_inside(pixels: Seq<u32>, area: int) -> bool {
    forall|k: int| 0 <= k < pixels.len() ==> (#[trigger] pixels[k]) < area
}

/// The regions whose outline can be traced: they lie on a map with no side longer than
/// `MAX_SIDE`, and their outline has at most `MAX_OUTLINE_EDGES` sides.
pub open spec fn traceable(pixels: Seq<u32>, width: nat, height: nat) -> bool {
    &&& width <= MAX_SIDE
    &&& height <= MAX_SIDE
    &&& all_inside(pixels, (width * height) as int)
    &&& outline_edges(pixels, pixels.len(), width as int, height as int) <= MAX_OUTLINE_EDGES
}

/// More pixels never have fewer open sides.
pub proof fn lemma_outline_grows(pixels: Seq<u32>, m: nat, n: nat, width: int, height: int)
    requires
        m <= n,
    ensures
        outline_edges(pixels, m, width, height) <= outline_edges(pixels, n, width, height),
    decreases n - m,
{
    if m < n {
        lemma_outline_grows(pixels, m, (n - 1) as nat, width, height);
    }
}

/// Looks up whether the pixel across a side belongs to the region and tells whether the
/// side is open.
fn side_is_open(region: &HashSet<u32>, inside: bool, q: u64, Ghost(pixels): Ghost<Seq<u32>>) -> (open:
    bool)
    requires
        inside ==> q <= u32::MAX,
        forall|v: u32| region@.contains(v) <==> in_region(pixels, v as int),
    ensures
        open == (open_side(pixels, inside, q as int) == 1),
        !open == (open_side(pixels, inside, q as int) == 0),
{
    if inside {
        let key: u32 = q as u32;
        !region.contains(&key)
    } else {
        true
    }
}

/// Tells whether the outline of a region can be traced; see `traceable`.
///
/// The pixels are looked at once to collect them and once to count their open sides;
/// the count ends as soon as it exceeds `MAX_OUTLINE_EDGES`.
pub fn is_traceable(pixels: &Vec<u32>, width: usize, height: usize) -> (ok: bool)
    ensures
        ok == traceable(pixels@, width as nat, height as nat),
{
    if width > MAX_SIDE || height > MAX_SIDE {
        return false;
    }
    let wide: u64 = width as u64;
    let high: u64 = height as u64;
    assert(wide * high <= 46_340 * 46_340) by (nonlinear_arith)
        requires
            wide <= 46_340,
            high <= 46_340,
    ;
    let area: u64 = wide * high;
    let count: usize = pixels.len();
    let mut region: HashSet<u32> = HashSet::new();
    let mut k: usize = 0;
    while k < count
        invariant
            count == pixels@.len(),
            k <= count,
            area == width * height,
            forall|j: int| 0 <= j < k ==> (#[trigger] pixels@[j]) < area,
            forall|v: u32|
                region@.contains(v) <==> exists|j: int| 0 <= j < k && #[trigger] pixels@[j] == v,
        decreases count - k,
    {
        let p: u32 = pixels[k];
        if p as u64 >= area {
            return false;
        }
        region.insert(p);
        k = k + 1;
    }
    assert(all_inside(pixels@, (width * height) as int));
    assert forall|v: u32| region@.contains(v) <==> in_region(pixels@, v as int) by {
        if region@.contains(v) {
            let j = choose|j: int| 0 <= j < count && #[trigger] pixels@[j] == v;
            assert(pixels@[j] == v as int);
        }
        if in_region(pixels@, v as int) {
            let j = choose|j: int| 0 <= j < pixels@.len() && #[trigger] pixels@[j] == v as int;
            assert(pixels@[j] == v);
        }
    }
    let mut edges: usize = 0;
    k = 0;
    while k < count
        invariant
            count == pixels@.len(),
            k <= count,
            wide == width,
            high == height,
            width <= MAX_SIDE,
            height <= MAX_SIDE,
            area == width * height,
            area <= 2_147_395_600,
            all_inside(pixels@, (width * height) as int),
            forall|v: u32| region@.contains(v) <==> in_region(pixels@, v as int),
            edges == outline_edges(pixels@, k as nat, width as int, height as int),
            edges <= MAX_OUTLINE_EDGES,
        decreases count - k,
    {
        let p: u64 = pixels[k] as u64;
        assert(wide > 0) by {
            assert(pixels@[k as int] < width * height);
            assert(wide > 0) by (nonlinear_arith)
                requires
                    0 <= p < wide * high,
                    0 <= wide,
                    0 <= high,
            ;
        }
        let x: u64 = p % wide;
        let y: u64 = p / wide;
        proof {
            assert(p == y * wide + x && y < high) by (nonlinear_arith)
                requires
                    0 <= p < wide * high,
                    0 < wide,
                    x == p % wide,
                    y == p / wide,
            ;
            lemma_grid_index(x as int, y as int, wide as int, high as int);
            if x + 1 < wide {
                lemma_grid_index(x as int + 1, y as int, wide as int, high as int);
            }
            if y + 1 < high {
                lemma_grid_index(x as int, y as int + 1, wide as int, high as int);
                assert((y + 1) * wide == y * wide + wide) by (nonlinear_arith);
            }
            if y > 0 {
                assert((y - 1) * wide == y * wide - wide) by (nonlinear_arith);
                assert(y * wide >= wide) by (nonlinear_arith)
                    requires
                        y >= 1,
                        wide >= 0,
                ;
            }
        }
        let left: u64 = if x > 0 {
            p - 1
        } else {
            0
        };
        let up: u64 = if y > 0 {
            p - wide
        } else {
            0
        };
        let mut sides: usize = 0;
        if side_is_open(&region, x > 0, left, Ghost(pixels@)) {
            sides = sides + 1;
        }
        if side_is_open(&region, x + 1 < wide, p + 1, Ghost(pixels@)) {
            sides = sides + 1;
        }
        if side_is_open(&region, y > 0, up, Ghost(pixels@)) {
            sides = sides + 1;
        }
        if side_is_open(&region, y + 1 < high, p + wide, Ghost(pixels@)) {
            sides = sides + 1;
        }
        proof {
            assert(open_side(pixels@, x > 0, left as int) == open_side(pixels@, x > 0, p - 1));
            assert(open_side(pixels@, y > 0, up as int) == open_side(pixels@, y > 0, p - wide));
            assert(sides == open_sides(pixels@, p as int, width as int, height as int));
        }
        edges = edges + sides;
        if edges > MAX_OUTLINE_EDGES {
            proof {
                lemma_outline_grows(
                    pixels@,
                    (k + 1) as nat,
                    count as nat,
                    width as int,
                    height as int,
                );
            }
            return false;
        }
        k = k + 1;
    }
    true
}

} // verus!
