//! The pixel grid: dimensions, bounds checks, row-major cell indices and the
//! clamped neighbourhood of a pixel.

use vstd::prelude::*;

verus! {

/// Whether `(col, row)` names a pixel of an image of the given size.
pub open spec fn in_grid(col: int, row: int, size: (u32, u32)) -> bool {
    0 <= col < size.0 && 0 <= row < size.1
}

/// The pixel that an integer point names, if it lies on the image.
pub open spec fn bounds_of(point: (i32, i32), size: (u32, u32)) -> Option<(u32, u32)> {
    if in_grid(point.0 as int, point.1 as int, size) {
        Some((point.0 as u32, point.1 as u32))
    } else {
        None
    }
}

/// Row-major index of the cell `(col, row)`.
pub open spec fn cell_index(col: int, row: int, size: (u32, u32)) -> int {
    row * size.0 + col
}

/// Number of cells of the grid.
pub open spec fn cell_count(size: (u32, u32)) -> int {
    size.0 * size.1
}

/// Number of bytes of an RGBA8 image of the given size.
pub open spec fn byte_count(size: (u32, u32)) -> int {
    cell_count(size) * 4
}

/// The longest walk a ray may take: twice the longer side of the image.
pub open spec fn ray_budget(size: (u32, u32)) -> int {
    if size.0 >= size.1 {
        2 * size.0
    } else {
        2 * size.1
    }
}

/// The neighbour before `i` on an axis, clamped to the first position.
pub open spec fn before(i: int) -> int {
    if i <= 0 {
        0
    } else {
        i - 1
    }
}

/// The neighbour after `i` on an axis of `n` positions, clamped to the last.
pub open spec fn after(i: int, n: int) -> int {
    if i + 1 >= n {
        n - 1
    } else {
        i + 1
    }
}

/// Every in-grid cell has an index below the cell count, and its four bytes
/// lie inside an image buffer of `byte_count` bytes.
pub proof fn lemma_cell_in_buffer(col: int, row: int, size: (u32, u32))
    requires
        in_grid(col, row, size),
    ensures
        0 <= cell_index(col, row, size) < cell_count(size),
        0 <= cell_index(col, row, size) * 4,
        cell_index(col, row, size) * 4 + 3 < byte_count(size),
{
    let w = size.0 as int;
    let h = size.1 as int;
    assert(row * w + col < h * w) by (nonlinear_arith)
        requires
            0 <= col < w,
            0 <= row < h,
    ;
    assert(0 <= row * w) by (nonlinear_arith)
        requires
            0 <= row,
            0 <= w,
    ;
    assert(h * w == w * h) by (nonlinear_arith);
}

/// Distinct in-grid pixels have distinct cell indices.
pub proof fn lemma_cell_index_injective(a: (int, int), b: (int, int), size: (u32, u32))
    requires
        in_grid(a.0, a.1, size),
        in_grid(b.0, b.1, size),
        cell_index(a.0, a.1, size) == cell_index(b.0, b.1, size),
    ensures
        a == b,
{
    let w = size.0 as int;
    assert(a.1 == b.1) by (nonlinear_arith)
        requires
            0 <= a.0 < w,
            0 <= b.0 < w,
            0 <= a.1,
            0 <= b.1,
            a.1 * w + a.0 == b.1 * w + b.0,
    ;
}

/// Turns a floored ray position into pixel coordinates, or `None` when the
/// point lies outside `[0, width) x [0, height)`.
pub fn validate_bounds(point: (i32, i32), size: (u32, u32)) -> (r: Option<(u32, u32)>)
    ensures
        r == bounds_of(point, size),
        r matches Some(p) ==> in_grid(p.0 as int, p.1 as int, size) && p.0 == point.0 && p.1
            == point.1,
{
    if point.0 < 0 || point.1 < 0 {
        None
    } else {
        let col: u32 = point.0 as u32;
        let row: u32 = point.1 as u32;
        if col >= size.0 || row >= size.1 {
            None
        } else {
            Some((col, row))
        }
    }
}

/// Row-major index of an in-grid pixel, for a grid whose cells can be
/// addressed at all.
pub fn pixel_index(coords: (u32, u32), size: (u32, u32)) -> (idx: usize)
    requires
        in_grid(coords.0 as int, coords.1 as int, size),
        byte_count(size) <= usize::MAX,
    ensures
        idx == cell_index(coords.0 as int, coords.1 as int, size),
        idx < cell_count(size),
        idx * 4 + 3 < byte_count(size),
{
    proof {
        lemma_cell_in_buffer(coords.0 as int, coords.1 as int, size);
        assert(coords.1 * size.0 >= 0) by (nonlinear_arith);
    }
    coords.1 as usize * size.0 as usize + coords.0 as usize
}

/// Step budget of one ray on a grid of the given size.
pub fn max_ray_length(size: (u32, u32)) -> (steps: u64)
    ensures
        steps == ray_budget(size),
{
    let longer: u32 = if size.0 >= size.1 {
        size.0
    } else {
        size.1
    };
    2 * (longer as u64)
}

/// The clamped neighbours of a pixel on both axes, as
/// `(left, right, up, down)`.
pub fn neighbours(coords: (u32, u32), size: (u32, u32)) -> (n: (u32, u32, u32, u32))
    requires
        in_grid(coords.0 as int, coords.1 as int, size),
    ensures
        n.0 == before(coords.0 as int),
        n.1 == after(coords.0 as int, size.0 as int),
        n.2 == before(coords.1 as int),
        n.3 == after(coords.1 as int, size.1 as int),
        n.0 <= coords.0 <= n.1 < size.0,
        n.2 <= coords.1 <= n.3 < size.1,
{
    let left: u32 = if coords.0 == 0 {
        0
    } else {
        coords.0 - 1
    };
    let right: u32 = if coords.0 == size.0 - 1 {
        size.0 - 1
    } else {
        coords.0 + 1
    };
    let up: u32 = if coords.1 == 0 {
        0
    } else {
        coords.1 - 1
    };
    let down: u32 = if coords.1 == size.1 - 1 {
        size.1 - 1
    } else {
        coords.1 + 1
    };
    (left, right, up, down)
}

} // verus!
