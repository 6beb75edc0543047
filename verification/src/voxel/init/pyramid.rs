//! A stepped pyramid of opaque white cells.

use vstd::prelude::*;
use crate::index3::Index3;
use crate::voxel::grid::{lemma_write_keeps_others, lemma_write_then_read, GridError, GridModel, VoxelGrid};
use crate::voxel::voxel::Voxel;

verus! {

/// Whether cell `p` belongs to the pyramid in a grid of size `d`: layer `y`
/// is the square that begins `y` cells in from the low edges and ends `y`
/// cells before `d.x` in x and before `d.y` in z.
pub open spec fn in_pyramid(d: Index3, p: Index3) -> bool {
    &&& p.y < d.y
    &&& p.y <= p.x < d.x - p.y
    &&& p.y <= p.z < d.y - p.y
}

/// Whether the pyramid fits a grid of size `d`: its base is as deep as the
/// grid is high and must not reach behind the grid.
pub open spec fn pyramid_fits(d: Index3) -> bool {
    d.y <= d.z
}

/// The color of the pyramid's cells.
pub open spec fn pyramid_color() -> Seq<u8> {
    seq![255u8, 255u8, 255u8, 255u8]
}

/// Whether cell `p` comes before cell `(x, y, z)` in the order the pyramid
/// is drawn in: layer by layer, then by x, then by z.
spec fn drawn_before(p: Index3, y: int, x: int, z: int) -> bool {
    p.y < y || (p.y == y && (p.x < x || (p.x == x && p.z < z)))
}

/// Whether `now` is `orig` with the pyramid cells before `(x, y, z)` drawn.
spec fn drawn_until(orig: GridModel, now: GridModel, color: [u8; 4], y: int, x: int, z: int) -> bool {
    &&& now.dimensions == orig.dimensions
    &&& now.wf()
    &&& forall|q: Index3| #[trigger]
        orig.dimensions.contains(q) ==> now.read(q) == (if in_pyramid(orig.dimensions, q)
            && drawn_before(q, y, x, z) {
            Voxel { color }
        } else {
            orig.read(q)
        })
}

/// Drawing one more cell, the one at `(x, y, z)`, moves the drawing on by
/// one place.
proof fn lemma_draw_cell(orig: GridModel, now: GridModel, color: [u8; 4], p: Index3)
    requires
        orig.wf(),
        drawn_until(orig, now, color, p.y as int, p.x as int, p.z as int),
        orig.dimensions.contains(p),
        in_pyramid(orig.dimensions, p),
    ensures
        drawn_until(orig, now.write(p, color), color, p.y as int, p.x as int, p.z + 1),
{
    let next = now.write(p, color);
    lemma_write_then_read(now, p, color);
    assert forall|q: Index3| #[trigger] orig.dimensions.contains(q) implies next.read(q) == (
    if in_pyramid(orig.dimensions, q) && drawn_before(q, p.y as int, p.x as int, p.z + 1) {
        Voxel { color }
    } else {
        orig.read(q)
    }) by {
        if q != p {
            lemma_write_keeps_others(now, p, q, color);
        }
    }
}

/// Fills the grid with a pyramid: every cell of the pyramid becomes opaque
/// white and every other cell stays as it is, and the grid is no longer in
/// sync. A grid the pyramid does not fit into is refused and left untouched.
pub fn init_grid_buffer_pyramid(grid: &mut VoxelGrid) -> (r: Result<(), GridError>)
    requires
        old(grid).wf(),
    ensures
        final(grid).wf(),
        final(grid)@.dimensions == old(grid)@.dimensions,
        final(grid).colors() == old(grid).colors(),
        pyramid_fits(old(grid)@.dimensions) ==> !final(grid).in_sync(),
        pyramid_fits(old(grid)@.dimensions) ==> r is Ok && forall|p: Index3| #[trigger]
            old(grid)@.dimensions.contains(p) ==> (if in_pyramid(old(grid)@.dimensions, p) {
                final(grid)@.read(p).color@ == pyramid_color()
            } else {
                final(grid)@.read(p) == old(grid)@.read(p)
            }),
        !pyramid_fits(old(grid)@.dimensions) ==> r == Err::<(), GridError>(GridError::OutOfRange)
            && final(grid)@ == old(grid)@ && final(grid).in_sync() == old(grid).in_sync(),
{
    let d = grid.dimensions();
    if d.y > d.z {
        return Err(GridError::OutOfRange);
    }
    let color: [u8; 4] = [255, 255, 255, 255];
    let ghost orig = grid@;
    proof {
        grid.lemma_wf();
    }
    let mut y: u32 = 0;
    while y < d.y
        invariant
            y <= d.y,
            d == orig.dimensions,
            d.y <= d.z,
            orig.wf(),
            grid.wf(),
            grid.colors() == old(grid).colors(),
            drawn_until(orig, grid@, color, y as int, 0, 0),
            y > 0 ==> !grid.in_sync(),
        decreases d.y - y,
    {
        let x_end: u32 = if d.x > y {
            d.x - y
        } else {
            0
        };
        let z_end: u32 = d.y - y;
        let mut x: u32 = y;
        assert(drawn_until(orig, grid@, color, y as int, x as int, 0)) by {
            assert forall|q: Index3| in_pyramid(d, q) implies drawn_before(q, y as int, 0, 0)
                == drawn_before(q, y as int, x as int, 0) by {}
        }
        while x < x_end
            invariant
                y < d.y,
                y <= x,
                x_end == (if d.x > y {
                    d.x - y
                } else {
                    0
                }),
                z_end == d.y - y,
                d == orig.dimensions,
                d.y <= d.z,
                orig.wf(),
                grid.wf(),
                grid.colors() == old(grid).colors(),
                drawn_until(orig, grid@, color, y as int, x as int, 0),
                y > 0 || x > y ==> !grid.in_sync(),
            decreases x_end - x,
        {
            let mut z: u32 = y;
            assert(drawn_until(orig, grid@, color, y as int, x as int, z as int)) by {
                assert forall|q: Index3| in_pyramid(d, q) implies drawn_before(
                    q,
                    y as int,
                    x as int,
                    0,
                ) == drawn_before(q, y as int, x as int, z as int) by {}
            }
            while z < z_end
                invariant
                    y < d.y,
                    y <= x < x_end,
                    y <= z,
                    x_end == d.x - y,
                    z_end == d.y - y,
                    d == orig.dimensions,
                    d.y <= d.z,
                    orig.wf(),
                    grid.wf(),
                    grid.colors() == old(grid).colors(),
                    drawn_until(orig, grid@, color, y as int, x as int, z as int),
                    y > 0 || x > y || z > y ==> !grid.in_sync(),
                decreases z_end - z,
            {
                let p = Index3::new(x, y, z);
                proof {
                    lemma_draw_cell(orig, grid@, color, p);
                }
                grid.set_color(p, color);
                z += 1;
            }
            assert(drawn_until(orig, grid@, color, y as int, x + 1, 0)) by {
                assert forall|q: Index3| in_pyramid(d, q) implies drawn_before(
                    q,
                    y as int,
                    x as int,
                    z as int,
                ) == drawn_before(q, y as int, x + 1, 0) by {}
            }
            x += 1;
        }
        assert(drawn_until(orig, grid@, color, y + 1, 0, 0)) by {
            assert forall|q: Index3| in_pyramid(d, q) implies drawn_before(
                q,
                y as int,
                x as int,
                0,
            ) == drawn_before(q, y + 1, 0, 0) by {}
        }
        y += 1;
    }
    Ok(())
}

} // verus!
