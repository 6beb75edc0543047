//! The layout of a volume in a NetCDF `color` variable with the dimensions
//! channel, z, y, x: four planes, one per channel, each in the grid's own
//! cell order.

use vstd::prelude::*;
use crate::index3::Index3;
use crate::voxel::grid::{GridError, VoxelGrid};

verus! {

/// Channels of the `color` variable.
pub const CHANNELS: usize = 4;

/// Position of channel `c` of cell `p` in the variable's values: x runs
/// fastest, then y, then z, and the channel slowest.
pub open spec fn spec_sample_offset(d: Index3, c: int, p: Index3) -> int {
    ((c * d.z + p.z) * d.y + p.y) * d.x + p.x
}

/// The variable holds one plane per channel, and a cell stands in each
/// plane where it stands in the grid.
pub proof fn lemma_sample_offset_is_planar(d: Index3, c: int, p: Index3)
    ensures
        spec_sample_offset(d, c, p) == c * d.volume() + d.offset(p),
{
    let (nx, ny, nz) = (d.x as int, d.y as int, d.z as int);
    let (x, y, z) = (p.x as int, p.y as int, p.z as int);
    assert(((c * nz + z) * ny + y) * nx + x == c * (nx * ny * nz) + (x + nx * (y + ny * z)))
        by (nonlinear_arith);
    assert(d.volume() == nx * ny * nz) by (nonlinear_arith)
        requires
            d.volume() == (d.x as nat) * (d.y as nat) * (d.z as nat),
            nx == d.x,
            ny == d.y,
            nz == d.z,
    ;
}

/// Where channel `channel` of the cell at `position` stands among the
/// variable's values for a volume of the grid's size. Refused with
/// `OutOfRange` when there is no such channel or no such cell.
pub fn sample_offset(grid: &VoxelGrid, channel: usize, position: Index3) -> (r: Result<
    usize,
    GridError,
>)
    requires
        grid.wf(),
    ensures
        channel < 4 && grid@.dimensions.contains(position) ==> r is Ok && r->Ok_0
            == spec_sample_offset(grid@.dimensions, channel as int, position) && r->Ok_0 < 4
            * grid@.dimensions.volume(),
        !(channel < 4 && grid@.dimensions.contains(position)) ==> r == Err::<usize, GridError>(
            GridError::OutOfRange,
        ),
{
    if channel >= CHANNELS || !grid.contains(position) {
        return Err(GridError::OutOfRange);
    }
    let within: usize = grid.get_index(position);
    let cells: usize = grid.cell_count();
    proof {
        grid.lemma_wf();
        lemma_sample_offset_is_planar(grid@.dimensions, channel as int, position);
        assert(channel * cells + within < 4 * cells) by (nonlinear_arith)
            requires
                channel <= 3,
                within < cells,
        ;
        assert(0 <= channel * cells) by (nonlinear_arith)
            requires
                0 <= channel,
                0 <= cells,
        ;
    }
    Ok(channel * cells + within)
}

} // verus!
