//! The integer side of scoring a reconstruction against a reference: which
//! cells and channels are compared, and which segment of the transfer
//! function decodes a density.

use vstd::prelude::*;
use crate::index3::Index3;
use crate::voxel::grid::{GridError, VoxelGrid};

verus! {

/// The two segments of the piecewise-linear transfer function.
#[derive(Copy, Clone, Debug, PartialEq, Eq, Structural)]
pub enum TransferSegment {
    /// Densities below one half: between the first and the second color.
    Lower,
    /// Densities from one half on: between the second and the third color.
    Upper,
}

/// The segment that decodes density byte `density`, which stands for the
/// density `density / 255`: the lower one exactly when that is below one
/// half.
pub open spec fn spec_segment(density: u8) -> TransferSegment {
    if 2 * density < 255 {
        TransferSegment::Lower
    } else {
        TransferSegment::Upper
    }
}

/// Channels compared per cell: density alone, or density and three colors.
pub open spec fn spec_channels_used(density_only: bool) -> nat {
    if density_only {
        1
    } else {
        4
    }
}

pub fn segment_of(density: u8) -> (s: TransferSegment)
    ensures
        s == spec_segment(density),
{
    if density < 128 {
        TransferSegment::Lower
    } else {
        TransferSegment::Upper
    }
}

pub fn channels_used(density_only: bool) -> (n: usize)
    ensures
        n == spec_channels_used(density_only),
{
    if density_only {
        1
    } else {
        4
    }
}

/// Accepts a reference of exactly the grid's dimensions and refuses any
/// other with `DimensionMismatch`.
pub fn check_dimensions(grid: &VoxelGrid, reference: Index3) -> (r: Result<(), GridError>)
    ensures
        reference == grid@.dimensions ==> r is Ok,
        reference != grid@.dimensions ==> r == Err::<(), GridError>(GridError::DimensionMismatch),
{
    let d = grid.dimensions();
    if d.x == reference.x && d.y == reference.y && d.z == reference.z {
        Ok(())
    } else {
        Err(GridError::DimensionMismatch)
    }
}

/// The number of squared differences the mean is taken over: one per
/// compared channel of every cell.
pub fn sample_count(grid: &VoxelGrid, density_only: bool) -> (n: usize)
    requires
        grid.wf(),
    ensures
        n == grid@.dimensions.volume() * spec_channels_used(density_only),
        n >= 1,
{
    proof {
        grid.lemma_wf();
        lemma_volume_positive(grid@.dimensions);
    }
    grid.cell_count() * channels_used(density_only)
}

/// A grid without a zero dimension has at least one cell.
pub proof fn lemma_volume_positive(d: Index3)
    requires
        d.x > 0,
        d.y > 0,
        d.z > 0,
    ensures
        d.volume() >= 1,
{
    assert((d.x as nat) * (d.y as nat) * (d.z as nat) >= 1) by (nonlinear_arith)
        requires
            d.x >= 1,
            d.y >= 1,
            d.z >= 1,
    ;
}

} // verus!
