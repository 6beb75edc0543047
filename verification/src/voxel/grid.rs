//! The dense voxel grid: one flat cell array addressed by a computed index,
//! together with what a device-side copy of it needs to be told.

use vstd::prelude::*;
use crate::index3::Index3;
use crate::voxel::voxel::Voxel;

verus! {

/// Why a grid operation was refused.
#[derive(Copy, Clone, Debug, PartialEq, Eq, Structural)]
pub enum GridError {
    /// A grid was requested with a dimension of zero.
    ZeroDimension,
    /// The grid's bytes, or one row of them, cannot be addressed.
    TooLarge,
    /// A position, or a channel, lies outside the grid.
    OutOfRange,
    /// A bulk fill was given a number of colors other than the cell count.
    SizeMismatch,
    /// Two grids that must agree in size do not.
    DimensionMismatch,
}

/// Control colors of the piecewise-linear transfer function and the switch
/// that enables it, laid out as the sixteen 32-bit words of the parameter
/// block read by the renderer. Color channels are IEEE-754 single-precision
/// bit patterns; this type stores them and never computes with them.
#[derive(Copy, Clone, Debug)]
pub struct RaymarchTransferFunctionColors {
    pub color_a: [u32; 4],
    pub color_b: [u32; 4],
    pub color_c: [u32; 4],
    pub use_transfer_function: [u32; 4],
}

impl RaymarchTransferFunctionColors {
    /// The parameter block of the default colors: a blue of 0.117, 0.188,
    /// 0.62, a grey of 0.7294 and a red of 0.5725, 0.0, 0.039, each fully
    /// opaque, with the transfer function switched off.
    pub open spec fn default_words() -> Seq<u32> {
        seq![
            0x3DEF_9DB2u32,
            0x3E40_8312u32,
            0x3F1E_B852u32,
            0x3F80_0000u32,
            0x3F3A_B9F5u32,
            0x3F3A_B9F5u32,
            0x3F3A_B9F5u32,
            0x3F80_0000u32,
            0x3F12_8F5Cu32,
            0u32,
            0x3D1F_BE77u32,
            0x3F80_0000u32,
            0u32,
            0u32,
            0u32,
            0u32,
        ]
    }

    /// The default control colors, with the transfer function switched off.
    pub fn new() -> (c: Self)
        ensures
            c.words() == Self::default_words(),
            !c.is_active(),
    {
        let c = RaymarchTransferFunctionColors {
            color_a: [0x3DEF_9DB2, 0x3E40_8312, 0x3F1E_B852, 0x3F80_0000],
            color_b: [0x3F3A_B9F5, 0x3F3A_B9F5, 0x3F3A_B9F5, 0x3F80_0000],
            color_c: [0x3F12_8F5C, 0, 0x3D1F_BE77, 0x3F80_0000],
            use_transfer_function: [0, 0, 0, 0],
        };
        c
    }

    /// Whether the transfer function is switched on: the first word of the
    /// switch is not zero.
    pub open spec fn is_active(self) -> bool {
        self.use_transfer_function[0] != 0
    }

    /// The parameter block as it is uploaded: the three colors, then the
    /// switch.
    pub open spec fn words(self) -> Seq<u32> {
        self.color_a@ + self.color_b@ + self.color_c@ + self.use_transfer_function@
    }

    pub fn use_transfer_function_active(&self) -> (active: bool)
        ensures
            active == self.is_active(),
    {
        self.use_transfer_function[0] != 0
    }

    /// Switches the transfer function on or off; the colors and the three
    /// unused words of the switch stay as they are.
    pub fn set_transfer_function_active(&mut self, val: bool)
        ensures
            final(self).is_active() == val,
            final(self).use_transfer_function[0] == (if val { 1u32 } else { 0u32 }),
            forall|i: int| 1 <= i < 4 ==> final(self).use_transfer_function[i] == old(self).use_transfer_function[i],
            final(self).color_a == old(self).color_a,
            final(self).color_b == old(self).color_b,
            final(self).color_c == old(self).color_c,
    {
        let word: u32 = if val { 1 } else { 0 };
        let rest = self.use_transfer_function;
        self.use_transfer_function = [word, rest[1], rest[2], rest[3]];
    }

    /// The sixteen words of the parameter block, ready for upload.
    pub fn to_words(&self) -> (block: Vec<u32>)
        ensures
            block@ == self.words(),
    {
        let mut block: Vec<u32> = Vec::new();
        let mut i: usize = 0;
        while i < 4
            invariant
                i <= 4,
                block@ == self.color_a@.subrange(0, i as int),
            decreases 4 - i,
        {
            block.push(self.color_a[i]);
            i += 1;
        }
        i = 0;
        while i < 4
            invariant
                i <= 4,
                block@ == self.color_a@ + self.color_b@.subrange(0, i as int),
            decreases 4 - i,
        {
            block.push(self.color_b[i]);
            i += 1;
        }
        i = 0;
        while i < 4
            invariant
                i <= 4,
                block@ == self.color_a@ + self.color_b@ + self.color_c@.subrange(0, i as int),
            decreases 4 - i,
        {
            block.push(self.color_c[i]);
            i += 1;
        }
        i = 0;
        while i < 4
            invariant
                i <= 4,
                block@ == self.color_a@ + self.color_b@ + self.color_c@
                    + self.use_transfer_function@.subrange(0, i as int),
            decreases 4 - i,
        {
            block.push(self.use_transfer_function[i]);
            i += 1;
        }
        block
    }
}

/// How the grid's bytes are laid out for a copy into a three-dimensional
/// texture with four bytes per texel.
#[derive(Copy, Clone, Debug, PartialEq, Eq, Structural)]
pub struct TextureLayout {
    pub width: u32,
    pub height: u32,
    pub depth: u32,
    pub bytes_per_row: u32,
    pub rows_per_image: u32,
}

/// The grid as a mathematical value: its dimensions and its cells in
/// flat order.
pub struct GridModel {
    pub dimensions: Index3,
    pub cells: Seq<Voxel>,
}

impl GridModel {
    /// No dimension is zero and there is exactly one cell per position.
    pub open spec fn wf(self) -> bool {
        &&& self.dimensions.x > 0
        &&& self.dimensions.y > 0
        &&& self.dimensions.z > 0
        &&& self.cells.len() == self.dimensions.volume()
    }

    /// The cell at `p`.
    pub open spec fn read(self, p: Index3) -> Voxel
        recommends
            self.dimensions.contains(p),
    {
        self.cells[self.dimensions.offset(p)]
    }

    /// The grid with the cell at `p` set to `color`.
    pub open spec fn write(self, p: Index3, color: [u8; 4]) -> GridModel
        recommends
            self.dimensions.contains(p),
    {
        GridModel {
            dimensions: self.dimensions,
            cells: self.cells.update(self.dimensions.offset(p), Voxel { color }),
        }
    }

    /// The cells as bytes: four per cell, in flat order.
    pub open spec fn bytes(self) -> Seq<u8> {
        cell_bytes(self.cells)
    }
}

/// The channels of `cells` one after the other: byte `4 * i + c` is channel
/// `c` of cell `i`.
pub open spec fn cell_bytes(cells: Seq<Voxel>) -> Seq<u8> {
    Seq::new(4 * cells.len(), |k: int| cells[k / 4].color[k % 4])
}

/// A written cell reads back as written.
pub proof fn lemma_write_then_read(g: GridModel, p: Index3, color: [u8; 4])
    requires
        g.wf(),
        g.dimensions.contains(p),
    ensures
        g.write(p, color).wf(),
        g.write(p, color).read(p).color == color,
{
    g.dimensions.lemma_offset_in_bounds(p);
}

/// A write leaves every other cell as it was.
pub proof fn lemma_write_keeps_others(g: GridModel, p: Index3, q: Index3, color: [u8; 4])
    requires
        g.wf(),
        g.dimensions.contains(p),
        g.dimensions.contains(q),
        p != q,
    ensures
        g.write(p, color).read(q) == g.read(q),
{
    g.dimensions.lemma_offset_in_bounds(p);
    g.dimensions.lemma_offset_in_bounds(q);
    if g.dimensions.offset(p) == g.dimensions.offset(q) {
        g.dimensions.lemma_offset_injective(p, q);
    }
}

/// Dense grid of voxels. The cell array held here is the authoritative copy;
/// a device-side mirror is brought up to date only by uploading what
/// `update_buffer` returns.
pub struct VoxelGrid {
    voxels: Vec<Voxel>,
    dimensions: Index3,
    transfer_function_colors: RaymarchTransferFunctionColors,
    synced: bool,
}

impl View for VoxelGrid {
    type V = GridModel;

    closed spec fn view(&self) -> GridModel {
        GridModel { dimensions: self.dimensions, cells: self.voxels@ }
    }
}

impl VoxelGrid {
    /// Whether grids of these dimensions can be held: no dimension is zero,
    /// a row of texels fits the 32-bit row pitch and all bytes fit in memory.
    pub open spec fn spec_check(dimensions: Index3) -> Result<(), GridError> {
        if dimensions.x == 0 || dimensions.y == 0 || dimensions.z == 0 {
            Err(GridError::ZeroDimension)
        } else if 4 * dimensions.x > u32::MAX || 4 * dimensions.volume() > usize::MAX {
            Err(GridError::TooLarge)
        } else {
            Ok(())
        }
    }

    /// The invariant of every grid handed out by this module.
    pub closed spec fn wf(&self) -> bool {
        &&& VoxelGrid::spec_check(self.dimensions) is Ok
        &&& self.voxels@.len() == self.dimensions.volume()
    }

    /// Whether no cell was written since the bytes were last taken for upload.
    pub closed spec fn in_sync(&self) -> bool {
        self.synced
    }

    /// The transfer function parameters as a mathematical value.
    pub closed spec fn colors(&self) -> RaymarchTransferFunctionColors {
        self.transfer_function_colors
    }

    /// What a well-formed grid guarantees about its model.
    pub proof fn lemma_wf(&self)
        requires
            self.wf(),
        ensures
            self@.wf(),
            VoxelGrid::spec_check(self@.dimensions) is Ok,
    {
    }

    /// Allocates a grid of the given dimensions with every cell black and
    /// opaque, default transfer function parameters, and no upload made yet.
    pub fn new(dimensions: Index3) -> (r: Result<Self, GridError>)
        ensures
            match r {
                Ok(grid) => {
                    &&& VoxelGrid::spec_check(dimensions) is Ok
                    &&& grid.wf()
                    &&& grid@.dimensions == dimensions
                    &&& grid@.cells.len() == dimensions.volume()
                    &&& forall|i: int|
                        0 <= i < grid@.cells.len() ==> (#[trigger] grid@.cells[i]).color@
                            == Voxel::default_color()
                    &&& !grid.in_sync()
                    &&& grid.colors().words() == RaymarchTransferFunctionColors::default_words()
                    &&& !grid.colors().is_active()
                },
                Err(e) => VoxelGrid::spec_check(dimensions) == Err::<(), GridError>(e),
            },
    {
        if dimensions.x == 0 || dimensions.y == 0 || dimensions.z == 0 {
            return Err(GridError::ZeroDimension);
        }
        assert(dimensions.x * dimensions.y <= 0xFFFF_FFFF * 0xFFFF_FFFF) by (nonlinear_arith)
            requires
                dimensions.x <= 0xFFFF_FFFF,
                dimensions.y <= 0xFFFF_FFFF,
        ;
        let wide: u128 = dimensions.x as u128 * dimensions.y as u128;
        assert(wide * dimensions.z <= 0xFFFF_FFFF * 0xFFFF_FFFF * 0xFFFF_FFFF) by (nonlinear_arith)
            requires
                0 <= wide <= 0xFFFF_FFFF * 0xFFFF_FFFF,
                dimensions.z <= 0xFFFF_FFFF,
        ;
        let count: u128 = wide * dimensions.z as u128;
        if dimensions.x as u64 * 4 > u32::MAX as u64 || count * 4 > usize::MAX as u128 {
            return Err(GridError::TooLarge);
        }
        let voxels: Vec<Voxel> = vec![Voxel::default(); count as usize];
        let grid = VoxelGrid {
            voxels,
            dimensions,
            transfer_function_colors: RaymarchTransferFunctionColors::new(),
            synced: false,
        };
        Ok(grid)
    }

    pub fn dimensions(&self) -> (d: Index3)
        ensures
            d == self@.dimensions,
    {
        self.dimensions
    }

    /// Number of cells.
    pub fn cell_count(&self) -> (n: usize)
        requires
            self.wf(),
        ensures
            n == self@.dimensions.volume(),
            4 * n <= usize::MAX,
    {
        self.voxels.len()
    }

    /// Whether `position` names a cell of this grid. The three accesses by
    /// position below are made for such positions only: a caller that
    /// cannot rule out any other asks here first.
    pub fn contains(&self, position: Index3) -> (inside: bool)
        ensures
            inside == self@.dimensions.contains(position),
    {
        position.x < self.dimensions.x && position.y < self.dimensions.y && position.z
            < self.dimensions.z
    }

    /// Flat index of the cell at `position`, which must lie in the grid.
    pub fn get_index(&self, position: Index3) -> (index: usize)
        requires
            self.wf(),
            self@.dimensions.contains(position),
        ensures
            index == self@.dimensions.offset(position),
            index < self@.cells.len(),
    {
        proof {
            self.dimensions.lemma_offset_in_bounds(position);
            let (ny, nx) = (self.dimensions.y as int, self.dimensions.x as int);
            assert(0 <= ny * position.z) by (nonlinear_arith)
                requires
                    0 <= position.z,
                    0 < ny,
            ;
            assert(nx * (position.y + ny * position.z) <= position.x + nx * (position.y + ny
                * position.z));
            assert(position.y + ny * position.z <= nx * (position.y + ny * position.z))
                by (nonlinear_arith)
                requires
                    0 <= position.y + ny * position.z,
                    1 <= nx,
            ;
        }
        let row: usize = position.y as usize + self.dimensions.y as usize * position.z as usize;
        position.x as usize + self.dimensions.x as usize * row
    }

    /// Writes the cell at `position`, which must lie in the grid. The cell
    /// then reads back as written, every other cell is as before, and the
    /// grid is no longer in sync.
    pub fn set_color(&mut self, position: Index3, color: [u8; 4])
        requires
            old(self).wf(),
            old(self)@.dimensions.contains(position),
        ensures
            final(self).wf(),
            final(self).colors() == old(self).colors(),
            final(self)@ == old(self)@.write(position, color),
            final(self)@.read(position).color == color,
            !final(self).in_sync(),
    {
        proof {
            lemma_write_then_read(self@, position, color);
        }
        let index: usize = self.get_index(position);
        let mut voxel = self.voxels[index];
        voxel.set_color(color);
        self.voxels.set(index, voxel);
        self.synced = false;
    }

    /// Reads the cell at `position`, which must lie in the grid.
    pub fn index(&self, position: Index3) -> (voxel: Voxel)
        requires
            self.wf(),
            self@.dimensions.contains(position),
        ensures
            voxel == self@.read(position),
    {
        let index: usize = self.get_index(position);
        self.voxels[index]
    }

    /// Overwrites every cell, taking the colors in flat order. Fails with
    /// `SizeMismatch`, leaving the grid untouched, unless there is exactly
    /// one color per cell.
    pub fn fill(&mut self, colors: &Vec<[u8; 4]>) -> (r: Result<(), GridError>)
        requires
            old(self).wf(),
        ensures
            final(self).wf(),
            final(self).colors() == old(self).colors(),
            final(self)@.dimensions == old(self)@.dimensions,
            colors@.len() == old(self)@.cells.len() ==> r is Ok && !final(self).in_sync()
                && final(self)@.cells == Seq::new(colors@.len(), |i: int| Voxel { color: colors@[i] }),
            colors@.len() != old(self)@.cells.len() ==> r == Err::<(), GridError>(
                GridError::SizeMismatch,
            ) && final(self)@ == old(self)@ && final(self).in_sync() == old(self).in_sync(),
    {
        if colors.len() != self.voxels.len() {
            return Err(GridError::SizeMismatch);
        }
        let n: usize = colors.len();
        let mut i: usize = 0;
        while i < n
            invariant
                i <= n,
                n == colors@.len(),
                self.voxels@.len() == n,
                self.dimensions == old(self).dimensions,
                self.transfer_function_colors == old(self).transfer_function_colors,
                forall|k: int| 0 <= k < i ==> #[trigger] self.voxels@[k] == (Voxel { color: colors@[k] }),
            decreases n - i,
        {
            self.voxels.set(i, Voxel { color: colors[i] });
            i += 1;
        }
        self.synced = false;
        Ok(())
    }

    /// The layout of the grid's bytes for a copy into its texture.
    pub fn texture_layout(&self) -> (layout: TextureLayout)
        requires
            self.wf(),
        ensures
            layout.width == self@.dimensions.x,
            layout.height == self@.dimensions.y,
            layout.depth == self@.dimensions.z,
            layout.bytes_per_row == 4 * self@.dimensions.x,
            layout.rows_per_image == self@.dimensions.y,
    {
        TextureLayout {
            width: self.dimensions.x,
            height: self.dimensions.y,
            depth: self.dimensions.z,
            bytes_per_row: 4 * self.dimensions.x,
            rows_per_image: self.dimensions.y,
        }
    }

    /// The whole cell array as bytes for upload to the device; the grid is
    /// in sync from here until the next write. There is no partial upload.
    pub fn update_buffer(&mut self) -> (bytes: Vec<u8>)
        requires
            old(self).wf(),
        ensures
            final(self).wf(),
            final(self)@ == old(self)@,
            final(self).colors() == old(self).colors(),
            final(self).in_sync(),
            bytes@ == old(self)@.bytes(),
    {
        self.synced = true;
        voxel_bytes(&self.voxels)
    }

    pub fn is_synced(&self) -> (synced: bool)
        ensures
            synced == self.in_sync(),
    {
        self.synced
    }

    pub fn transfer_function_colors(&self) -> (c: RaymarchTransferFunctionColors)
        ensures
            c == self.colors(),
    {
        self.transfer_function_colors
    }

    /// Replaces the transfer function parameters. The cells and their sync
    /// state are not touched: the parameter block is uploaded on its own.
    pub fn set_transfer_function_colors(&mut self, colors: RaymarchTransferFunctionColors)
        requires
            old(self).wf(),
        ensures
            final(self).wf(),
            final(self).colors() == colors,
            final(self)@ == old(self)@,
            final(self).in_sync() == old(self).in_sync(),
    {
        self.transfer_function_colors = colors;
    }

    /// The parameter block to upload after the transfer function changed.
    pub fn update_transfer_function_buffer(&self) -> (block: Vec<u32>)
        ensures
            block@ == self.colors().words(),
    {
        self.transfer_function_colors.to_words()
    }
}

/// `bytemuck::cast_slice` from four-byte colors to bytes, on the colors of
/// `voxels` in order. Trusted: the cast reinterprets the color arrays in
/// place, so each cell contributes its four channels in channel order and
/// nothing else.
#[verifier::external_body]
fn voxel_bytes(voxels: &Vec<Voxel>) -> (bytes: Vec<u8>)
    ensures
        bytes@ == cell_bytes(voxels@),
{
    let colors: Vec<[u8; 4]> = voxels.iter().map(|v| v.color).collect();
    bytemuck::cast_slice::<[u8; 4], u8>(&colors).to_vec()
}

} // verus!
