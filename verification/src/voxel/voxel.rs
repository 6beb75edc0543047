//! A single cell of the voxel grid.

use vstd::prelude::*;

verus! {

/// One grid cell: four 8-bit channels, red, green, blue and density.
#[derive(Copy, Clone, Debug)]
pub struct Voxel {
    pub color: [u8; 4],
}

impl Voxel {
    /// The color of a freshly allocated cell: black and fully opaque.
    pub open spec fn default_color() -> Seq<u8> {
        seq![0u8, 0u8, 0u8, 255u8]
    }

    /// Replaces all four channels of the cell.
    pub fn set_color(&mut self, new_color: [u8; 4])
        ensures
            final(self).color == new_color,
    {
        self.color = new_color;
    }
}

impl Default for Voxel {
    fn default() -> (v: Self)
        ensures
            v.color@ == Voxel::default_color(),
    {
        Voxel { color: [0, 0, 0, 255] }
    }
}

} // verus!
