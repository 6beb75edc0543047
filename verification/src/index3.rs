//! Triples of unsigned integers: grid dimensions and cell positions.

use vstd::prelude::*;

verus! {

/// Three unsigned components, used both for the size of a grid and for the
/// position of a cell in it.
#[derive(Copy, Clone, Debug, PartialEq, Eq, Structural)]
pub struct Index3 {
    pub x: u32,
    pub y: u32,
    pub z: u32,
}

impl Index3 {
    pub fn new(x: u32, y: u32, z: u32) -> (p: Self)
        ensures
            p == (Index3 { x, y, z }),
    {
        Index3 { x, y, z }
    }

    /// Number of cells of a grid with these dimensions.
    pub open spec fn volume(self) -> nat {
        (self.x as nat) * (self.y as nat) * (self.z as nat)
    }

    /// Whether `p` names a cell of a grid with these dimensions.
    pub open spec fn contains(self, p: Index3) -> bool {
        p.x < self.x && p.y < self.y && p.z < self.z
    }

    /// Position of cell `p` in the flat cell array, x fastest and z slowest.
    pub open spec fn offset(self, p: Index3) -> int {
        p.x + self.x * (p.y + self.y * p.z)
    }

    /// Every cell of the grid has an offset below the volume.
    pub proof fn lemma_offset_in_bounds(self, p: Index3)
        requires
            self.contains(p),
        ensures
            0 <= self.offset(p) < self.volume(),
    {
        let (nx, ny, nz) = (self.x as int, self.y as int, self.z as int);
        let (x, y, z) = (p.x as int, p.y as int, p.z as int);
        assert(ny * z <= ny * (nz - 1)) by (nonlinear_arith)
            requires
                0 <= z <= nz - 1,
                0 < ny,
        ;
        assert(0 <= ny * z) by (nonlinear_arith)
            requires
                0 <= z,
                0 < ny,
        ;
        let row: int = y + ny * z;
        assert(row <= ny * nz - 1) by (nonlinear_arith)
            requires
                row == y + ny * z,
                y <= ny - 1,
                ny * z <= ny * (nz - 1),
        ;
        assert(nx * row <= nx * (ny * nz - 1)) by (nonlinear_arith)
            requires
                0 <= row <= ny * nz - 1,
                0 < nx,
        ;
        assert(0 <= nx * row) by (nonlinear_arith)
            requires
                0 <= row,
                0 < nx,
        ;
        assert(nx * (ny * nz - 1) + nx == nx * ny * nz) by (nonlinear_arith);
    }

    /// Distinct cells have distinct offsets.
    pub proof fn lemma_offset_injective(self, p: Index3, q: Index3)
        requires
            self.contains(p),
            self.contains(q),
            self.offset(p) == self.offset(q),
        ensures
            p == q,
    {
        let (nx, ny) = (self.x as int, self.y as int);
        let rp: int = p.y + ny * p.z;
        let rq: int = q.y + ny * q.z;
        assert(rp == rq) by (nonlinear_arith)
            requires
                p.x + nx * rp == q.x + nx * rq,
                0 <= p.x < nx,
                0 <= q.x < nx,
        ;
        assert(p.z == q.z) by (nonlinear_arith)
            requires
                p.y + ny * p.z == q.y + ny * q.z,
                0 <= p.y < ny,
                0 <= q.y < ny,
        ;
    }
}

} // verus!
