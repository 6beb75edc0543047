//! Index state of the viewpoints on a sphere around the scene.
//!
//! The sphere is cut into `horizontal` steps of longitude and `vertical`
//! steps of latitude. A viewpoint is a pair `(ix, iy)` with
//! `0 <= ix < horizontal` and `1 <= iy <= vertical - 1`: both poles are left
//! out, since every longitude collapses to the same point there.

use vstd::prelude::*;
use vstd::string::StringExecFns;
use crate::decimal::{decimal, push_decimal};

verus! {

/// Why a change to the sampler was refused.
#[derive(Copy, Clone, Debug, PartialEq, Eq, Structural)]
pub enum SamplerError {
    /// Fewer than two divisions leave no viewpoint between the poles.
    TooFewDivisions,
}

/// The sampler as a mathematical value.
pub struct SamplerModel {
    pub horizontal: u32,
    pub vertical: u32,
    pub ix: u32,
    pub iy: u32,
}

impl SamplerModel {
    /// Both division counts are at least two and the current index names a
    /// viewpoint away from the poles.
    pub open spec fn wf(self) -> bool {
        &&& self.horizontal >= 2
        &&& self.vertical >= 2
        &&& self.ix < self.horizontal
        &&& 1 <= self.iy <= self.vertical - 1
    }

    /// The name of the current viewpoint: both indices in decimal notation
    /// with a hyphen between them.
    pub open spec fn name(self) -> Seq<char> {
        viewpoint_name(self.ix as nat, self.iy as nat)
    }
}

/// The name of viewpoint `(ix, iy)`.
pub open spec fn viewpoint_name(ix: nat, iy: nat) -> Seq<char> {
    decimal(ix) + seq!['-'] + decimal(iy)
}

/// The latitude index a new sampler starts at: the fourth step, or the last
/// one before the pole where there are fewer.
pub open spec fn initial_iy(vertical: u32) -> u32 {
    if vertical > 4 {
        4u32
    } else {
        (vertical - 1) as u32
    }
}

/// `value` brought into `lo ..= hi`.
pub open spec fn clamped(value: u32, lo: u32, hi: u32) -> u32 {
    if value < lo {
        lo
    } else if value > hi {
        hi
    } else {
        value
    }
}

/// Defines the positions on a sphere where the camera can sit, and which of
/// them is current.
pub struct CameraSphereController {
    vertical_divisions: u32,
    horizontal_divisions: u32,
    current_index_x: u32,
    current_index_y: u32,
}

impl View for CameraSphereController {
    type V = SamplerModel;

    closed spec fn view(&self) -> SamplerModel {
        SamplerModel {
            horizontal: self.horizontal_divisions,
            vertical: self.vertical_divisions,
            ix: self.current_index_x,
            iy: self.current_index_y,
        }
    }
}

impl CameraSphereController {
    /// A sampler with the given division counts; it is refused when either
    /// count is below two.
    pub fn new(y_divisions: u32, x_divisions: u32) -> (r: Result<Self, SamplerError>)
        ensures
            y_divisions >= 2 && x_divisions >= 2 ==> r is Ok && r->Ok_0@ == (SamplerModel {
                horizontal: x_divisions,
                vertical: y_divisions,
                ix: 0,
                iy: initial_iy(y_divisions),
            }) && r->Ok_0@.wf(),
            y_divisions < 2 || x_divisions < 2 ==> r is Err && r->Err_0
                == SamplerError::TooFewDivisions,
    {
        if y_divisions < 2 || x_divisions < 2 {
            return Err(SamplerError::TooFewDivisions);
        }
        Ok(
            CameraSphereController {
                vertical_divisions: y_divisions,
                horizontal_divisions: x_divisions,
                current_index_x: 0,
                current_index_y: if y_divisions > 4 {
                    4
                } else {
                    y_divisions - 1
                },
            },
        )
    }

    /// Changes the number of latitude steps and moves to the first
    /// viewpoint, the first longitude on the first latitude after the pole.
    /// A count below two is refused and changes nothing.
    pub fn set_vertical_divisions(&mut self, y_divisions: u32) -> (r: Result<(), SamplerError>)
        requires
            old(self)@.wf(),
        ensures
            final(self)@.wf(),
            y_divisions >= 2 ==> r is Ok && final(self)@ == (SamplerModel {
                vertical: y_divisions,
                ix: 0,
                iy: 1,
                ..old(self)@
            }),
            y_divisions < 2 ==> r == Err::<(), SamplerError>(SamplerError::TooFewDivisions)
                && final(self)@ == old(self)@,
    {
        if y_divisions < 2 {
            return Err(SamplerError::TooFewDivisions);
        }
        self.vertical_divisions = y_divisions;
        self.current_index_x = 0;
        self.current_index_y = 1;
        Ok(())
    }

    /// Changes the number of longitude steps and moves to the first
    /// viewpoint, the first longitude on the first latitude after the pole.
    /// A count below two is refused and changes nothing.
    pub fn set_horizontal_divisions(&mut self, x_divisions: u32) -> (r: Result<(), SamplerError>)
        requires
            old(self)@.wf(),
        ensures
            final(self)@.wf(),
            x_divisions >= 2 ==> r is Ok && final(self)@ == (SamplerModel {
                horizontal: x_divisions,
                ix: 0,
                iy: 1,
                ..old(self)@
            }),
            x_divisions < 2 ==> r == Err::<(), SamplerError>(SamplerError::TooFewDivisions)
                && final(self)@ == old(self)@,
    {
        if x_divisions < 2 {
            return Err(SamplerError::TooFewDivisions);
        }
        self.horizontal_divisions = x_divisions;
        self.current_index_x = 0;
        self.current_index_y = 1;
        Ok(())
    }

    /// One step east; the last longitude is followed by the first.
    pub fn inc_x_index(&mut self)
        requires
            old(self)@.wf(),
        ensures
            final(self)@.wf(),
            final(self)@ == (SamplerModel {
                ix: ((old(self)@.ix + 1) % (old(self)@.horizontal as int)) as u32,
                ..old(self)@
            }),
    {
        proof {
            let (ix, h) = (self.current_index_x as int, self.horizontal_divisions as int);
            if ix + 1 == h {
                assert(h % h == 0) by (nonlinear_arith)
                    requires
                        h > 0,
                ;
            } else {
                vstd::arithmetic::div_mod::lemma_small_mod((ix + 1) as nat, h as nat);
            }
        }
        if self.current_index_x == self.horizontal_divisions - 1 {
            self.current_index_x = 0;
        } else {
            self.current_index_x += 1;
        }
    }

    /// One step west; the first longitude is preceded by the last.
    pub fn sub_x_index(&mut self)
        requires
            old(self)@.wf(),
        ensures
            final(self)@.wf(),
            final(self)@ == (SamplerModel {
                ix: ((old(self)@.ix + old(self)@.horizontal - 1) % (old(self)@.horizontal as int)) as u32,
                ..old(self)@
            }),
    {
        proof {
            let (ix, h) = (self.current_index_x as int, self.horizontal_divisions as int);
            if ix == 0 {
                vstd::arithmetic::div_mod::lemma_small_mod((h - 1) as nat, h as nat);
            } else {
                assert((ix + h - 1) % h == ix - 1) by (nonlinear_arith)
                    requires
                        1 <= ix < h,
                ;
            }
        }
        if self.current_index_x == 0 {
            self.current_index_x = self.horizontal_divisions - 1;
        } else {
            self.current_index_x -= 1;
        }
    }

    /// One step of latitude towards the far pole, stopping before it.
    pub fn inc_y_index(&mut self)
        requires
            old(self)@.wf(),
        ensures
            final(self)@.wf(),
            final(self)@ == (SamplerModel {
                iy: if old(self)@.iy < old(self)@.vertical - 1 {
                    (old(self)@.iy + 1) as u32
                } else {
                    old(self)@.iy
                },
                ..old(self)@
            }),
    {
        if self.current_index_y < self.vertical_divisions - 1 {
            self.current_index_y += 1;
        }
    }

    /// One step of latitude towards the near pole, stopping before it.
    pub fn sub_y_index(&mut self)
        requires
            old(self)@.wf(),
        ensures
            final(self)@.wf(),
            final(self)@ == (SamplerModel {
                iy: if old(self)@.iy > 1 {
                    (old(self)@.iy - 1) as u32
                } else {
                    old(self)@.iy
                },
                ..old(self)@
            }),
    {
        if self.current_index_y > 1 {
            self.current_index_y -= 1;
        }
    }

    /// Moves to longitude `new`, brought into the valid range.
    pub fn set_x_index(&mut self, new: u32)
        requires
            old(self)@.wf(),
        ensures
            final(self)@.wf(),
            final(self)@ == (SamplerModel {
                ix: clamped(new, 0, (old(self)@.horizontal - 1) as u32),
                ..old(self)@
            }),
    {
        if new > self.horizontal_divisions - 1 {
            self.current_index_x = self.horizontal_divisions - 1;
        } else {
            self.current_index_x = new;
        }
    }

    /// Moves to latitude `new`, brought into the valid range.
    pub fn set_y_index(&mut self, new: u32)
        requires
            old(self)@.wf(),
        ensures
            final(self)@.wf(),
            final(self)@ == (SamplerModel {
                iy: clamped(new, 1, (old(self)@.vertical - 1) as u32),
                ..old(self)@
            }),
    {
        if new < 1 {
            self.current_index_y = 1;
        } else if new > self.vertical_divisions - 1 {
            self.current_index_y = self.vertical_divisions - 1;
        } else {
            self.current_index_y = new;
        }
    }

    pub fn x_divisions(&self) -> (n: u32)
        ensures
            n == self@.horizontal,
    {
        self.horizontal_divisions
    }

    pub fn y_divisions(&self) -> (n: u32)
        ensures
            n == self@.vertical,
    {
        self.vertical_divisions
    }

    pub fn current_index_x(&self) -> (ix: u32)
        ensures
            ix == self@.ix,
    {
        self.current_index_x
    }

    pub fn current_index_y(&self) -> (iy: u32)
        ensures
            iy == self@.iy,
    {
        self.current_index_y
    }

    /// The name of the current viewpoint, for example `3-1`.
    pub fn get_position_as_string(&self) -> (s: String)
        ensures
            s@ == self@.name(),
    {
        let mut s = String::new();
        push_decimal(&mut s, self.current_index_x);
        proof {
            reveal_strlit("-");
        }
        s.append("-");
        push_decimal(&mut s, self.current_index_y);
        s
    }
}

} // verus!
