//! The capture sweep: a walk over every viewpoint of the sphere that records
//! one view per viewpoint and then hands the record over for persisting.

use vstd::prelude::*;
use vstd::string::StringExecFns;
use crate::camera_sphere_controller::{CameraSphereController, SamplerModel, viewpoint_name};

verus! {

/// One recorded view as a mathematical value.
pub struct ViewRecord {
    pub ix: u32,
    pub iy: u32,
    pub img: Seq<char>,
}

/// One recorded view: the viewpoint's index pair and the name of the image
/// captured there.
#[derive(Debug)]
pub struct CameraPositions {
    pub ix: u32,
    pub iy: u32,
    pub img: String,
}

impl View for CameraPositions {
    type V = ViewRecord;

    open spec fn view(&self) -> ViewRecord {
        ViewRecord { ix: self.ix, iy: self.iy, img: self.img@ }
    }
}

/// The record made at viewpoint `(ix, iy)`: its image is named after the
/// viewpoint, with the extension `.png`.
pub open spec fn record_of(ix: u32, iy: u32) -> ViewRecord {
    ViewRecord { ix, iy, img: viewpoint_name(ix as nat, iy as nat) + seq!['.', 'p', 'n', 'g'] }
}

/// What the caller has to do after a step of the sweep.
#[derive(Copy, Clone, Debug, PartialEq, Eq, Structural)]
pub enum SweepStep {
    /// No sweep is running: place the camera at the current viewpoint.
    Idle,
    /// A view was recorded: place the camera there and capture the frame
    /// before any overlay is drawn.
    Capture,
    /// The last viewpoint was done in the step before: persist the recorded
    /// views. The camera stays where it is.
    Finished,
}

/// The sweep as a mathematical value.
pub struct SweepModel {
    pub sweeping: bool,
    pub visited: Seq<ViewRecord>,
}

/// The state after a sweep was started on sampler `s`: the sampler stands at
/// the first viewpoint and that view is the only one recorded.
pub open spec fn spec_start(s: SamplerModel) -> (SweepModel, SamplerModel) {
    (
        SweepModel { sweeping: true, visited: seq![record_of(0, 1)] },
        SamplerModel { ix: 0, iy: 1, ..s },
    )
}

/// One step of the sweep, longitude first: the next longitude on the same
/// latitude, else the first longitude of the next latitude, else the end.
pub open spec fn spec_advance(m: SweepModel, s: SamplerModel) -> (SweepModel, SamplerModel, SweepStep) {
    if !m.sweeping {
        (m, s, SweepStep::Idle)
    } else if s.ix < s.horizontal - 1 {
        let ix = (s.ix + 1) as u32;
        (
            SweepModel { sweeping: true, visited: m.visited.push(record_of(ix, s.iy)) },
            SamplerModel { ix, ..s },
            SweepStep::Capture,
        )
    } else if s.iy < s.vertical - 1 {
        let iy = (s.iy + 1) as u32;
        (
            SweepModel { sweeping: true, visited: m.visited.push(record_of(0, iy)) },
            SamplerModel { ix: 0, iy, ..s },
            SweepStep::Capture,
        )
    } else {
        (SweepModel { sweeping: false, visited: m.visited }, s, SweepStep::Finished)
    }
}

/// Helper to create screenshots with the camera placed around the sphere.
pub struct SphereScreenshotManager {
    is_screenshotting: bool,
    positions: Vec<CameraPositions>,
}

impl View for SphereScreenshotManager {
    type V = SweepModel;

    closed spec fn view(&self) -> SweepModel {
        SweepModel {
            sweeping: self.is_screenshotting,
            visited: self.positions@.map_values(|p: CameraPositions| p@),
        }
    }
}

impl SphereScreenshotManager {
    /// A manager with no sweep running and nothing recorded.
    pub fn new() -> (m: Self)
        ensures
            m@ == (SweepModel { sweeping: false, visited: Seq::empty() }),
    {
        let m = SphereScreenshotManager { is_screenshotting: false, positions: Vec::new() };
        assert(m@.visited =~= Seq::empty());
        m
    }

    /// Starts a sweep: drops what an earlier sweep recorded, moves the
    /// sampler to the first viewpoint and records it.
    pub fn start_screenshotting(&mut self, csp: &mut CameraSphereController)
        requires
            old(csp)@.wf(),
        ensures
            final(csp)@.wf(),
            (final(self)@, final(csp)@) == spec_start(old(csp)@),
    {
        self.is_screenshotting = true;
        csp.set_x_index(0);
        csp.set_y_index(1);
        self.positions.clear();
        self.add_position(csp);
        assert(final(self)@.visited =~= seq![record_of(0, 1)]);
    }

    /// One step of the sweep, to be taken once per rendered frame.
    pub fn update_camera(&mut self, csp: &mut CameraSphereController) -> (step: SweepStep)
        requires
            old(csp)@.wf(),
        ensures
            final(csp)@.wf(),
            (final(self)@, final(csp)@, step) == spec_advance(old(self)@, old(csp)@),
    {
        if !self.is_screenshotting {
            return SweepStep::Idle;
        }
        if csp.current_index_x() < csp.x_divisions() - 1 {
            proof {
                vstd::arithmetic::div_mod::lemma_small_mod(
                    (csp@.ix + 1) as nat,
                    csp@.horizontal as nat,
                );
            }
            csp.inc_x_index();
        } else if csp.current_index_y() < csp.y_divisions() - 1 {
            csp.inc_y_index();
            csp.set_x_index(0);
        } else {
            self.is_screenshotting = false;
            return SweepStep::Finished;
        }
        self.add_position(csp);
        SweepStep::Capture
    }

    /// Records the view at the sampler's current viewpoint.
    fn add_position(&mut self, csp: &CameraSphereController)
        ensures
            final(self)@ == (SweepModel {
                sweeping: old(self)@.sweeping,
                visited: old(self)@.visited.push(record_of(csp@.ix, csp@.iy)),
            }),
    {
        let mut img = csp.get_position_as_string();
        proof {
            reveal_strlit(".png");
        }
        img.append(".png");
        let record = CameraPositions {
            ix: csp.current_index_x(),
            iy: csp.current_index_y(),
            img,
        };
        assert(record@.img =~= record_of(csp@.ix, csp@.iy).img);
        self.positions.push(record);
        assert(final(self)@.visited =~= old(self)@.visited.push(record_of(csp@.ix, csp@.iy)));
    }

    /// Abandons a running sweep; the views recorded so far are discarded.
    pub fn cancel(&mut self)
        ensures
            final(self)@ == (SweepModel { sweeping: false, visited: Seq::empty() }),
    {
        self.is_screenshotting = false;
        self.positions.clear();
        assert(final(self)@.visited =~= Seq::empty());
    }

    pub fn is_screenshotting(&self) -> (sweeping: bool)
        ensures
            sweeping == self@.sweeping,
    {
        self.is_screenshotting
    }

    /// The recorded views, in the order they were made.
    pub fn positions(&self) -> (records: &Vec<CameraPositions>)
        ensures
            records@.map_values(|p: CameraPositions| p@) == self@.visited,
    {
        &self.positions
    }
}

/// Number of viewpoints of a sphere with `h` longitude and `v` latitude
/// steps.
pub open spec fn sweep_len(h: nat, v: nat) -> nat
    recommends
        v >= 1,
{
    (h * (v - 1)) as nat
}

/// The `k`-th viewpoint in raster order, longitude running fastest.
pub open spec fn raster(h: nat, k: nat) -> (u32, u32)
    recommends
        h >= 1,
{
    ((k % h) as u32, (1 + k / h) as u32)
}

/// The views recorded at the first `n` viewpoints in raster order.
pub open spec fn raster_trace(h: nat, n: nat) -> Seq<ViewRecord> {
    Seq::new(n, |k: int| record_of(raster(h, k as nat).0, raster(h, k as nat).1))
}

/// The state `k` steps after a sweep was started on sampler `s`, with the
/// action the last of these steps asked for.
pub open spec fn sweep_after(s: SamplerModel, k: nat) -> (SweepModel, SamplerModel, SweepStep)
    decreases k,
{
    if k == 0 {
        (spec_start(s).0, spec_start(s).1, SweepStep::Capture)
    } else {
        let before = sweep_after(s, (k - 1) as nat);
        spec_advance(before.0, before.1)
    }
}

/// Raster order stays inside the sphere: below the number of viewpoints,
/// the `k`-th of them has a valid index pair.
pub proof fn lemma_raster_valid(h: nat, v: nat, k: nat)
    requires
        2 <= h <= u32::MAX,
        2 <= v <= u32::MAX,
        k < sweep_len(h, v),
    ensures
        raster(h, k).0 == k % h,
        raster(h, k).1 == 1 + k / h,
        raster(h, k).0 < h,
        1 <= raster(h, k).1 <= v - 1,
{
    let (hi, ki) = (h as int, k as int);
    vstd::arithmetic::div_mod::lemma_fundamental_div_mod(ki, hi);
    vstd::arithmetic::div_mod::lemma_mod_bound(ki, hi);
    vstd::arithmetic::div_mod::lemma_div_pos_is_pos(ki, hi);
    let q = ki / hi;
    assert(q < v - 1) by (nonlinear_arith)
        requires
            ki == hi * q + ki % hi,
            0 <= ki % hi,
            ki < hi * (v - 1),
            hi > 0,
    ;
}

/// Raster order visits no viewpoint twice.
pub proof fn lemma_raster_distinct(h: nat, v: nat, j: nat, k: nat)
    requires
        2 <= h <= u32::MAX,
        2 <= v <= u32::MAX,
        j < sweep_len(h, v),
        k < sweep_len(h, v),
        j != k,
    ensures
        raster(h, j) != raster(h, k),
{
    lemma_raster_valid(h, v, j);
    lemma_raster_valid(h, v, k);
    vstd::arithmetic::div_mod::lemma_fundamental_div_mod(j as int, h as int);
    vstd::arithmetic::div_mod::lemma_fundamental_div_mod(k as int, h as int);
}

/// Raster order visits every viewpoint: the pair `(ix, iy)` is the one at
/// place `(iy - 1) * h + ix`.
pub proof fn lemma_raster_complete(h: nat, v: nat, ix: nat, iy: nat)
    requires
        2 <= h <= u32::MAX,
        2 <= v <= u32::MAX,
        ix < h,
        1 <= iy <= v - 1,
    ensures
        (iy - 1) * h + ix < sweep_len(h, v),
        raster(h, ((iy - 1) * h + ix) as nat) == (ix as u32, iy as u32),
{
    let k: int = (iy - 1) * h + ix;
    assert(0 <= k < h * (v - 1)) by (nonlinear_arith)
        requires
            k == (iy - 1) * h + ix,
            0 <= ix < h,
            1 <= iy <= v - 1,
    ;
    vstd::arithmetic::div_mod::lemma_fundamental_div_mod_converse(
        k,
        h as int,
        iy - 1,
        ix as int,
    );
}

/// A full sweep, step by step. After `k` steps, with `k` below the number of
/// viewpoints, exactly the first `k + 1` viewpoints in raster order have
/// been recorded, each once, the sampler stands at the last of them and a
/// capture was asked for. The step after the last viewpoint ends the sweep
/// with one record per viewpoint, and every later step is idle.
pub proof fn lemma_full_sweep(s: SamplerModel, k: nat)
    requires
        s.wf(),
    ensures
        ({
            let (h, v) = (s.horizontal as nat, s.vertical as nat);
            let n = sweep_len(h, v);
            let last = raster(h, (n - 1) as nat);
            &&& n >= 1
            &&& k < n ==> sweep_after(s, k) == (
                SweepModel { sweeping: true, visited: raster_trace(h, k + 1) },
                SamplerModel { ix: raster(h, k).0, iy: raster(h, k).1, ..s },
                SweepStep::Capture,
            )
            &&& k == n ==> sweep_after(s, k) == (
                SweepModel { sweeping: false, visited: raster_trace(h, n) },
                SamplerModel { ix: last.0, iy: last.1, ..s },
                SweepStep::Finished,
            )
            &&& k > n ==> sweep_after(s, k) == (
                SweepModel { sweeping: false, visited: raster_trace(h, n) },
                SamplerModel { ix: last.0, iy: last.1, ..s },
                SweepStep::Idle,
            )
            &&& raster_trace(h, n).len() == n
        }),
    decreases k,
{
    let (h, v) = (s.horizontal as nat, s.vertical as nat);
    let n = sweep_len(h, v);
    assert(n >= 1) by (nonlinear_arith)
        requires
            n == h * (v - 1),
            h >= 2,
            v >= 2,
    ;
    if k == 0 {
        lemma_raster_valid(h, v, 0);
        assert(0int % (h as int) == 0 && 0int / (h as int) == 0) by (nonlinear_arith)
            requires
                h > 0,
        ;
        assert(raster_trace(h, 1) =~= seq![record_of(0, 1)]);
    } else {
        let j = (k - 1) as nat;
        lemma_full_sweep(s, j);
        if j < n {
            lemma_raster_valid(h, v, j);
            let (hi, ji) = (h as int, j as int);
            vstd::arithmetic::div_mod::lemma_fundamental_div_mod(ji, hi);
            let (q, r) = (ji / hi, ji % hi);
            if r < hi - 1 {
                vstd::arithmetic::div_mod::lemma_fundamental_div_mod_converse(ji + 1, hi, q, r + 1);
                assert(k < n) by (nonlinear_arith)
                    requires
                        k == hi * q + r + 1,
                        r + 1 < hi,
                        q + 1 <= v - 1,
                        n == hi * (v - 1),
                        hi > 0,
                ;
                assert(raster_trace(h, k + 1) =~= raster_trace(h, j + 1).push(
                    record_of(raster(h, k).0, raster(h, k).1),
                ));
            } else if q + 1 < v - 1 {
                assert(ji + 1 == (q + 1) * hi + 0) by (nonlinear_arith)
                    requires
                        ji == hi * q + r,
                        r == hi - 1,
                ;
                vstd::arithmetic::div_mod::lemma_fundamental_div_mod_converse(ji + 1, hi, q + 1, 0);
                assert(k < n) by (nonlinear_arith)
                    requires
                        k == (q + 1) * hi,
                        q + 2 <= v - 1,
                        n == hi * (v - 1),
                        hi > 0,
                ;
                assert(raster_trace(h, k + 1) =~= raster_trace(h, j + 1).push(
                    record_of(raster(h, k).0, raster(h, k).1),
                ));
            } else {
                assert(k == n) by (nonlinear_arith)
                    requires
                        k == hi * q + r + 1,
                        r == hi - 1,
                        q + 1 == v - 1,
                        n == hi * (v - 1),
                ;
            }
        }
    }
}

} // verus!
