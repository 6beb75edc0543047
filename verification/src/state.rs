//! The per-frame decisions of a capture session: what the camera does in
//! this frame, which commands are submitted in which order, and when a
//! frame is copied out and saved.

use vstd::prelude::*;
use vstd::string::StringExecFns;
use crate::camera_controller::{CameraController, MovementKey, binding, Direction};
use crate::camera_sphere_controller::{clamped, CameraSphereController, SamplerError, SamplerModel};
use crate::screenshot::{
    padded_row_bytes,
    png_encoding,
    png_signature,
    CopyLayout,
    ReadbackError,
    ReadbackModel,
    Screenshotter,
};
use crate::sphere_screenshot_manager::{
    spec_advance,
    spec_start,
    SphereScreenshotManager,
    SweepModel,
    SweepStep,
};

verus! {

/// One command buffer of a frame.
#[derive(Copy, Clone, Debug, PartialEq, Eq, Structural)]
pub enum FrameCommand {
    /// Render the scene into the surface.
    Raymarch,
    /// Copy the surface into the readback buffer.
    Screenshot,
    /// Draw the user interface over the scene.
    Gui,
}

/// What the camera does in a frame.
#[derive(Copy, Clone, Debug, PartialEq, Eq, Structural)]
pub enum CameraUpdate {
    /// Move by the held keys and look at the scene's center.
    Free,
    /// Follow the sphere sampler, as the sweep step says.
    Sphere(SweepStep),
}

/// The capture of a frame: how the surface is copied out and where the
/// image goes.
pub struct Capture {
    pub layout: CopyLayout,
    pub file_name: String,
}

/// The commands of a frame in submission order, and its capture if one was
/// asked for.
pub struct FramePlan {
    pub commands: Vec<FrameCommand>,
    pub capture: Option<Capture>,
}

/// The session as a mathematical value.
pub struct StateModel {
    pub width: u32,
    pub height: u32,
    pub keys: CameraController,
    pub sampler: SamplerModel,
    pub sweep: SweepModel,
    pub readback: ReadbackModel,
    pub should_screenshot: bool,
    pub free_move: bool,
}

/// The commands of a frame: the scene first, the overlay last, and the copy
/// of the surface between them, so that a captured image never shows the
/// overlay.
pub open spec fn frame_commands(capture: bool) -> Seq<FrameCommand> {
    if capture {
        seq![FrameCommand::Raymarch, FrameCommand::Screenshot, FrameCommand::Gui]
    } else {
        seq![FrameCommand::Raymarch, FrameCommand::Gui]
    }
}

/// The file a capture at the viewpoint named `name` is saved to.
pub open spec fn capture_path(name: Seq<char>) -> Seq<char> {
    seq!['s', 'c', 'r', 'e', 'e', 'n', 's', 'h', 'o', 't', 's', '/'] + name + seq!['.', 'p', 'n', 'g']
}

/// Handles and stores the state of a capture session.
pub struct State {
    width: u32,
    height: u32,
    camera_controller: CameraController,
    camera_sphere_controller: CameraSphereController,
    screenshotter: Screenshotter,
    sphere_screenshot_manager: SphereScreenshotManager,
    should_screenshot: bool,
    free_move: bool,
}

impl View for State {
    type V = StateModel;

    closed spec fn view(&self) -> StateModel {
        StateModel {
            width: self.width,
            height: self.height,
            keys: self.camera_controller,
            sampler: self.camera_sphere_controller@,
            sweep: self.sphere_screenshot_manager@,
            readback: self.screenshotter@,
            should_screenshot: self.should_screenshot,
            free_move: self.free_move,
        }
    }
}

impl State {
    /// The invariant of every session handed out by this module: the
    /// sampler is valid and the readback buffer is the one for the current
    /// surface size.
    pub closed spec fn wf(&self) -> bool {
        &&& self.camera_sphere_controller@.wf()
        &&& self.screenshotter.wf()
        &&& self.screenshotter@.width == self.width
        &&& self.screenshotter@.height == self.height
    }

    /// A session for a surface of `width` by `height` pixels: free camera,
    /// no key held, an eight by eight sphere, no sweep and no capture.
    pub fn new(width: u32, height: u32) -> (r: Result<Self, ReadbackError>)
        ensures
            padded_row_bytes(width as nat) <= u32::MAX ==> r is Ok && r->Ok_0.wf() && r->Ok_0@ == (
            StateModel {
                width,
                height,
                keys: r->Ok_0@.keys,
                sampler: SamplerModel { horizontal: 8, vertical: 8, ix: 0, iy: 4 },
                sweep: SweepModel { sweeping: false, visited: Seq::empty() },
                readback: ReadbackModel { width, height, pending: false },
                should_screenshot: false,
                free_move: true,
            }) && forall|d: Direction| !r->Ok_0@.keys.held(d),
            padded_row_bytes(width as nat) > u32::MAX ==> r is Err && r->Err_0
                == ReadbackError::RowTooWide,
    {
        let screenshotter = match Screenshotter::new(width, height) {
            Ok(s) => s,
            Err(e) => {
                return Err(e);
            },
        };
        let camera_sphere_controller = CameraSphereController::new(8, 8).unwrap();
        Ok(
            State {
                width,
                height,
                camera_controller: CameraController::new(),
                camera_sphere_controller,
                screenshotter,
                sphere_screenshot_manager: SphereScreenshotManager::new(),
                should_screenshot: false,
                free_move: true,
            },
        )
    }

    /// The size of the surface.
    pub fn size(&self) -> (s: (u32, u32))
        ensures
            s == (self@.width, self@.height),
    {
        (self.width, self.height)
    }

    /// Called when the surface was resized. A size with a zero side is
    /// ignored. Otherwise the readback buffer is described anew for the new
    /// size, and a capture still pending in the old buffer is abandoned with
    /// it. A width whose padded row cannot be addressed is refused, and then
    /// nothing changes.
    pub fn resize(&mut self, width: u32, height: u32) -> (r: Result<bool, ReadbackError>)
        requires
            old(self).wf(),
        ensures
            final(self).wf(),
            width == 0 || height == 0 ==> r == Ok::<bool, ReadbackError>(false) && final(self)@
                == old(self)@,
            width > 0 && height > 0 && padded_row_bytes(width as nat) > u32::MAX ==> r == Err::<
                bool,
                ReadbackError,
            >(ReadbackError::RowTooWide) && final(self)@ == old(self)@,
            width > 0 && height > 0 && padded_row_bytes(width as nat) <= u32::MAX ==> r == Ok::<
                bool,
                ReadbackError,
            >(true) && final(self)@ == (StateModel {
                width,
                height,
                readback: ReadbackModel { width, height, pending: false },
                ..old(self)@
            }),
    {
        if width == 0 || height == 0 {
            return Ok(false);
        }
        match Screenshotter::new(width, height) {
            Ok(s) => {
                self.width = width;
                self.height = height;
                self.screenshotter = s;
                Ok(true)
            },
            Err(e) => Err(e),
        }
    }

    /// Called for a key going down or up. Returns whether it was a movement
    /// key.
    pub fn input(&mut self, key: MovementKey, is_pressed: bool) -> (handled: bool)
        requires
            old(self).wf(),
        ensures
            final(self).wf(),
            handled == binding(key) is Some,
            final(self)@ == (StateModel { keys: final(self)@.keys, ..old(self)@ }),
            forall|d: Direction|
                final(self)@.keys.held(d) == (if binding(key) == Some(d) {
                    is_pressed
                } else {
                    old(self)@.keys.held(d)
                }),
    {
        self.camera_controller.process_events(key, is_pressed)
    }

    /// Asks for a capture of the frame being drawn.
    pub fn request_screenshot(&mut self)
        requires
            old(self).wf(),
        ensures
            final(self).wf(),
            final(self)@ == (StateModel { should_screenshot: true, ..old(self)@ }),
    {
        self.should_screenshot = true;
    }

    /// Starts a sweep over all viewpoints: the camera leaves free movement
    /// for the first viewpoint, and that frame is captured.
    pub fn start_screenshotting(&mut self)
        requires
            old(self).wf(),
        ensures
            final(self).wf(),
            final(self)@ == (StateModel {
                sweep: spec_start(old(self)@.sampler).0,
                sampler: spec_start(old(self)@.sampler).1,
                should_screenshot: true,
                free_move: false,
                ..old(self)@
            }),
    {
        self.free_move = false;
        self.sphere_screenshot_manager.start_screenshotting(&mut self.camera_sphere_controller);
        self.should_screenshot = true;
    }

    /// Switches between the free camera and the camera on the sphere. Going
    /// back to the free camera abandons a running sweep and discards what
    /// it recorded.
    pub fn set_free_move(&mut self, free_move: bool)
        requires
            old(self).wf(),
        ensures
            final(self).wf(),
            final(self)@ == (StateModel {
                free_move,
                sweep: if free_move && old(self)@.sweep.sweeping {
                    SweepModel { sweeping: false, visited: Seq::empty() }
                } else {
                    old(self)@.sweep
                },
                ..old(self)@
            }),
    {
        if free_move && self.sphere_screenshot_manager.is_screenshotting() {
            self.sphere_screenshot_manager.cancel();
        }
        self.free_move = free_move;
    }

    /// Sets the number of longitude steps, if it differs from the current
    /// one; see `CameraSphereController::set_horizontal_divisions`.
    pub fn set_x_divisions(&mut self, val: u32) -> (r: Result<(), SamplerError>)
        requires
            old(self).wf(),
        ensures
            final(self).wf(),
            val == old(self)@.sampler.horizontal ==> r is Ok && final(self)@ == old(self)@,
            val != old(self)@.sampler.horizontal && val >= 2 ==> r is Ok && final(self)@ == (
            StateModel {
                sampler: SamplerModel { horizontal: val, ix: 0, iy: 1, ..old(self)@.sampler },
                ..old(self)@
            }),
            val != old(self)@.sampler.horizontal && val < 2 ==> r == Err::<(), SamplerError>(
                SamplerError::TooFewDivisions,
            ) && final(self)@ == old(self)@,
    {
        if val != self.camera_sphere_controller.x_divisions() {
            self.camera_sphere_controller.set_horizontal_divisions(val)
        } else {
            Ok(())
        }
    }

    /// Sets the number of latitude steps, if it differs from the current
    /// one; see `CameraSphereController::set_vertical_divisions`.
    pub fn set_y_divisions(&mut self, val: u32) -> (r: Result<(), SamplerError>)
        requires
            old(self).wf(),
        ensures
            final(self).wf(),
            val == old(self)@.sampler.vertical ==> r is Ok && final(self)@ == old(self)@,
            val != old(self)@.sampler.vertical && val >= 2 ==> r is Ok && final(self)@ == (
            StateModel {
                sampler: SamplerModel { vertical: val, ix: 0, iy: 1, ..old(self)@.sampler },
                ..old(self)@
            }),
            val != old(self)@.sampler.vertical && val < 2 ==> r == Err::<(), SamplerError>(
                SamplerError::TooFewDivisions,
            ) && final(self)@ == old(self)@,
    {
        if val != self.camera_sphere_controller.y_divisions() {
            self.camera_sphere_controller.set_vertical_divisions(val)
        } else {
            Ok(())
        }
    }

    /// Moves the sampler to longitude `val`, brought into the valid range.
    pub fn set_x_index(&mut self, val: u32)
        requires
            old(self).wf(),
        ensures
            final(self).wf(),
            final(self)@ == (StateModel {
                sampler: SamplerModel {
                    ix: clamped(val, 0, (old(self)@.sampler.horizontal - 1) as u32),
                    ..old(self)@.sampler
                },
                ..old(self)@
            }),
    {
        self.camera_sphere_controller.set_x_index(val);
    }

    /// Moves the sampler to latitude `val`, brought into the valid range.
    pub fn set_y_index(&mut self, val: u32)
        requires
            old(self).wf(),
        ensures
            final(self).wf(),
            final(self)@ == (StateModel {
                sampler: SamplerModel {
                    iy: clamped(val, 1, (old(self)@.sampler.vertical - 1) as u32),
                    ..old(self)@.sampler
                },
                ..old(self)@
            }),
    {
        self.camera_sphere_controller.set_y_index(val);
    }

    /// Size in bytes of the readback buffer for the current surface size.
    pub fn readback_buffer_size(&self) -> (n: u64)
        requires
            self.wf(),
        ensures
            n == self@.readback.buffer_len(),
    {
        self.screenshotter.buffer_size()
    }

    /// The sphere sampler, for reading its divisions and current viewpoint.
    pub fn camera_sphere_controller(&self) -> (csp: &CameraSphereController)
        ensures
            csp@ == self@.sampler,
    {
        &self.camera_sphere_controller
    }

    /// The sweep, for reading the recorded views.
    pub fn sphere_screenshot_manager(&self) -> (m: &SphereScreenshotManager)
        ensures
            m@ == self@.sweep,
    {
        &self.sphere_screenshot_manager
    }

    /// The held keys.
    pub fn camera_controller(&self) -> (c: CameraController)
        ensures
            c == self@.keys,
    {
        self.camera_controller
    }

    pub fn free_move(&self) -> (b: bool)
        ensures
            b == self@.free_move,
    {
        self.free_move
    }

    pub fn should_screenshot(&self) -> (b: bool)
        ensures
            b == self@.should_screenshot,
    {
        self.should_screenshot
    }

    /// The camera's part of a frame. With the free camera nothing changes
    /// here. Otherwise the sweep takes one step, and the frame is captured
    /// exactly when that step recorded a view.
    pub fn update(&mut self) -> (u: CameraUpdate)
        requires
            old(self).wf(),
        ensures
            final(self).wf(),
            old(self)@.free_move ==> u == CameraUpdate::Free && final(self)@ == old(self)@,
            !old(self)@.free_move ==> ({
                let next = spec_advance(old(self)@.sweep, old(self)@.sampler);
                &&& u == CameraUpdate::Sphere(next.2)
                &&& final(self)@ == (StateModel {
                    sweep: next.0,
                    sampler: next.1,
                    should_screenshot: next.2 == SweepStep::Capture,
                    ..old(self)@
                })
            }),
    {
        if self.free_move {
            return CameraUpdate::Free;
        }
        let step = self.sphere_screenshot_manager.update_camera(&mut self.camera_sphere_controller);
        self.should_screenshot = match step {
            SweepStep::Capture => true,
            _ => false,
        };
        CameraUpdate::Sphere(step)
    }

    /// The commands of this frame, in the order they are to be submitted.
    /// When a capture was asked for, the readback buffer is claimed for it
    /// and the request is cleared; the copy stands between the scene and
    /// the overlay. A capture asked for while the previous one is not yet
    /// saved is refused, and the request stays.
    pub fn render(&mut self) -> (r: Result<FramePlan, ReadbackError>)
        requires
            old(self).wf(),
        ensures
            final(self).wf(),
            !old(self)@.should_screenshot ==> r is Ok && r->Ok_0.commands@ == frame_commands(false)
                && r->Ok_0.capture is None && final(self)@ == old(self)@,
            old(self)@.should_screenshot && old(self)@.readback.pending ==> r is Err && r->Err_0
                == ReadbackError::CaptureInFlight && final(self)@ == old(self)@,
            old(self)@.should_screenshot && !old(self)@.readback.pending ==> r is Ok
                && r->Ok_0.commands@ == frame_commands(true) && r->Ok_0.capture is Some
                && r->Ok_0.capture->Some_0.layout.bytes_per_row == padded_row_bytes(
                old(self)@.width as nat,
            ) && r->Ok_0.capture->Some_0.layout.rows_per_image == old(self)@.height
                && r->Ok_0.capture->Some_0.file_name@ == capture_path(old(self)@.sampler.name())
                && final(self)@ == (StateModel {
                should_screenshot: false,
                readback: ReadbackModel { pending: true, ..old(self)@.readback },
                ..old(self)@
            }),
    {
        let mut commands: Vec<FrameCommand> = Vec::new();
        commands.push(FrameCommand::Raymarch);
        let mut capture: Option<Capture> = None;
        if self.should_screenshot {
            let layout = match self.screenshotter.screenshot() {
                Ok(layout) => layout,
                Err(e) => {
                    return Err(e);
                },
            };
            proof {
                reveal_strlit("screenshots/");
                reveal_strlit(".png");
            }
            let mut file_name = String::from_str("screenshots/");
            let name = self.camera_sphere_controller.get_position_as_string();
            file_name.append(name.as_str());
            file_name.append(".png");
            commands.push(FrameCommand::Screenshot);
            capture = Some(Capture { layout, file_name });
            self.should_screenshot = false;
        }
        commands.push(FrameCommand::Gui);
        Ok(FramePlan { commands, capture })
    }

    /// Ends the capture claimed by `render`, once the copy is done and the
    /// buffer was mapped: see `Screenshotter::save_screenshot_to_disk`.
    pub fn save_screenshot(&mut self, mapped: Option<&[u8]>) -> (r: Result<Vec<u8>, ReadbackError>)
        requires
            old(self).wf(),
        ensures
            final(self).wf(),
            final(self)@ == (StateModel {
                readback: ReadbackModel { pending: false, ..old(self)@.readback },
                ..old(self)@
            }),
            !old(self)@.readback.pending ==> r is Err && r->Err_0
                == ReadbackError::NoCapturePending,
            old(self)@.readback.pending && mapped is None ==> r is Err && r->Err_0
                == ReadbackError::MapFailed,
            old(self)@.readback.pending && mapped is Some && mapped->Some_0@.len()
                != old(self)@.readback.buffer_len() ==> r is Err && r->Err_0
                == ReadbackError::WrongBufferSize,
            old(self)@.readback.pending && mapped is Some && mapped->Some_0@.len()
                == old(self)@.readback.buffer_len() ==> match png_encoding(
                old(self)@.readback.pixels(mapped->Some_0@),
                old(self)@.width,
                old(self)@.height,
            ) {
                Some(stream) => r is Ok && r->Ok_0@ == stream,
                None => r is Err && r->Err_0 == ReadbackError::Encoding,
            },
            old(self)@.width == 0 || old(self)@.height == 0 ==> r is Err,
            r is Ok ==> r->Ok_0@.len() >= 8 && r->Ok_0@.subrange(0, 8) == png_signature(),
    {
        self.screenshotter.save_screenshot_to_disk(mapped)
    }
}

} // verus!
