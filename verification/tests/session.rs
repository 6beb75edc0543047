use voxel_capture::camera_controller::{CameraController, MovementKey};
use voxel_capture::camera_sphere_controller::SamplerError;
use voxel_capture::screenshot::ReadbackError;
use voxel_capture::sphere_screenshot_manager::SweepStep;
use voxel_capture::state::{CameraUpdate, FrameCommand, State};

#[test]
fn movement_keys_set_their_flags() {
    let mut c = CameraController::new();
    assert!(c.process_events(MovementKey::KeyS, true));
    assert!(c.is_forward_pressed);
    assert!(c.process_events(MovementKey::KeyD, true));
    assert!(c.is_left_pressed);
    assert!(c.process_events(MovementKey::KeyW, true));
    assert!(c.is_backward_pressed);
    assert!(c.process_events(MovementKey::KeyA, true));
    assert!(c.is_right_pressed);
    assert!(c.process_events(MovementKey::Space, true));
    assert!(c.is_up_pressed);
    assert!(c.process_events(MovementKey::ControlLeft, true));
    assert!(c.is_down_pressed);
    assert!(c.process_events(MovementKey::KeyS, false));
    assert!(!c.is_forward_pressed);
    assert!(c.is_left_pressed);
}

#[test]
fn other_keys_are_not_handled() {
    let mut c = CameraController::new();
    assert!(!c.process_events(MovementKey::Other, true));
    assert_eq!(c, CameraController::new());
}

#[test]
fn new_session_is_free_and_idle() {
    let state = State::new(800, 600).unwrap();
    assert_eq!(state.size(), (800, 600));
    assert!(state.free_move());
    assert!(!state.should_screenshot());
    assert_eq!(state.camera_controller(), CameraController::new());
    assert_eq!(state.camera_sphere_controller().x_divisions(), 8);
    assert_eq!(state.camera_sphere_controller().y_divisions(), 8);
    assert_eq!(state.camera_sphere_controller().current_index_y(), 4);
    assert!(!state.sphere_screenshot_manager().is_screenshotting());
    assert!(matches!(State::new(u32::MAX, 1), Err(ReadbackError::RowTooWide)));
}

#[test]
fn frame_without_capture_is_scene_then_overlay() {
    let mut state = State::new(800, 600).unwrap();
    assert_eq!(state.update(), CameraUpdate::Free);
    let plan = state.render().unwrap();
    assert_eq!(plan.commands, vec![FrameCommand::Raymarch, FrameCommand::Gui]);
    assert!(plan.capture.is_none());
}

#[test]
fn capture_is_copied_before_the_overlay() {
    let mut state = State::new(800, 600).unwrap();
    state.request_screenshot();
    assert!(state.should_screenshot());
    let plan = state.render().unwrap();
    assert_eq!(
        plan.commands,
        vec![FrameCommand::Raymarch, FrameCommand::Screenshot, FrameCommand::Gui]
    );
    let capture = plan.capture.unwrap();
    assert_eq!(capture.layout.bytes_per_row, 3328);
    assert_eq!(capture.layout.rows_per_image, 600);
    assert_eq!(capture.file_name, "screenshots/0-4.png");
    assert!(!state.should_screenshot());
}

#[test]
fn second_capture_waits_for_the_first_to_be_saved() {
    let mut state = State::new(4, 2).unwrap();
    state.request_screenshot();
    state.render().unwrap();
    state.request_screenshot();
    assert!(matches!(state.render(), Err(ReadbackError::CaptureInFlight)));
    assert!(state.should_screenshot());
    let png = state.save_screenshot(Some(&vec![9u8; 512])).unwrap();
    assert_eq!(&png[1..4], b"PNG");
    let plan = state.render().unwrap();
    assert!(plan.capture.is_some());
}

#[test]
fn save_without_capture_is_refused() {
    let mut state = State::new(4, 2).unwrap();
    assert_eq!(state.save_screenshot(Some(&vec![0u8; 512])), Err(ReadbackError::NoCapturePending));
    state.request_screenshot();
    state.render().unwrap();
    assert_eq!(state.save_screenshot(None), Err(ReadbackError::MapFailed));
}

#[test]
fn resize_describes_a_new_buffer() {
    let mut state = State::new(800, 600).unwrap();
    assert_eq!(state.resize(0, 600), Ok(false));
    assert_eq!(state.resize(800, 0), Ok(false));
    assert_eq!(state.size(), (800, 600));
    assert_eq!(state.resize(1024, 768), Ok(true));
    assert_eq!(state.size(), (1024, 768));
    state.request_screenshot();
    let plan = state.render().unwrap();
    assert_eq!(plan.capture.unwrap().layout.bytes_per_row, 4096);
    assert_eq!(state.resize(u32::MAX, 1), Err(ReadbackError::RowTooWide));
    assert_eq!(state.size(), (1024, 768));
}

#[test]
fn resize_abandons_a_pending_capture() {
    let mut state = State::new(4, 2).unwrap();
    state.request_screenshot();
    state.render().unwrap();
    assert_eq!(state.resize(640, 480), Ok(true));
    assert_eq!(state.size(), (640, 480));
    assert_eq!(state.save_screenshot(Some(&vec![0u8; 2560 * 480])), Err(ReadbackError::NoCapturePending));
    state.request_screenshot();
    assert_eq!(state.render().unwrap().capture.unwrap().layout.bytes_per_row, 2560);
}

#[test]
fn sweep_captures_every_viewpoint_and_then_finishes() {
    let mut state = State::new(4, 2).unwrap();
    assert_eq!(state.set_x_divisions(3), Ok(()));
    assert_eq!(state.set_y_divisions(3), Ok(()));
    state.start_screenshotting();
    assert!(!state.free_move());
    let mut names = Vec::new();
    loop {
        let plan = state.render().unwrap();
        match plan.capture {
            Some(capture) => {
                assert_eq!(plan.commands[1], FrameCommand::Screenshot);
                names.push(capture.file_name);
                state.save_screenshot(Some(&vec![0u8; 512])).unwrap();
            }
            None => assert_eq!(plan.commands.len(), 2),
        }
        match state.update() {
            CameraUpdate::Sphere(SweepStep::Capture) => assert!(state.should_screenshot()),
            CameraUpdate::Sphere(SweepStep::Finished) => {
                assert!(!state.should_screenshot());
                break;
            }
            other => panic!("unexpected update {:?}", other),
        }
    }
    assert_eq!(
        names,
        vec![
            "screenshots/0-1.png",
            "screenshots/1-1.png",
            "screenshots/2-1.png",
            "screenshots/0-2.png",
            "screenshots/1-2.png",
            "screenshots/2-2.png"
        ]
    );
    assert_eq!(state.sphere_screenshot_manager().positions().len(), 6);
    assert_eq!(state.update(), CameraUpdate::Sphere(SweepStep::Idle));
}

#[test]
fn back_to_free_move_abandons_the_sweep() {
    let mut state = State::new(4, 2).unwrap();
    state.start_screenshotting();
    state.update();
    assert_eq!(state.sphere_screenshot_manager().positions().len(), 2);
    state.set_free_move(true);
    assert!(state.free_move());
    assert!(!state.sphere_screenshot_manager().is_screenshotting());
    assert!(state.sphere_screenshot_manager().positions().is_empty());
    assert_eq!(state.update(), CameraUpdate::Free);
    state.set_free_move(false);
    assert_eq!(state.update(), CameraUpdate::Sphere(SweepStep::Idle));
}

#[test]
fn division_sliders_only_act_on_a_change() {
    let mut state = State::new(4, 2).unwrap();
    assert_eq!(state.set_y_divisions(8), Ok(()));
    assert_eq!(state.camera_sphere_controller().current_index_y(), 4);
    state.set_x_index(5);
    assert_eq!(state.set_y_divisions(6), Ok(()));
    assert_eq!(state.camera_sphere_controller().current_index_x(), 0);
    assert_eq!(state.camera_sphere_controller().current_index_y(), 1);
    state.set_y_index(4);
    assert_eq!(state.set_x_divisions(8), Ok(()));
    assert_eq!(state.camera_sphere_controller().current_index_y(), 4);
    assert_eq!(state.set_x_divisions(5), Ok(()));
    assert_eq!(state.camera_sphere_controller().current_index_x(), 0);
    assert_eq!(state.camera_sphere_controller().current_index_y(), 1);
    assert_eq!(state.set_x_divisions(8), Ok(()));
    assert_eq!(state.set_x_divisions(1), Err(SamplerError::TooFewDivisions));
    assert_eq!(state.camera_sphere_controller().x_divisions(), 8);
}

#[test]
fn keys_reach_the_controller() {
    let mut state = State::new(4, 2).unwrap();
    assert!(state.input(MovementKey::Space, true));
    assert!(state.camera_controller().is_up_pressed);
    assert!(!state.input(MovementKey::Other, true));
}

#[test]
fn index_sliders_are_brought_into_range() {
    let mut state = State::new(4, 2).unwrap();
    state.set_x_index(3);
    state.set_y_index(2);
    assert_eq!(state.camera_sphere_controller().current_index_x(), 3);
    assert_eq!(state.camera_sphere_controller().current_index_y(), 2);
    state.set_x_index(8);
    state.set_y_index(0);
    assert_eq!(state.camera_sphere_controller().current_index_x(), 7);
    assert_eq!(state.camera_sphere_controller().current_index_y(), 1);
}

#[test]
fn readback_buffer_follows_the_surface_size() {
    let mut state = State::new(800, 600).unwrap();
    assert_eq!(state.readback_buffer_size(), 3328 * 600);
    state.resize(64, 10).unwrap();
    assert_eq!(state.readback_buffer_size(), 2560);
}

#[test]
fn capture_at_a_chosen_viewpoint_is_named_after_it() {
    let mut state = State::new(4, 2).unwrap();
    state.set_free_move(false);
    state.set_x_index(6);
    state.set_y_index(3);
    assert_eq!(state.update(), CameraUpdate::Sphere(SweepStep::Idle));
    state.request_screenshot();
    let plan = state.render().unwrap();
    assert_eq!(plan.capture.unwrap().file_name, "screenshots/6-3.png");
}
