use voxel_capture::camera_sphere_controller::CameraSphereController;
use voxel_capture::sphere_screenshot_manager::{SphereScreenshotManager, SweepStep};

fn run_sweep(h: u32, v: u32) -> (Vec<(u32, u32, String)>, usize) {
    let mut csp = CameraSphereController::new(v, h).unwrap();
    let mut manager = SphereScreenshotManager::new();
    manager.start_screenshotting(&mut csp);
    let mut captures = 1;
    loop {
        match manager.update_camera(&mut csp) {
            SweepStep::Capture => captures += 1,
            SweepStep::Finished => break,
            SweepStep::Idle => panic!("sweep went idle before it finished"),
        }
        assert!(captures <= (h * v) as usize);
    }
    let views = manager.positions().iter().map(|p| (p.ix, p.iy, p.img.clone())).collect();
    (views, captures)
}

#[test]
fn new_manager_is_idle() {
    let mut csp = CameraSphereController::new(8, 8).unwrap();
    let mut manager = SphereScreenshotManager::new();
    assert!(!manager.is_screenshotting());
    assert!(manager.positions().is_empty());
    assert_eq!(manager.update_camera(&mut csp), SweepStep::Idle);
    assert_eq!((csp.current_index_x(), csp.current_index_y()), (0, 4));
    assert!(manager.positions().is_empty());
}

#[test]
fn start_records_the_first_viewpoint() {
    let mut csp = CameraSphereController::new(8, 8).unwrap();
    csp.set_x_index(5);
    let mut manager = SphereScreenshotManager::new();
    manager.start_screenshotting(&mut csp);
    assert!(manager.is_screenshotting());
    assert_eq!((csp.current_index_x(), csp.current_index_y()), (0, 1));
    assert_eq!(manager.positions().len(), 1);
    assert_eq!(manager.positions()[0].ix, 0);
    assert_eq!(manager.positions()[0].iy, 1);
    assert_eq!(manager.positions()[0].img, "0-1.png");
}

#[test]
fn full_sweep_visits_every_viewpoint_once_in_raster_order() {
    for (h, v) in [(8u32, 8u32), (2, 2), (3, 5), (5, 3), (16, 2)] {
        let (views, captures) = run_sweep(h, v);
        assert_eq!(views.len(), (h * (v - 1)) as usize);
        assert_eq!(captures, views.len());
        let mut k = 0;
        for iy in 1..v {
            for ix in 0..h {
                assert_eq!(views[k], (ix, iy, format!("{}-{}.png", ix, iy)));
                k += 1;
            }
        }
    }
}

#[test]
fn eight_by_eight_sweep_has_fifty_six_views() {
    let (views, _) = run_sweep(8, 8);
    assert_eq!(views.len(), 56);
    assert_eq!(views[0].2, "0-1.png");
    assert_eq!(views[7].2, "7-1.png");
    assert_eq!(views[8].2, "0-2.png");
    assert_eq!(views[55].2, "7-7.png");
}

#[test]
fn finished_sweep_keeps_its_views_and_goes_idle() {
    let mut csp = CameraSphereController::new(2, 2).unwrap();
    let mut manager = SphereScreenshotManager::new();
    manager.start_screenshotting(&mut csp);
    assert_eq!(manager.update_camera(&mut csp), SweepStep::Capture);
    assert_eq!(manager.update_camera(&mut csp), SweepStep::Finished);
    assert!(!manager.is_screenshotting());
    assert_eq!(manager.positions().len(), 2);
    assert_eq!((csp.current_index_x(), csp.current_index_y()), (1, 1));
    assert_eq!(manager.update_camera(&mut csp), SweepStep::Idle);
    assert_eq!(manager.positions().len(), 2);
}

#[test]
fn restart_clears_the_recorded_views() {
    let mut csp = CameraSphereController::new(3, 3).unwrap();
    let mut manager = SphereScreenshotManager::new();
    manager.start_screenshotting(&mut csp);
    manager.update_camera(&mut csp);
    manager.update_camera(&mut csp);
    assert_eq!(manager.positions().len(), 3);
    manager.start_screenshotting(&mut csp);
    assert_eq!(manager.positions().len(), 1);
    assert_eq!(manager.positions()[0].img, "0-1.png");
}

#[test]
fn cancel_discards_the_partial_sweep() {
    let mut csp = CameraSphereController::new(4, 4).unwrap();
    let mut manager = SphereScreenshotManager::new();
    manager.start_screenshotting(&mut csp);
    manager.update_camera(&mut csp);
    manager.cancel();
    assert!(!manager.is_screenshotting());
    assert!(manager.positions().is_empty());
    assert_eq!(manager.update_camera(&mut csp), SweepStep::Idle);
}
