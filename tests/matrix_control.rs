use matricks::matrix_control::{MatrixController, StopError, UpdateError};

fn controller(width: usize, height: usize, serpentine: bool) -> MatrixController {
    MatrixController::new((width, height), serpentine, false, false, false, 128, 18, 10, 800_000)
}

fn frame(width: usize, height: usize, base: u8) -> Vec<Vec<[u8; 4]>> {
    (0..height)
        .map(|y| (0..width).map(|x| [base, x as u8, y as u8, 255]).collect())
        .collect()
}

fn running(width: usize, height: usize, serpentine: bool) -> MatrixController {
    let mut c = controller(width, height, serpentine);
    assert!(c.start());
    c.driver_ready();
    assert!(c.is_alive());
    c
}

#[test]
fn new_controller_is_dark_and_not_alive() {
    let c = controller(4, 2, false);
    assert!(!c.is_alive());
    assert_eq!(c.dimensions(), (4, 2));
    assert_eq!(c.brightness(), 128);
    assert_eq!(c.gpio_pin(), 18);
    assert_eq!(c.dma_channel(), 10);
    assert_eq!(c.signal_frequency(), 800_000);
    assert_eq!(c.strip_pixels(), vec![[0u8; 4]; 8]);
}

#[test]
fn update_on_never_started_controller_is_rejected() {
    let mut c = controller(3, 2, false);
    assert_eq!(c.update(frame(3, 2, 7)), Err(UpdateError::NotRunning));
    assert_eq!(c.strip_pixels(), vec![[0u8; 4]; 6]);
}

#[test]
fn stop_on_never_started_controller_has_nothing_to_stop() {
    let mut c = controller(3, 2, false);
    assert_eq!(c.stop(), Err(StopError::NothingToStop));
    assert!(!c.is_alive());
}

#[test]
fn start_asks_for_one_render_loop_only() {
    let mut c = controller(2, 2, false);
    assert!(c.start());
    assert!(!c.start());
    // Not alive until the driver is ready.
    assert!(!c.is_alive());
    assert_eq!(c.stop(), Err(StopError::NothingToStop));
    c.driver_ready();
    assert!(c.is_alive());
    assert!(!c.start());
}

#[test]
fn driver_failure_leaves_controller_not_alive() {
    let mut c = controller(2, 2, false);
    assert!(c.start());
    c.driver_failed();
    assert!(!c.is_alive());
    assert_eq!(c.update(frame(2, 2, 1)), Err(UpdateError::NotRunning));
    assert_eq!(c.stop(), Err(StopError::NothingToStop));
    // It may be started again.
    assert!(c.start());
}

#[test]
fn update_replaces_the_frame_through_the_map() {
    let mut c = running(3, 2, true);
    let f = frame(3, 2, 9);
    assert_eq!(c.update(f.clone()), Ok(()));
    let pixels = c.strip_pixels();
    // Serpentine 3x2: row 0 is [2, 1, 0], row 1 is [3, 4, 5].
    assert_eq!(pixels[2], f[0][0]);
    assert_eq!(pixels[1], f[0][1]);
    assert_eq!(pixels[0], f[0][2]);
    assert_eq!(pixels[3], f[1][0]);
    assert_eq!(pixels[4], f[1][1]);
    assert_eq!(pixels[5], f[1][2]);
}

#[test]
fn frame_of_wrong_size_is_rejected() {
    let mut c = running(3, 2, false);
    assert_eq!(c.update(frame(2, 2, 1)), Err(UpdateError::WrongDimensions));
    assert_eq!(c.update(frame(3, 3, 1)), Err(UpdateError::WrongDimensions));
    let mut ragged = frame(3, 2, 1);
    ragged[1].pop();
    assert_eq!(c.update(ragged), Err(UpdateError::WrongDimensions));
    assert_eq!(c.strip_pixels(), vec![[0u8; 4]; 6]);
}

#[test]
fn stop_then_exit_lifecycle() {
    let mut c = running(2, 1, false);
    assert!(c.frame_rendered(true));
    assert!(!c.frame_rendered(false));
    assert_eq!(c.stop(), Ok(()));
    // Still alive until the loop exits; frames are still taken.
    assert!(c.is_alive());
    assert!(!c.frame_rendered(true));
    assert_eq!(c.update(frame(2, 1, 3)), Ok(()));
    c.clear();
    assert_eq!(c.strip_pixels(), vec![[0u8; 4]; 2]);
    c.render_loop_exited();
    assert!(!c.is_alive());
    assert_eq!(c.update(frame(2, 1, 3)), Err(UpdateError::NotRunning));
    assert_eq!(c.stop(), Err(StopError::NothingToStop));
}
