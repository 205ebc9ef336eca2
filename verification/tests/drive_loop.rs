use ambilight::color::Pixel;
use ambilight::drive::{DriveConfig, DriveLoop, LoopAction, LoopEvent};

fn frame(r: u8, g: u8, b: u8) -> LoopEvent {
    LoopEvent::Frame(vec![Pixel { r, g, b }; 4])
}

fn dispatch(r: u64, g: u64, b: u64) -> LoopAction {
    LoopAction::Dispatch { color: (r, g, b), dimming: 100, power_on: true }
}

fn showing(r: u8, g: u8, b: u8) -> DriveLoop {
    let mut drive = DriveLoop::new(DriveConfig::default());
    assert_eq!(drive.step(frame(r, g, b)), dispatch(r as u64, g as u64, b as u64));
    assert_eq!(drive.step(LoopEvent::Dispatched), LoopAction::Capture);
    assert_eq!(drive.last_dispatched(), (r as u64, g as u64, b as u64));
    drive
}

#[test]
fn default_config() {
    let config = DriveConfig::default();
    assert_eq!(config.variation_threshold, 20);
    assert_eq!(config.coverage_percent, 10);
    assert_eq!(config.stride, 1);
}

#[test]
fn loop_begins_by_capturing() {
    let drive = DriveLoop::new(DriveConfig::default());
    assert_eq!(drive.action(), LoopAction::Capture);
    assert_eq!(drive.last_dispatched(), (0, 0, 0));
}

#[test]
fn variation_of_fifteen_does_not_dispatch() {
    let mut drive = showing(100, 100, 100);
    assert_eq!(drive.step(frame(110, 105, 100)), LoopAction::Capture);
    assert_eq!(drive.last_dispatched(), (100, 100, 100));
}

#[test]
fn variation_of_thirty_dispatches() {
    let mut drive = showing(100, 100, 100);
    assert_eq!(drive.step(frame(130, 100, 100)), dispatch(130, 100, 100));
    assert_eq!(drive.last_dispatched(), (100, 100, 100));
    assert_eq!(drive.step(LoopEvent::Dispatched), LoopAction::Capture);
    assert_eq!(drive.last_dispatched(), (130, 100, 100));
}

#[test]
fn variation_is_measured_against_the_dispatched_color() {
    let mut drive = showing(100, 100, 100);
    // Each frame is within the threshold of the one before, but the third is
    // too far from what the lamps show.
    assert_eq!(drive.step(frame(110, 100, 100)), LoopAction::Capture);
    assert_eq!(drive.step(frame(120, 100, 100)), LoopAction::Capture);
    assert_eq!(drive.step(frame(121, 100, 100)), dispatch(121, 100, 100));
}

#[test]
fn dark_frame_dispatches_the_sentinel() {
    let mut drive = showing(100, 100, 100);
    assert_eq!(drive.step(frame(0, 0, 0)), dispatch(1, 1, 1));
}

#[test]
fn first_dark_frame_is_not_dispatched() {
    let mut drive = DriveLoop::new(DriveConfig::default());
    assert_eq!(drive.step(frame(0, 0, 0)), LoopAction::Capture);
}

#[test]
fn failed_capture_reuses_the_previous_frame() {
    let mut drive = DriveLoop::new(DriveConfig::default());
    assert_eq!(drive.step(LoopEvent::CaptureFailed), LoopAction::Capture);
    assert_eq!(drive.step(frame(200, 0, 0)), dispatch(200, 0, 0));
    assert_eq!(drive.step(LoopEvent::Dispatched), LoopAction::Capture);
    assert_eq!(drive.step(LoopEvent::CaptureFailed), LoopAction::Capture);
    assert_eq!(drive.step(frame(10, 0, 0)), dispatch(10, 0, 0));
}

#[test]
fn failed_capture_samples_the_previous_frame_again() {
    let config = DriveConfig { variation_threshold: 20, coverage_percent: 10, stride: 1 };
    let mut drive = DriveLoop::new(config);
    assert_eq!(drive.step(frame(200, 0, 0)), dispatch(200, 0, 0));
    // The lamps did not take it, as far as the loop knows, until it is told.
    assert_eq!(drive.step(LoopEvent::CaptureFailed), dispatch(200, 0, 0));
    assert_eq!(drive.step(LoopEvent::Dispatched), LoopAction::Capture);
    assert_eq!(drive.step(LoopEvent::CaptureFailed), LoopAction::Capture);
}

#[test]
fn stop_restores_then_exits() {
    let mut drive = showing(50, 60, 70);
    assert_eq!(drive.step(LoopEvent::StopRequested), LoopAction::Restore);
    assert_eq!(drive.step(frame(1, 2, 3)), LoopAction::Restore);
    assert_eq!(drive.step(LoopEvent::Restored), LoopAction::Exit { failed: false });
    assert_eq!(drive.step(frame(1, 2, 3)), LoopAction::Exit { failed: false });
    assert_eq!(drive.step(LoopEvent::StopRequested), LoopAction::Exit { failed: false });
}

#[test]
fn failed_dispatch_restores_then_exits_as_failed() {
    let mut drive = showing(50, 60, 70);
    assert_eq!(drive.step(frame(250, 60, 70)), dispatch(250, 60, 70));
    assert_eq!(drive.step(LoopEvent::DispatchFailed), LoopAction::Restore);
    assert_eq!(drive.last_dispatched(), (50, 60, 70));
    assert_eq!(drive.step(LoopEvent::Restored), LoopAction::Exit { failed: true });
}

#[test]
fn failed_restore_exits_as_failed() {
    let mut drive = showing(50, 60, 70);
    assert_eq!(drive.step(LoopEvent::StopRequested), LoopAction::Restore);
    assert_eq!(drive.step(LoopEvent::RestoreFailed), LoopAction::Exit { failed: true });
}

#[test]
fn reports_out_of_turn_change_nothing() {
    let mut drive = showing(50, 60, 70);
    assert_eq!(drive.step(LoopEvent::Dispatched), LoopAction::Capture);
    assert_eq!(drive.step(LoopEvent::DispatchFailed), LoopAction::Capture);
    assert_eq!(drive.step(LoopEvent::Restored), LoopAction::Capture);
    assert_eq!(drive.step(LoopEvent::RestoreFailed), LoopAction::Capture);
    assert_eq!(drive.step(frame(250, 60, 70)), dispatch(250, 60, 70));
    assert_eq!(drive.step(frame(1, 2, 3)), dispatch(250, 60, 70));
    assert_eq!(drive.step(LoopEvent::StopRequested), dispatch(250, 60, 70));
    assert_eq!(drive.step(LoopEvent::Restored), dispatch(250, 60, 70));
}

#[test]
fn threshold_and_coverage_are_configurable() {
    let config = DriveConfig { variation_threshold: 0, coverage_percent: 50, stride: 1 };
    let mut drive = DriveLoop::new(config);
    let mut pixels = vec![Pixel { r: 0, g: 0, b: 0 }; 3];
    pixels.push(Pixel { r: 9, g: 9, b: 9 });
    // A quarter of the frame has content: dark under this configuration.
    assert_eq!(drive.step(LoopEvent::Frame(pixels)), dispatch(1, 1, 1));
    assert_eq!(drive.step(LoopEvent::Dispatched), LoopAction::Capture);
    assert_eq!(drive.step(frame(1, 1, 1)), LoopAction::Capture);
    assert_eq!(drive.step(frame(1, 1, 2)), dispatch(1, 1, 2));
}
