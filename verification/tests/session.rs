use fractal_scenes::session::{FrameAction, Mode, Session, ZOOM_MAX, ZOOM_MIN, ZOOM_UNIT};

#[test]
fn new_session_defaults() {
    let s = Session::new();
    assert_eq!(s.mode, Mode::Spiral);
    assert!(s.mode_start_time.is_none());
    assert!(!s.paused);
    assert_eq!((s.pan_x, s.pan_y), (0, 0));
    assert_eq!(s.zoom_micro, ZOOM_UNIT);
    assert!(!s.drag_active);
}

#[test]
fn wheel_single_event_multiplies_zoom() {
    let mut s = Session::new();
    // deltaY = -100 gives the factor exp(0.1) ~ 1.105, in micro units.
    let factor: u64 = ((0.1f64).exp() * 1_000_000.0) as u64;
    assert_eq!(factor, 1_105_170);
    s.wheel(factor);
    assert_eq!(s.zoom_micro, 1_105_170);
}

#[test]
fn wheel_fifty_events_saturate_at_clamp() {
    let mut s = Session::new();
    let factor: u64 = ((0.1f64).exp() * 1_000_000.0) as u64;
    for _ in 0u32..50 {
        s.wheel(factor);
    }
    // The unclamped product would be about exp(5) ~ 148.4; the clamp wins.
    assert_eq!(s.zoom_micro, ZOOM_MAX);
    assert_eq!(s.zoom_micro, 20_000_000);
}

#[test]
fn wheel_zoom_out_clamps_at_minimum() {
    let mut s = Session::new();
    // deltaY = +100 gives exp(-0.1) ~ 0.905.
    let factor: u64 = ((-0.1f64).exp() * 1_000_000.0) as u64;
    for _ in 0u32..50 {
        s.wheel(factor);
    }
    assert_eq!(s.zoom_micro, ZOOM_MIN);
}

#[test]
fn drag_accumulates_pan_only_while_active() {
    let mut s = Session::new();
    s.pointer_down(100, 100);
    s.pointer_move(130, 115);
    assert_eq!((s.pan_x, s.pan_y), (30, 15));
    s.pointer_up();
    s.pointer_move(200, 300);
    assert_eq!((s.pan_x, s.pan_y), (30, 15));
}

#[test]
fn pointer_move_without_down_is_ignored() {
    let mut s = Session::new();
    s.pointer_move(50, 60);
    assert_eq!((s.pan_x, s.pan_y), (0, 0));
    assert!(!s.drag_active);
}

#[test]
fn drag_updates_last_position_between_moves() {
    let mut s = Session::new();
    s.pointer_down(10, 10);
    s.pointer_move(20, 10);
    s.pointer_move(25, 30);
    assert_eq!((s.pan_x, s.pan_y), (15, 20));
}

#[test]
fn select_mandelbrot_resets_pan_and_zoom() {
    let mut s = Session::new();
    s.pointer_down(0, 0);
    s.pointer_move(40, -25);
    s.wheel(3_000_000);
    assert_eq!((s.pan_x, s.pan_y), (40, -25));
    assert_eq!(s.zoom_micro, 3_000_000);
    s.select_mode(Mode::Mandelbrot);
    assert_eq!(s.mode, Mode::Mandelbrot);
    assert_eq!((s.pan_x, s.pan_y), (0, 0));
    assert_eq!(s.zoom_micro, ZOOM_UNIT);
    assert!(s.mode_start_time.is_none());
    assert!(!s.paused);
}

#[test]
fn select_htree_preserves_pan_and_zoom() {
    let mut s = Session::new();
    s.pointer_down(0, 0);
    s.pointer_move(7, 9);
    s.wheel(2_000_000);
    s.select_mode(Mode::HTree);
    assert_eq!(s.mode, Mode::HTree);
    assert_eq!((s.pan_x, s.pan_y), (7, 9));
    assert_eq!(s.zoom_micro, 2_000_000);
}

#[test]
fn first_frame_anchors_clock_and_reports_zero_elapsed() {
    let mut s = Session::new();
    let action = s.frame(1000);
    assert_eq!(s.mode_start_time, Some(1000));
    assert_eq!(
        action,
        FrameAction::Transformed {
            mode: Mode::Spiral,
            elapsed_ms: 0,
            pan_x: 0,
            pan_y: 0,
            zoom_micro: ZOOM_UNIT,
        }
    );
}

#[test]
fn later_frames_report_elapsed_since_anchor() {
    let mut s = Session::new();
    s.frame(1000);
    let action = s.frame(1500);
    match action {
        FrameAction::Transformed { elapsed_ms, .. } => assert_eq!(elapsed_ms, 500),
        _ => panic!("expected a transformed scene"),
    }
}

#[test]
fn restart_unsets_anchor_and_next_frame_reanchors() {
    let mut s = Session::new();
    s.frame(1000);
    s.frame(1600);
    s.restart();
    assert!(s.mode_start_time.is_none());
    assert_eq!(s.mode, Mode::Spiral);
    let action = s.frame(2000);
    assert_eq!(s.mode_start_time, Some(2000));
    match action {
        FrameAction::Transformed { elapsed_ms, .. } => assert_eq!(elapsed_ms, 0),
        _ => panic!("expected a transformed scene"),
    }
}

#[test]
fn paused_frame_only_clears() {
    let mut s = Session::new();
    s.frame(100);
    s.clear();
    assert!(s.paused);
    let action = s.frame(200);
    assert_eq!(action, FrameAction::Clear);
    // Restart resumes drawing.
    s.restart();
    let action = s.frame(300);
    assert_ne!(action, FrameAction::Clear);
}

#[test]
fn mandelbrot_frames_receive_raw_pan_and_zoom() {
    let mut s = Session::new();
    s.select_mode(Mode::Mandelbrot);
    s.pointer_down(0, 0);
    s.pointer_move(12, -3);
    let action = s.frame(5000);
    assert_eq!(
        action,
        FrameAction::MandelbrotWindow {
            elapsed_ms: 0,
            pan_x: 12,
            pan_y: -3,
            zoom_micro: ZOOM_UNIT,
        }
    );
}
