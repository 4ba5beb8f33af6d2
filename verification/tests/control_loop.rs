use globe_cli::CameraState;
use globe_cli::Directive;
use globe_cli::DragPos;
use globe_cli::FrameLayout;
use globe_cli::KeyInput;
use globe_cli::LoopState;
use globe_cli::MouseInput;
use globe_cli::TermEvent;
use globe_cli::MAG_LIMIT;
use globe_cli::canvas_size;
use globe_cli::frame_layout;
use globe_cli::tick_interactive;
use globe_cli::tick_screensaver;

#[test]
fn start_state_matches_launch_defaults() {
    let s = LoopState::start(80, 24);
    assert_eq!(s.camera.zoom_tenths, 20);
    assert_eq!(s.camera.xy_tenths, 0);
    assert_eq!(s.camera.z_tenths, 0);
    assert_eq!(s.camera.angle_units, 0);
    assert_eq!(s.drag, None);
    assert_eq!((s.canvas_w, s.canvas_h), (192, 192));
}

#[test]
fn z_stays_clamped_under_key_spam() {
    let mut s = LoopState::start(80, 24);
    for _ in 0..40 {
        let d = tick_interactive(&mut s, Some(TermEvent::Key(KeyInput::Up)));
        assert_eq!(d, Directive::Render { rebuild_canvas: false });
        assert!(-15 <= s.camera.z_tenths && s.camera.z_tenths <= 15);
    }
    assert_eq!(s.camera.z_tenths, 15);
    for _ in 0..100 {
        tick_interactive(&mut s, Some(TermEvent::Key(KeyInput::Down)));
        assert!(-15 <= s.camera.z_tenths && s.camera.z_tenths <= 15);
    }
    assert_eq!(s.camera.z_tenths, -15);
}

#[test]
fn z_stays_clamped_under_drag_spam() {
    let mut s = LoopState::start(80, 24);
    tick_interactive(&mut s, Some(TermEvent::Mouse(MouseInput::Drag(50, 0))));
    for y in 1..60u16 {
        // each drag moves one row down: dy = 1 per tick
        tick_interactive(&mut s, Some(TermEvent::Mouse(MouseInput::Drag(50, y))));
        assert!(-15 <= s.camera.z_tenths && s.camera.z_tenths <= 15);
    }
    assert_eq!(s.camera.z_tenths, 15);
}

#[test]
fn canvas_size_landscape_is_square_multiple_of_eight() {
    let (w, h) = canvas_size(10, 5);
    assert_eq!((w, h), (40, 40));
    assert_eq!(w % 8, 0);
    assert_eq!(w % 4, 0);
}

#[test]
fn canvas_size_portrait_is_square_multiple_of_four() {
    let (w, h) = canvas_size(5, 10);
    assert_eq!((w, h), (20, 20));
    assert_eq!(w % 4, 0);
    let (w2, h2) = canvas_size(7, 7);
    // a square terminal takes the portrait rule
    assert_eq!((w2, h2), (28, 28));
}

#[test]
fn drag_state_resets_on_intervening_scroll() {
    let mut s = LoopState::start(80, 24);
    tick_interactive(&mut s, Some(TermEvent::Mouse(MouseInput::Drag(5, 5))));
    assert_eq!(s.camera.angle_units, 0); // first drag has no reference
    tick_interactive(&mut s, Some(TermEvent::Mouse(MouseInput::Drag(8, 5))));
    assert_eq!(s.camera.angle_units, 15); // dx = 3 cells, pi/30 each

    let zoom_before = s.camera.zoom_tenths;
    tick_interactive(&mut s, Some(TermEvent::Mouse(MouseInput::ScrollUp)));
    // the scroll zooms; no drag delta derived from (8, 5) leaks into it
    assert_eq!(s.camera.zoom_tenths, zoom_before - 1);
    assert_eq!(s.camera.angle_units, 15);
    assert_eq!(s.drag, None);

    tick_interactive(&mut s, Some(TermEvent::Mouse(MouseInput::Drag(10, 10))));
    // the drag after the scroll has no reference either: no delta from (8, 5)
    assert_eq!(s.camera.angle_units, 15);
    assert_eq!(s.camera.z_tenths, 0);
    assert_eq!(s.drag, Some(DragPos { x: 10, y: 10 }));
}

#[test]
fn drag_state_resets_on_other_mouse_event() {
    let mut s = LoopState::start(80, 24);
    tick_interactive(&mut s, Some(TermEvent::Mouse(MouseInput::Drag(5, 5))));
    tick_interactive(&mut s, Some(TermEvent::Mouse(MouseInput::Other)));
    assert_eq!(s.drag, None);
    tick_interactive(&mut s, Some(TermEvent::Mouse(MouseInput::Drag(9, 9))));
    assert_eq!(s.camera.angle_units, 0);
}

#[test]
fn enter_recenters_regardless_of_prior_state() {
    let mut s = LoopState::start(80, 24);
    tick_interactive(&mut s, Some(TermEvent::Key(KeyInput::Left)));
    tick_interactive(&mut s, Some(TermEvent::Key(KeyInput::Up)));
    tick_interactive(&mut s, Some(TermEvent::Key(KeyInput::PageUp)));
    let d = tick_interactive(&mut s, Some(TermEvent::Key(KeyInput::Enter)));
    assert_eq!(d, Directive::Render { rebuild_canvas: false });
    assert_eq!(s.camera.z_tenths, -15); // z = -1.5
    assert_eq!(s.camera.angle_units, 150); // angle = pi
}

#[test]
fn resize_changes_frame_dimensions_without_exit() {
    let mut s = LoopState::start(80, 24);
    assert_eq!((s.canvas_w, s.canvas_h), (192, 192));
    let d = tick_interactive(&mut s, Some(TermEvent::Resize(100, 30)));
    assert_eq!(d, Directive::Render { rebuild_canvas: true });
    assert_eq!((s.canvas_w, s.canvas_h), (240, 240));
    // the loop keeps running and the next quiet tick uses the new size
    let d2 = tick_interactive(&mut s, None);
    assert_eq!(d2, Directive::Render { rebuild_canvas: false });
    assert_eq!((s.canvas_w, s.canvas_h), (240, 240));
}

#[test]
fn resize_mid_screensaver_rebuilds_and_keeps_spinning() {
    let mut s = LoopState::start(80, 24);
    let d = tick_screensaver(&mut s, Some(TermEvent::Resize(20, 40)));
    assert_eq!(d, Directive::Render { rebuild_canvas: true });
    assert_eq!((s.canvas_w, s.canvas_h), (80, 80));
    assert_eq!(s.camera.angle_units, -3); // the tick still spins
}

#[test]
fn printable_char_exits_interactive() {
    let mut s = LoopState::start(80, 24);
    let before = s;
    let d = tick_interactive(&mut s, Some(TermEvent::Key(KeyInput::Char('x'))));
    assert_eq!(d, Directive::Exit);
    assert_eq!(s, before);
}

#[test]
fn printable_char_exits_screensaver() {
    let mut s = LoopState::start(80, 24);
    tick_screensaver(&mut s, None);
    let before = s;
    let d = tick_screensaver(&mut s, Some(TermEvent::Key(KeyInput::Char(' '))));
    assert_eq!(d, Directive::Exit);
    assert_eq!(s, before);
}

#[test]
fn screensaver_spins_down_every_quiet_tick() {
    let mut s = LoopState::start(80, 24);
    let mut last = s.camera.angle_units;
    for i in 1..=50i64 {
        let d = tick_screensaver(&mut s, None);
        assert_eq!(d, Directive::Render { rebuild_canvas: false });
        assert!(s.camera.angle_units < last); // strictly decreasing
        assert_eq!(s.camera.angle_units, -3 * i); // by a fixed step of pi/50
        last = s.camera.angle_units;
    }
}

#[test]
fn screensaver_ignores_directional_keys_and_mouse() {
    let mut s = LoopState::start(80, 24);
    tick_screensaver(&mut s, Some(TermEvent::Key(KeyInput::Up)));
    tick_screensaver(&mut s, Some(TermEvent::Key(KeyInput::PageUp)));
    tick_screensaver(&mut s, Some(TermEvent::Mouse(MouseInput::ScrollUp)));
    assert_eq!(s.camera.z_tenths, 0);
    assert_eq!(s.camera.zoom_tenths, 20);
    assert_eq!(s.camera.angle_units, -9); // only the spin moved it
}

#[test]
fn keyboard_zoom_and_rotation_steps() {
    let mut s = LoopState::start(80, 24);
    tick_interactive(&mut s, Some(TermEvent::Key(KeyInput::PageUp)));
    assert_eq!(s.camera.zoom_tenths, 21);
    tick_interactive(&mut s, Some(TermEvent::Key(KeyInput::PageDown)));
    tick_interactive(&mut s, Some(TermEvent::Key(KeyInput::PageDown)));
    assert_eq!(s.camera.zoom_tenths, 19);
    tick_interactive(&mut s, Some(TermEvent::Key(KeyInput::Left)));
    assert_eq!(s.camera.angle_units, 5); // pi/30
    tick_interactive(&mut s, Some(TermEvent::Key(KeyInput::Right)));
    tick_interactive(&mut s, Some(TermEvent::Key(KeyInput::Right)));
    assert_eq!(s.camera.angle_units, -5);
    tick_interactive(&mut s, Some(TermEvent::Key(KeyInput::Other)));
    assert_eq!(s.camera.angle_units, -5); // unknown keys are ignored
}

#[test]
fn mouse_scroll_zoom_directions() {
    let mut s = LoopState::start(80, 24);
    tick_interactive(&mut s, Some(TermEvent::Mouse(MouseInput::ScrollDown)));
    assert_eq!(s.camera.zoom_tenths, 21);
    tick_interactive(&mut s, Some(TermEvent::Mouse(MouseInput::ScrollUp)));
    tick_interactive(&mut s, Some(TermEvent::Mouse(MouseInput::ScrollUp)));
    assert_eq!(s.camera.zoom_tenths, 19);
}

#[test]
fn drag_vertical_moves_z_and_turns_angle() {
    let mut s = LoopState::start(80, 24);
    tick_interactive(&mut s, Some(TermEvent::Mouse(MouseInput::Drag(10, 10))));
    tick_interactive(&mut s, Some(TermEvent::Mouse(MouseInput::Drag(10, 13))));
    // dy = 3 > 0: one z step up; angle turns by (0 + 3) * pi/30
    assert_eq!(s.camera.z_tenths, 1);
    assert_eq!(s.camera.angle_units, 15);
    tick_interactive(&mut s, Some(TermEvent::Mouse(MouseInput::Drag(6, 12))));
    // dx = -4, dy = -1: one z step down, angle turns by -5 * pi/30
    assert_eq!(s.camera.z_tenths, 0);
    assert_eq!(s.camera.angle_units, -10);
}

#[test]
fn zoom_saturates_at_the_machine_limit() {
    let mut c = CameraState {
        zoom_tenths: MAG_LIMIT,
        xy_tenths: 0,
        z_tenths: 0,
        angle_units: -MAG_LIMIT,
    };
    c.zoom_by(1);
    assert_eq!(c.zoom_tenths, MAG_LIMIT);
    c.zoom_by(-1);
    assert_eq!(c.zoom_tenths, MAG_LIMIT - 1);
    c.turn_by(-3);
    assert_eq!(c.angle_units, -MAG_LIMIT);
}

#[test]
fn frame_layout_wide_terminal_recenters() {
    let l = frame_layout(240, 240, 100, 30);
    assert_eq!(l.lines, 30);
    assert_eq!(l.glyphs_per_line, 60);
    // 100 / 2 > 30: wide, so the cursor is parked at 30 - 30 / 4
    assert_eq!(l.recenter_col, Some(23));
}

#[test]
fn frame_layout_narrow_terminal_does_not_recenter() {
    let l = frame_layout(192, 192, 80, 50);
    assert_eq!(l.lines, 24);
    assert_eq!(l.glyphs_per_line, 48);
    assert_eq!(l.recenter_col, None);
    let layout_square: FrameLayout = frame_layout(28, 28, 7, 7);
    assert_eq!(layout_square.lines, 3);
    assert_eq!(layout_square.glyphs_per_line, 7);
    assert_eq!(layout_square.recenter_col, None);
}

#[test]
fn focus_on_maps_coordinates_linearly() {
    let mut c = CameraState { zoom_tenths: 20, xy_tenths: 0, z_tenths: 7, angle_units: 99 };
    c.focus_on(10, 10);
    // cy = 1.0 lands z on 1.5; cx = 1.0 lands the angle on 2 * pi + pi
    assert_eq!(c.z_tenths, 15);
    assert_eq!(c.angle_units, 450);
    c.focus_on(5, 5);
    assert_eq!(c.z_tenths, 0);
    assert_eq!(c.angle_units, 300);
}
