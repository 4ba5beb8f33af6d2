//! One tick of the render loop: route a polled event (or its absence) into
//! the loop state and say what the loop should do next.
//!
//! The whole per-tick semantics is a spec function from state and event to
//! state and directive; the executable routers are proved to implement it
//! exactly. The caller performs the directive: render a frame, first
//! rebuilding the canvas if asked, or leave the loop.

use vstd::prelude::*;

use crate::camera::CameraState;
use crate::input::KeyInput;
use crate::input::MouseInput;
use crate::input::TermEvent;
use crate::sizing::canvas_side;
use crate::sizing::canvas_size;

verus! {

/// A terminal cell a drag was last seen at.
#[derive(Clone, Copy, PartialEq, Eq, Structural, Debug)]
pub struct DragPos {
    pub x: u16,
    pub y: u16,
}

/// Everything one loop iteration owns: the camera, drag continuity, the
/// terminal size last observed, and the canvas dimensions derived from it.
#[derive(Clone, Copy, PartialEq, Eq, Structural, Debug)]
pub struct LoopState {
    pub camera: CameraState,
    /// Last observed drag coordinate, if the gesture before was a drag.
    pub drag: Option<DragPos>,
    pub term_cols: u16,
    pub term_rows: u16,
    pub canvas_w: u32,
    pub canvas_h: u32,
}

/// What the loop does after a tick: render the next frame (rebuilding the
/// canvas first when the terminal was resized), or leave.
#[derive(Clone, Copy, PartialEq, Eq, Structural, Debug)]
pub enum Directive {
    Render { rebuild_canvas: bool },
    Exit,
}

impl LoopState {
    /// Well-formedness: the camera is well-formed and the canvas dimensions
    /// are exactly those computed from the terminal size.
    pub open spec fn wf(self) -> bool {
        &&& self.camera.wf()
        &&& self.canvas_w == canvas_side(self.term_cols, self.term_rows)
        &&& self.canvas_h == canvas_side(self.term_cols, self.term_rows)
    }

    /// The state a loop starts from, for a freshly measured terminal.
    pub fn start(term_cols: u16, term_rows: u16) -> (s: LoopState)
        ensures
            s.wf(),
            s.camera == (CameraState { zoom_tenths: 20, xy_tenths: 0, z_tenths: 0, angle_units: 0 }),
            s.drag is None,
            s.term_cols == term_cols,
            s.term_rows == term_rows,
    {
        let wh: (u32, u32) = canvas_size(term_cols, term_rows);
        LoopState {
            camera: CameraState::start(),
            drag: None,
            term_cols,
            term_rows,
            canvas_w: wh.0,
            canvas_h: wh.1,
        }
    }

    /// `self` remeasured: the new terminal size and the canvas recomputed
    /// from it. Camera and drag continuity are kept.
    pub open spec fn resized(self, cols: u16, rows: u16) -> LoopState {
        LoopState {
            term_cols: cols,
            term_rows: rows,
            canvas_w: canvas_side(cols, rows) as u32,
            canvas_h: canvas_side(cols, rows) as u32,
            ..self
        }
    }
}

/// The camera after a drag that moved by `(dx, dy)` cells since the last
/// drag coordinate: a positive `dy` raises `z` one step, a negative one
/// lowers it (each stopping at the clamp), and both components turn the
/// angle by pi/30 per cell.
pub open spec fn camera_after_drag(c: CameraState, dx: int, dy: int) -> CameraState {
    let moved = if dy > 0 {
        c.with_z_raised()
    } else if dy < 0 {
        c.with_z_lowered()
    } else {
        c
    };
    moved.with_angle_delta((dx + dy) * 5)
}

/// The camera after a key press in interactive mode. A printable character
/// never reaches this: it exits the loop instead.
pub open spec fn camera_after_key(c: CameraState, k: KeyInput) -> CameraState {
    match k {
        KeyInput::PageUp => c.with_zoom_delta(1),
        KeyInput::PageDown => c.with_zoom_delta(-1),
        KeyInput::Up => c.with_z_raised(),
        KeyInput::Down => c.with_z_lowered(),
        KeyInput::Left => c.with_angle_delta(5),
        KeyInput::Right => c.with_angle_delta(-5),
        KeyInput::Enter => c.focused_on(0, 0),
        _ => c,
    }
}

/// One interactive tick: `ev` is the polled event, `None` when the poll
/// timed out. Exactly the routing table of the viewer:
/// a printable character exits; other keys move the camera; a drag is
/// diffed against the last drag coordinate and every non-drag mouse
/// gesture resets that coordinate; scrolling zooms; a resize remeasures
/// and asks for the canvas to be rebuilt.
pub open spec fn interactive_step(s: LoopState, ev: Option<TermEvent>) -> (LoopState, Directive) {
    match ev {
        None => (s, Directive::Render { rebuild_canvas: false }),
        Some(TermEvent::Key(k)) => {
            if k is Char {
                (s, Directive::Exit)
            } else {
                (
                    LoopState { camera: camera_after_key(s.camera, k), ..s },
                    Directive::Render { rebuild_canvas: false },
                )
            }
        },
        Some(TermEvent::Mouse(m)) => {
            let s2 = match m {
                MouseInput::Drag(x, y) => {
                    let cam = match s.drag {
                        Some(last) => camera_after_drag(
                            s.camera,
                            x as int - last.x as int,
                            y as int - last.y as int,
                        ),
                        None => s.camera,
                    };
                    LoopState { camera: cam, drag: Some(DragPos { x, y }), ..s }
                },
                MouseInput::ScrollUp => LoopState {
                    camera: s.camera.with_zoom_delta(-1),
                    drag: None,
                    ..s
                },
                MouseInput::ScrollDown => LoopState {
                    camera: s.camera.with_zoom_delta(1),
                    drag: None,
                    ..s
                },
                MouseInput::Other => LoopState { drag: None, ..s },
            };
            (s2, Directive::Render { rebuild_canvas: false })
        },
        Some(TermEvent::Resize(cols, rows)) => (
            s.resized(cols, rows),
            Directive::Render { rebuild_canvas: true },
        ),
    }
}

/// One screensaver tick: a printable character exits, a resize remeasures,
/// every other event and the quiet poll are ignored; each tick that stays
/// in the loop spins the globe by pi/50 backwards.
pub open spec fn screensaver_step(s: LoopState, ev: Option<TermEvent>) -> (LoopState, Directive) {
    match ev {
        Some(TermEvent::Key(KeyInput::Char(_))) => (s, Directive::Exit),
        Some(TermEvent::Resize(cols, rows)) => (
            LoopState { camera: s.camera.with_angle_delta(-3), ..s.resized(cols, rows) },
            Directive::Render { rebuild_canvas: true },
        ),
        _ => (
            LoopState { camera: s.camera.with_angle_delta(-3), ..s },
            Directive::Render { rebuild_canvas: false },
        ),
    }
}

/// Route one interactive tick. Implements `interactive_step` exactly.
pub fn tick_interactive(s: &mut LoopState, ev: Option<TermEvent>) -> (d: Directive)
    requires
        old(s).wf(),
    ensures
        final(s).wf(),
        (*final(s), d) == interactive_step(*old(s), ev),
{
    match ev {
        None => Directive::Render { rebuild_canvas: false },
        Some(TermEvent::Key(k)) => match k {
            KeyInput::Char(_) => Directive::Exit,
            KeyInput::PageUp => {
                s.camera.zoom_by(1);
                Directive::Render { rebuild_canvas: false }
            },
            KeyInput::PageDown => {
                s.camera.zoom_by(-1);
                Directive::Render { rebuild_canvas: false }
            },
            KeyInput::Up => {
                s.camera.raise();
                Directive::Render { rebuild_canvas: false }
            },
            KeyInput::Down => {
                s.camera.lower();
                Directive::Render { rebuild_canvas: false }
            },
            KeyInput::Left => {
                s.camera.turn_by(5);
                Directive::Render { rebuild_canvas: false }
            },
            KeyInput::Right => {
                s.camera.turn_by(-5);
                Directive::Render { rebuild_canvas: false }
            },
            KeyInput::Enter => {
                s.camera.focus_on(0, 0);
                Directive::Render { rebuild_canvas: false }
            },
            KeyInput::Other => Directive::Render { rebuild_canvas: false },
        },
        Some(TermEvent::Mouse(m)) => {
            match m {
                MouseInput::Drag(x, y) => {
                    if let Some(last) = s.drag {
                        let dx: i64 = x as i64 - last.x as i64;
                        let dy: i64 = y as i64 - last.y as i64;
                        if dy > 0 {
                            s.camera.raise();
                        } else if dy < 0 {
                            s.camera.lower();
                        }
                        s.camera.turn_by((dx + dy) * 5);
                    }
                    s.drag = Some(DragPos { x, y });
                },
                MouseInput::ScrollUp => {
                    s.camera.zoom_by(-1);
                    s.drag = None;
                },
                MouseInput::ScrollDown => {
                    s.camera.zoom_by(1);
                    s.drag = None;
                },
                MouseInput::Other => {
                    s.drag = None;
                },
            }
            Directive::Render { rebuild_canvas: false }
        },
        Some(TermEvent::Resize(cols, rows)) => {
            let wh: (u32, u32) = canvas_size(cols, rows);
            s.term_cols = cols;
            s.term_rows = rows;
            s.canvas_w = wh.0;
            s.canvas_h = wh.1;
            Directive::Render { rebuild_canvas: true }
        },
    }
}

/// Route one screensaver tick. Implements `screensaver_step` exactly.
pub fn tick_screensaver(s: &mut LoopState, ev: Option<TermEvent>) -> (d: Directive)
    requires
        old(s).wf(),
    ensures
        final(s).wf(),
        (*final(s), d) == screensaver_step(*old(s), ev),
{
    match ev {
        Some(TermEvent::Key(KeyInput::Char(_))) => Directive::Exit,
        Some(TermEvent::Resize(cols, rows)) => {
            let wh: (u32, u32) = canvas_size(cols, rows);
            s.term_cols = cols;
            s.term_rows = rows;
            s.canvas_w = wh.0;
            s.canvas_h = wh.1;
            s.camera.turn_by(-3);
            Directive::Render { rebuild_canvas: true }
        },
        _ => {
            s.camera.turn_by(-3);
            Directive::Render { rebuild_canvas: false }
        },
    }
}

} // verus!
