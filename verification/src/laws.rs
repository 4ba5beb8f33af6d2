//! The laws of the control loop, stated over whole event sequences and
//! proved from the per-tick semantics.

use vstd::prelude::*;

use crate::camera::CameraState;
use crate::camera::MAG_LIMIT;
use crate::camera::Z_MAX_TENTHS;
use crate::input::KeyInput;
use crate::input::MouseInput;
use crate::input::TermEvent;
use crate::session::Directive;
use crate::session::DragPos;
use crate::session::LoopState;
use crate::session::interactive_step;
use crate::session::screensaver_step;
use crate::sizing::canvas_side;

verus! {

/// The loop state after routing each tick of `ticks` in turn, starting
/// from `s`, in interactive mode. `None` entries are quiet polls.
pub open spec fn run_interactive(s: LoopState, ticks: Seq<Option<TermEvent>>) -> LoopState
    decreases ticks.len(),
{
    if ticks.len() == 0 {
        s
    } else {
        run_interactive(interactive_step(s, ticks[0]).0, ticks.drop_first())
    }
}

/// The loop state after `n` quiet screensaver ticks from `s`.
pub open spec fn idle_spin(s: LoopState, n: nat) -> LoopState
    decreases n,
{
    if n == 0 {
        s
    } else {
        screensaver_step(idle_spin(s, (n - 1) as nat), None).0
    }
}

/// One interactive tick keeps the state well-formed, whatever the event.
pub proof fn lemma_interactive_step_wf(s: LoopState, ev: Option<TermEvent>)
    requires
        s.wf(),
    ensures
        interactive_step(s, ev).0.wf(),
{
}

/// However a finite sequence of events — key presses, drags of any
/// vertical delta, anything else — is routed, `z` stays within its clamp
/// of one and a half units either way.
pub proof fn lemma_z_stays_clamped(s: LoopState, ticks: Seq<Option<TermEvent>>)
    requires
        s.wf(),
    ensures
        run_interactive(s, ticks).wf(),
        -Z_MAX_TENTHS <= run_interactive(s, ticks).camera.z_tenths <= Z_MAX_TENTHS,
    decreases ticks.len(),
{
    if ticks.len() > 0 {
        lemma_interactive_step_wf(s, ticks[0]);
        lemma_z_stays_clamped(interactive_step(s, ticks[0]).0, ticks.drop_first());
    }
}

/// Enter recenters deterministically: whatever the camera held before,
/// the tick after Enter has `z` at the bottom of its clamp and the angle
/// at half a turn (pi), and the loop keeps running.
pub proof fn lemma_enter_recenters(s: LoopState)
    ensures
        interactive_step(s, Some(TermEvent::Key(KeyInput::Enter))).0.camera.z_tenths == -15,
        interactive_step(s, Some(TermEvent::Key(KeyInput::Enter))).0.camera.angle_units == 150,
        interactive_step(s, Some(TermEvent::Key(KeyInput::Enter))).1 == (Directive::Render {
            rebuild_canvas: false,
        }),
{
}

/// A resize never leaves the loop: it asks for a rebuilt canvas of the
/// size computed from the new measurements, with the camera untouched.
pub proof fn lemma_resize_keeps_running(s: LoopState, cols: u16, rows: u16)
    requires
        s.wf(),
    ensures
        interactive_step(s, Some(TermEvent::Resize(cols, rows))).1 == (Directive::Render {
            rebuild_canvas: true,
        }),
        interactive_step(s, Some(TermEvent::Resize(cols, rows))).0.wf(),
        interactive_step(s, Some(TermEvent::Resize(cols, rows))).0.canvas_w == canvas_side(
            cols,
            rows,
        ),
        interactive_step(s, Some(TermEvent::Resize(cols, rows))).0.canvas_h == canvas_side(
            cols,
            rows,
        ),
        interactive_step(s, Some(TermEvent::Resize(cols, rows))).0.camera == s.camera,
        screensaver_step(s, Some(TermEvent::Resize(cols, rows))).1 == (Directive::Render {
            rebuild_canvas: true,
        }),
        screensaver_step(s, Some(TermEvent::Resize(cols, rows))).0.canvas_w == canvas_side(
            cols,
            rows,
        ),
{
}

/// Any printable character exits either loop at once, with the state left
/// exactly as it was.
pub proof fn lemma_printable_char_exits(s: LoopState, c: char)
    ensures
        interactive_step(s, Some(TermEvent::Key(KeyInput::Char(c)))) == (s, Directive::Exit),
        screensaver_step(s, Some(TermEvent::Key(KeyInput::Char(c)))) == (s, Directive::Exit),
{
}

/// Drag continuity: a drag is diffed only against the drag immediately
/// before it. Every non-drag mouse gesture clears the stored reference,
/// a drag leaves its own position as the new reference, and a drag that
/// arrives without a reference moves the camera not at all.
pub proof fn lemma_drag_continuity(s: LoopState, m: MouseInput, x: u16, y: u16)
    ensures
        !(m is Drag) ==> interactive_step(s, Some(TermEvent::Mouse(m))).0.drag is None,
        interactive_step(s, Some(TermEvent::Mouse(MouseInput::Drag(x, y)))).0.drag == Some(
            DragPos { x, y },
        ),
        s.drag is None ==> interactive_step(
            s,
            Some(TermEvent::Mouse(MouseInput::Drag(x, y))),
        ).0.camera == s.camera,
{
}

/// With no input, the screensaver spins: every quiet tick moves the angle
/// down by exactly one fixed step of pi/50 — strictly decreasing — and
/// touches nothing else. Stated for as many ticks as keep the angle above
/// the machine-limit floor at which it would saturate.
pub proof fn lemma_screensaver_spins(s: LoopState, n: nat)
    requires
        s.camera.angle_units <= MAG_LIMIT,
        s.camera.angle_units - 3 * n >= -MAG_LIMIT,
    ensures
        idle_spin(s, n).camera.angle_units == s.camera.angle_units - 3 * n,
        idle_spin(s, n) == (LoopState {
            camera: CameraState {
                angle_units: (s.camera.angle_units - 3 * n) as i64,
                ..s.camera
            },
            ..s
        }),
        n > 0 ==> idle_spin(s, n).camera.angle_units < s.camera.angle_units,
    decreases n,
{
    if n > 0 {
        lemma_screensaver_spins(s, (n - 1) as nat);
    }
}

} // verus!
