//! Camera state in exact fixed-point units.
//!
//! Zoom and the two elevation-like parameters are kept in tenths (a step of
//! `1` here is a step of `0.1` for the renderer); the rotation angle is kept
//! in units of pi/150 radians, the coarsest unit in which every rotation the
//! viewer performs (arrow keys and drags move by pi/30, the screensaver spins
//! by pi/50, a recentering lands on multiples of pi) is a whole number.
//! The renderer consumes these as floats; the conversion happens outside the
//! verified core.

use vstd::prelude::*;

verus! {

/// Upper bound of the elevation parameter `z`, in tenths (`1.5`).
pub const Z_MAX_TENTHS: i64 = 15;

/// Magnitude at which the unbounded parameters (angle, zoom) saturate.
/// Far beyond anything reachable in a session; a machine limit, not a rule.
pub const MAG_LIMIT: i64 = 1_000_000_000_000_000_000;

/// Largest per-event change of a saturating parameter: a drag across the
/// widest possible terminal turns by at most `2 * 65535 * 5` angle units.
pub const MAX_STEP: i64 = 1_000_000;

/// Addition that saturates at `MAG_LIMIT` in magnitude.
pub open spec fn sat_add(a: int, d: int) -> int {
    if a + d > MAG_LIMIT as int {
        MAG_LIMIT as int
    } else if a + d < -(MAG_LIMIT as int) {
        -(MAG_LIMIT as int)
    } else {
        a + d
    }
}

/// Camera parameters: pure data, mutated only by the input router.
#[derive(Clone, Copy, PartialEq, Eq, Structural, Debug)]
pub struct CameraState {
    /// Zoom factor, in tenths. Unbounded but for `MAG_LIMIT`.
    pub zoom_tenths: i64,
    /// First elevation-like parameter, in tenths; the viewer never moves it.
    pub xy_tenths: i64,
    /// Second elevation-like parameter, in tenths; clamped to `[-1.5, 1.5]`.
    pub z_tenths: i64,
    /// Rotation angle, in units of pi/150 radians. Unbounded but for
    /// `MAG_LIMIT`; the renderer reads it modulo a full turn.
    pub angle_units: i64,
}

impl CameraState {
    /// Well-formedness: the clamp on `z` holds and the unbounded parameters
    /// sit inside the saturation range.
    pub open spec fn wf(self) -> bool {
        &&& -Z_MAX_TENTHS <= self.z_tenths <= Z_MAX_TENTHS
        &&& -MAG_LIMIT <= self.zoom_tenths <= MAG_LIMIT
        &&& -MAG_LIMIT <= self.xy_tenths <= MAG_LIMIT
        &&& -MAG_LIMIT <= self.angle_units <= MAG_LIMIT
    }

    /// The camera a session starts from: zoom `2.0`, everything else level.
    pub fn start() -> (c: CameraState)
        ensures
            c.wf(),
            c.zoom_tenths == 20,
            c.xy_tenths == 0,
            c.z_tenths == 0,
            c.angle_units == 0,
    {
        CameraState { zoom_tenths: 20, xy_tenths: 0, z_tenths: 0, angle_units: 0 }
    }

    /// `self` with the zoom moved by `d` tenths, saturating.
    pub open spec fn with_zoom_delta(self, d: int) -> CameraState {
        CameraState { zoom_tenths: sat_add(self.zoom_tenths as int, d) as i64, ..self }
    }

    /// `self` with the angle moved by `d` units of pi/150, saturating.
    pub open spec fn with_angle_delta(self, d: int) -> CameraState {
        CameraState { angle_units: sat_add(self.angle_units as int, d) as i64, ..self }
    }

    /// `self` with `z` one step up, unless already at the top of the clamp.
    pub open spec fn with_z_raised(self) -> CameraState {
        if self.z_tenths < Z_MAX_TENTHS {
            CameraState { z_tenths: (self.z_tenths + 1) as i64, ..self }
        } else {
            self
        }
    }

    /// `self` with `z` one step down, unless already at the bottom.
    pub open spec fn with_z_lowered(self) -> CameraState {
        if self.z_tenths > -Z_MAX_TENTHS {
            CameraState { z_tenths: (self.z_tenths - 1) as i64, ..self }
        } else {
            self
        }
    }

    /// Move the zoom by `d` tenths, saturating at `MAG_LIMIT`.
    pub fn zoom_by(&mut self, d: i64)
        requires
            old(self).wf(),
            -MAX_STEP <= d <= MAX_STEP,
        ensures
            final(self).wf(),
            *final(self) == old(self).with_zoom_delta(d as int),
    {
        self.zoom_tenths = sat_add_exec(self.zoom_tenths, d);
    }

    /// Turn by `d` units of pi/150 radians, saturating at `MAG_LIMIT`.
    pub fn turn_by(&mut self, d: i64)
        requires
            old(self).wf(),
            -MAX_STEP <= d <= MAX_STEP,
        ensures
            final(self).wf(),
            *final(self) == old(self).with_angle_delta(d as int),
    {
        self.angle_units = sat_add_exec(self.angle_units, d);
    }

    /// Raise `z` by one step, stopping at the clamp.
    pub fn raise(&mut self)
        requires
            old(self).wf(),
        ensures
            final(self).wf(),
            *final(self) == old(self).with_z_raised(),
    {
        if self.z_tenths < Z_MAX_TENTHS {
            self.z_tenths = self.z_tenths + 1;
        }
    }

    /// Lower `z` by one step, stopping at the clamp.
    pub fn lower(&mut self)
        requires
            old(self).wf(),
        ensures
            final(self).wf(),
            *final(self) == old(self).with_z_lowered(),
    {
        if self.z_tenths > -Z_MAX_TENTHS {
            self.z_tenths = self.z_tenths - 1;
        }
    }

    /// `self` recentered toward the point `(cx, cy)`, both in tenths of the
    /// normalized coordinate: `z` lands on `cy * 3 - 1.5` and the angle on
    /// `cx * 2 * pi + pi`, whatever the camera held before.
    pub open spec fn focused_on(self, cx_tenths: int, cy_tenths: int) -> CameraState {
        CameraState {
            z_tenths: (cy_tenths * 3 - Z_MAX_TENTHS) as i64,
            angle_units: (cx_tenths * 30 + 150) as i64,
            ..self
        }
    }

    /// Recenter toward `(cx, cy)`, coordinates in tenths of `[0, 1]`.
    pub fn focus_on(&mut self, cx_tenths: i64, cy_tenths: i64)
        requires
            old(self).wf(),
            0 <= cx_tenths <= 10,
            0 <= cy_tenths <= 10,
        ensures
            final(self).wf(),
            *final(self) == old(self).focused_on(cx_tenths as int, cy_tenths as int),
    {
        self.z_tenths = cy_tenths * 3 - Z_MAX_TENTHS;
        self.angle_units = cx_tenths * 30 + 150;
    }
}

/// Executable saturating addition, exact against `sat_add`.
pub fn sat_add_exec(a: i64, d: i64) -> (r: i64)
    requires
        -MAG_LIMIT <= a <= MAG_LIMIT,
        -MAX_STEP <= d <= MAX_STEP,
    ensures
        r == sat_add(a as int, d as int),
        -MAG_LIMIT <= r <= MAG_LIMIT,
{
    let s: i64 = a + d;
    if s > MAG_LIMIT {
        MAG_LIMIT
    } else if s < -MAG_LIMIT {
        -MAG_LIMIT
    } else {
        s
    }
}

} // verus!
