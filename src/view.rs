//! The viewer's state: angles and their velocities, eye separation, camera
//! distance, the selected shapes and the display toggles.

use vstd::prelude::*;
use crate::catalog::{PlatonicSolid, Hypersolid};

verus! {

/// One whole turn, in micro-degrees: the unit of every angle.
pub const TURN: i64 = 360_000_000;

/// One step of a velocity slider, in micro-degrees per frame (about 0.0025
/// radians).
pub const VELOCITY_STEP: i64 = 143_239;

/// Steps of a velocity slider on either side of zero.
pub const VELOCITY_STEPS: i64 = 8;

/// The largest angular velocity, in micro-degrees per frame.
pub const MAX_VELOCITY: i64 = 1_145_912;

/// Eye separation: default, step, and range, in micro-units.
pub const EYE_SEPARATION_DEFAULT: i64 = 60_000;
pub const EYE_SEPARATION_STEP: i64 = 10_000;
pub const EYE_SEPARATION_MIN: i64 = 50_000;
pub const EYE_SEPARATION_MAX: i64 = 300_000;

/// Camera distance: default, step, and range, in micro-units.
pub const DISTANCE_DEFAULT: i64 = 5_000_000;
pub const DISTANCE_STEP: i64 = 500_000;
pub const DISTANCE_MIN: i64 = 2_000_000;
pub const DISTANCE_MAX: i64 = 20_000_000;

/// An angle brought into `[0, TURN)`.
pub open spec fn wrap_angle(a: int) -> int {
    a % (TURN as int)
}

pub open spec fn angle_ok(a: i64) -> bool {
    0 <= a < TURN
}

pub open spec fn velocity_ok(v: i64) -> bool {
    -MAX_VELOCITY <= v <= MAX_VELOCITY
}

/// Everything the viewer holds between frames. Angles are in micro-degrees
/// and velocities in micro-degrees per frame: about the axes X, Y, Z for the
/// regular solids, in the planes XY, XZ, YZ, XW, YW, ZW for the
/// four-dimensional polytopes (which are also turned about the axes). Eye
/// separation and camera distance are in micro-units.
#[derive(Clone, Copy, Debug, PartialEq, Eq, Structural)]
pub struct ViewState {
    pub angle_x: i64,
    pub angle_y: i64,
    pub angle_z: i64,
    pub velocity_x: i64,
    pub velocity_y: i64,
    pub velocity_z: i64,
    pub angle_xy: i64,
    pub angle_xz: i64,
    pub angle_yz: i64,
    pub angle_xw: i64,
    pub angle_yw: i64,
    pub angle_zw: i64,
    pub velocity_xy: i64,
    pub velocity_xz: i64,
    pub velocity_yz: i64,
    pub velocity_xw: i64,
    pub velocity_yw: i64,
    pub velocity_zw: i64,
    pub eye_separation: i64,
    pub perspective_distance: i64,
    pub paused: bool,
    pub show_guides: bool,
    pub depth_coloring: bool,
    pub w_depth_coloring: bool,
    pub show_ui: bool,
    pub show_controls: bool,
    pub dark_background: bool,
    pub orthographic: bool,
    /// The four-dimensional mode is on.
    pub four_d: bool,
    pub solid: PlatonicSolid,
    pub hypersolid: Hypersolid,
}

/// Advances an angle by a velocity, wrapping into one turn.
pub fn step_angle(a: i64, v: i64) -> (r: i64)
    requires
        angle_ok(a),
        velocity_ok(v),
    ensures
        r == wrap_angle(a + v),
        angle_ok(r),
{
    let s = a + v;
    if s >= TURN {
        s - TURN
    } else if s < 0 {
        s + TURN
    } else {
        s
    }
}

/// The angle that a slider shows at `offset` along its `width`: the start
/// is zero and the end a whole turn, which wraps to zero.
pub fn angle_from_slider(offset: i64, width: i64) -> (r: i64)
    requires
        width > 0,
        width <= 1_000_000_000_000,
    ensures
        angle_ok(r),
        r == wrap_angle(clamp(offset as int, 0, width as int) * TURN / (width as int)),
{
    let p: i64 = if offset < 0 {
        0
    } else if offset > width {
        width
    } else {
        offset
    };
    let p128 = p as i128;
    proof {
        assert(0 <= p * TURN <= width * TURN) by (nonlinear_arith)
            requires
                0 <= p <= width,
        ;
        assert(p * TURN / (width as int) <= TURN) by (nonlinear_arith)
            requires
                0 <= p <= width,
                width > 0,
        ;
        assert(p * TURN / (width as int) >= 0) by (nonlinear_arith)
            requires
                0 <= p,
                width > 0,
        ;
    }
    let a = (p128 * (TURN as i128) / (width as i128)) as i64;
    if a >= TURN {
        0
    } else {
        a
    }
}

pub open spec fn clamp(x: int, lo: int, hi: int) -> int {
    if x < lo {
        lo
    } else if x > hi {
        hi
    } else {
        x
    }
}

/// The velocity that a slider shows at `offset` along its `width`: the
/// whole width spans `-MAX_VELOCITY` to `MAX_VELOCITY` in sixteen equal
/// steps, the position rounded to the nearest step.
pub fn velocity_from_slider(offset: i64, width: i64) -> (r: i64)
    requires
        width > 0,
        width <= 1_000_000_000_000,
    ensures
        velocity_ok(r),
        r == ((2 * 2 * VELOCITY_STEPS * clamp(offset as int, 0, width as int) + width) / (2
            * width) - VELOCITY_STEPS) * VELOCITY_STEP,
{
    let p: i64 = if offset < 0 {
        0
    } else if offset > width {
        width
    } else {
        offset
    };
    proof {
        assert(4 * VELOCITY_STEPS * p == 32 * p);
        assert(0 <= (4 * VELOCITY_STEPS * p + width) / (2 * width) <= 2 * VELOCITY_STEPS)
            by (nonlinear_arith)
            requires
                0 <= p <= width,
                width > 0,
        ;
    }
    let steps = (4 * VELOCITY_STEPS * p + width) / (2 * width) - VELOCITY_STEPS;
    steps * VELOCITY_STEP
}

impl ViewState {
    /// Ranges of every number and the exclusion of the two depth colorings.
    pub open spec fn wf(self) -> bool {
        &&& angle_ok(self.angle_x) && angle_ok(self.angle_y) && angle_ok(self.angle_z)
        &&& angle_ok(self.angle_xy) && angle_ok(self.angle_xz) && angle_ok(self.angle_yz)
        &&& angle_ok(self.angle_xw) && angle_ok(self.angle_yw) && angle_ok(self.angle_zw)
        &&& velocity_ok(self.velocity_x) && velocity_ok(self.velocity_y) && velocity_ok(
            self.velocity_z,
        )
        &&& velocity_ok(self.velocity_xy) && velocity_ok(self.velocity_xz) && velocity_ok(
            self.velocity_yz,
        )
        &&& velocity_ok(self.velocity_xw) && velocity_ok(self.velocity_yw) && velocity_ok(
            self.velocity_zw,
        )
        &&& EYE_SEPARATION_MIN <= self.eye_separation <= EYE_SEPARATION_MAX
        &&& DISTANCE_MIN <= self.perspective_distance <= DISTANCE_MAX
        &&& !(self.depth_coloring && self.w_depth_coloring)
    }

    /// The state after one frame: unless paused, each angle of the current
    /// mode moves by its velocity; the other mode's angles stay.
    pub open spec fn advanced(self) -> ViewState {
        if self.paused {
            self
        } else if self.four_d {
            ViewState {
                angle_xy: wrap_angle(self.angle_xy + self.velocity_xy) as i64,
                angle_xz: wrap_angle(self.angle_xz + self.velocity_xz) as i64,
                angle_yz: wrap_angle(self.angle_yz + self.velocity_yz) as i64,
                angle_xw: wrap_angle(self.angle_xw + self.velocity_xw) as i64,
                angle_yw: wrap_angle(self.angle_yw + self.velocity_yw) as i64,
                angle_zw: wrap_angle(self.angle_zw + self.velocity_zw) as i64,
                ..self
            }
        } else {
            ViewState {
                angle_x: wrap_angle(self.angle_x + self.velocity_x) as i64,
                angle_y: wrap_angle(self.angle_y + self.velocity_y) as i64,
                angle_z: wrap_angle(self.angle_z + self.velocity_z) as i64,
                ..self
            }
        }
    }

    /// The state after `n` frames.
    pub open spec fn advanced_by(self, n: nat) -> ViewState
        decreases n,
    {
        if n == 0 {
            self
        } else {
            self.advanced_by((n - 1) as nat).advanced()
        }
    }

    /// The state at start-up: cube and tesseract selected, three-dimensional
    /// mode, perspective projection, depth coloring on a light background,
    /// nothing turning.
    pub fn new() -> (r: ViewState)
        ensures
            r.wf(),
            r.angle_x == 0 && r.angle_y == 0 && r.angle_z == 0,
            r.velocity_x == 0 && r.velocity_y == 0 && r.velocity_z == 0,
            r.angle_xy == 0 && r.angle_xz == 0 && r.angle_yz == 0,
            r.angle_xw == 0 && r.angle_yw == 0 && r.angle_zw == 0,
            r.velocity_xy == 0 && r.velocity_xz == 0 && r.velocity_yz == 0,
            r.velocity_xw == 0 && r.velocity_yw == 0 && r.velocity_zw == 0,
            r.eye_separation == EYE_SEPARATION_DEFAULT,
            r.perspective_distance == DISTANCE_DEFAULT,
            !r.paused,
            r.show_guides,
            r.depth_coloring,
            !r.w_depth_coloring,
            r.show_ui,
            !r.show_controls,
            !r.dark_background,
            !r.orthographic,
            !r.four_d,
            r.solid == PlatonicSolid::Cube,
            r.hypersolid == Hypersolid::Tesseract,
    {
        ViewState {
            angle_x: 0,
            angle_y: 0,
            angle_z: 0,
            velocity_x: 0,
            velocity_y: 0,
            velocity_z: 0,
            angle_xy: 0,
            angle_xz: 0,
            angle_yz: 0,
            angle_xw: 0,
            angle_yw: 0,
            angle_zw: 0,
            velocity_xy: 0,
            velocity_xz: 0,
            velocity_yz: 0,
            velocity_xw: 0,
            velocity_yw: 0,
            velocity_zw: 0,
            eye_separation: EYE_SEPARATION_DEFAULT,
            perspective_distance: DISTANCE_DEFAULT,
            paused: false,
            show_guides: true,
            depth_coloring: true,
            w_depth_coloring: false,
            show_ui: true,
            show_controls: false,
            dark_background: false,
            orthographic: false,
            four_d: false,
            solid: PlatonicSolid::Cube,
            hypersolid: Hypersolid::Tesseract,
        }
    }

    /// Moves the angles of the current mode on by one frame, unless paused.
    pub fn advance(&mut self)
        requires
            old(self).wf(),
        ensures
            final(self).wf(),
            *final(self) == old(self).advanced(),
    {
        if !self.paused {
            if self.four_d {
                self.angle_xy = step_angle(self.angle_xy, self.velocity_xy);
                self.angle_xz = step_angle(self.angle_xz, self.velocity_xz);
                self.angle_yz = step_angle(self.angle_yz, self.velocity_yz);
                self.angle_xw = step_angle(self.angle_xw, self.velocity_xw);
                self.angle_yw = step_angle(self.angle_yw, self.velocity_yw);
                self.angle_zw = step_angle(self.angle_zw, self.velocity_zw);
            } else {
                self.angle_x = step_angle(self.angle_x, self.velocity_x);
                self.angle_y = step_angle(self.angle_y, self.velocity_y);
                self.angle_z = step_angle(self.angle_z, self.velocity_z);
            }
        }
    }

    pub open spec fn with_depth_coloring_toggled(self) -> ViewState {
        ViewState {
            depth_coloring: !self.depth_coloring,
            w_depth_coloring: if !self.depth_coloring {
                false
            } else {
                self.w_depth_coloring
            },
            ..self
        }
    }

    pub open spec fn with_w_depth_coloring_toggled(self) -> ViewState {
        ViewState {
            w_depth_coloring: !self.w_depth_coloring,
            depth_coloring: if !self.w_depth_coloring {
                false
            } else {
                self.depth_coloring
            },
            ..self
        }
    }

    /// Pauses or resumes the rotation.
    pub fn toggle_pause(&mut self)
        requires
            old(self).wf(),
        ensures
            final(self).wf(),
            *final(self) == (ViewState { paused: !old(self).paused, ..*old(self) }),
    {
        self.paused = !self.paused;
    }

    /// Shows or hides the fusion guides.
    pub fn toggle_guides(&mut self)
        requires
            old(self).wf(),
        ensures
            final(self).wf(),
            *final(self) == (ViewState { show_guides: !old(self).show_guides, ..*old(self) }),
    {
        self.show_guides = !self.show_guides;
    }

    /// Turns depth coloring on or off; turning it on turns W coloring off.
    pub fn toggle_depth_coloring(&mut self)
        requires
            old(self).wf(),
        ensures
            final(self).wf(),
            *final(self) == old(self).with_depth_coloring_toggled(),
    {
        self.depth_coloring = !self.depth_coloring;
        if self.depth_coloring {
            self.w_depth_coloring = false;
        }
    }

    /// Turns W coloring on or off; turning it on turns depth coloring off.
    pub fn toggle_w_depth_coloring(&mut self)
        requires
            old(self).wf(),
        ensures
            final(self).wf(),
            *final(self) == old(self).with_w_depth_coloring_toggled(),
    {
        self.w_depth_coloring = !self.w_depth_coloring;
        if self.w_depth_coloring {
            self.depth_coloring = false;
        }
    }

    /// Shows or hides the text and buttons.
    pub fn toggle_ui(&mut self)
        requires
            old(self).wf(),
        ensures
            final(self).wf(),
            *final(self) == (ViewState { show_ui: !old(self).show_ui, ..*old(self) }),
    {
        self.show_ui = !self.show_ui;
    }

    /// Shows or hides the rotation controls.
    pub fn toggle_controls(&mut self)
        requires
            old(self).wf(),
        ensures
            final(self).wf(),
            *final(self) == (ViewState { show_controls: !old(self).show_controls, ..*old(self) }),
    {
        self.show_controls = !self.show_controls;
    }

    /// Switches between the light and the dark background.
    pub fn toggle_background(&mut self)
        requires
            old(self).wf(),
        ensures
            final(self).wf(),
            *final(self) == (ViewState {
                dark_background: !old(self).dark_background,
                ..*old(self)
            }),
    {
        self.dark_background = !self.dark_background;
    }

    /// Switches between perspective and orthographic projection.
    pub fn toggle_projection(&mut self)
        requires
            old(self).wf(),
        ensures
            final(self).wf(),
            *final(self) == (ViewState { orthographic: !old(self).orthographic, ..*old(self) }),
    {
        self.orthographic = !self.orthographic;
    }

    /// Switches between the three- and the four-dimensional mode.
    pub fn toggle_dimension(&mut self)
        requires
            old(self).wf(),
        ensures
            final(self).wf(),
            *final(self) == (ViewState { four_d: !old(self).four_d, ..*old(self) }),
    {
        self.four_d = !self.four_d;
    }

    /// Selects the next regular solid.
    pub fn cycle_solid(&mut self)
        requires
            old(self).wf(),
        ensures
            final(self).wf(),
            *final(self) == (ViewState { solid: old(self).solid.next_spec(), ..*old(self) }),
    {
        self.solid = self.solid.next();
    }

    /// Selects the next four-dimensional polytope; only in the
    /// four-dimensional mode.
    pub fn cycle_hypersolid(&mut self)
        requires
            old(self).wf(),
        ensures
            final(self).wf(),
            old(self).four_d ==> *final(self) == (ViewState {
                hypersolid: old(self).hypersolid.next_spec(),
                ..*old(self)
            }),
            !old(self).four_d ==> *final(self) == *old(self),
    {
        if self.four_d {
            self.hypersolid = self.hypersolid.next();
        }
    }

    /// Moves the eyes one step apart, up to the largest separation.
    pub fn widen_eyes(&mut self)
        requires
            old(self).wf(),
        ensures
            final(self).wf(),
            *final(self) == (ViewState {
                eye_separation: if old(self).eye_separation + EYE_SEPARATION_STEP
                    > EYE_SEPARATION_MAX {
                    EYE_SEPARATION_MAX
                } else {
                    (old(self).eye_separation + EYE_SEPARATION_STEP) as i64
                },
                ..*old(self)
            }),
    {
        let e = self.eye_separation + EYE_SEPARATION_STEP;
        self.eye_separation = if e > EYE_SEPARATION_MAX {
            EYE_SEPARATION_MAX
        } else {
            e
        };
    }

    /// Moves the eyes one step together, down to the smallest separation.
    pub fn narrow_eyes(&mut self)
        requires
            old(self).wf(),
        ensures
            final(self).wf(),
            *final(self) == (ViewState {
                eye_separation: if old(self).eye_separation - EYE_SEPARATION_STEP
                    < EYE_SEPARATION_MIN {
                    EYE_SEPARATION_MIN
                } else {
                    (old(self).eye_separation - EYE_SEPARATION_STEP) as i64
                },
                ..*old(self)
            }),
    {
        let e = self.eye_separation - EYE_SEPARATION_STEP;
        self.eye_separation = if e < EYE_SEPARATION_MIN {
            EYE_SEPARATION_MIN
        } else {
            e
        };
    }

    /// Moves the camera one step away, up to the largest distance.
    pub fn move_away(&mut self)
        requires
            old(self).wf(),
        ensures
            final(self).wf(),
            *final(self) == (ViewState {
                perspective_distance: if old(self).perspective_distance + DISTANCE_STEP
                    > DISTANCE_MAX {
                    DISTANCE_MAX
                } else {
                    (old(self).perspective_distance + DISTANCE_STEP) as i64
                },
                ..*old(self)
            }),
    {
        let d = self.perspective_distance + DISTANCE_STEP;
        self.perspective_distance = if d > DISTANCE_MAX {
            DISTANCE_MAX
        } else {
            d
        };
    }

    /// Moves the camera one step closer, down to the smallest distance.
    pub fn move_closer(&mut self)
        requires
            old(self).wf(),
        ensures
            final(self).wf(),
            *final(self) == (ViewState {
                perspective_distance: if old(self).perspective_distance - DISTANCE_STEP
                    < DISTANCE_MIN {
                    DISTANCE_MIN
                } else {
                    (old(self).perspective_distance - DISTANCE_STEP) as i64
                },
                ..*old(self)
            }),
    {
        let d = self.perspective_distance - DISTANCE_STEP;
        self.perspective_distance = if d < DISTANCE_MIN {
            DISTANCE_MIN
        } else {
            d
        };
    }

    /// Sets the velocity of one slider of the current mode: X, Y, Z in the
    /// three-dimensional mode, the planes XY, XZ, YZ, XW, YW, ZW in the
    /// four-dimensional one. Any other index changes nothing.
    pub fn set_velocity(&mut self, index: usize, v: i64)
        requires
            old(self).wf(),
            velocity_ok(v),
        ensures
            final(self).wf(),
            *final(self) == (if old(self).four_d {
                match index {
                    0 => ViewState { velocity_xy: v, ..*old(self) },
                    1 => ViewState { velocity_xz: v, ..*old(self) },
                    2 => ViewState { velocity_yz: v, ..*old(self) },
                    3 => ViewState { velocity_xw: v, ..*old(self) },
                    4 => ViewState { velocity_yw: v, ..*old(self) },
                    5 => ViewState { velocity_zw: v, ..*old(self) },
                    _ => *old(self),
                }
            } else {
                match index {
                    0 => ViewState { velocity_x: v, ..*old(self) },
                    1 => ViewState { velocity_y: v, ..*old(self) },
                    2 => ViewState { velocity_z: v, ..*old(self) },
                    _ => *old(self),
                }
            }),
    {
        if self.four_d {
            match index {
                0 => self.velocity_xy = v,
                1 => self.velocity_xz = v,
                2 => self.velocity_yz = v,
                3 => self.velocity_xw = v,
                4 => self.velocity_yw = v,
                5 => self.velocity_zw = v,
                _ => {},
            }
        } else {
            match index {
                0 => self.velocity_x = v,
                1 => self.velocity_y = v,
                2 => self.velocity_z = v,
                _ => {},
            }
        }
    }

    /// Sets one angle about the axes X, Y, Z. Any other index changes
    /// nothing.
    pub fn set_angle_3d(&mut self, index: usize, a: i64)
        requires
            old(self).wf(),
            angle_ok(a),
        ensures
            final(self).wf(),
            *final(self) == (match index {
                0 => ViewState { angle_x: a, ..*old(self) },
                1 => ViewState { angle_y: a, ..*old(self) },
                2 => ViewState { angle_z: a, ..*old(self) },
                _ => *old(self),
            }),
    {
        match index {
            0 => self.angle_x = a,
            1 => self.angle_y = a,
            2 => self.angle_z = a,
            _ => {},
        }
    }

    /// Sets one angle in the planes XY, XZ, YZ, XW, YW, ZW. Any other index
    /// changes nothing.
    pub fn set_angle_4d(&mut self, index: usize, a: i64)
        requires
            old(self).wf(),
            angle_ok(a),
        ensures
            final(self).wf(),
            *final(self) == (match index {
                0 => ViewState { angle_xy: a, ..*old(self) },
                1 => ViewState { angle_xz: a, ..*old(self) },
                2 => ViewState { angle_yz: a, ..*old(self) },
                3 => ViewState { angle_xw: a, ..*old(self) },
                4 => ViewState { angle_yw: a, ..*old(self) },
                5 => ViewState { angle_zw: a, ..*old(self) },
                _ => *old(self),
            }),
    {
        match index {
            0 => self.angle_xy = a,
            1 => self.angle_xz = a,
            2 => self.angle_yz = a,
            3 => self.angle_xw = a,
            4 => self.angle_yw = a,
            5 => self.angle_zw = a,
            _ => {},
        }
    }
}

/// Depth coloring and W coloring are never on together: toggling either
/// one, in any order and from any well-formed state, leaves at most one on,
/// and turning one on turns the other off.
pub proof fn lemma_colorings_exclusive(s: ViewState)
    requires
        s.wf(),
    ensures
        s.with_depth_coloring_toggled().wf(),
        s.with_w_depth_coloring_toggled().wf(),
        !(s.with_depth_coloring_toggled().depth_coloring
            && s.with_depth_coloring_toggled().w_depth_coloring),
        !(s.with_w_depth_coloring_toggled().depth_coloring
            && s.with_w_depth_coloring_toggled().w_depth_coloring),
        s.with_depth_coloring_toggled().depth_coloring
            ==> !s.with_depth_coloring_toggled().w_depth_coloring,
        s.with_w_depth_coloring_toggled().w_depth_coloring
            ==> !s.with_w_depth_coloring_toggled().depth_coloring,
{
}

/// While paused, any number of frames leaves the whole state, and so every
/// angle, as it was.
pub proof fn lemma_pause_freezes(s: ViewState, n: nat)
    requires
        s.paused,
    ensures
        s.advanced_by(n) == s,
    decreases n,
{
    if n > 0 {
        lemma_pause_freezes(s, (n - 1) as nat);
    }
}

/// After resuming, the next frame moves each angle of the current mode on
/// from the value it was frozen at.
pub proof fn lemma_resume_from_frozen(s: ViewState, n: nat)
    requires
        s.paused,
    ensures
        ({
            let t = ViewState { paused: false, ..s.advanced_by(n) };
            let u = t.advanced();
            &&& !s.four_d ==> u.angle_x == wrap_angle(s.angle_x + s.velocity_x) && u.angle_y
                == wrap_angle(s.angle_y + s.velocity_y) && u.angle_z == wrap_angle(
                s.angle_z + s.velocity_z,
            )
            &&& s.four_d ==> u.angle_xy == wrap_angle(s.angle_xy + s.velocity_xy) && u.angle_xz
                == wrap_angle(s.angle_xz + s.velocity_xz) && u.angle_yz == wrap_angle(
                s.angle_yz + s.velocity_yz,
            ) && u.angle_xw == wrap_angle(s.angle_xw + s.velocity_xw) && u.angle_yw
                == wrap_angle(s.angle_yw + s.velocity_yw) && u.angle_zw == wrap_angle(
                s.angle_zw + s.velocity_zw,
            )
        }),
{
    lemma_pause_freezes(s, n);
}

/// An angle and the same angle plus a whole turn are stored alike, so they
/// give the same cosine and sine and turn every vertex to the same place.
pub proof fn lemma_whole_turn(a: int)
    ensures
        wrap_angle(a + TURN) == wrap_angle(a),
        0 <= a < TURN ==> wrap_angle(a) == a,
{
    vstd::arithmetic::div_mod::lemma_mod_add_multiples_vanish(a, TURN as int);
    if 0 <= a < TURN {
        vstd::arithmetic::div_mod::lemma_small_mod(a as nat, TURN as nat);
    }
}

} // verus!
