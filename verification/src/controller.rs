//! The orbit camera controller.
//!
//! Once per frame tick the controller consumes the aggregated pointer
//! input and the current tuning, mutates its orbit state in a fixed
//! order (zoom, mode flags, inertia bookkeeping, active rotation,
//! panning), and a derived transform places the camera in the world.
//! All scalars are fixed point; the update is specified exactly, step
//! by step, over the mathematical views of the state.

use vstd::prelude::*;

verus! {

use vstd::arithmetic::div_mod::lemma_div_pos_is_pos;
use crate::fixed::SCALE;
use crate::fixed::clamp_fx;
use crate::fixed::clamp_spec;
use crate::fixed::div_fx;
use crate::fixed::div_trunc;
use crate::fixed::isqrt;
use crate::fixed::lemma_floor_sqrt_le;
use crate::fixed::lemma_mul_bounds;
use crate::fixed::lemma_trunc_div_bounds;
use crate::fixed::mul_fx;
use crate::fixed::sqrt_floor;
use crate::fixed::trunc_div;
use crate::preferences::CameraControllPreferences;
use crate::preferences::CameraPrefsView;
use crate::preferences::DISTANCE_MAX;
use crate::preferences::SENS_MAX;
use crate::trig::cos_fx;
use crate::trig::cos_fx_spec;
use crate::trig::sin_fx;
use crate::trig::sin_fx_spec;
use crate::vector::DELTA_MAX;
use crate::vector::Vec2Fx;
use crate::vector::Vec2View;
use crate::vector::Vec3Fx;
use crate::vector::Vec3View;
use crate::vector::normalize_or_zero;
use crate::vector::normalize_spec;

/// Largest yaw magnitude kept, in micro-radians.  Yaw is unbounded in
/// principle; holding it inside a wide range keeps every fixed-point
/// step exact.
pub const ANGLE_MAX: i64 = 1_000_000_000_000;

/// Largest pitch magnitude allowed: 89.9 degrees in micro-radians, so
/// the pole is never reached.
pub const PITCH_MAX: i64 = 1_569_051;

/// Largest pivot-coordinate magnitude kept, in scalar units.
pub const POS_MAX: i64 = 1_000_000_000_000;

/// Largest clock reading accepted, in micro-seconds.
pub const TIME_MAX: i64 = 1_000_000_000_000_000;

/// Largest residual angular speed the inertia state can hold.
pub const SPEED_MAX: i64 = 2_100_000_000_000_000_000;

/// Residual rotation left behind by a finished rotate gesture.
#[derive(Clone, Copy, PartialEq, Eq, Structural, Debug)]
pub struct InertiaRotation {
    /// Magnitude of the residual angular velocity; zero means inactive.
    pub speed: i64,
    /// Coast direction: the normalized pointer delta at release.
    pub direction: Vec2Fx,
    /// Clock reading snapshotted when the gesture started.
    pub start_second: i64,
    /// Yaw snapshotted when the gesture started.
    pub start_yaw: i64,
    /// Pitch snapshotted when the gesture started.
    pub start_pitch: i64,
}

/// Per-camera orbit state, owned by the camera and mutated only by
/// `update`.
#[derive(Clone, Copy, PartialEq, Eq, Structural, Debug)]
pub struct CameraController {
    /// Radial distance from the pivot to the camera eye.
    pub distance: i64,
    /// Orbit angle about the world up axis, in micro-radians.
    pub yaw: i64,
    /// Orbit angle about the camera-local right axis, in micro-radians.
    pub pitch: i64,
    /// World-space point the camera orbits and looks at.
    pub point_of_view: Vec3Fx,
    /// Whether a rotate gesture is held this tick.
    pub is_rotating: bool,
    /// Whether a pan gesture is held this tick.
    pub is_panning: bool,
    /// Residual rotation state.
    pub rotating_inertia: InertiaRotation,
}

/// One tick's aggregated input.
#[derive(Clone, Copy, PartialEq, Eq, Structural, Debug)]
pub struct ControllerInput {
    /// Sum of the pointer deltas since the previous tick.
    pub motion_delta: Vec2Fx,
    /// Signed scroll amount since the previous tick.
    pub wheel_delta: i64,
    /// The rotate button is held.
    pub rotate_held: bool,
    /// The rotate button went down this tick.
    pub rotate_just_pressed: bool,
    /// The rotate button went up this tick.
    pub rotate_just_released: bool,
    /// The pan button is held.
    pub pan_held: bool,
    /// Monotonic clock reading, in micro-seconds.
    pub elapsed_seconds: i64,
}

/// Mathematical view of the inertia state.
pub struct InertiaView {
    pub speed: int,
    pub direction: Vec2View,
    pub start_second: int,
    pub start_yaw: int,
    pub start_pitch: int,
}

/// Mathematical view of the orbit state.
pub struct CameraView {
    pub distance: int,
    pub yaw: int,
    pub pitch: int,
    pub point_of_view: Vec3View,
    pub is_rotating: bool,
    pub is_panning: bool,
    pub rotating_inertia: InertiaView,
}

/// Mathematical view of one tick's input.
pub struct InputView {
    pub motion_delta: Vec2View,
    pub wheel_delta: int,
    pub rotate_held: bool,
    pub rotate_just_pressed: bool,
    pub rotate_just_released: bool,
    pub pan_held: bool,
    pub elapsed_seconds: int,
}

impl View for InertiaRotation {
    type V = InertiaView;

    open spec fn view(&self) -> InertiaView {
        InertiaView {
            speed: self.speed as int,
            direction: self.direction@,
            start_second: self.start_second as int,
            start_yaw: self.start_yaw as int,
            start_pitch: self.start_pitch as int,
        }
    }
}

impl View for CameraController {
    type V = CameraView;

    open spec fn view(&self) -> CameraView {
        CameraView {
            distance: self.distance as int,
            yaw: self.yaw as int,
            pitch: self.pitch as int,
            point_of_view: self.point_of_view@,
            is_rotating: self.is_rotating,
            is_panning: self.is_panning,
            rotating_inertia: self.rotating_inertia@,
        }
    }
}

impl View for ControllerInput {
    type V = InputView;

    open spec fn view(&self) -> InputView {
        InputView {
            motion_delta: self.motion_delta@,
            wheel_delta: self.wheel_delta as int,
            rotate_held: self.rotate_held,
            rotate_just_pressed: self.rotate_just_pressed,
            rotate_just_released: self.rotate_just_released,
            pan_held: self.pan_held,
            elapsed_seconds: self.elapsed_seconds as int,
        }
    }
}

impl InertiaView {
    /// Every field stays inside its representable range; the coast
    /// direction is at most one unit long per component.
    pub open spec fn wf(self) -> bool {
        &&& 0 <= self.speed <= SPEED_MAX
        &&& self.direction.in_range(SCALE as int)
        &&& 0 <= self.start_second <= TIME_MAX
        &&& -ANGLE_MAX <= self.start_yaw <= ANGLE_MAX
        &&& -PITCH_MAX <= self.start_pitch <= PITCH_MAX
    }
}

impl CameraView {
    /// Every field stays inside its representable range.
    pub open spec fn wf(self) -> bool {
        &&& -DISTANCE_MAX <= self.distance <= DISTANCE_MAX
        &&& -ANGLE_MAX <= self.yaw <= ANGLE_MAX
        &&& -PITCH_MAX <= self.pitch <= PITCH_MAX
        &&& self.point_of_view.in_range(POS_MAX as int)
        &&& self.rotating_inertia.wf()
    }
}

impl InputView {
    /// Per-tick deltas are bounded and the clock reading is in range.
    pub open spec fn wf(self) -> bool {
        &&& self.motion_delta.in_range(DELTA_MAX as int)
        &&& -DELTA_MAX <= self.wheel_delta <= DELTA_MAX
        &&& 0 <= self.elapsed_seconds <= TIME_MAX
    }
}

impl ControllerInput {
    /// Runtime check of the view's `wf`, for callers outside the
    /// verified world.
    pub fn in_range(&self) -> (r: bool)
        ensures
            r == self@.wf(),
    {
        -DELTA_MAX <= self.motion_delta.x && self.motion_delta.x <= DELTA_MAX
            && -DELTA_MAX <= self.motion_delta.y && self.motion_delta.y <= DELTA_MAX
            && -DELTA_MAX <= self.wheel_delta && self.wheel_delta <= DELTA_MAX
            && 0 <= self.elapsed_seconds && self.elapsed_seconds <= TIME_MAX
    }
}

/// The inertia state a new gesture starts from: inactive, with the
/// given snapshot.
pub open spec fn inertia_snapshot(second: int, yaw: int, pitch: int) -> InertiaView {
    InertiaView {
        speed: 0,
        direction: Vec2View { x: 0, y: 0 },
        start_second: second,
        start_yaw: yaw,
        start_pitch: pitch,
    }
}

/// Yaw after one rotation step: the scaled delta is subtracted and the
/// result is held inside the representable range.
pub open spec fn rotate_yaw_spec(yaw: int, dx: int, sens: int) -> int {
    clamp_spec(yaw - trunc_div(dx * sens, SCALE as int), -ANGLE_MAX as int, ANGLE_MAX as int)
}

/// Pitch after one rotation step: the scaled delta is subtracted and
/// the result is clamped short of the poles.
pub open spec fn rotate_pitch_spec(pitch: int, dy: int, sens: int) -> int {
    clamp_spec(pitch - trunc_div(dy * sens, SCALE as int), -PITCH_MAX as int, PITCH_MAX as int)
}

/// Step 1: the wheel delta zooms, and the distance is clamped into the
/// configured interval.
pub open spec fn zoom_spec(c: CameraView, i: InputView, p: CameraPrefsView) -> CameraView {
    CameraView {
        distance: clamp_spec(
            c.distance - trunc_div(i.wheel_delta * p.zoom_sensitivity, SCALE as int),
            p.min_distance,
            p.max_distance,
        ),
        ..c
    }
}

/// Step 2: the mode flags mirror the held buttons.
pub open spec fn flags_spec(c: CameraView, i: InputView) -> CameraView {
    CameraView { is_rotating: i.rotate_held, is_panning: i.pan_held, ..c }
}

/// Step 3a: a rotate press resets the inertia state and snapshots the
/// gesture start.
pub open spec fn press_spec(c: CameraView, i: InputView) -> CameraView {
    if i.rotate_just_pressed {
        CameraView {
            rotating_inertia: inertia_snapshot(i.elapsed_seconds, c.yaw, c.pitch),
            ..c
        }
    } else {
        c
    }
}

/// Step 3b: a rotate release turns the gesture's angular displacement
/// over its duration into a residual speed and coast direction; a
/// zero-length gesture leaves the inertia state unchanged.
pub open spec fn release_spec(c: CameraView, i: InputView) -> CameraView {
    if i.rotate_just_released {
        let dy = c.yaw - c.rotating_inertia.start_yaw;
        let dp = c.pitch - c.rotating_inertia.start_pitch;
        let el = i.elapsed_seconds - c.rotating_inertia.start_second;
        if el != 0 {
            CameraView {
                rotating_inertia: InertiaView {
                    speed: trunc_div(sqrt_floor(dy * dy + dp * dp) * SCALE as int, el),
                    direction: normalize_spec(i.motion_delta),
                    ..c.rotating_inertia
                },
                ..c
            }
        } else {
            c
        }
    } else {
        c
    }
}

/// Step 3c: while inertia is active, one coast step rotates along the
/// stored direction and the residual speed decays toward zero.
pub open spec fn coast_spec(c: CameraView, p: CameraPrefsView) -> CameraView {
    if c.rotating_inertia.speed != 0 {
        let decayed = c.rotating_inertia.speed - p.inertia_decrement_speed;
        CameraView {
            yaw: rotate_yaw_spec(c.yaw, c.rotating_inertia.direction.x, p.rotation_sensitivity),
            pitch: rotate_pitch_spec(
                c.pitch,
                c.rotating_inertia.direction.y,
                p.rotation_sensitivity,
            ),
            rotating_inertia: InertiaView {
                speed: if decayed >= 0 { decayed } else { 0 },
                ..c.rotating_inertia
            },
            ..c
        }
    } else {
        c
    }
}

/// Step 3: the whole inertia bookkeeping, active only when the tuning
/// enables inertia.
pub open spec fn inertia_spec(c: CameraView, i: InputView, p: CameraPrefsView) -> CameraView {
    if p.inertia_on {
        coast_spec(release_spec(press_spec(c, i), i), p)
    } else {
        c
    }
}

/// Step 4: while the rotate button is held, the pointer delta rotates
/// the orbit.
pub open spec fn active_rotate_spec(c: CameraView, i: InputView, p: CameraPrefsView) -> CameraView {
    if c.is_rotating {
        CameraView {
            yaw: rotate_yaw_spec(c.yaw, i.motion_delta.x, p.rotation_sensitivity),
            pitch: rotate_pitch_spec(c.pitch, i.motion_delta.y, p.rotation_sensitivity),
            ..c
        }
    } else {
        c
    }
}

/// One pivot coordinate after a pan step along the previous
/// orientation's right (`r_c`) and inverted up (`u_c`) axes; the pan
/// scales with the pan sensitivity and the current distance over ten.
pub open spec fn pan_component_spec(
    r_c: int,
    u_c: int,
    pov: int,
    m: Vec2View,
    ps: int,
    dist: int,
) -> int {
    let t2 = trunc_div(trunc_div(r_c * m.x, SCALE as int) * ps, SCALE as int);
    let t4 = trunc_div(trunc_div(u_c * m.y, SCALE as int) * ps, SCALE as int);
    let step = trunc_div(trunc_div((t2 + t4) * dist, SCALE as int), 10);
    clamp_spec(pov - step, -POS_MAX as int, POS_MAX as int)
}

/// Step 5: while the pan button is held, the pivot moves in the plane
/// spanned by the previous tick's camera axes, derived from the yaw
/// and pitch the tick started with.
pub open spec fn pan_spec(
    c: CameraView,
    yaw0: int,
    pitch0: int,
    i: InputView,
    p: CameraPrefsView,
) -> CameraView {
    if c.is_panning {
        let sy = sin_fx_spec(yaw0);
        let cy = cos_fx_spec(yaw0);
        let sp = sin_fx_spec(pitch0);
        let cp = cos_fx_spec(pitch0);
        CameraView {
            point_of_view: Vec3View {
                x: pan_component_spec(
                    cy,
                    -trunc_div(sy * sp, SCALE as int),
                    c.point_of_view.x,
                    i.motion_delta,
                    p.pan_sensitivity,
                    c.distance,
                ),
                y: pan_component_spec(
                    0,
                    -cp,
                    c.point_of_view.y,
                    i.motion_delta,
                    p.pan_sensitivity,
                    c.distance,
                ),
                z: pan_component_spec(
                    -sy,
                    -trunc_div(cy * sp, SCALE as int),
                    c.point_of_view.z,
                    i.motion_delta,
                    p.pan_sensitivity,
                    c.distance,
                ),
            },
            ..c
        }
    } else {
        c
    }
}

/// One whole tick, steps 1 through 5 in order.  The pan step reads the
/// orientation the tick started with, as the previous tick derived it.
pub open spec fn camera_update_spec(c: CameraView, i: InputView, p: CameraPrefsView) -> CameraView {
    let c4 = active_rotate_spec(inertia_spec(flags_spec(zoom_spec(c, i, p), i), i, p), i, p);
    pan_spec(c4, c.yaw, c.pitch, i, p)
}

impl Default for InertiaRotation {
    /// The inactive inertia state.
    fn default() -> (d: Self)
        ensures
            d@ == inertia_snapshot(0, 0, 0),
            d@.wf(),
    {
        InertiaRotation {
            speed: 0,
            direction: Vec2Fx { x: 0, y: 0 },
            start_second: 0,
            start_yaw: 0,
            start_pitch: 0,
        }
    }
}

impl InertiaRotation {
    /// Inertia is active while a residual speed remains.
    pub fn is_present(&self) -> (r: bool)
        ensures
            r == (self.speed != 0),
    {
        self.speed != 0
    }

    /// Snapshot the gesture start: the clock reading and the angles.
    pub fn set_start(&mut self, second: i64, yaw: i64, pitch: i64)
        ensures
            final(self).start_second == second,
            final(self).start_yaw == yaw,
            final(self).start_pitch == pitch,
            final(self).speed == old(self).speed,
            final(self).direction == old(self).direction,
    {
        self.start_second = second;
        self.start_yaw = yaw;
        self.start_pitch = pitch;
    }

    /// Reset to the inactive state.
    pub fn deplete(&mut self)
        ensures
            final(self)@ == inertia_snapshot(0, 0, 0),
    {
        *self = Self::default();
    }

    /// One decay step: the residual speed drops by `decrement_speed`,
    /// but never below zero.
    pub fn decrement(&mut self, decrement_speed: i64)
        requires
            0 <= old(self).speed,
            0 <= decrement_speed,
        ensures
            final(self).speed == (if old(self).speed - decrement_speed >= 0 {
                old(self).speed - decrement_speed as int
            } else {
                0int
            }),
            final(self).direction == old(self).direction,
            final(self).start_second == old(self).start_second,
            final(self).start_yaw == old(self).start_yaw,
            final(self).start_pitch == old(self).start_pitch,
    {
        if self.speed >= decrement_speed {
            self.speed = self.speed - decrement_speed;
        } else {
            self.speed = 0;
        }
    }
}

impl Default for CameraController {
    /// The all-zero orbit state: at the origin, looking down the
    /// world axis, with inertia inactive.
    fn default() -> (d: Self)
        ensures
            d@.distance == 0,
            d@.yaw == 0,
            d@.pitch == 0,
            d@.point_of_view == (Vec3View { x: 0, y: 0, z: 0 }),
            !d@.is_rotating,
            !d@.is_panning,
            d@.rotating_inertia == inertia_snapshot(0, 0, 0),
            d@.wf(),
    {
        CameraController {
            distance: 0,
            yaw: 0,
            pitch: 0,
            point_of_view: Vec3Fx { x: 0, y: 0, z: 0 },
            is_rotating: false,
            is_panning: false,
            rotating_inertia: InertiaRotation::default(),
        }
    }
}

impl CameraController {
    /// A fresh orbit state with an explicit pose and inactive inertia.
    pub fn new(distance: i64, yaw: i64, pitch: i64, point_of_view: Vec3Fx) -> (c: CameraController)
        requires
            -DISTANCE_MAX <= distance <= DISTANCE_MAX,
            -ANGLE_MAX <= yaw <= ANGLE_MAX,
            -PITCH_MAX <= pitch <= PITCH_MAX,
            point_of_view@.in_range(POS_MAX as int),
        ensures
            c@.distance == distance,
            c@.yaw == yaw,
            c@.pitch == pitch,
            c@.point_of_view == point_of_view@,
            !c@.is_rotating,
            !c@.is_panning,
            c@.rotating_inertia == inertia_snapshot(0, 0, 0),
            c@.wf(),
    {
        CameraController {
            distance,
            yaw,
            pitch,
            point_of_view,
            is_rotating: false,
            is_panning: false,
            rotating_inertia: InertiaRotation::default(),
        }
    }

    /// Runtime check of the view's `wf`, for callers outside the
    /// verified world.
    pub fn in_range(&self) -> (r: bool)
        ensures
            r == self@.wf(),
    {
        -DISTANCE_MAX <= self.distance && self.distance <= DISTANCE_MAX
            && -ANGLE_MAX <= self.yaw && self.yaw <= ANGLE_MAX
            && -PITCH_MAX <= self.pitch && self.pitch <= PITCH_MAX
            && -POS_MAX <= self.point_of_view.x && self.point_of_view.x <= POS_MAX
            && -POS_MAX <= self.point_of_view.y && self.point_of_view.y <= POS_MAX
            && -POS_MAX <= self.point_of_view.z && self.point_of_view.z <= POS_MAX
            && 0 <= self.rotating_inertia.speed && self.rotating_inertia.speed <= SPEED_MAX
            && -SCALE <= self.rotating_inertia.direction.x
            && self.rotating_inertia.direction.x <= SCALE
            && -SCALE <= self.rotating_inertia.direction.y
            && self.rotating_inertia.direction.y <= SCALE
            && 0 <= self.rotating_inertia.start_second
            && self.rotating_inertia.start_second <= TIME_MAX
            && -ANGLE_MAX <= self.rotating_inertia.start_yaw
            && self.rotating_inertia.start_yaw <= ANGLE_MAX
            && -PITCH_MAX <= self.rotating_inertia.start_pitch
            && self.rotating_inertia.start_pitch <= PITCH_MAX
    }

    /// One rotation step: the scaled delta turns yaw and pitch, pitch
    /// clamped short of the poles, yaw held inside its wide range so
    /// the fixed-point arithmetic stays exact.
    pub fn rotate(&mut self, delta: Vec2Fx, sensitivity: i64)
        requires
            -ANGLE_MAX <= old(self).yaw <= ANGLE_MAX,
            -PITCH_MAX <= old(self).pitch <= PITCH_MAX,
            delta@.in_range(DELTA_MAX as int),
            -SENS_MAX <= sensitivity <= SENS_MAX,
        ensures
            final(self).yaw as int == rotate_yaw_spec(
                old(self).yaw as int,
                delta.x as int,
                sensitivity as int,
            ),
            final(self).pitch as int == rotate_pitch_spec(
                old(self).pitch as int,
                delta.y as int,
                sensitivity as int,
            ),
            -ANGLE_MAX <= final(self).yaw <= ANGLE_MAX,
            -PITCH_MAX <= final(self).pitch <= PITCH_MAX,
            final(self).distance == old(self).distance,
            final(self).point_of_view == old(self).point_of_view,
            final(self).is_rotating == old(self).is_rotating,
            final(self).is_panning == old(self).is_panning,
            final(self).rotating_inertia == old(self).rotating_inertia,
    {
        proof {
            lemma_mul_bounds(delta.x as int, sensitivity as int, DELTA_MAX as int, SENS_MAX as int);
            lemma_mul_bounds(delta.y as int, sensitivity as int, DELTA_MAX as int, SENS_MAX as int);
            lemma_trunc_div_bounds(
                delta.x as int * sensitivity as int,
                SCALE as int,
                1_000_000_000int * 1_000_000_000,
            );
            lemma_trunc_div_bounds(
                delta.y as int * sensitivity as int,
                SCALE as int,
                1_000_000_000int * 1_000_000_000,
            );
        }
        let sx: i64 = mul_fx(delta.x, sensitivity);
        self.yaw = clamp_fx(self.yaw - sx, -ANGLE_MAX, ANGLE_MAX);
        let sy: i64 = mul_fx(delta.y, sensitivity);
        self.pitch = clamp_fx(self.pitch - sy, -PITCH_MAX, PITCH_MAX);
    }
}

/// One pivot coordinate after a pan step; mirrors
/// `pan_component_spec`.
fn pan_component(r_c: i64, u_c: i64, pov_c: i64, motion: Vec2Fx, ps: i64, dist: i64) -> (n: i64)
    requires
        -SCALE <= r_c <= SCALE,
        -SCALE <= u_c <= SCALE,
        motion@.in_range(DELTA_MAX as int),
        -SENS_MAX <= ps <= SENS_MAX,
        -DISTANCE_MAX <= dist <= DISTANCE_MAX,
        -POS_MAX <= pov_c <= POS_MAX,
    ensures
        n as int == pan_component_spec(
            r_c as int,
            u_c as int,
            pov_c as int,
            motion@,
            ps as int,
            dist as int,
        ),
        -POS_MAX <= n <= POS_MAX,
{
    proof {
        lemma_mul_bounds(r_c as int, motion.x as int, SCALE as int, DELTA_MAX as int);
        lemma_trunc_div_bounds(
            r_c as int * motion.x as int,
            SCALE as int,
            1_000_000int * 1_000_000_000,
        );
    }
    let t1: i64 = mul_fx(r_c, motion.x);
    proof {
        lemma_mul_bounds(t1 as int, ps as int, 1_000_000_000int, SENS_MAX as int);
        lemma_trunc_div_bounds(t1 as int * ps as int, SCALE as int, 1_000_000_000int
            * 1_000_000_000);
    }
    let t2: i64 = mul_fx(t1, ps);
    proof {
        lemma_mul_bounds(u_c as int, motion.y as int, SCALE as int, DELTA_MAX as int);
        lemma_trunc_div_bounds(
            u_c as int * motion.y as int,
            SCALE as int,
            1_000_000int * 1_000_000_000,
        );
    }
    let t3: i64 = mul_fx(u_c, motion.y);
    proof {
        lemma_mul_bounds(t3 as int, ps as int, 1_000_000_000int, SENS_MAX as int);
        lemma_trunc_div_bounds(t3 as int * ps as int, SCALE as int, 1_000_000_000int
            * 1_000_000_000);
    }
    let t4: i64 = mul_fx(t3, ps);
    let sum: i64 = t2 + t4;
    proof {
        lemma_mul_bounds(sum as int, dist as int, 2_000_000_000_000int, DISTANCE_MAX as int);
        lemma_trunc_div_bounds(sum as int * dist as int, SCALE as int, 2_000_000_000_000int
            * 1_000_000_000_000);
    }
    let t5: i64 = mul_fx(sum, dist);
    proof {
        lemma_trunc_div_bounds(t5 as int, 10, 2_000_000_000_000_000_000int);
    }
    let step: i64 = div_trunc(t5, 10);
    clamp_fx(pov_c - step, -POS_MAX, POS_MAX)
}

impl CameraController {
    /// One controller tick: zoom, mode flags, inertia bookkeeping,
    /// active rotation, and panning, in that fixed order.  The clock
    /// reading must not lie before the recorded gesture start, which
    /// an earlier tick read from the same monotonic clock.
    pub fn update(&mut self, input: &ControllerInput, prefs: &CameraControllPreferences)
        requires
            old(self)@.wf(),
            input@.wf(),
            prefs@.wf(),
            input.elapsed_seconds >= old(self).rotating_inertia.start_second,
        ensures
            final(self)@ == camera_update_spec(old(self)@, input@, prefs@),
            final(self)@.wf(),
            prefs.min_distance <= final(self).distance <= prefs.max_distance,
    {
        let ghost c0 = old(self)@;
        let yaw0: i64 = self.yaw;
        let pitch0: i64 = self.pitch;

        // Step 1: zoom, clamped into the configured distance interval.
        proof {
            lemma_mul_bounds(
                input.wheel_delta as int,
                prefs.zoom_sensitivity as int,
                DELTA_MAX as int,
                SENS_MAX as int,
            );
            lemma_trunc_div_bounds(
                input.wheel_delta as int * prefs.zoom_sensitivity as int,
                SCALE as int,
                1_000_000_000int * 1_000_000_000,
            );
        }
        let zoom_step: i64 = mul_fx(input.wheel_delta, prefs.zoom_sensitivity);
        self.distance = clamp_fx(self.distance - zoom_step, prefs.min_distance, prefs.max_distance);

        // Step 2: mode flags from the held buttons.
        self.is_rotating = input.rotate_held;
        self.is_panning = input.pan_held;

        let ghost c2 = flags_spec(zoom_spec(c0, input@, prefs@), input@);
        proof {
            assert(self@ == c2);
        }

        // Step 3: inertia bookkeeping.
        if prefs.inertia_on {
            if input.rotate_just_pressed {
                self.rotating_inertia.deplete();
                let seconds: i64 = input.elapsed_seconds;
                self.rotating_inertia.set_start(seconds, self.yaw, self.pitch);
            }
            let ghost c3a = press_spec(c2, input@);
            proof {
                assert(self@ == c3a);
            }
            if input.rotate_just_released {
                let dy: i64 = self.yaw - self.rotating_inertia.start_yaw;
                let dp: i64 = self.pitch - self.rotating_inertia.start_pitch;
                let el: i64 = input.elapsed_seconds - self.rotating_inertia.start_second;
                if el != 0 {
                    proof {
                        assert(0 <= dy as int * dy as int <= 2_000_000_000_000int
                            * 2_000_000_000_000 && 0 <= dp as int * dp as int <= 3_138_102int
                            * 3_138_102) by (nonlinear_arith)
                            requires
                                -2_000_000_000_000 <= dy as int <= 2_000_000_000_000,
                                -3_138_102 <= dp as int <= 3_138_102;
                    }
                    let dyq: i128 = (dy as i128) * (dy as i128);
                    let dpq: i128 = (dp as i128) * (dp as i128);
                    let n: u128 = (dyq + dpq) as u128;
                    proof {
                        assert(n as int <= 2_000_001_000_000int * 2_000_001_000_000
                            && n as int <= (crate::fixed::ISQRT_MAX_ROOT as int)
                            * (crate::fixed::ISQRT_MAX_ROOT as int)) by (nonlinear_arith)
                            requires
                                n as int <= 2_000_000_000_000int * 2_000_000_000_000
                                    + 3_138_102int * 3_138_102,
                                crate::fixed::ISQRT_MAX_ROOT == 40_000_000_000_000;
                    }
                    let disp: u64 = isqrt(n);
                    proof {
                        lemma_floor_sqrt_le(n as int, 2_000_001_000_000int);
                        lemma_mul_bounds(disp as int, SCALE as int, 2_000_001_000_000int,
                            1_000_000int);
                        lemma_trunc_div_bounds(disp as int * SCALE as int, el as int,
                            2_000_001_000_000int * 1_000_000);
                        assert(2_000_001_000_000int * 1_000_000 / (el as int)
                            <= 2_000_001_000_000int * 1_000_000) by (nonlinear_arith)
                            requires
                                el as int >= 1;
                        lemma_div_pos_is_pos(disp as int * SCALE as int, el as int);
                    }
                    let speed: i64 = div_fx(disp as i64, el);
                    self.rotating_inertia.speed = speed;
                    self.rotating_inertia.direction = normalize_or_zero(input.motion_delta);
                }
            }
            let ghost c3b = release_spec(c3a, input@);
            proof {
                assert(self@ == c3b);
            }
            if self.rotating_inertia.is_present() {
                let direction: Vec2Fx = self.rotating_inertia.direction;
                self.rotate(direction, prefs.rotation_sensitivity);
                self.rotating_inertia.decrement(prefs.inertia_decrement_speed);
            }
            proof {
                assert(self@ == coast_spec(c3b, prefs@));
            }
        }
        let ghost c3 = inertia_spec(c2, input@, prefs@);
        proof {
            assert(self@ == c3);
        }

        // Step 4: active rotation while the rotate button is held.
        if self.is_rotating {
            self.rotate(input.motion_delta, prefs.rotation_sensitivity);
        }
        let ghost c4 = active_rotate_spec(c3, input@, prefs@);
        proof {
            assert(self@ == c4);
        }

        // Step 5: panning along the previous orientation's axes.
        if self.is_panning {
            let sy: i64 = sin_fx(yaw0);
            let cy: i64 = cos_fx(yaw0);
            let sp: i64 = sin_fx(pitch0);
            let cp: i64 = cos_fx(pitch0);
            proof {
                lemma_mul_bounds(sy as int, sp as int, SCALE as int, SCALE as int);
                lemma_mul_bounds(cy as int, sp as int, SCALE as int, SCALE as int);
                lemma_trunc_div_bounds(sy as int * sp as int, SCALE as int, 1_000_000int
                    * 1_000_000);
                lemma_trunc_div_bounds(cy as int * sp as int, SCALE as int, 1_000_000int
                    * 1_000_000);
            }
            let ux: i64 = -mul_fx(sy, sp);
            let uy: i64 = -cp;
            let uz: i64 = -mul_fx(cy, sp);
            let d: i64 = self.distance;
            let m: Vec2Fx = input.motion_delta;
            self.point_of_view.x = pan_component(
                cy,
                ux,
                self.point_of_view.x,
                m,
                prefs.pan_sensitivity,
                d,
            );
            self.point_of_view.y = pan_component(
                0,
                uy,
                self.point_of_view.y,
                m,
                prefs.pan_sensitivity,
                d,
            );
            self.point_of_view.z = pan_component(
                -sy,
                uz,
                self.point_of_view.z,
                m,
                prefs.pan_sensitivity,
                d,
            );
        }
        proof {
            assert(self@ == pan_spec(c4, c0.yaw, c0.pitch, input@, prefs@));
        }
    }
}

/// A derived world-space camera pose: the eye position plus the
/// orthonormal camera basis.
#[derive(Clone, Copy, PartialEq, Eq, Structural, Debug)]
pub struct CameraTransform {
    /// World-space eye position: pivot plus rotated distance offset.
    pub position: Vec3Fx,
    /// Camera-local right axis in world space.
    pub right: Vec3Fx,
    /// Camera-local up axis in world space.
    pub up: Vec3Fx,
    /// View direction: from the eye toward the pivot.
    pub forward: Vec3Fx,
}

/// Mathematical view of a derived camera pose.
pub struct TransformView {
    pub position: Vec3View,
    pub right: Vec3View,
    pub up: Vec3View,
    pub forward: Vec3View,
}

impl View for CameraTransform {
    type V = TransformView;

    open spec fn view(&self) -> TransformView {
        TransformView {
            position: self.position@,
            right: self.right@,
            up: self.up@,
            forward: self.forward@,
        }
    }
}

/// The derived pose: yaw turns about the world up axis first, pitch
/// about the camera-local right axis second, and the rotated distance
/// offset pushes the eye away from the pivot.  The basis is the same
/// one a look-at at the pivot with the world up reference yields while
/// pitch stays short of the poles.
pub open spec fn camera_transform_spec(c: CameraView) -> TransformView {
    let sy = sin_fx_spec(c.yaw);
    let cy = cos_fx_spec(c.yaw);
    let sp = sin_fx_spec(c.pitch);
    let cp = cos_fx_spec(c.pitch);
    let dcp = trunc_div(c.distance * cp, SCALE as int);
    TransformView {
        position: Vec3View {
            x: c.point_of_view.x + trunc_div(dcp * sy, SCALE as int),
            y: c.point_of_view.y - trunc_div(c.distance * sp, SCALE as int),
            z: c.point_of_view.z + trunc_div(dcp * cy, SCALE as int),
        },
        right: Vec3View { x: cy, y: 0, z: -sy },
        up: Vec3View {
            x: trunc_div(sy * sp, SCALE as int),
            y: cp,
            z: trunc_div(cy * sp, SCALE as int),
        },
        forward: Vec3View {
            x: -trunc_div(cp * sy, SCALE as int),
            y: sp,
            z: -trunc_div(cp * cy, SCALE as int),
        },
    }
}

impl CameraController {
    /// Derive the camera pose from the orbit state: the eye sits at
    /// the pivot plus the rotated distance offset, looking at the
    /// pivot with the world up reference.
    pub fn derive_transform(&self) -> (t: CameraTransform)
        requires
            self@.wf(),
        ensures
            t@ == camera_transform_spec(self@),
    {
        let sy: i64 = sin_fx(self.yaw);
        let cy: i64 = cos_fx(self.yaw);
        let sp: i64 = sin_fx(self.pitch);
        let cp: i64 = cos_fx(self.pitch);
        proof {
            lemma_mul_bounds(self.distance as int, cp as int, DISTANCE_MAX as int, SCALE as int);
            lemma_trunc_div_bounds(self.distance as int * cp as int, SCALE as int,
                1_000_000_000_000int * 1_000_000);
            lemma_mul_bounds(self.distance as int, sp as int, DISTANCE_MAX as int, SCALE as int);
            lemma_trunc_div_bounds(self.distance as int * sp as int, SCALE as int,
                1_000_000_000_000int * 1_000_000);
        }
        let dcp: i64 = mul_fx(self.distance, cp);
        let dsp: i64 = mul_fx(self.distance, sp);
        proof {
            lemma_mul_bounds(dcp as int, sy as int, DISTANCE_MAX as int, SCALE as int);
            lemma_trunc_div_bounds(dcp as int * sy as int, SCALE as int, 1_000_000_000_000int
                * 1_000_000);
            lemma_mul_bounds(dcp as int, cy as int, DISTANCE_MAX as int, SCALE as int);
            lemma_trunc_div_bounds(dcp as int * cy as int, SCALE as int, 1_000_000_000_000int
                * 1_000_000);
            lemma_mul_bounds(sy as int, sp as int, SCALE as int, SCALE as int);
            lemma_trunc_div_bounds(sy as int * sp as int, SCALE as int, 1_000_000int * 1_000_000);
            lemma_mul_bounds(cy as int, sp as int, SCALE as int, SCALE as int);
            lemma_trunc_div_bounds(cy as int * sp as int, SCALE as int, 1_000_000int * 1_000_000);
            lemma_mul_bounds(cp as int, sy as int, SCALE as int, SCALE as int);
            lemma_trunc_div_bounds(cp as int * sy as int, SCALE as int, 1_000_000int * 1_000_000);
            lemma_mul_bounds(cp as int, cy as int, SCALE as int, SCALE as int);
            lemma_trunc_div_bounds(cp as int * cy as int, SCALE as int, 1_000_000int * 1_000_000);
        }
        let ox: i64 = mul_fx(dcp, sy);
        let oz: i64 = mul_fx(dcp, cy);
        CameraTransform {
            position: Vec3Fx {
                x: self.point_of_view.x + ox,
                y: self.point_of_view.y - dsp,
                z: self.point_of_view.z + oz,
            },
            right: Vec3Fx { x: cy, y: 0, z: -sy },
            up: Vec3Fx { x: mul_fx(sy, sp), y: cp, z: mul_fx(cy, sp) },
            forward: Vec3Fx { x: -mul_fx(cp, sy), y: sp, z: -mul_fx(cp, cy) },
        }
    }
}

} // verus!
