//! Proved laws of the controller, stated over the mathematical views:
//! facts that hold of every tick, not of chosen inputs.

use vstd::prelude::*;

verus! {

use vstd::arithmetic::div_mod::lemma_div_of0;
use vstd::arithmetic::div_mod::lemma_div_pos_is_pos;
use vstd::arithmetic::mul::lemma_mul_basics;
use vstd::arithmetic::mul::lemma_mul_nonnegative;
use crate::controller::ANGLE_MAX;
use crate::controller::CameraView;
use crate::controller::InputView;
use crate::controller::PITCH_MAX;
use crate::controller::active_rotate_spec;
use crate::controller::camera_transform_spec;
use crate::controller::camera_update_spec;
use crate::controller::coast_spec;
use crate::controller::flags_spec;
use crate::controller::inertia_spec;
use crate::controller::press_spec;
use crate::controller::release_spec;
use crate::controller::zoom_spec;
use crate::fixed::SCALE;
use crate::fixed::lemma_floor_sqrt_exists;
use crate::fixed::lemma_floor_sqrt_le;
use crate::fixed::lemma_mul_bounds;
use crate::fixed::lemma_trunc_div_bounds;
use crate::fixed::lemma_trunc_div_exact;
use crate::fixed::sqrt_floor;
use crate::fixed::trunc_div;
use crate::preferences::CameraPrefsView;
use crate::trig::cos_fx_spec;
use crate::trig::lemma_cos_fx_spec_one;
use crate::trig::lemma_sin_fx_spec_zero;
use crate::trig::sin_fx_spec;
use crate::vector::Vec2View;
use crate::vector::Vec3View;
use crate::vector::lemma_normalize_spec_bounds;
use crate::vector::normalize_spec;

/// Clamp invariants.  One tick keeps the whole state well formed,
/// puts the distance inside the configured interval, and keeps the
/// pitch short of the poles.  Since well-formedness is also the
/// tick's precondition, both clamps hold after every sequence of
/// ticks, whatever the wheel and rotate deltas were.
pub proof fn lemma_update_clamps(c: CameraView, i: InputView, p: CameraPrefsView)
    requires
        c.wf(),
        i.wf(),
        p.wf(),
        i.elapsed_seconds >= c.rotating_inertia.start_second,
    ensures
        camera_update_spec(c, i, p).wf(),
        p.min_distance <= camera_update_spec(c, i, p).distance <= p.max_distance,
        -PITCH_MAX <= camera_update_spec(c, i, p).pitch <= PITCH_MAX,
{
    let c1 = zoom_spec(c, i, p);
    let c2 = flags_spec(c1, i);
    let c3a = press_spec(c2, i);
    let c3b = release_spec(c3a, i);
    if i.rotate_just_released {
        let dy = c3a.yaw - c3a.rotating_inertia.start_yaw;
        let dp = c3a.pitch - c3a.rotating_inertia.start_pitch;
        let el = i.elapsed_seconds - c3a.rotating_inertia.start_second;
        if el != 0 {
            let n = dy * dy + dp * dp;
            assert(0 <= n <= 2_000_001_000_000int * 2_000_001_000_000) by (nonlinear_arith)
                requires
                    -2_000_000_000_000 <= dy <= 2_000_000_000_000,
                    -3_138_102 <= dp <= 3_138_102,
                    n == dy * dy + dp * dp;
            lemma_floor_sqrt_exists(n);
            lemma_floor_sqrt_le(n, 2_000_001_000_000int);
            let disp = sqrt_floor(n);
            lemma_mul_bounds(disp, SCALE as int, 2_000_001_000_000int, 1_000_000int);
            lemma_mul_nonnegative(disp, SCALE as int);
            lemma_trunc_div_bounds(disp * SCALE as int, el, 2_000_001_000_000int * 1_000_000);
            assert(2_000_001_000_000int * 1_000_000 / el <= 2_000_001_000_000int * 1_000_000)
                by (nonlinear_arith)
                requires
                    el >= 1;
            lemma_div_pos_is_pos(disp * SCALE as int, el);
            lemma_normalize_spec_bounds(i.motion_delta);
        }
    }
    assert(c3b.wf());
    let c3 = inertia_spec(c2, i, p);
    assert(c3.wf());
    let c4 = active_rotate_spec(c3, i, p);
    assert(c4.wf());
    assert(camera_update_spec(c, i, p).wf());
    assert(camera_update_spec(c, i, p).distance == c1.distance);
}

/// The state after a whole sequence of ticks, first input first.
pub open spec fn run_ticks(c: CameraView, inputs: Seq<InputView>, p: CameraPrefsView) -> CameraView
    decreases inputs.len(),
{
    if inputs.len() == 0 {
        c
    } else {
        run_ticks(camera_update_spec(c, inputs[0], p), inputs.subrange(1, inputs.len() as int), p)
    }
}

/// Clamp invariants over whole sequences.  For any sequence of ticks
/// whose inputs are in range and whose clock readings never run
/// backwards, the state stays well formed, and after at least one
/// tick the distance lies inside the configured interval and the
/// pitch short of the poles — whatever the wheel and rotate deltas
/// were.
pub proof fn lemma_run_ticks_clamps(c: CameraView, inputs: Seq<InputView>, p: CameraPrefsView)
    requires
        c.wf(),
        p.wf(),
        forall|k: int| 0 <= k < inputs.len() ==> (#[trigger] inputs[k]).wf(),
        forall|k: int|
            0 <= k < inputs.len() - 1 ==> (#[trigger] inputs[k]).elapsed_seconds
                <= inputs[k + 1].elapsed_seconds,
        inputs.len() > 0 ==> inputs[0].elapsed_seconds >= c.rotating_inertia.start_second,
    ensures
        run_ticks(c, inputs, p).wf(),
        inputs.len() > 0 ==> p.min_distance <= run_ticks(c, inputs, p).distance <= p.max_distance,
        inputs.len() > 0 ==> -PITCH_MAX <= run_ticks(c, inputs, p).pitch <= PITCH_MAX,
        run_ticks(c, inputs, p).rotating_inertia.start_second <= (if inputs.len() == 0 {
            c.rotating_inertia.start_second
        } else {
            inputs.last().elapsed_seconds
        }),
    decreases inputs.len(),
{
    if inputs.len() > 0 {
        let i0 = inputs[0];
        let c1 = camera_update_spec(c, i0, p);
        lemma_update_clamps(c, i0, p);
        assert(c1.rotating_inertia.start_second <= i0.elapsed_seconds);
        let rest = inputs.subrange(1, inputs.len() as int);
        assert(forall|k: int| 0 <= k < rest.len() ==> rest[k] == inputs[k + 1]);
        lemma_run_ticks_clamps(c1, rest, p);
        if rest.len() > 0 {
            assert(rest.last() == inputs.last());
        }
    }
}

/// Idempotence of the no-input tick.  With a zero motion delta, a
/// zero wheel delta, no button edges, and inactive inertia, a tick
/// leaves yaw, pitch, distance and pivot unchanged, whether or not
/// the buttons are held.
pub proof fn lemma_no_input_tick(c: CameraView, i: InputView, p: CameraPrefsView)
    requires
        c.wf(),
        i.wf(),
        p.wf(),
        p.min_distance <= c.distance <= p.max_distance,
        i.motion_delta.is_zero(),
        i.wheel_delta == 0,
        !i.rotate_just_pressed,
        !i.rotate_just_released,
        c.rotating_inertia.speed == 0,
    ensures
        camera_update_spec(c, i, p).yaw == c.yaw,
        camera_update_spec(c, i, p).pitch == c.pitch,
        camera_update_spec(c, i, p).distance == c.distance,
        camera_update_spec(c, i, p).point_of_view == c.point_of_view,
{
    lemma_div_of0(SCALE as int);
    lemma_div_of0(10);
    lemma_mul_basics(p.zoom_sensitivity);
    let c1 = zoom_spec(c, i, p);
    assert(c1.distance == c.distance);
    let c2 = flags_spec(c1, i);
    let c3 = inertia_spec(c2, i, p);
    assert(c3.yaw == c.yaw && c3.pitch == c.pitch && c3.distance == c.distance
        && c3.point_of_view == c.point_of_view);
    lemma_mul_basics(p.rotation_sensitivity);
    let c4 = active_rotate_spec(c3, i, p);
    assert(c4.yaw == c.yaw && c4.pitch == c.pitch);
    let sy = sin_fx_spec(c.yaw);
    let cy = cos_fx_spec(c.yaw);
    let sp = sin_fx_spec(c.pitch);
    let cp = cos_fx_spec(c.pitch);
    lemma_mul_basics(cy);
    lemma_mul_basics(-sy);
    lemma_mul_basics(0int);
    lemma_mul_basics(-trunc_div(sy * sp, SCALE as int));
    lemma_mul_basics(-cp);
    lemma_mul_basics(-trunc_div(cy * sp, SCALE as int));
    lemma_mul_basics(p.pan_sensitivity);
    lemma_mul_basics(c4.distance);
    assert(camera_update_spec(c, i, p).point_of_view == c.point_of_view);
}

/// Transform of the level pose.  With yaw and pitch both zero the
/// derived pose is exact: the eye sits at the pivot pushed `distance`
/// along the world depth axis, looking back at the pivot, with the
/// world up as its up axis and the world right as its right axis.
pub proof fn lemma_transform_level(c: CameraView)
    requires
        c.wf(),
        c.yaw == 0,
        c.pitch == 0,
    ensures
        camera_transform_spec(c).position == (Vec3View {
            x: c.point_of_view.x,
            y: c.point_of_view.y,
            z: c.point_of_view.z + c.distance,
        }),
        camera_transform_spec(c).right == (Vec3View { x: SCALE as int, y: 0, z: 0 }),
        camera_transform_spec(c).up == (Vec3View { x: 0, y: SCALE as int, z: 0 }),
        camera_transform_spec(c).forward == (Vec3View { x: 0, y: 0, z: -SCALE as int }),
{
    lemma_sin_fx_spec_zero();
    lemma_cos_fx_spec_one();
    lemma_div_of0(SCALE as int);
    lemma_trunc_div_exact(c.distance, SCALE as int);
    lemma_trunc_div_exact(SCALE as int, SCALE as int);
    lemma_mul_basics(c.distance);
    lemma_mul_basics(SCALE as int);
    assert(camera_transform_spec(c).position.z == c.point_of_view.z + c.distance);
}

/// Inertia decay bottoms out.  The coast step never drives the
/// residual speed below zero, and once the speed has reached zero the
/// coast step does nothing at all, so the camera stays at rest.
pub proof fn lemma_inertia_rests_at_zero(c: CameraView, p: CameraPrefsView)
    requires
        0 <= p.inertia_decrement_speed,
        0 <= c.rotating_inertia.speed,
    ensures
        0 <= coast_spec(c, p).rotating_inertia.speed,
        c.rotating_inertia.speed == 0 ==> coast_spec(c, p) == c,
{
}

/// Normalization safety at release.  A rotate release whose tick saw
/// no pointer motion records the zero vector as the coast direction:
/// normalizing the zero vector yields zero, never a fault.
pub proof fn lemma_release_zero_motion(c: CameraView, i: InputView)
    requires
        i.rotate_just_released,
        i.motion_delta.is_zero(),
        i.elapsed_seconds != c.rotating_inertia.start_second,
    ensures
        release_spec(c, i).rotating_inertia.direction == (Vec2View { x: 0, y: 0 }),
{
}

} // verus!
