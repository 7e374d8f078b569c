//! Scenario tests of the camera controller: one tick at a time, with
//! exact expected fixed-point values.

use orbit_camera::controller::{CameraController, ControllerInput, PITCH_MAX};
use orbit_camera::preferences::{
    apply_preferences, exempt_preferences, CameraControllPreferences, Preferences,
    PreferencesStore,
};
use orbit_camera::vector::{Vec2Fx, Vec3Fx};

fn quiet_input(t: i64) -> ControllerInput {
    ControllerInput {
        motion_delta: Vec2Fx { x: 0, y: 0 },
        wheel_delta: 0,
        rotate_held: false,
        rotate_just_pressed: false,
        rotate_just_released: false,
        pan_held: false,
        elapsed_seconds: t,
    }
}

fn stock_prefs() -> CameraControllPreferences {
    CameraControllPreferences::default()
}

fn camera_at(distance: i64) -> CameraController {
    CameraController::new(distance, 0, 0, Vec3Fx { x: 0, y: 0, z: 0 })
}

#[test]
fn default_preferences_have_stock_values() {
    let p = stock_prefs();
    assert_eq!(p.rotation_sensitivity, 5_000);
    assert_eq!(p.pan_sensitivity, 10_000);
    assert_eq!(p.zoom_sensitivity, 500_000);
    assert_eq!(p.min_distance, 1_000_000);
    assert_eq!(p.max_distance, 100_000_000);
    assert!(!p.inertia_on);
    assert_eq!(p.inertia_decrement_speed, 20_000);
    assert!(p.in_range());
}

#[test]
fn zoom_subtracts_scaled_wheel_delta() {
    let p = stock_prefs();
    let mut c = camera_at(5_000_000);
    let mut i = quiet_input(0);
    // A scroll of 3.0 at sensitivity 0.5 zooms in by 1.5.
    i.wheel_delta = 3_000_000;
    c.update(&i, &p);
    assert_eq!(c.distance, 3_500_000);
}

#[test]
fn distance_stays_clamped_for_any_wheel_sequence() {
    let p = stock_prefs();
    let mut c = camera_at(5_000_000);
    let wheels = [
        1_000_000_000,
        -1_000_000_000,
        500_000_000,
        -3_000_000,
        1_000_000_000,
        7,
        -1,
    ];
    for (k, w) in wheels.iter().enumerate() {
        let mut i = quiet_input(k as i64);
        i.wheel_delta = *w;
        c.update(&i, &p);
        assert!(p.min_distance <= c.distance && c.distance <= p.max_distance);
    }
    // The extreme scrolls above really reached both ends.
    let mut i = quiet_input(100);
    i.wheel_delta = 1_000_000_000;
    c.update(&i, &p);
    assert_eq!(c.distance, p.min_distance);
    i.wheel_delta = -1_000_000_000;
    i.elapsed_seconds = 101;
    c.update(&i, &p);
    assert_eq!(c.distance, p.max_distance);
}

#[test]
fn pitch_stays_clamped_for_any_drag_sequence() {
    let p = stock_prefs();
    let mut c = camera_at(5_000_000);
    let drags: [(i64, i64); 5] = [
        (0, 1_000_000_000),
        (0, -1_000_000_000),
        (0, -1_000_000_000),
        (500_000, 250_000),
        (0, 1_000_000_000),
    ];
    for (k, (dx, dy)) in drags.iter().enumerate() {
        let mut i = quiet_input(k as i64);
        i.motion_delta = Vec2Fx { x: *dx, y: *dy };
        i.rotate_held = true;
        c.update(&i, &p);
        assert!(-PITCH_MAX <= c.pitch && c.pitch <= PITCH_MAX);
    }
    // The huge final drag pinned the pitch at the clamp, short of a
    // quarter turn (1_570_796 micro-radians).
    assert_eq!(c.pitch, -1_569_051);
}

#[test]
fn no_input_tick_changes_nothing() {
    let p = stock_prefs();
    let mut c = CameraController::new(5_000_000, 123, 456, Vec3Fx { x: 1, y: 2, z: 3 });
    let mut i = quiet_input(42);
    i.rotate_held = true;
    i.pan_held = true;
    c.update(&i, &p);
    assert_eq!(c.distance, 5_000_000);
    assert_eq!(c.yaw, 123);
    assert_eq!(c.pitch, 456);
    assert_eq!(c.point_of_view, Vec3Fx { x: 1, y: 2, z: 3 });
    assert!(c.is_rotating);
    assert!(c.is_panning);
}

#[test]
fn inertia_activates_on_release() {
    let mut p = stock_prefs();
    p.inertia_on = true;
    p.inertia_decrement_speed = 0;
    let mut c = camera_at(5_000_000);

    // Press rotate at t = 0.
    let mut press = quiet_input(0);
    press.rotate_just_pressed = true;
    press.rotate_held = true;
    c.update(&press, &p);
    assert_eq!(c.rotating_inertia.speed, 0);

    // The drag brings the orbit to yaw 0.5, pitch 0.2 by t = 1.0.
    c.yaw = 500_000;
    c.pitch = 200_000;

    // Release at t = 1.0 with a pointer delta of (3, 0) in that tick.
    let mut release = quiet_input(1_000_000);
    release.rotate_just_released = true;
    release.motion_delta = Vec2Fx { x: 3_000_000, y: 0 };
    c.update(&release, &p);

    // speed = sqrt(0.5^2 + 0.2^2) / 1.0, rounded down in micro units.
    assert_eq!(c.rotating_inertia.speed, 538_516);
    assert_eq!(c.rotating_inertia.direction, Vec2Fx { x: 1_000_000, y: 0 });
    // The same tick already coasted one step along (1, 0).
    assert_eq!(c.yaw, 495_000);
    assert_eq!(c.pitch, 200_000);
}

#[test]
fn inertia_activation_decays_in_the_release_tick() {
    let mut p = stock_prefs();
    p.inertia_on = true;
    let mut c = camera_at(5_000_000);
    let mut press = quiet_input(0);
    press.rotate_just_pressed = true;
    press.rotate_held = true;
    c.update(&press, &p);
    c.yaw = 500_000;
    c.pitch = 200_000;
    let mut release = quiet_input(1_000_000);
    release.rotate_just_released = true;
    release.motion_delta = Vec2Fx { x: 3_000_000, y: 0 };
    c.update(&release, &p);
    // The release tick coasts once, so the stock decay of 0.02 has
    // already been taken.
    assert_eq!(c.rotating_inertia.speed, 538_516 - 20_000);
}

#[test]
fn inertia_decays_to_exactly_zero() {
    let mut p = stock_prefs();
    p.inertia_on = true;
    p.inertia_decrement_speed = 20_000;
    p.rotation_sensitivity = 0;
    let mut c = camera_at(5_000_000);
    c.rotating_inertia.speed = 50_000;

    c.update(&quiet_input(1), &p);
    assert_eq!(c.rotating_inertia.speed, 30_000);
    c.update(&quiet_input(2), &p);
    assert_eq!(c.rotating_inertia.speed, 10_000);
    c.update(&quiet_input(3), &p);
    assert_eq!(c.rotating_inertia.speed, 0);
    // Inactive inertia stays at zero, never negative.
    c.update(&quiet_input(4), &p);
    assert_eq!(c.rotating_inertia.speed, 0);
}

#[test]
fn zero_duration_gesture_keeps_inertia_values() {
    let mut p = stock_prefs();
    p.inertia_on = true;
    p.inertia_decrement_speed = 0;
    p.rotation_sensitivity = 0;
    let mut c = camera_at(5_000_000);
    c.rotating_inertia.speed = 7;
    c.rotating_inertia.direction = Vec2Fx { x: 5, y: 6 };
    c.rotating_inertia.start_second = 42;

    // A release in the very tick the gesture started: elapsed time is
    // zero, so no division happens and the values are retained.
    let mut i = quiet_input(42);
    i.rotate_just_released = true;
    i.motion_delta = Vec2Fx { x: 9_000, y: 0 };
    c.update(&i, &p);
    assert_eq!(c.rotating_inertia.speed, 7);
    assert_eq!(c.rotating_inertia.direction, Vec2Fx { x: 5, y: 6 });
}

#[test]
fn release_with_zero_motion_coasts_nowhere() {
    let mut p = stock_prefs();
    p.inertia_on = true;
    p.inertia_decrement_speed = 0;
    let mut c = camera_at(5_000_000);
    let mut press = quiet_input(0);
    press.rotate_just_pressed = true;
    press.rotate_held = true;
    c.update(&press, &p);
    c.yaw = 500_000;
    let mut release = quiet_input(1_000_000);
    release.rotate_just_released = true;
    c.update(&release, &p);
    // Normalizing the zero delta yields the zero direction; the speed
    // is still recorded from the angular displacement.
    assert_eq!(c.rotating_inertia.direction, Vec2Fx { x: 0, y: 0 });
    assert_eq!(c.rotating_inertia.speed, 500_000);
    // Coasting along the zero direction leaves the angles unchanged.
    assert_eq!(c.yaw, 500_000);
}

#[test]
fn pan_scales_with_distance() {
    let mut p = stock_prefs();
    p.pan_sensitivity = 10_000;
    let mut c = camera_at(10_000_000);
    let mut i = quiet_input(0);
    i.pan_held = true;
    i.motion_delta = Vec2Fx { x: 1_000_000, y: 0 };
    c.update(&i, &p);
    // 0.01 * 10 / 10 == 0.01 along the local right axis.
    assert_eq!(c.point_of_view, Vec3Fx { x: -10_000, y: 0, z: 0 });

    // Doubling the distance doubles the pan for the same input.
    let mut c2 = camera_at(20_000_000);
    c2.update(&i, &p);
    assert_eq!(c2.point_of_view, Vec3Fx { x: -20_000, y: 0, z: 0 });
}

#[test]
fn rotation_subtracts_scaled_delta() {
    let p = stock_prefs();
    let mut c = camera_at(5_000_000);
    let mut i = quiet_input(0);
    i.rotate_held = true;
    i.motion_delta = Vec2Fx { x: 1_000_000, y: 2_000_000 };
    c.update(&i, &p);
    // A delta of (1, 2) at sensitivity 0.005 turns by (-0.005, -0.01).
    assert_eq!(c.yaw, -5_000);
    assert_eq!(c.pitch, -10_000);
}

#[test]
fn pan_moves_against_the_inverted_up_axis() {
    let mut p = stock_prefs();
    p.pan_sensitivity = 10_000;
    let mut c = camera_at(10_000_000);
    let mut i = quiet_input(0);
    i.pan_held = true;
    i.motion_delta = Vec2Fx { x: 0, y: 1_000_000 };
    c.update(&i, &p);
    // At the level pose the up axis is inverted, so a downward-screen
    // delta raises the pivot.
    assert_eq!(c.point_of_view, Vec3Fx { x: 0, y: 10_000, z: 0 });
}

#[test]
fn level_transform_is_exact() {
    let c = camera_at(5_000_000);
    let t = c.derive_transform();
    assert_eq!(t.position, Vec3Fx { x: 0, y: 0, z: 5_000_000 });
    assert_eq!(t.forward, Vec3Fx { x: 0, y: 0, z: -1_000_000 });
    assert_eq!(t.up, Vec3Fx { x: 0, y: 1_000_000, z: 0 });
    assert_eq!(t.right, Vec3Fx { x: 1_000_000, y: 0, z: 0 });
}

#[test]
fn transform_follows_the_pivot() {
    let c = CameraController::new(2_000_000, 0, 0, Vec3Fx { x: 7, y: 8, z: 9 });
    let t = c.derive_transform();
    assert_eq!(t.position, Vec3Fx { x: 7, y: 8, z: 2_000_009 });
}

#[test]
fn quarter_turn_transform_swings_to_the_side() {
    let c = CameraController::new(
        5_000_000,
        orbit_camera::trig::HALF_PI_FX,
        0,
        Vec3Fx { x: 0, y: 0, z: 0 },
    );
    let t = c.derive_transform();
    // After a quarter turn of yaw the eye sits on the world x axis,
    // up to the polynomial's tolerance of a few micro-units.
    assert!(t.position.x > 4_995_000 && t.position.x <= 5_000_000);
    assert_eq!(t.position.y, 0);
    assert!(t.position.z.abs() < 5_000);
    assert!(t.forward.x < -999_000);
    assert_eq!(t.up, Vec3Fx { x: 0, y: 1_000_000, z: 0 });
}

#[test]
fn preferences_store_applies_and_exempts() {
    let mut store = PreferencesStore {
        current: Preferences::default(),
        applied: Preferences::default(),
    };
    store.current.camera_controll.zoom_sensitivity = 123_000;
    let saved = apply_preferences(&mut store);
    assert_eq!(saved.camera_controll.zoom_sensitivity, 123_000);
    assert_eq!(store.applied.camera_controll.zoom_sensitivity, 123_000);

    store.current.camera_controll.zoom_sensitivity = 999_000;
    exempt_preferences(&mut store);
    assert_eq!(store.current.camera_controll.zoom_sensitivity, 123_000);
}

#[test]
fn in_range_checks_guard_the_contracts() {
    let c = camera_at(5_000_000);
    assert!(c.in_range());
    let mut bad = stock_prefs();
    bad.min_distance = 10;
    bad.max_distance = 5;
    assert!(!bad.in_range());
}
