//! Controller configuration, its stock values, and the small state
//! machine behind the apply/discard buttons of a settings panel.

use vstd::prelude::*;

verus! {

/// Largest sensitivity or decay-rate magnitude accepted, in scalar
/// units: one thousand whole units.
pub const SENS_MAX: i64 = 1_000_000_000;

/// Largest distance magnitude accepted, in scalar units: one million
/// whole units.
pub const DISTANCE_MAX: i64 = 1_000_000_000_000;

/// Tunable parameters of the camera controller, as fixed-point
/// scalars.
#[derive(Clone, Copy, PartialEq, Eq, Structural, Debug)]
pub struct CameraControllPreferences {
    pub rotation_sensitivity: i64,
    pub pan_sensitivity: i64,
    pub zoom_sensitivity: i64,
    pub min_distance: i64,
    pub max_distance: i64,
    pub inertia_on: bool,
    pub inertia_decrement_speed: i64,
}

/// The stock tuning, in scalar units: rotation 0.005, pan 0.01,
/// zoom 0.5, distances 1 to 100, inertia off with decay rate 0.02.
pub open spec fn default_camera_preferences() -> CameraControllPreferences {
    CameraControllPreferences {
        rotation_sensitivity: 5_000,
        pan_sensitivity: 10_000,
        zoom_sensitivity: 500_000,
        min_distance: 1_000_000,
        max_distance: 100_000_000,
        inertia_on: false,
        inertia_decrement_speed: 20_000,
    }
}

/// Mathematical view of the controller tuning.
pub struct CameraPrefsView {
    pub rotation_sensitivity: int,
    pub pan_sensitivity: int,
    pub zoom_sensitivity: int,
    pub min_distance: int,
    pub max_distance: int,
    pub inertia_on: bool,
    pub inertia_decrement_speed: int,
}

impl View for CameraControllPreferences {
    type V = CameraPrefsView;

    open spec fn view(&self) -> CameraPrefsView {
        CameraPrefsView {
            rotation_sensitivity: self.rotation_sensitivity as int,
            pan_sensitivity: self.pan_sensitivity as int,
            zoom_sensitivity: self.zoom_sensitivity as int,
            min_distance: self.min_distance as int,
            max_distance: self.max_distance as int,
            inertia_on: self.inertia_on,
            inertia_decrement_speed: self.inertia_decrement_speed as int,
        }
    }
}

impl CameraPrefsView {
    /// The ranges the controller relies on: the distance interval is
    /// ordered, every magnitude stays in range, and the decay rate is
    /// nonnegative.
    pub open spec fn wf(self) -> bool {
        &&& -SENS_MAX <= self.rotation_sensitivity <= SENS_MAX
        &&& -SENS_MAX <= self.pan_sensitivity <= SENS_MAX
        &&& -SENS_MAX <= self.zoom_sensitivity <= SENS_MAX
        &&& -DISTANCE_MAX <= self.min_distance
        &&& self.min_distance <= self.max_distance
        &&& self.max_distance <= DISTANCE_MAX
        &&& 0 <= self.inertia_decrement_speed <= SENS_MAX
    }
}

impl CameraControllPreferences {
    /// Runtime check of the view's `wf`, for callers outside the
    /// verified world.
    pub fn in_range(&self) -> (r: bool)
        ensures
            r == self@.wf(),
    {
        -SENS_MAX <= self.rotation_sensitivity && self.rotation_sensitivity <= SENS_MAX
            && -SENS_MAX <= self.pan_sensitivity && self.pan_sensitivity <= SENS_MAX
            && -SENS_MAX <= self.zoom_sensitivity && self.zoom_sensitivity <= SENS_MAX
            && -DISTANCE_MAX <= self.min_distance
            && self.min_distance <= self.max_distance
            && self.max_distance <= DISTANCE_MAX
            && 0 <= self.inertia_decrement_speed && self.inertia_decrement_speed <= SENS_MAX
    }
}

impl Default for CameraControllPreferences {
    /// The stock tuning.
    fn default() -> (d: Self)
        ensures
            d == default_camera_preferences(),
            d@.wf(),
    {
        CameraControllPreferences {
            rotation_sensitivity: 5_000,
            pan_sensitivity: 10_000,
            zoom_sensitivity: 500_000,
            min_distance: 1_000_000,
            max_distance: 100_000_000,
            inertia_on: false,
            inertia_decrement_speed: 20_000,
        }
    }
}

/// Everything a preferences panel edits; today that is the camera
/// controller's tuning.
#[derive(Clone, Copy, PartialEq, Eq, Structural, Debug)]
pub struct Preferences {
    pub camera_controll: CameraControllPreferences,
}

impl Default for Preferences {
    /// Stock values throughout.
    fn default() -> (d: Self)
        ensures
            d.camera_controll == default_camera_preferences(),
    {
        Preferences { camera_controll: CameraControllPreferences::default() }
    }
}

/// Marker event: a settings panel commits the values being edited.
#[derive(Clone, Copy, Debug)]
pub struct ApplyPreferencesEvent;

/// Marker event: a settings panel discards its edits and falls back to
/// the values last applied.
#[derive(Clone, Copy, Debug)]
pub struct ExemptPreferencesEvent;

/// The preference state an application carries: the values being
/// edited and the snapshot last applied.
#[derive(Clone, Copy, PartialEq, Eq, Structural, Debug)]
pub struct PreferencesStore {
    pub current: Preferences,
    pub applied: Preferences,
}

/// Commit the edited values: the applied snapshot becomes the current
/// values, which are returned so a host can persist them.
pub fn apply_preferences(store: &mut PreferencesStore) -> (saved: Preferences)
    ensures
        final(store).applied == old(store).current,
        final(store).current == old(store).current,
        saved == old(store).current,
{
    store.applied = store.current;
    store.current
}

/// Discard the edited values, restoring the snapshot last applied.
pub fn exempt_preferences(store: &mut PreferencesStore)
    ensures
        final(store).current == old(store).applied,
        final(store).applied == old(store).applied,
{
    store.current = store.applied;
}

} // verus!
