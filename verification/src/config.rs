//! Per-robot tuning configuration.
//!
//! The configuration is read from a file outside the library and handed
//! in as plain values: flags, a per-joint calibration offset table in
//! microradians (canonical joint order), and a phase-frequency tuning
//! offset in thousandths.  A missing file means defaults, not an error.

use vstd::prelude::*;

verus! {

use crate::motors::NUM_DOFS;

/// Feature flags for the cosmetic peripherals.  An unavailable feature
/// is simply off; none of them gates the control loop.
#[derive(Clone, Copy)]
pub struct ExpressionFeatures {
    /// Blinking LED eyes.
    pub eyes: bool,
    /// GPIO-switched projector.
    pub projector: bool,
    /// PWM antenna servos.
    pub antennas: bool,
    /// Audio playback.
    pub speaker: bool,
    /// Microphone capture.
    pub microphone: bool,
    /// Camera capture.
    pub camera: bool,
}

impl ExpressionFeatures {
    /// Everything off.
    pub fn none() -> (r: Self)
        ensures
            !r.eyes && !r.projector && !r.antennas && !r.speaker && !r.microphone && !r.camera,
    {
        ExpressionFeatures {
            eyes: false,
            projector: false,
            antennas: false,
            speaker: false,
            microphone: false,
            camera: false,
        }
    }
}

impl Default for ExpressionFeatures {
    /// Same as [`ExpressionFeatures::none`].
    fn default() -> (r: Self)
        ensures
            !r.eyes && !r.projector && !r.antennas && !r.speaker && !r.microphone && !r.camera,
    {
        ExpressionFeatures::none()
    }
}

/// Top-level per-robot configuration.
pub struct DuckConfig {
    /// Start the loop paused, waiting for the unpause trigger.
    pub start_paused: bool,
    /// The inertial sensor is mounted upside down.
    pub imu_upside_down: bool,
    /// Additive tuning offset to the gait frequency factor, thousandths.
    pub phase_frequency_factor_offset_milli: i64,
    /// Cosmetic peripheral flags.
    pub expression_features: ExpressionFeatures,
    /// Calibration offset per joint, microradians, canonical order.
    pub joints_offset: Vec<i64>,
}

impl DuckConfig {
    /// The configuration's invariant: one bounded offset per joint and a
    /// bounded tuning offset.
    pub open spec fn well_formed(&self) -> bool {
        &&& self.joints_offset@.len() == NUM_DOFS
        &&& forall|i: int|
            0 <= i < self.joints_offset@.len() ==> -100_000_000 <= #[trigger] self
                .joints_offset@[i] <= 100_000_000
        &&& -1_000_000_000 <= self.phase_frequency_factor_offset_milli <= 1_000_000_000
    }

    /// The calibration offset of the joint at `index`, zero for an
    /// index outside the table.
    pub fn joint_offset(&self, index: usize) -> (r: i64)
        ensures
            r == (if index < self.joints_offset@.len() {
                self.joints_offset@[index as int]
            } else {
                0i64
            }),
    {
        if index < self.joints_offset.len() {
            self.joints_offset[index]
        } else {
            0
        }
    }
}

impl Default for DuckConfig {
    /// The defaults a missing configuration file falls back to: nothing
    /// special enabled and an all-zero offset table.
    fn default() -> (r: Self)
        ensures
            r.well_formed(),
            !r.start_paused,
            !r.imu_upside_down,
            r.phase_frequency_factor_offset_milli == 0,
            forall|i: int|
                0 <= i < r.joints_offset@.len() ==> #[trigger] r.joints_offset@[i] == 0i64,
    {
        let mut joints_offset: Vec<i64> = Vec::new();
        let mut i: usize = 0;
        while i < NUM_DOFS
            invariant
                0 <= i <= NUM_DOFS,
                joints_offset@.len() == i,
                forall|k: int| 0 <= k < i ==> #[trigger] joints_offset@[k] == 0i64,
            decreases NUM_DOFS - i,
        {
            joints_offset.push(0);
            i = i + 1;
        }
        DuckConfig {
            start_paused: false,
            imu_upside_down: false,
            phase_frequency_factor_offset_milli: 0,
            expression_features: ExpressionFeatures::none(),
            joints_offset,
        }
    }
}

} // verus!
