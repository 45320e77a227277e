//! Detection thresholds, scale factors and physical constants.
//!
//! Every quantity is a scaled integer: accelerations in milli-g, angular
//! rates in milli-degrees per second, velocities in milli-metres per
//! second, mass fractions in thousandths of body mass, and the joint
//! stiffness factor in thousandths.

use vstd::prelude::*;

verus! {

/// Fixed configuration of the event detector; immutable after construction.
#[derive(Debug, Clone, Copy, PartialEq, Eq, Structural)]
pub struct SimpleDetectionConfig {
    /// Raw accelerometer units per g.
    pub acc_scale: u32,
    /// Raw gyroscope units per degree/second.
    pub gyro_scale: u32,
    /// Minimum acceleration magnitude for a hand strike, in milli-g.
    pub slap_min_acc: u32,
    /// Minimum angular-rate magnitude for a hand strike, in milli-deg/s.
    pub slap_min_gyro: u32,
    /// Minimum acceleration magnitude for a foot strike, in milli-g.
    pub kick_min_acc: u32,
    /// Maximum angular-rate magnitude for a foot strike, in milli-deg/s.
    pub kick_max_gyro: u32,
    /// Upper bound (exclusive) on the vertical axis for a downward foot
    /// strike, in milli-g; negative means markedly downward.
    pub kick_min_acc_z: i32,
    /// Base hand velocity, in milli-m/s.
    pub hand_base_velocity: u32,
    /// Base foot velocity, in milli-m/s.
    pub foot_base_velocity: u32,
    /// Hand mass as thousandths of body mass (Dempster 1955).
    pub hand_mass_permille: u32,
    /// Foot mass as thousandths of body mass (Dempster 1955).
    pub foot_mass_permille: u32,
    /// Joint stiffness factor, in thousandths.
    pub joint_stiffness_milli: u32,
    /// Minimum time between two accepted events on one device, in ms.
    pub cooldown_ms: u64,
}

/// Ranges under which the detector's fixed-point arithmetic cannot
/// overflow: scales are non-zero, a limb weighs at most the whole body,
/// and the stiffness factor is at most fivefold.
pub open spec fn config_wf(c: SimpleDetectionConfig) -> bool {
    &&& 1 <= c.acc_scale
    &&& 1 <= c.gyro_scale
    &&& c.hand_mass_permille <= 1000
    &&& c.foot_mass_permille <= 1000
    &&& c.joint_stiffness_milli <= 5000
}

/// The default configuration, tuned against observed device data.
pub open spec fn spec_default_config() -> SimpleDetectionConfig {
    SimpleDetectionConfig {
        acc_scale: 1000,
        gyro_scale: 250,
        slap_min_acc: 800,
        slap_min_gyro: 3000,
        kick_min_acc: 1000,
        kick_max_gyro: 10000,
        kick_min_acc_z: -300i32,
        hand_base_velocity: 10000,
        foot_base_velocity: 15000,
        hand_mass_permille: 27,
        foot_mass_permille: 62,
        joint_stiffness_milli: 1800,
        cooldown_ms: 500,
    }
}

impl Default for SimpleDetectionConfig {
    /// The default thresholds; they are deliberately looser than the
    /// scientifically labelled values and are authoritative as configured.
    fn default() -> (c: Self)
        ensures
            c == spec_default_config(),
            config_wf(c),
    {
        SimpleDetectionConfig {
            acc_scale: 1000,
            gyro_scale: 250,
            slap_min_acc: 800,
            slap_min_gyro: 3000,
            kick_min_acc: 1000,
            kick_max_gyro: 10000,
            kick_min_acc_z: -300,
            hand_base_velocity: 10000,
            foot_base_velocity: 15000,
            hand_mass_permille: 27,
            foot_mass_permille: 62,
            joint_stiffness_milli: 1800,
            cooldown_ms: 500,
        }
    }
}

} // verus!
