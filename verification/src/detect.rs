//! The stateful strike classifier: unit conversion, cooldown gate,
//! role-specific thresholds, confidence, and the closed-form force model.
//!
//! `detect_event` is the hot path: a pure function of the sample and the
//! detector's state, with no allocation beyond the accepted-event record
//! and no side effects; every consumer of its result lives downstream.

use vstd::prelude::*;

use crate::config::SimpleDetectionConfig;
use crate::config::config_wf;
use crate::config::spec_default_config;
use crate::frame::ImuData;
use crate::limb::LimbType;
use crate::limb::limb_display_name;
use crate::limb::limb_type_from_id;
use vstd::string::StringExecFns;
use crate::math::spec_isqrt;
use crate::math::isqrt_u64;

verus! {

broadcast use vstd::arithmetic::div_mod::lemma_div_basics_4, vstd::arithmetic::div_mod::lemma_div_basics_5;

/// The person wearing a given sensor, identified and weighted for force
/// estimation. The body mass is carried in grams.
#[derive(Debug, Clone)]
pub struct CompetitorInfo {
    pub id: u8,
    pub name: String,
    pub weight_grams: u32,
}

/// One detected physical-impact event, immutable once constructed.
/// Velocity is in mm/s, acceleration in mm/s^2, force in millinewtons,
/// confidence in thousandths (0..=1000).
#[derive(Debug, Clone)]
pub struct SimpleCombatEvent {
    pub event_type: String,
    pub limb_name: String,
    pub fighter_id: u8,
    pub competitor_name: String,
    pub velocity_mm_s: Option<u64>,
    pub acceleration_mm_s2: Option<u64>,
    pub force_mn: Option<u64>,
    pub timestamp: u64,
    pub confidence_milli: u32,
}

/// Per-device stateful classifier. Owned exclusively by its device's
/// session; never shared across devices.
pub struct SimpleEventDetector {
    pub config: SimpleDetectionConfig,
    pub competitor_info: Option<CompetitorInfo>,
    pub last_event_time: u64,
}

/// A raw axis reading converted to milli-units: `raw * 1000 / scale`,
/// rounded toward zero.
pub open spec fn axis_milli(raw: i16, scale: u32) -> int {
    if raw >= 0 {
        (raw as int * 1000) / (scale as int)
    } else {
        -((-(raw as int) * 1000) / (scale as int))
    }
}

/// Sum of squares of the three converted axes.
pub open spec fn spec_mag_sq(x: i16, y: i16, z: i16, scale: u32) -> int {
    axis_milli(x, scale) * axis_milli(x, scale) + axis_milli(y, scale) * axis_milli(y, scale)
        + axis_milli(z, scale) * axis_milli(z, scale)
}

/// Euclidean magnitude of an axis triple, in milli-units.
pub open spec fn spec_magnitude(x: i16, y: i16, z: i16, scale: u32) -> int {
    spec_isqrt(spec_mag_sq(x, y, z, scale))
}

/// Whether the role is one of the two hand roles.
pub open spec fn is_hand(l: LimbType) -> bool {
    l == LimbType::LeftHand || l == LimbType::RightHand
}

/// The cooldown gate: a sample is in range only when at least
/// `cooldown_ms` has passed since the last accepted event.
pub open spec fn spec_cooldown_passed(det: SimpleEventDetector, t: u64) -> bool {
    t as int >= det.last_event_time as int + det.config.cooldown_ms as int
}

/// Hand-role acceptance: both magnitudes at or above their thresholds.
pub open spec fn spec_hand_accept(c: SimpleDetectionConfig, d: ImuData) -> bool {
    &&& spec_magnitude(d.acc_x, d.acc_y, d.acc_z, c.acc_scale) >= c.slap_min_acc as int
    &&& spec_magnitude(d.gyro_x, d.gyro_y, d.gyro_z, c.gyro_scale) >= c.slap_min_gyro as int
}

/// Foot-role acceptance: high linear acceleration, markedly negative
/// vertical component, and comparatively low rotational rate.
pub open spec fn spec_foot_accept(c: SimpleDetectionConfig, d: ImuData) -> bool {
    &&& spec_magnitude(d.acc_x, d.acc_y, d.acc_z, c.acc_scale) >= c.kick_min_acc as int
    &&& axis_milli(d.acc_z, c.acc_scale) < c.kick_min_acc_z as int
    &&& spec_magnitude(d.gyro_x, d.gyro_y, d.gyro_z, c.gyro_scale) <= c.kick_max_gyro as int
}

/// Whether the detector accepts the sample as an event: a person must be
/// bound, the role code known, the cooldown passed, and the role-specific
/// thresholds met.
pub open spec fn spec_sample_accepted(det: SimpleEventDetector, d: ImuData) -> bool {
    &&& det.competitor_info is Some
    &&& spec_cooldown_passed(det, d.timestamp)
    &&& match limb_type_from_id(d.limb_id) {
        Some(l) => if is_hand(l) {
            spec_hand_accept(det.config, d)
        } else {
            spec_foot_accept(det.config, d)
        },
        None => false,
    }
}

/// The detector state after processing a sample: the last-accepted
/// timestamp advances exactly when the sample is accepted.
pub open spec fn spec_detector_step(det: SimpleEventDetector, d: ImuData) -> SimpleEventDetector {
    if spec_sample_accepted(det, d) {
        SimpleEventDetector { last_event_time: d.timestamp, ..det }
    } else {
        det
    }
}

/// Hand confidence in thousandths, before clamping.
pub open spec fn spec_slap_confidence_raw(c: SimpleDetectionConfig, d: ImuData) -> int {
    (spec_magnitude(d.acc_x, d.acc_y, d.acc_z, c.acc_scale) - c.slap_min_acc as int) / 2 + (
    spec_magnitude(d.gyro_x, d.gyro_y, d.gyro_z, c.gyro_scale) - c.slap_min_gyro as int) / 50
}

/// Foot confidence in thousandths, before clamping.
pub open spec fn spec_kick_confidence_raw(c: SimpleDetectionConfig, d: ImuData) -> int {
    (spec_magnitude(d.acc_x, d.acc_y, d.acc_z, c.acc_scale) - c.kick_min_acc as int) / 3 + (
    c.kick_min_acc_z as int - axis_milli(d.acc_z, c.acc_scale))
}

/// The confidence of an accepted sample, clamped to at most 1000.
pub open spec fn spec_confidence(c: SimpleDetectionConfig, d: ImuData, l: LimbType) -> int {
    let raw = if is_hand(l) {
        spec_slap_confidence_raw(c, d)
    } else {
        spec_kick_confidence_raw(c, d)
    };
    if raw > 1000 {
        1000
    } else {
        raw
    }
}

/// Intensity factor in thousandths: `acc_magnitude / 2` in g, clamped
/// into [1, 2].
pub open spec fn spec_intensity_milli(acc_mag: int) -> int {
    let f = acc_mag / 2;
    if f < 1000 {
        1000
    } else if f > 2000 {
        2000
    } else {
        f
    }
}

/// The limb's base velocity for the role, in mm/s.
pub open spec fn spec_base_velocity(c: SimpleDetectionConfig, l: LimbType) -> int {
    if is_hand(l) {
        c.hand_base_velocity as int
    } else {
        c.foot_base_velocity as int
    }
}

/// Estimated strike velocity in mm/s: base velocity scaled by intensity.
pub open spec fn spec_velocity(c: SimpleDetectionConfig, l: LimbType, acc_mag: int) -> int {
    spec_base_velocity(c, l) * spec_intensity_milli(acc_mag) / 1000
}

/// Acceleration in mm/s^2: the magnitude in milli-g times 9.81 m/s^2.
pub open spec fn spec_acceleration(acc_mag: int) -> int {
    acc_mag * 981 / 100
}

/// The striking limb's mass in grams: body mass times the role's mass
/// fraction.
pub open spec fn spec_limb_mass_g(weight_grams: u32, permille: int) -> int {
    weight_grams as int * permille / 1000
}

/// The limb mass fraction for the role, in thousandths.
pub open spec fn spec_mass_permille(c: SimpleDetectionConfig, l: LimbType) -> int {
    if is_hand(l) {
        c.hand_mass_permille as int
    } else {
        c.foot_mass_permille as int
    }
}

/// Estimated impact force in millinewtons: limb mass times acceleration
/// times the joint stiffness factor.
pub open spec fn spec_force(c: SimpleDetectionConfig, l: LimbType, weight_grams: u32, acc_mag: int) -> int {
    spec_limb_mass_g(weight_grams, spec_mass_permille(c, l)) * spec_acceleration(acc_mag) / 1000
        * c.joint_stiffness_milli as int / 1000
}

/// Converts one raw axis to milli-units, as a signed value.
fn axis_to_milli(raw: i16, scale: u32) -> (r: i64)
    requires
        1 <= scale,
    ensures
        r as int == axis_milli(raw, scale),
        -32768000 <= r <= 32767000,
{
    if raw >= 0 {
        let m: u64 = (raw as u64) * 1000 / (scale as u64);
        assert(m <= 32767000);
        m as i64
    } else {
        let neg: u64 = (-(raw as i32)) as u64;
        let m: u64 = neg * 1000 / (scale as u64);
        assert(m <= 32768000);
        -(m as i64)
    }
}

/// Magnitude of one converted axis, in milli-units (absolute value).
fn axis_to_milli_abs(raw: i16, scale: u32) -> (r: u64)
    requires
        1 <= scale,
    ensures
        r as int == if raw >= 0 {
            axis_milli(raw, scale)
        } else {
            -axis_milli(raw, scale)
        },
        r <= 32768000,
{
    if raw >= 0 {
        (raw as u64) * 1000 / (scale as u64)
    } else {
        let neg: u64 = (-(raw as i32)) as u64;
        neg * 1000 / (scale as u64)
    }
}

/// Euclidean magnitude of an axis triple in milli-units.
fn magnitude_milli(x: i16, y: i16, z: i16, scale: u32) -> (r: u64)
    requires
        1 <= scale,
    ensures
        r as int == spec_magnitude(x, y, z, scale),
        r <= 56755841,
{
    let ax = axis_to_milli_abs(x, scale);
    let ay = axis_to_milli_abs(y, scale);
    let az = axis_to_milli_abs(z, scale);
    assert(ax * ax <= 32768000 * 32768000) by (nonlinear_arith)
        requires
            ax <= 32768000,
    ;
    assert(ay * ay <= 32768000 * 32768000) by (nonlinear_arith)
        requires
            ay <= 32768000,
    ;
    assert(az * az <= 32768000 * 32768000) by (nonlinear_arith)
        requires
            az <= 32768000,
    ;
    let sum: u64 = ax * ax + ay * ay + az * az;
    proof {
        assert(ax as int * ax as int == axis_milli(x, scale) * axis_milli(x, scale))
            by (nonlinear_arith)
            requires
                ax as int == axis_milli(x, scale) || ax as int == -axis_milli(x, scale),
        ;
        assert(ay as int * ay as int == axis_milli(y, scale) * axis_milli(y, scale))
            by (nonlinear_arith)
            requires
                ay as int == axis_milli(y, scale) || ay as int == -axis_milli(y, scale),
        ;
        assert(az as int * az as int == axis_milli(z, scale) * axis_milli(z, scale))
            by (nonlinear_arith)
            requires
                az as int == axis_milli(z, scale) || az as int == -axis_milli(z, scale),
        ;
        assert(sum as int == spec_mag_sq(x, y, z, scale));
    }
    let r = isqrt_u64(sum);
    proof {
        assert(r as int * r as int <= sum as int);
        assert((56755842 as int) * (56755842 as int) > 3 * (32768000 * 32768000));
        assert(r <= 56755841) by (nonlinear_arith)
            requires
                r as int * r as int <= sum as int,
                sum as int <= 3 * (32768000 * 32768000),
                (56755842 as int) * (56755842 as int) > 3 * (32768000 * 32768000),
                r >= 0,
        ;
    }
    r
}

/// What every field of an accepted event holds: the event the detector
/// in state `det` produces for the accepted sample `d`.
pub open spec fn spec_event_matches(det: SimpleEventDetector, d: ImuData, e: SimpleCombatEvent) -> bool {
    det.competitor_info matches Some(ci) && (limb_type_from_id(d.limb_id) matches Some(l) && {
        let c = det.config;
        let acc_mag = spec_magnitude(d.acc_x, d.acc_y, d.acc_z, c.acc_scale);
        &&& e.event_type@ == (if is_hand(l) {
            "slap"@
        } else {
            "kickdown"@
        })
        &&& e.limb_name@ == limb_display_name(l)
        &&& e.fighter_id == ci.id
        &&& e.competitor_name@ == ci.name@
        &&& e.velocity_mm_s matches Some(v) && v as int == spec_velocity(c, l, acc_mag)
        &&& e.acceleration_mm_s2 matches Some(a) && a as int == spec_acceleration(acc_mag)
        &&& e.force_mn matches Some(f) && f as int == spec_force(c, l, ci.weight_grams, acc_mag)
        &&& e.timestamp == d.timestamp
        &&& e.confidence_milli as int == spec_confidence(c, d, l)
        &&& e.confidence_milli <= 1000
    })
}

/// Builds a competitor descriptor from its parts.
pub fn create_competitor_info(id: u8, name: String, weight_grams: u32) -> (c: CompetitorInfo)
    ensures
        c.id == id,
        c.name == name,
        c.weight_grams == weight_grams,
{
    CompetitorInfo { id, name, weight_grams }
}

/// Builds a detector with the default configuration and the given person
/// already bound.
pub fn setup_competitor_detector(competitor_info: CompetitorInfo) -> (d: SimpleEventDetector)
    ensures
        d.config == spec_default_config(),
        d.competitor_info == Some(competitor_info),
        d.last_event_time == 0,
{
    let mut d = SimpleEventDetector::new();
    d.set_competitor_info(competitor_info);
    d
}

impl SimpleEventDetector {
    /// A fresh detector with the default configuration and no person bound.
    pub fn new() -> (d: Self)
        ensures
            d.config == spec_default_config(),
            config_wf(d.config),
            d.competitor_info is None,
            d.last_event_time == 0,
    {
        SimpleEventDetector {
            config: SimpleDetectionConfig::default(),
            competitor_info: None,
            last_event_time: 0,
        }
    }

    /// Binds the person wearing this device's sensor; samples are dropped
    /// until one is bound.
    pub fn set_competitor_info(&mut self, info: CompetitorInfo)
        ensures
            final(self).competitor_info == Some(info),
            final(self).config == old(self).config,
            final(self).last_event_time == old(self).last_event_time,
    {
        self.competitor_info = Some(info);
    }

    /// Classifies one decoded sample. Returns the detected event exactly
    /// when the sample is accepted (`spec_sample_accepted`); on acceptance
    /// the cooldown clock advances to the sample's timestamp, and every
    /// field of the event is the value the configuration's fixed-point
    /// model assigns to it.
    pub fn detect_event(&mut self, data: &ImuData) -> (r: Option<SimpleCombatEvent>)
        requires
            config_wf(old(self).config),
        ensures
            *final(self) == spec_detector_step(*old(self), *data),
            (r is Some) == spec_sample_accepted(*old(self), *data),
            r matches Some(e) ==> spec_event_matches(*old(self), *data, e),
    {
        let (fighter_id, competitor_name, weight_grams) = match &self.competitor_info {
            Some(ci) => (ci.id, ci.name.clone(), ci.weight_grams),
            None => {
                return None;
            },
        };
        let limb_type = match LimbType::from_id(data.limb_id) {
            Some(l) => l,
            None => {
                return None;
            },
        };
        if data.timestamp < self.last_event_time {
            return None;
        }
        if data.timestamp - self.last_event_time < self.config.cooldown_ms {
            return None;
        }
        let c = self.config;
        let acc_mag = magnitude_milli(data.acc_x, data.acc_y, data.acc_z, c.acc_scale);
        let gyro_mag = magnitude_milli(data.gyro_x, data.gyro_y, data.gyro_z, c.gyro_scale);
        let hand = limb_type == LimbType::LeftHand || limb_type == LimbType::RightHand;

        let (event_type, confidence_milli): (&'static str, u32) = if hand {
            if acc_mag >= c.slap_min_acc as u64 && gyro_mag >= c.slap_min_gyro as u64 {
                let conf_raw: u64 = (acc_mag - c.slap_min_acc as u64) / 2 + (gyro_mag
                    - c.slap_min_gyro as u64) / 50;
                let conf: u64 = if conf_raw > 1000 {
                    1000
                } else {
                    conf_raw
                };
                ("slap", conf as u32)
            } else {
                return None;
            }
        } else {
            let acc_z_milli = axis_to_milli(data.acc_z, c.acc_scale);
            if acc_mag >= c.kick_min_acc as u64 && acc_z_milli < c.kick_min_acc_z as i64
                && gyro_mag <= c.kick_max_gyro as u64 {
                let d1: u64 = (acc_mag - c.kick_min_acc as u64) / 3;
                let d2: i64 = c.kick_min_acc_z as i64 - acc_z_milli;
                let conf_raw: u64 = d1 + (d2 as u64);
                let conf: u64 = if conf_raw > 1000 {
                    1000
                } else {
                    conf_raw
                };
                ("kickdown", conf as u32)
            } else {
                return None;
            }
        };

        let intensity: u64 = {
            let f = acc_mag / 2;
            if f < 1000 {
                1000
            } else if f > 2000 {
                2000
            } else {
                f
            }
        };
        let base: u64 = if hand {
            c.hand_base_velocity as u64
        } else {
            c.foot_base_velocity as u64
        };
        assert(base * intensity <= 4294967295 * 2000) by (nonlinear_arith)
            requires
                base <= 4294967295 && intensity <= 2000,
        ;
        let velocity: u64 = base * intensity / 1000;

        let acceleration: u64 = acc_mag * 981 / 100;
        assert(acceleration <= 556775000);

        let permille: u64 = if hand {
            c.hand_mass_permille as u64
        } else {
            c.foot_mass_permille as u64
        };
        assert(weight_grams as u64 * permille <= 4294967295 * 1000) by (nonlinear_arith)
            requires
                weight_grams <= 4294967295 && permille <= 1000,
        ;
        let limb_mass_g: u64 = weight_grams as u64 * permille / 1000;
        proof {
            assert(weight_grams as int * permille as int <= weight_grams as int * 1000)
                by (nonlinear_arith)
                requires
                    permille <= 1000 && weight_grams >= 0,
            ;
            vstd::arithmetic::div_mod::lemma_div_is_ordered(
                weight_grams as int * permille as int,
                weight_grams as int * 1000,
                1000,
            );
            vstd::arithmetic::div_mod::lemma_div_by_multiple(weight_grams as int, 1000);
            assert(limb_mass_g <= weight_grams);
        }
        assert(limb_mass_g as u64 * acceleration <= 4294967295 * 556775000) by (nonlinear_arith)
            requires
                limb_mass_g <= 4294967295 && acceleration <= 556775000,
        ;
        let t: u64 = limb_mass_g * acceleration;
        let t2: u64 = t / 1000;
        proof {
            vstd::arithmetic::div_mod::lemma_div_is_ordered(
                t as int,
                2391528000000000000,
                1000,
            );
            vstd::arithmetic::div_mod::lemma_div_by_multiple(2391528000000000, 1000);
            assert(t2 <= 2391528000000000);
        }
        assert(t2 as u64 * c.joint_stiffness_milli as u64 <= 2391528000000000 * 5000)
            by (nonlinear_arith)
            requires
                t2 <= 2391528000000000 && c.joint_stiffness_milli <= 5000,
        ;
        let force: u64 = t2 * c.joint_stiffness_milli as u64 / 1000;

        self.last_event_time = data.timestamp;

        Some(
            SimpleCombatEvent {
                event_type: String::from_str(event_type),
                limb_name: String::from_str(limb_type.name()),
                fighter_id,
                competitor_name,
                velocity_mm_s: Some(velocity),
                acceleration_mm_s2: Some(acceleration),
                force_mn: Some(force),
                timestamp: data.timestamp,
                confidence_milli,
            },
        )
    }
}

/// A sample whose role code is outside the four known codes is never
/// accepted, whatever the detector's state and configuration.
pub proof fn lemma_unknown_role_rejected(det: SimpleEventDetector, d: ImuData)
    requires
        limb_type_from_id(d.limb_id) is None,
    ensures
        !spec_sample_accepted(det, d),
{
}

/// Two consecutively accepted samples on one device are separated by at
/// least the configured cooldown: the detector state after the first
/// acceptance only admits a second sample at least `cooldown_ms` later.
pub proof fn lemma_cooldown_spacing(det: SimpleEventDetector, s1: ImuData, s2: ImuData)
    requires
        spec_sample_accepted(det, s1),
        spec_sample_accepted(spec_detector_step(det, s1), s2),
    ensures
        s2.timestamp as int - s1.timestamp as int >= det.config.cooldown_ms as int,
{
}

} // verus!
