//! Verified core of a wearable combat-detection system.
//!
//! Wireless inertial sensors strapped to a person's limbs stream fixed-layout
//! binary frames; this crate holds everything that decides what those frames
//! mean: the frame decoder, the stateful strike classifier with its cooldown
//! gate and force model, the per-person record tracker, the device registry,
//! and the pure decision logic of scanning and session management.
//!
//! All physical quantities are carried as scaled integers: accelerations in
//! thousandths of g, angular rates in thousandths of a degree per second,
//! velocities in millimetres per second, forces in millinewtons, masses in
//! grams, and confidences in thousandths. The radio itself, the async
//! runtime, and every other effectful collaborator live outside this crate
//! and hand it plain values.

pub mod config;
pub mod detect;
pub mod errors;
pub mod frame;
pub mod limb;
pub mod math;
pub mod registry;
pub mod scan;
pub mod session;
pub mod stats;
pub mod strmatch;
