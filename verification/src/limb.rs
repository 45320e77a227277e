//! Limb roles and their wire identifiers and advertised-name patterns.

use vstd::prelude::*;
use vstd::string::StringSliceAdditionalSpecFns;

use crate::strmatch::contains_bytes;
use crate::strmatch::contains_subslice;

verus! {

/// The four limb roles a sensor can be strapped to.
#[derive(Debug, Clone, Copy, PartialEq, Eq, Structural)]
pub enum LimbType {
    LeftHand,
    RightHand,
    LeftFoot,
    RightFoot,
}

/// The limb role a frame's role code stands for, if any.
pub open spec fn limb_type_from_id(id: u8) -> Option<LimbType> {
    match id {
        1u8 => Some(LimbType::RightHand),
        2u8 => Some(LimbType::LeftHand),
        3u8 => Some(LimbType::RightFoot),
        4u8 => Some(LimbType::LeftFoot),
        _ => None,
    }
}

/// The human-readable display name of a limb, as a character sequence.
pub open spec fn limb_display_name(l: LimbType) -> Seq<char> {
    match l {
        LimbType::LeftHand => "Mano Izquierda"@,
        LimbType::RightHand => "Mano Derecha"@,
        LimbType::LeftFoot => "Pie Izquierdo"@,
        LimbType::RightFoot => "Pie Derecho"@,
    }
}

impl LimbType {
    /// Maps a frame's role code to a limb role; codes outside 1..=4 have none.
    pub fn from_id(id: u8) -> (r: Option<LimbType>)
        ensures
            r == limb_type_from_id(id),
    {
        match id {
            1u8 => Some(LimbType::RightHand),
            2u8 => Some(LimbType::LeftHand),
            3u8 => Some(LimbType::RightFoot),
            4u8 => Some(LimbType::LeftFoot),
            _ => None,
        }
    }

    /// Human-readable display name of the limb.
    pub fn name(&self) -> (r: &'static str)
        ensures
            r@ == limb_display_name(*self),
    {
        match self {
            LimbType::LeftHand => "Mano Izquierda",
            LimbType::RightHand => "Mano Derecha",
            LimbType::LeftFoot => "Pie Izquierdo",
            LimbType::RightFoot => "Pie Derecho",
        }
    }

    /// Substring that the limb's sensor advertises in its local name.
    pub fn ble_name_pattern(&self) -> (r: &'static str)
        ensures
            *self == LimbType::LeftHand ==> r@ == "ManoIzquierda"@,
            *self == LimbType::RightHand ==> r@ == "ManoDerecha"@,
            *self == LimbType::LeftFoot ==> r@ == "PieIzquierdo"@,
            *self == LimbType::RightFoot ==> r@ == "PieDerecho"@,
    {
        match self {
            LimbType::LeftHand => "ManoIzquierda",
            LimbType::RightHand => "ManoDerecha",
            LimbType::LeftFoot => "PieIzquierdo",
            LimbType::RightFoot => "PieDerecho",
        }
    }
}

/// Role inferred from an advertised device name: the first of the four
/// patterns, in this fixed order, that occurs in the name's bytes.
pub open spec fn limb_type_for_name(name: Seq<u8>) -> Option<LimbType> {
    if contains_bytes(name, "ManoIzquierda".spec_bytes()) {
        Some(LimbType::LeftHand)
    } else if contains_bytes(name, "ManoDerecha".spec_bytes()) {
        Some(LimbType::RightHand)
    } else if contains_bytes(name, "PieIzquierdo".spec_bytes()) {
        Some(LimbType::LeftFoot)
    } else if contains_bytes(name, "PieDerecho".spec_bytes()) {
        Some(LimbType::RightFoot)
    } else {
        None
    }
}

/// Infers the limb role advertised in a device name, if any pattern matches.
pub fn infer_limb_type(device_name: &str) -> (r: Option<LimbType>)
    ensures
        r == limb_type_for_name(device_name.spec_bytes()),
{
    let name = device_name.as_bytes();
    if contains_subslice(name, "ManoIzquierda".as_bytes()) {
        Some(LimbType::LeftHand)
    } else if contains_subslice(name, "ManoDerecha".as_bytes()) {
        Some(LimbType::RightHand)
    } else if contains_subslice(name, "PieIzquierdo".as_bytes()) {
        Some(LimbType::LeftFoot)
    } else if contains_subslice(name, "PieDerecho".as_bytes()) {
        Some(LimbType::RightFoot)
    } else {
        None
    }
}

/// The role a session uses for a device name: the inferred role, with the
/// left hand as the fallback when no pattern matches.
pub open spec fn spec_determine_limb(name: Seq<u8>) -> LimbType {
    match limb_type_for_name(name) {
        Some(l) => l,
        None => LimbType::LeftHand,
    }
}

/// Infers the limb role from a device name, falling back to the left hand
/// when no pattern matches.
pub fn determine_limb_type_by_pattern(device_name: &str) -> (r: LimbType)
    ensures
        r == spec_determine_limb(device_name.spec_bytes()),
{
    match infer_limb_type(device_name) {
        Some(l) => l,
        None => LimbType::LeftHand,
    }
}

} // verus!
