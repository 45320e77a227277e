//! Pure decision logic of device discovery: name filtering, first-seen
//! deduplication, and role annotation. The radio scan itself streams
//! advertisements from outside; each one is offered to an accumulator
//! which decides whether it becomes a descriptor.

use vstd::prelude::*;
use vstd::string::StringExecFns;
use vstd::string::StringSliceAdditionalSpecFns;
use vstd::utf8::encode_utf8;

use crate::limb::LimbType;
use crate::limb::infer_limb_type;
use crate::limb::limb_display_name;
use crate::limb::limb_type_for_name;
use crate::strmatch::contains_bytes;
use crate::strmatch::contains_subslice;

verus! {

/// One discovery event, as the radio reports it.
#[derive(Debug, Clone)]
pub struct Advertisement {
    pub device_id: String,
    pub local_name: Option<String>,
    pub rssi: Option<i16>,
    pub is_connectable: bool,
}

/// A discovered peripheral, annotated with its inferred limb role.
/// Immutable after creation; discarded at the end of the scan.
#[derive(Debug, Clone)]
pub struct BleDevice {
    pub id: String,
    pub name: String,
    pub address: String,
    pub limb_type: Option<LimbType>,
    pub limb_name: Option<String>,
    pub rssi: Option<i16>,
    pub is_connectable: bool,
}

/// The advertised name carries the product prefix.
pub open spec fn spec_is_product_name(name: Seq<char>) -> bool {
    contains_bytes(encode_utf8(name), "BH-".spec_bytes())
}

/// Some already-accepted descriptor carries this device identifier.
pub open spec fn spec_seen(devices: Seq<BleDevice>, id: Seq<char>) -> bool {
    exists|i: int| 0 <= i < devices.len() && #[trigger] devices[i].id@ == id
}

/// Whether a scan in the given state accepts the advertisement: it must
/// carry a name with the product prefix, and its identifier must not have
/// been seen yet (first-seen wins).
pub open spec fn spec_scan_accepts(devices: Seq<BleDevice>, ad: Advertisement) -> bool {
    &&& ad.local_name matches Some(n) && spec_is_product_name(n@)
    &&& !spec_seen(devices, ad.device_id@)
}

/// The descriptor an accepted advertisement produces.
pub open spec fn spec_descriptor_for(ad: Advertisement, d: BleDevice) -> bool {
    ad.local_name matches Some(n) && {
        &&& d.id@ == ad.device_id@
        &&& d.name@ == n@
        &&& d.address@ == ad.device_id@
        &&& d.limb_type == limb_type_for_name(encode_utf8(n@))
        &&& match limb_type_for_name(encode_utf8(n@)) {
            Some(l) => d.limb_name matches Some(nm) && nm@ == limb_display_name(l),
            None => d.limb_name is None,
        }
        &&& d.rssi == ad.rssi
        &&& d.is_connectable == ad.is_connectable
    }
}

/// The state of one scan: everything accepted so far, in discovery order.
pub struct ScanAccumulator {
    pub devices: Vec<BleDevice>,
}

impl ScanAccumulator {
    /// An empty scan.
    pub fn new() -> (s: Self)
        ensures
            s.devices@ == Seq::<BleDevice>::empty(),
    {
        ScanAccumulator { devices: Vec::new() }
    }

    /// Whether this device identifier was already accepted in this scan.
    fn seen(&self, id: &String) -> (r: bool)
        ensures
            r == spec_seen(self.devices@, id@),
    {
        let n = self.devices.len();
        let mut i: usize = 0;
        while i < n
            invariant
                n == self.devices@.len(),
                i <= n,
                forall|j: int| 0 <= j < i ==> #[trigger] self.devices@[j].id@ != id@,
            decreases n - i,
        {
            if self.devices[i].id == *id {
                return true;
            }
            i += 1;
        }
        false
    }

    /// Offers one advertisement to the scan. Exactly the advertisements
    /// that `spec_scan_accepts` admits are appended, as the descriptor
    /// `spec_descriptor_for` describes; everything else leaves the scan
    /// unchanged.
    pub fn offer(&mut self, ad: &Advertisement) -> (accepted: bool)
        ensures
            accepted == spec_scan_accepts(old(self).devices@, *ad),
            !accepted ==> *final(self) == *old(self),
            accepted ==> final(self).devices@.len() == old(self).devices@.len() + 1
                && final(self).devices@.subrange(0, old(self).devices@.len() as int) == old(
                self,
            ).devices@ && spec_descriptor_for(*ad, final(self).devices@.last()),
    {
        let name = match &ad.local_name {
            Some(n) => n,
            None => {
                return false;
            },
        };
        if !contains_subslice(name.as_str().as_bytes(), "BH-".as_bytes()) {
            return false;
        }
        if self.seen(&ad.device_id) {
            return false;
        }
        let limb = infer_limb_type(name.as_str());
        let limb_name = match limb {
            Some(l) => Some(String::from_str(l.name())),
            None => None,
        };
        let d = BleDevice {
            id: ad.device_id.clone(),
            name: name.clone(),
            address: ad.device_id.clone(),
            limb_type: limb,
            limb_name,
            rssi: ad.rssi,
            is_connectable: ad.is_connectable,
        };
        self.devices.push(d);
        proof {
            assert(self.devices@.subrange(0, old(self).devices@.len() as int) =~= old(
                self,
            ).devices@);
        }
        true
    }
}

/// Whether an advertisement is the one a targeted search is looking for.
pub fn advertisement_matches(ad: &Advertisement, device_id: &String) -> (r: bool)
    ensures
        r == (ad.device_id@ == device_id@),
{
    ad.device_id == *device_id
}

/// The effective display name of a found device, as a character sequence.
pub open spec fn spec_found_name(ad: Advertisement) -> Seq<char> {
    match ad.local_name {
        Some(n) => n@,
        None => "Dispositivo Desconocido"@,
    }
}

/// The name under which a found device is registered: its advertised
/// local name, or a fixed placeholder when it advertises none.
pub fn found_device_name(ad: &Advertisement) -> (r: String)
    ensures
        r@ == spec_found_name(*ad),
{
    match &ad.local_name {
        Some(n) => n.clone(),
        None => String::from_str("Dispositivo Desconocido"),
    }
}

} // verus!
