//! The device registry: the single source of truth for what is connected,
//! keyed by device identifier. The async task handles and live radio
//! handles that accompany each entry are owned by the runtime outside this
//! crate, keyed by the same identifiers; this registry carries the
//! caller-visible connection labels and decides registration, removal and
//! the outcome of a connect request.

use vstd::prelude::*;
use vstd::string::StringExecFns;
use vstd::utf8::encode_utf8;

use crate::errors::BleError;
use crate::limb::LimbType;
use crate::limb::determine_limb_type_by_pattern;
use crate::limb::spec_determine_limb;
use crate::scan::Advertisement;
use crate::scan::found_device_name;
use crate::scan::spec_found_name;

verus! {

/// One connected device: its identifier and its caller-visible label.
#[derive(Debug, Clone)]
pub struct RegistryEntry {
    pub device_id: String,
    pub label: String,
}

/// The registry of connected devices.
pub struct DeviceRegistry {
    pub entries: Vec<RegistryEntry>,
}

/// The label of the first entry with the given identifier, if any.
pub open spec fn spec_reg_lookup(entries: Seq<RegistryEntry>, id: Seq<char>) -> Option<Seq<char>>
    decreases entries.len(),
{
    if entries.len() == 0 {
        None
    } else if entries[0].device_id@ == id {
        Some(entries[0].label@)
    } else {
        spec_reg_lookup(entries.subrange(1, entries.len() as int), id)
    }
}

/// Each device identifier occurs at most once.
pub open spec fn registry_wf(r: DeviceRegistry) -> bool {
    forall|i: int, j: int|
        0 <= i < j < r.entries@.len() ==> r.entries@[i].device_id@ != r.entries@[j].device_id@
}

/// An entry found at index `i`, with no earlier entry for the same
/// identifier, is what `spec_reg_lookup` denotes.
proof fn lemma_reg_lookup_at_index(entries: Seq<RegistryEntry>, id: Seq<char>, i: int)
    requires
        0 <= i < entries.len(),
        entries[i].device_id@ == id,
        forall|j: int| 0 <= j < i ==> entries[j].device_id@ != id,
    ensures
        spec_reg_lookup(entries, id) == Some(entries[i].label@),
    decreases entries.len(),
{
    if i > 0 {
        lemma_reg_lookup_at_index(entries.subrange(1, entries.len() as int), id, i - 1);
    }
}

/// When no entry carries the identifier, the lookup finds none.
proof fn lemma_reg_lookup_absent(entries: Seq<RegistryEntry>, id: Seq<char>)
    requires
        forall|j: int| 0 <= j < entries.len() ==> entries[j].device_id@ != id,
    ensures
        spec_reg_lookup(entries, id) is None,
    decreases entries.len(),
{
    if entries.len() > 0 {
        lemma_reg_lookup_absent(entries.subrange(1, entries.len() as int), id);
    }
}

/// Replacing the entry at `i` by one with the same identifier leaves
/// every other identifier's lookup unchanged.
proof fn lemma_reg_lookup_update_other(
    entries: Seq<RegistryEntry>,
    i: int,
    r: RegistryEntry,
    id2: Seq<char>,
)
    requires
        0 <= i < entries.len(),
        entries[i].device_id@ == r.device_id@,
        id2 != r.device_id@,
    ensures
        spec_reg_lookup(entries.update(i, r), id2) == spec_reg_lookup(entries, id2),
    decreases entries.len(),
{
    let updated = entries.update(i, r);
    if i == 0 {
        assert(updated.subrange(1, updated.len() as int) =~= entries.subrange(
            1,
            entries.len() as int,
        ));
    } else {
        assert(updated[0] == entries[0]);
        let tail = entries.subrange(1, entries.len() as int);
        lemma_reg_lookup_update_other(tail, i - 1, r, id2);
        assert(updated.subrange(1, updated.len() as int) =~= tail.update(i - 1, r));
    }
}

/// Appending an entry for one identifier leaves every other identifier's
/// lookup unchanged.
proof fn lemma_reg_lookup_push_other(entries: Seq<RegistryEntry>, r: RegistryEntry, id2: Seq<char>)
    requires
        id2 != r.device_id@,
    ensures
        spec_reg_lookup(entries.push(r), id2) == spec_reg_lookup(entries, id2),
    decreases entries.len(),
{
    let pushed = entries.push(r);
    if entries.len() == 0 {
        assert(pushed[0] == r);
        assert(pushed.subrange(1, pushed.len() as int) =~= Seq::<RegistryEntry>::empty());
        lemma_reg_lookup_empty(id2);
        assert(spec_reg_lookup(pushed, id2) is None);
        assert(spec_reg_lookup(entries, id2) is None);
    } else {
        assert(pushed[0] == entries[0]);
        let tail = entries.subrange(1, entries.len() as int);
        lemma_reg_lookup_push_other(tail, r, id2);
        assert(pushed.subrange(1, pushed.len() as int) =~= tail.push(r));
    }
}

/// Dropping the entry at `i` leaves every other identifier's lookup
/// unchanged.
proof fn lemma_reg_lookup_remove_other(entries: Seq<RegistryEntry>, i: int, id2: Seq<char>)
    requires
        0 <= i < entries.len(),
        entries[i].device_id@ != id2,
    ensures
        spec_reg_lookup(entries.remove(i), id2) == spec_reg_lookup(entries, id2),
    decreases entries.len(),
{
    let removed = entries.remove(i);
    if i == 0 {
        assert(removed =~= entries.subrange(1, entries.len() as int));
    } else {
        assert(removed[0] == entries[0]);
        let tail = entries.subrange(1, entries.len() as int);
        lemma_reg_lookup_remove_other(tail, i - 1, id2);
        assert(removed.subrange(1, removed.len() as int) =~= tail.remove(i - 1));
    }
}

/// In an empty registry every lookup finds nothing.
pub proof fn lemma_reg_lookup_empty(id: Seq<char>)
    ensures
        spec_reg_lookup(Seq::<RegistryEntry>::empty(), id) is None,
{
}

impl DeviceRegistry {
    /// An empty registry.
    pub fn new() -> (r: Self)
        ensures
            r.entries@ == Seq::<RegistryEntry>::empty(),
            registry_wf(r),
    {
        DeviceRegistry { entries: Vec::new() }
    }

    /// The index of the entry for `device_id`, when one exists.
    fn find_index(&self, device_id: &String) -> (r: Option<usize>)
        ensures
            r matches Some(i) ==> i < self.entries@.len() && self.entries@[i as int].device_id@
                == device_id@ && (forall|j: int|
                0 <= j < i ==> self.entries@[j].device_id@ != device_id@) && spec_reg_lookup(
                self.entries@,
                device_id@,
            ) == Some(self.entries@[i as int].label@),
            r is None ==> spec_reg_lookup(self.entries@, device_id@) is None && (forall|j: int|
                0 <= j < self.entries@.len() ==> self.entries@[j].device_id@ != device_id@),
    {
        let n = self.entries.len();
        let mut i: usize = 0;
        while i < n
            invariant
                n == self.entries@.len(),
                i <= n,
                forall|j: int| 0 <= j < i ==> self.entries@[j].device_id@ != device_id@,
            decreases n - i,
        {
            if self.entries[i].device_id == *device_id {
                proof {
                    lemma_reg_lookup_at_index(self.entries@, device_id@, i as int);
                }
                return Some(i);
            }
            i += 1;
        }
        proof {
            lemma_reg_lookup_absent(self.entries@, device_id@);
        }
        None
    }

    /// Whether the device is registered as connected.
    pub fn is_connected(&self, device_id: &String) -> (r: bool)
        ensures
            r == (spec_reg_lookup(self.entries@, device_id@) is Some),
    {
        self.find_index(device_id).is_some()
    }

    /// The connection label of a device, if it is registered.
    pub fn lookup_label(&self, device_id: &String) -> (r: Option<String>)
        ensures
            match spec_reg_lookup(self.entries@, device_id@) {
                Some(label) => r matches Some(s) && s@ == label,
                None => r is None,
            },
    {
        match self.find_index(device_id) {
            Some(i) => Some(self.entries[i].label.clone()),
            None => None,
        }
    }

    /// Inserts or replaces the entry for `device_id` with the given label.
    fn register_label(&mut self, device_id: &String, label: String)
        requires
            registry_wf(*old(self)),
        ensures
            registry_wf(*final(self)),
            spec_reg_lookup(final(self).entries@, device_id@) == Some(label@),
            forall|id2: Seq<char>|
                id2 != device_id@ ==> spec_reg_lookup(final(self).entries@, id2) == spec_reg_lookup(
                    old(self).entries@,
                    id2,
                ),
    {
        let ghost old_entries = self.entries@;
        let entry = RegistryEntry { device_id: device_id.clone(), label };
        match self.find_index(device_id) {
            Some(i) => {
                self.entries.set(i, entry);
                proof {
                    lemma_reg_lookup_at_index(self.entries@, device_id@, i as int);
                    assert forall|id2: Seq<char>| id2 != device_id@ implies spec_reg_lookup(
                        self.entries@,
                        id2,
                    ) == spec_reg_lookup(old_entries, id2) by {
                        lemma_reg_lookup_update_other(
                            old_entries,
                            i as int,
                            self.entries@[i as int],
                            id2,
                        );
                    }
                }
            },
            None => {
                self.entries.push(entry);
                proof {
                    lemma_reg_lookup_at_index(
                        self.entries@,
                        device_id@,
                        self.entries@.len() - 1,
                    );
                    assert forall|id2: Seq<char>| id2 != device_id@ implies spec_reg_lookup(
                        self.entries@,
                        id2,
                    ) == spec_reg_lookup(old_entries, id2) by {
                        lemma_reg_lookup_push_other(
                            old_entries,
                            self.entries@[self.entries@.len() - 1],
                            id2,
                        );
                        assert(self.entries@ =~= old_entries.push(
                            self.entries@[self.entries@.len() - 1],
                        ));
                    }
                }
            },
        }
    }

    /// Registers a device under its own name, with no person bound.
    pub fn register_device_without_competitor(&mut self, device_id: &String, device_name: &String)
        requires
            registry_wf(*old(self)),
        ensures
            registry_wf(*final(self)),
            spec_reg_lookup(final(self).entries@, device_id@) == Some(device_name@),
            forall|id2: Seq<char>|
                id2 != device_id@ ==> spec_reg_lookup(final(self).entries@, id2) == spec_reg_lookup(
                    old(self).entries@,
                    id2,
                ),
    {
        self.register_label(device_id, device_name.clone());
    }

    /// Registers a device under the label `name (competitor)`.
    pub fn register_connected_device(
        &mut self,
        device_id: &String,
        device_name: &String,
        competitor_name: &String,
    )
        requires
            registry_wf(*old(self)),
        ensures
            registry_wf(*final(self)),
            spec_reg_lookup(final(self).entries@, device_id@) == Some(
                device_name@ + " ("@ + competitor_name@ + ")"@,
            ),
            forall|id2: Seq<char>|
                id2 != device_id@ ==> spec_reg_lookup(final(self).entries@, id2) == spec_reg_lookup(
                    old(self).entries@,
                    id2,
                ),
    {
        let mut label = device_name.clone();
        label.append(" (");
        label.append(competitor_name.as_str());
        label.append(")");
        self.register_label(device_id, label);
    }

    /// Removes a device from the registry. Removing a device that is not
    /// present is a no-op success, not an error.
    pub fn remove_device(&mut self, device_id: &String) -> (was_present: bool)
        requires
            registry_wf(*old(self)),
        ensures
            registry_wf(*final(self)),
            spec_reg_lookup(final(self).entries@, device_id@) is None,
            was_present == (spec_reg_lookup(old(self).entries@, device_id@) is Some),
            !was_present ==> *final(self) == *old(self),
            forall|id2: Seq<char>|
                id2 != device_id@ ==> spec_reg_lookup(final(self).entries@, id2) == spec_reg_lookup(
                    old(self).entries@,
                    id2,
                ),
    {
        let ghost old_entries = self.entries@;
        match self.find_index(device_id) {
            Some(i) => {
                self.entries.remove(i);
                proof {
                    assert forall|j: int|
                        0 <= j < self.entries@.len() implies self.entries@[j].device_id@
                        != device_id@ by {
                        if j < i {
                            assert(self.entries@[j] == old_entries[j]);
                        } else {
                            assert(self.entries@[j] == old_entries[j + 1]);
                        }
                    }
                    lemma_reg_lookup_absent(self.entries@, device_id@);
                    assert forall|id2: Seq<char>| id2 != device_id@ implies spec_reg_lookup(
                        self.entries@,
                        id2,
                    ) == spec_reg_lookup(old_entries, id2) by {
                        lemma_reg_lookup_remove_other(old_entries, i as int, id2);
                    }
                }
                true
            },
            None => false,
        }
    }

    /// The identifiers of every connected device, in registration order.
    pub fn get_connected_devices_list(&self) -> (ids: Vec<String>)
        ensures
            ids@.len() == self.entries@.len(),
            forall|i: int| 0 <= i < ids@.len() ==> ids@[i]@ == self.entries@[i].device_id@,
    {
        let n = self.entries.len();
        let mut ids: Vec<String> = Vec::new();
        let mut i: usize = 0;
        while i < n
            invariant
                n == self.entries@.len(),
                i <= n,
                ids@.len() == i,
                forall|j: int| 0 <= j < i ==> ids@[j]@ == self.entries@[j].device_id@,
            decreases n - i,
        {
            ids.push(self.entries[i].device_id.clone());
            i += 1;
        }
        ids
    }

    /// Empties the registry and hands back the identifiers that were
    /// connected, so the caller can tear each session down; per-device
    /// teardown failures outside never stop the removal.
    pub fn clear_all(&mut self) -> (ids: Vec<String>)
        ensures
            final(self).entries@ == Seq::<RegistryEntry>::empty(),
            registry_wf(*final(self)),
            ids@.len() == old(self).entries@.len(),
            forall|i: int| 0 <= i < ids@.len() ==> ids@[i]@ == old(self).entries@[i].device_id@,
    {
        let ids = self.get_connected_devices_list();
        self.entries.clear();
        proof {
            assert(self.entries@ =~= Seq::<RegistryEntry>::empty());
        }
        ids
    }

    /// Completes a connect request given the outcome of the targeted
    /// scan. When no advertisement matched within the search window, the
    /// request fails with `DeviceNotFound` and the registry is left
    /// unchanged. When one matched, the device is registered — under
    /// `name (competitor)` when a person is supplied, under its own name
    /// otherwise — and the limb role its name advertises is returned for
    /// the session's detector.
    pub fn complete_connect(
        &mut self,
        device_id: &String,
        found: Option<&Advertisement>,
        competitor_name: Option<&String>,
    ) -> (r: Result<LimbType, BleError>)
        requires
            registry_wf(*old(self)),
        ensures
            registry_wf(*final(self)),
            found is None ==> r == Err::<LimbType, BleError>(BleError::DeviceNotFound)
                && *final(self) == *old(self),
            found matches Some(ad) ==> {
                let nm = spec_found_name(*ad);
                &&& r == Ok::<LimbType, BleError>(spec_determine_limb(encode_utf8(nm)))
                &&& spec_reg_lookup(final(self).entries@, device_id@) == Some(
                    match competitor_name {
                        Some(cn) => nm + " ("@ + cn@ + ")"@,
                        None => nm,
                    },
                )
                &&& forall|id2: Seq<char>|
                    id2 != device_id@ ==> spec_reg_lookup(final(self).entries@, id2)
                        == spec_reg_lookup(old(self).entries@, id2)
            },
    {
        let ad = match found {
            Some(ad) => ad,
            None => {
                return Err(BleError::DeviceNotFound);
            },
        };
        let device_name = found_device_name(ad);
        let limb = determine_limb_type_by_pattern(device_name.as_str());
        match competitor_name {
            Some(cn) => self.register_connected_device(device_id, &device_name, cn),
            None => self.register_device_without_competitor(device_id, &device_name),
        }
        Ok(limb)
    }
}

} // verus!
