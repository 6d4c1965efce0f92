//! Which devices Streamduck connects to by itself: those on the autoconnect list that a
//! driver reports and that have no live core yet.

use vstd::prelude::*;
use crate::device::{identifier_view, DeviceIdentifier};

verus! {

/// A device identifier as text.
pub type IdentifierView = (Seq<char>, Seq<char>, Seq<char>, Seq<char>);

/// Views of a list of identifiers.
pub open spec fn ids_view(s: Seq<DeviceIdentifier>) -> Seq<IdentifierView> {
    s.map_values(|d: DeviceIdentifier| identifier_view(d))
}

/// Devices that should be connected to automatically, each once
pub struct AutoconnectList {
    devices: Vec<DeviceIdentifier>,
}

impl AutoconnectList {
    #[verifier::type_invariant]
    spec fn each_once(self) -> bool {
        ids_view(self.devices@).no_duplicates()
    }

    /// The devices on the list, in the order they were added
    pub closed spec fn ids(self) -> Seq<IdentifierView> {
        ids_view(self.devices@)
    }

    /// Every device is on the list once; does nothing when run
    pub fn lemma_each_once(&self)
        ensures
            self.ids().no_duplicates(),
    {
        proof {
            use_type_invariant(self);
        }
    }

    /// An empty list
    pub fn new() -> (r: Self)
        ensures
            r.ids().len() == 0,
    {
        let r = AutoconnectList { devices: Vec::new() };
        assert(ids_view(r.devices@) =~= Seq::<IdentifierView>::empty());
        r
    }

    /// Whether a device is on the list
    pub fn contains(&self, device: &DeviceIdentifier) -> (r: bool)
        ensures
            r == self.ids().contains(identifier_view(*device)),
    {
        let mut i: usize = 0;
        while i < self.devices.len()
            invariant
                i <= self.devices@.len(),
                forall|j: int| 0 <= j < i ==> ids_view(self.devices@)[j] != identifier_view(*device),
            decreases self.devices@.len() - i,
        {
            if self.devices[i].same_as(device) {
                assert(ids_view(self.devices@)[i as int] == identifier_view(*device));
                return true;
            }
            i += 1;
        }
        false
    }

    /// Adds device to autoconnect, unless it is on the list already; true if it was added,
    /// and the config is then to be saved
    pub fn add(&mut self, device: &DeviceIdentifier) -> (added: bool)
        ensures
            added == !old(self).ids().contains(identifier_view(*device)),
            added ==> final(self).ids() == old(self).ids().push(identifier_view(*device)),
            !added ==> final(self).ids() == old(self).ids(),
    {
        proof {
            use_type_invariant(&*self);
        }
        if self.contains(device) {
            return false;
        }
        let copy = device.duplicate();
        let ghost before = self.devices@;
        let mut devices = Vec::new();
        std::mem::swap(&mut devices, &mut self.devices);
        devices.push(copy);
        proof {
            assert(ids_view(devices@) =~= ids_view(before).push(identifier_view(*device)));
        }
        self.devices = devices;
        true
    }

    /// Removes device from autoconnect; true if it was on the list, and the config is then to
    /// be saved
    pub fn remove(&mut self, device: &DeviceIdentifier) -> (removed: bool)
        ensures
            removed == old(self).ids().contains(identifier_view(*device)),
            !final(self).ids().contains(identifier_view(*device)),
            forall|v: IdentifierView| v != identifier_view(*device) ==> (final(self).ids().contains(v) <==> old(self).ids().contains(v)),
    {
        proof {
            use_type_invariant(&*self);
        }
        let ghost before = self.devices@;
        let mut i: usize = 0;
        while i < self.devices.len()
            invariant
                i <= self.devices@.len(),
                self.devices@ == before,
                ids_view(before).no_duplicates(),
                ids_view(before) == old(self).ids(),
                forall|j: int| 0 <= j < i ==> ids_view(self.devices@)[j] != identifier_view(*device),
            decreases self.devices@.len() - i,
        {
            if self.devices[i].same_as(device) {
                let mut devices = Vec::new();
                std::mem::swap(&mut devices, &mut self.devices);
                devices.remove(i);
                proof {
                    let v = identifier_view(*device);
                    let old_ids = ids_view(before);
                    assert(ids_view(devices@) =~= old_ids.remove(i as int));
                    assert(old_ids[i as int] == v);
                    assert(old_ids.contains(v));
                    assert forall|a: int, b: int| 0 <= a < b < ids_view(devices@).len() implies ids_view(devices@)[a] != ids_view(devices@)[b] by {
                        let a2 = if a < i { a } else { a + 1 };
                        let b2 = if b < i { b } else { b + 1 };
                        assert(ids_view(devices@)[a] == old_ids[a2]);
                        assert(ids_view(devices@)[b] == old_ids[b2]);
                    }
                    assert forall|w: IdentifierView| #![auto] ids_view(devices@).contains(w) <==> (old_ids.contains(w) && w != v) by {
                        if ids_view(devices@).contains(w) {
                            let k = choose|k: int| 0 <= k < ids_view(devices@).len() && ids_view(devices@)[k] == w;
                            let k2 = if k < i { k } else { k + 1 };
                            assert(ids_view(devices@)[k] == old_ids[k2]);
                            assert(k2 != i);
                        }
                        if old_ids.contains(w) && w != v {
                            let k = choose|k: int| 0 <= k < old_ids.len() && old_ids[k] == w;
                            assert(k != i);
                            let k2 = if k < i { k } else { k - 1 };
                            assert(ids_view(devices@)[k2] == old_ids[k]);
                        }
                    }
                }
                self.devices = devices;
                return true;
            }
            i += 1;
        }
        false
    }
}

/// Whether some core of the device is live.
pub open spec fn has_live_core(cores: Seq<(DeviceIdentifier, bool)>, device: IdentifierView) -> bool {
    exists|j: int| 0 <= j < cores.len() && identifier_view(#[trigger] cores[j].0) == device && cores[j].1
}

/// Whether a reported device is to be connected to: it is on the autoconnect list and none of
/// its cores is live.
pub open spec fn to_connect(autoconnect: Seq<IdentifierView>, cores: Seq<(DeviceIdentifier, bool)>, device: IdentifierView) -> bool {
    autoconnect.contains(device) && !has_live_core(cores, device)
}

/// Positions, in increasing order, of the reported devices to connect to; `cores` holds each
/// core with whether it is live
pub fn devices_to_connect(discovered: &Vec<DeviceIdentifier>, autoconnect: &AutoconnectList, cores: &Vec<(DeviceIdentifier, bool)>) -> (r: Vec<usize>)
    ensures
        forall|i: int| 0 <= i < discovered@.len() ==> (r@.contains(i as usize) <==> to_connect(autoconnect.ids(), cores@,
            identifier_view(#[trigger] discovered@[i]))),
        forall|k: int| 0 <= k < r@.len() ==> (#[trigger] r@[k]) < discovered@.len(),
        forall|a: int, b: int| 0 <= a < b < r@.len() ==> #[trigger] r@[a] < #[trigger] r@[b],
{
    let mut r: Vec<usize> = Vec::new();
    let mut i: usize = 0;
    while i < discovered.len()
        invariant
            i <= discovered@.len(),
            forall|j: int| 0 <= j < i ==> (r@.contains(j as usize) <==> to_connect(autoconnect.ids(), cores@,
                identifier_view(#[trigger] discovered@[j]))),
            forall|k: int| 0 <= k < r@.len() ==> (#[trigger] r@[k]) < i,
            forall|a: int, b: int| 0 <= a < b < r@.len() ==> #[trigger] r@[a] < #[trigger] r@[b],
        decreases discovered@.len() - i,
    {
        let device = &discovered[i];
        let mut live = false;
        let mut j: usize = 0;
        while j < cores.len()
            invariant
                j <= cores@.len(),
                live <==> exists|m: int| 0 <= m < j && identifier_view(#[trigger] cores@[m].0) == identifier_view(*device) && cores@[m].1,
            decreases cores@.len() - j,
        {
            if cores[j].1 && cores[j].0.same_as(device) {
                live = true;
            }
            j += 1;
        }
        let ghost before = r@;
        if autoconnect.contains(device) && !live {
            r.push(i);
            proof {
                assert forall|j2: int| 0 <= j2 < i + 1 implies (r@.contains(j2 as usize) <==> to_connect(autoconnect.ids(), cores@,
                    identifier_view(#[trigger] discovered@[j2]))) by {
                    if j2 < i {
                        if before.contains(j2 as usize) {
                            let k = choose|k: int| 0 <= k < before.len() && before[k] == j2 as usize;
                            assert(r@[k] == j2 as usize);
                        }
                        if r@.contains(j2 as usize) {
                            let k = choose|k: int| 0 <= k < r@.len() && r@[k] == j2 as usize;
                            if k == before.len() {
                                assert(r@[k] == i);
                            } else {
                                assert(before[k] == r@[k]);
                            }
                        }
                    } else {
                        assert(r@[before.len() as int] == i);
                    }
                }
            }
        } else {
            proof {
                assert forall|j2: int| 0 <= j2 < i + 1 implies (r@.contains(j2 as usize) <==> to_connect(autoconnect.ids(), cores@,
                    identifier_view(#[trigger] discovered@[j2]))) by {
                    if j2 == i && r@.contains(j2 as usize) {
                        let k = choose|k: int| 0 <= k < r@.len() && r@[k] == j2 as usize;
                        assert(r@[k] < i);
                    }
                }
            }
        }
        i += 1;
    }
    r
}

} // verus!
