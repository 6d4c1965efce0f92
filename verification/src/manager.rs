//! Manager of streamduck cores: which devices are kept connected, and their cores.
//!
//! Talking to the USB bus and to the config files happens around these calls; what is
//! kept here is which device is managed, under which serial number, and with which core.

use vstd::prelude::*;
use crate::keyed::{KeyedList, MapKey};
use crate::modules::SDModule;
use crate::config::DeviceConfig;
use crate::panel::stack_view;
use crate::settings::{is_default_device_config, same_settings, Config};
use crate::sdcore::{CoreEventView, CoreHandle, DeviceThreadCommunication, SDCore};
use crate::text::{has_text, to_owned};

verus! {

/// Device data
pub struct DeviceData<M: SDModule> {
    /// Core that holds connection to the device
    pub core: SDCore<M>,
    /// Vendor ID
    pub vid: u16,
    /// Product ID
    pub pid: u16,
    /// Serial number
    pub serial: String,
}

/// The device data that a manager keeps for a serial number after an insertion.
pub open spec fn data_is<M: SDModule>(d: DeviceData<M>, core: SDCore<M>, vid: u16, pid: u16, serial: Seq<char>) -> bool {
    &&& d.core == core
    &&& d.vid == vid
    &&& d.pid == pid
    &&& d.serial@ == serial
}

/// A core as connecting leaves it: the brightness of the device's config `dc` sent to the
/// device and kept as the core's brightness, and the root panel of `dc` as the only panel of
/// its stack, with the modules told of the new stack; the rest as it was.
pub open spec fn started<M: SDModule>(c: SDCore<M>, core: SDCore<M>, dc: DeviceConfig) -> bool {
    &&& c.serial_number == core.serial_number
    &&& c.module_manager == core.module_manager
    &&& c.device_config.brightness == dc.brightness
    &&& c.device_config.vid == core.device_config.vid
    &&& c.device_config.pid == core.device_config.pid
    &&& c.device_config.serial == core.device_config.serial
    &&& c.device_config.layout == core.device_config.layout
    &&& c.device_config.plugin_data == core.device_config.plugin_data
    &&& c.device_config.dirty_state == core.device_config.dirty_state
    &&& c.closed == core.closed
    &&& c.socket_manager == core.socket_manager
    &&& c.commands@ == core.commands@.push(DeviceThreadCommunication::SetBrightness(dc.brightness))
    &&& stack_view(c.current_stack@) == seq![dc.layout@]
    &&& c.needs_redraw
    &&& c.notices@.len() == core.notices@.len() + 1
    &&& c.notices@.drop_last() == core.notices@
    &&& c.notices@.last().event@ == (CoreEventView::StackReset { new_panel: dc.layout@ })
}

/// Devices found on the bus that can still be added: those with a serial number that is
/// not managed yet, in the order they were found.
pub open spec fn available(found: Seq<(u16, u16, Option<String>)>, added: Set<Seq<char>>) -> Seq<(u16, u16, Seq<char>)>
    decreases found.len(),
{
    if found.len() == 0 {
        Seq::empty()
    } else {
        let prev = available(found.drop_last(), added);
        match found.last().2 {
            Some(serial) => if added.contains(serial@) {
                prev
            } else {
                prev.push((found.last().0, found.last().1, serial@))
            },
            None => prev,
        }
    }
}

/// Views of listed devices.
pub open spec fn listed_view(r: Seq<(u16, u16, String)>) -> Seq<(u16, u16, Seq<char>)> {
    r.map_values(|t: (u16, u16, String)| (t.0, t.1, t.2@))
}

/// Whether a serial number is among listed devices.
pub open spec fn lists_serial(r: Seq<(u16, u16, Seq<char>)>, serial: Seq<char>) -> bool {
    exists|k: int| 0 <= k < r.len() && (#[trigger] r[k]).2 == serial
}

/// Core manager
pub struct CoreManager<M: SDModule> {
    devices: KeyedList<String, DeviceData<M>>,
}

impl<M: SDModule> CoreManager<M> {
    #[verifier::type_invariant]
    spec fn serials_match(self) -> bool {
        forall|s: Seq<char>| #[trigger] self.devices.map().dom().contains(s) ==> self.devices.map()[s].serial@ == s
    }

    /// Managed devices by serial number
    pub closed spec fn devices(self) -> Map<Seq<char>, DeviceData<M>> {
        self.devices.map()
    }

    /// Every device is kept under its own serial number, and there are finitely many; does
    /// nothing when run.
    pub fn lemma_serials(&self)
        ensures
            forall|s: Seq<char>| #[trigger] self.devices().dom().contains(s) ==> self.devices()[s].serial@ == s,
            self.devices().dom().finite(),
    {
        proof {
            use_type_invariant(self);
        }
        self.devices.lemma_wf();
    }

    /// Creates a manager with no devices
    pub fn new() -> (r: Self)
        ensures
            r.devices() == Map::<Seq<char>, DeviceData<M>>::empty(),
    {
        CoreManager { devices: KeyedList::new() }
    }

    /// Adds device to automatic reconnection, with the given (blank) core; a device that is
    /// already managed is kept as it is
    pub fn add_device(&mut self, vid: u16, pid: u16, serial: &str, core: SDCore<M>) -> (added: bool)
        ensures
            added == !old(self).devices().dom().contains(serial@),
            added ==> final(self).devices() == old(self).devices().insert(serial@, final(self).devices()[serial@]),
            added ==> data_is(final(self).devices()[serial@], core, vid, pid, serial@),
            !added ==> final(self).devices() == old(self).devices(),
    {
        proof {
            use_type_invariant(&*self);
        }
        let key = to_owned(serial);
        if self.devices.contains_key(&key) {
            return false;
        }
        let data = DeviceData { core, vid, pid, serial: key.key_copy() };
        self.insert_data(key, data);
        true
    }

    /// Keeps device data under its own serial number, replacing what was there
    fn insert_data(&mut self, key: String, data: DeviceData<M>)
        requires
            data.serial@ == key@,
        ensures
            final(self).devices() == old(self).devices().insert(key@, data),
    {
        proof {
            use_type_invariant(&*self);
        }
        let mut devices = KeyedList::new();
        std::mem::swap(&mut devices, &mut self.devices);
        devices.insert(key, data);
        self.devices = devices;
    }

    /// Connects a device: gives it the default config where the config has none loaded for
    /// it (the caller then saves it), and keeps the core once the connection to it is made,
    /// after sending the brightness of the device's config to it and putting the root panel of
    /// that config alone on its stack; `None` stands for a connection that failed, and leaves
    /// the managed devices as they were
    pub fn connect_device(
        &mut self,
        config: &mut Config,
        vid: u16,
        pid: u16,
        serial: &str,
        core: Option<SDCore<M>>,
    ) -> (r: Result<(), String>)
        ensures
            old(config).loaded_configs.map().dom().contains(serial@) ==> final(config).loaded_configs
                == old(config).loaded_configs,
            !old(config).loaded_configs.map().dom().contains(serial@) ==> final(config).loaded_configs.map()
                == old(config).loaded_configs.map().insert(serial@, final(config).loaded_configs.map()[serial@])
                && is_default_device_config(final(config).loaded_configs.map()[serial@], vid, pid, serial@),
            same_settings(*final(config), *old(config)),
            r is Ok <==> core is Some,
            core is Some ==> final(self).devices() == old(self).devices().insert(serial@, final(self).devices()[serial@]),
            core is Some ==> started(final(self).devices()[serial@].core, core->0,
                final(config).loaded_configs.map()[serial@]),
            core is Some ==> final(self).devices()[serial@].vid == vid && final(self).devices()[serial@].pid == pid
                && final(self).devices()[serial@].serial@ == serial@,
            core is None ==> final(self).devices() == old(self).devices(),
            r matches Err(e) ==> e@ == "Failed to connect"@,
    {
        config.ensure_device_config(vid, pid, serial);
        let ghost dc = config.loaded_configs.map()[serial@];
        let device_config = config.get_device_config(serial).unwrap();
        let brightness = device_config.brightness;
        let layout = device_config.layout.duplicate();
        match core {
            Some(core) => {
                let mut handle = CoreHandle::wrap(core);
                handle.set_brightness(brightness);
                handle.reset_stack(layout);
                proof {
                    assert(stack_view(handle.core.current_stack@) =~= seq![dc.layout@]);
                }
                let key = to_owned(serial);
                let data = DeviceData { core: handle.core, vid, pid, serial: key.key_copy() };
                self.insert_data(key, data);
                Ok(())
            },
            None => Err(to_owned("Failed to connect")),
        }
    }

    /// Removes device from automatic reconnection and gives back its data, so that its core
    /// can be closed
    pub fn remove_device(&mut self, serial: &str) -> (removed: Option<DeviceData<M>>)
        ensures
            final(self).devices() == old(self).devices().remove(serial@),
            match removed {
                Some(d) => old(self).devices().dom().contains(serial@) && d == old(self).devices()[serial@],
                None => !old(self).devices().dom().contains(serial@),
            },
    {
        proof {
            use_type_invariant(&*self);
        }
        let key = to_owned(serial);
        let mut devices = KeyedList::new();
        std::mem::swap(&mut devices, &mut self.devices);
        let removed = devices.remove(&key);
        self.devices = devices;
        removed
    }

    /// Returns if specific device is in managed list
    pub fn is_device_added(&self, serial: &str) -> (r: bool)
        ensures
            r == self.devices().dom().contains(serial@),
    {
        let key = to_owned(serial);
        self.devices.contains_key(&key)
    }

    /// Serial numbers of the managed devices, each once
    pub fn list_added_devices(&self) -> (r: Vec<String>)
        ensures
            forall|s: Seq<char>| #[trigger] has_text(r@, s) <==> self.devices().dom().contains(s),
            r@.len() == self.devices().dom().len(),
    {
        self.devices.lemma_wf();
        let r = self.devices.keys();
        proof {
            assert forall|s: Seq<char>| #[trigger] has_text(r@, s) <==> self.devices().dom().contains(s) by {
                if self.devices().dom().contains(s) {
                    let i = choose|i: int| 0 <= i < self.devices.entries().len() && (
                    #[trigger] self.devices.entries()[i]).0.key_view() == s;
                    assert(r@[i]@ == s);
                }
                if has_text(r@, s) {
                    let i = choose|i: int| 0 <= i < r@.len() && (#[trigger] r@[i])@ == s;
                    assert(r@[i] == self.devices.entries()[i].0);
                }
            }
        }
        r
    }

    /// Lists detected devices that are not managed yet, given what was found on the bus
    pub fn list_available_devices(&self, found: &Vec<(u16, u16, Option<String>)>) -> (r: Vec<(u16, u16, String)>)
        ensures
            listed_view(r@) == available(found@, self.devices().dom()),
    {
        let mut r: Vec<(u16, u16, String)> = Vec::new();
        let mut i: usize = 0;
        while i < found.len()
            invariant
                i <= found@.len(),
                listed_view(r@) == available(found@.take(i as int), self.devices().dom()),
            decreases found@.len() - i,
        {
            let ghost before = r@;
            proof {
                assert(found@.take(i + 1).drop_last() =~= found@.take(i as int));
            }
            match &found[i].2 {
                Some(serial) => {
                    if !self.is_device_added(serial.as_str()) {
                        r.push((found[i].0, found[i].1, serial.key_copy()));
                        proof {
                            assert(listed_view(r@) =~= listed_view(before).push((found@[i as int].0, found@[i as int].1, serial@)));
                        }
                    }
                },
                None => {},
            }
            i += 1;
        }
        proof {
            assert(found@.take(found@.len() as int) =~= found@);
        }
        r
    }

    /// Gets device data from managed devices, unless its connection has ended
    pub fn get_device(&self, serial: &str) -> (r: Option<&DeviceData<M>>)
        ensures
            match r {
                Some(d) => self.devices().dom().contains(serial@) && *d == self.devices()[serial@] && !d.core.closed,
                None => !self.devices().dom().contains(serial@) || self.devices()[serial@].core.closed,
            },
    {
        let key = to_owned(serial);
        match self.devices.get(&key) {
            Some(d) => if d.core.is_closed() {
                None
            } else {
                Some(d)
            },
            None => None,
        }
    }

    /// Managed devices whose connection has ended, as vendor ID, product ID and serial number,
    /// each device once
    pub fn get_disconnected(&self) -> (r: Vec<(u16, u16, String)>)
        ensures
            forall|s: Seq<char>| #[trigger] lists_serial(listed_view(r@), s) <==> (self.devices().dom().contains(s)
                && self.devices()[s].core.closed),
            forall|k: int| 0 <= k < r@.len() ==> self.devices().dom().contains((#[trigger] r@[k]).2@)
                && self.devices()[r@[k].2@].vid == r@[k].0 && self.devices()[r@[k].2@].pid == r@[k].1,
    {
        self.devices.lemma_wf();
        let mut r: Vec<(u16, u16, String)> = Vec::new();
        let mut i: usize = 0;
        let n = self.devices.len();
        while i < n
            invariant
                n == self.devices.entries().len(),
                i <= n,
                forall|s: Seq<char>| #[trigger] lists_serial(listed_view(r@), s) <==> exists|j: int| 0 <= j < i
                    && (#[trigger] self.devices.entries()[j]).0@ == s && self.devices.entries()[j].1.core.closed,
                forall|k: int| 0 <= k < r@.len() ==> exists|j: int| 0 <= j < i
                    && (#[trigger] self.devices.entries()[j]).0@ == (#[trigger] r@[k]).2@
                    && self.devices.entries()[j].1.vid == r@[k].0 && self.devices.entries()[j].1.pid == r@[k].1,
            decreases n - i,
        {
            let ghost before = r@;
            let d = self.devices.value_at(i);
            if d.core.is_closed() {
                r.push((d.vid, d.pid, self.devices.key_at(i).key_copy()));
                proof {
                    assert(listed_view(r@) =~= listed_view(before).push((d.vid, d.pid, self.devices.entries()[i as int].0@)));
                    assert forall|s: Seq<char>| #[trigger] lists_serial(listed_view(r@), s) <==> exists|j: int| 0 <= j < i + 1
                        && (#[trigger] self.devices.entries()[j]).0@ == s && self.devices.entries()[j].1.core.closed by {
                        if lists_serial(listed_view(r@), s) {
                            let k = choose|k: int| 0 <= k < listed_view(r@).len() && (#[trigger] listed_view(r@)[k]).2 == s;
                            if k < before.len() {
                                assert(listed_view(before)[k] == listed_view(r@)[k]);
                                assert(lists_serial(listed_view(before), s));
                            }
                        }
                        if lists_serial(listed_view(before), s) {
                            let k = choose|k: int| 0 <= k < listed_view(before).len() && (#[trigger] listed_view(before)[k]).2 == s;
                            assert(listed_view(r@)[k] == listed_view(before)[k]);
                        }
                        if exists|j: int| 0 <= j < i + 1
                            && (#[trigger] self.devices.entries()[j]).0@ == s && self.devices.entries()[j].1.core.closed {
                            let j = choose|j: int| 0 <= j < i + 1
                                && (#[trigger] self.devices.entries()[j]).0@ == s && self.devices.entries()[j].1.core.closed;
                            if j == i {
                                assert(listed_view(r@)[before.len() as int].2 == s);
                            }
                        }
                    }
                    assert forall|k: int| 0 <= k < r@.len() implies exists|j: int| 0 <= j < i + 1
                        && (#[trigger] self.devices.entries()[j]).0@ == (#[trigger] r@[k]).2@
                        && self.devices.entries()[j].1.vid == r@[k].0 && self.devices.entries()[j].1.pid == r@[k].1 by {
                        if k < before.len() {
                            assert(r@[k] == before[k]);
                        } else {
                            assert(self.devices.entries()[i as int].0@ == r@[k].2@);
                        }
                    }
                }
            } else {
                proof {
                    assert forall|s: Seq<char>| #[trigger] lists_serial(listed_view(r@), s) <==> exists|j: int| 0 <= j < i + 1
                        && (#[trigger] self.devices.entries()[j]).0@ == s && self.devices.entries()[j].1.core.closed by {
                        if exists|j: int| 0 <= j < i + 1
                            && (#[trigger] self.devices.entries()[j]).0@ == s && self.devices.entries()[j].1.core.closed {
                            let j = choose|j: int| 0 <= j < i + 1
                                && (#[trigger] self.devices.entries()[j]).0@ == s && self.devices.entries()[j].1.core.closed;
                            assert(j != i);
                        }
                    }
                }
            }
            i += 1;
        }
        proof {
            assert forall|s: Seq<char>| #[trigger] lists_serial(listed_view(r@), s) <==> (self.devices().dom().contains(s)
                && self.devices()[s].core.closed) by {
                if self.devices().dom().contains(s) {
                    let j = choose|j: int| 0 <= j < self.devices.entries().len() && (
                    #[trigger] self.devices.entries()[j]).0.key_view() == s;
                    assert(self.devices()[s] == self.devices.entries()[j].1);
                }
                if exists|j: int| 0 <= j < n
                    && (#[trigger] self.devices.entries()[j]).0@ == s && self.devices.entries()[j].1.core.closed {
                    let j = choose|j: int| 0 <= j < n
                        && (#[trigger] self.devices.entries()[j]).0@ == s && self.devices.entries()[j].1.core.closed;
                    assert(self.devices()[s] == self.devices.entries()[j].1);
                }
            }
            assert forall|k: int| 0 <= k < r@.len() implies self.devices().dom().contains((#[trigger] r@[k]).2@)
                && self.devices()[r@[k].2@].vid == r@[k].0 && self.devices()[r@[k].2@].pid == r@[k].1 by {
                let j = choose|j: int| 0 <= j < n
                    && (#[trigger] self.devices.entries()[j]).0@ == (#[trigger] r@[k]).2@
                    && self.devices.entries()[j].1.vid == r@[k].0 && self.devices.entries()[j].1.pid == r@[k].1;
                assert(self.devices()[self.devices.entries()[j].0.key_view()] == self.devices.entries()[j].1);
            }
        }
        r
    }
}

/// Adding a device that was not managed and then removing it leaves the managed devices as
/// they were, and gives back the data that was added.
pub proof fn law_add_then_remove<M: SDModule>(devices: Map<Seq<char>, DeviceData<M>>, serial: Seq<char>, data: DeviceData<M>)
    requires
        !devices.dom().contains(serial),
    ensures
        devices.insert(serial, data).remove(serial) == devices,
        devices.insert(serial, data)[serial] == data,
{
    assert(devices.insert(serial, data).remove(serial) =~= devices);
}

/// Removing a device and adding it back with the same data restores the managed devices.
pub proof fn law_remove_then_add<M: SDModule>(devices: Map<Seq<char>, DeviceData<M>>, serial: Seq<char>)
    requires
        devices.dom().contains(serial),
    ensures
        devices.remove(serial).insert(serial, devices[serial]) == devices,
{
    assert(devices.remove(serial).insert(serial, devices[serial]) =~= devices);
}

/// A managed device is never listed among those that can be added.
pub proof fn law_added_not_available(found: Seq<(u16, u16, Option<String>)>, added: Set<Seq<char>>, i: int)
    requires
        0 <= i < available(found, added).len(),
    ensures
        !added.contains(available(found, added)[i].2),
    decreases found.len(),
{
    if found.len() > 0 {
        let prev = available(found.drop_last(), added);
        if i < prev.len() {
            law_added_not_available(found.drop_last(), added, i);
        }
    }
}

} // verus!
