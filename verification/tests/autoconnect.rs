use streamduck::autoconnect::{devices_to_connect, AutoconnectList};
use streamduck::data::NamespacedName;
use streamduck::device::DeviceIdentifier;

fn id(serial: &str) -> DeviceIdentifier {
    DeviceIdentifier {
        driver_name: NamespacedName::from_plugin("elgato", "streamdeck"),
        identifier: serial.to_string(),
        description: "Stream Deck".to_string(),
    }
}

#[test]
fn autoconnect_list_keeps_each_device_once() {
    let mut list = AutoconnectList::new();
    assert!(!list.contains(&id("A")));
    assert!(list.add(&id("A")));
    assert!(!list.add(&id("A")));
    assert!(list.add(&id("B")));
    assert!(list.contains(&id("A")));
    assert!(list.remove(&id("A")));
    assert!(!list.contains(&id("A")));
    assert!(list.contains(&id("B")));
    assert!(!list.remove(&id("A")));
}

#[test]
fn identifiers_differ_by_driver() {
    let mut other = id("A");
    other.driver_name = NamespacedName::from_plugin("other", "streamdeck");
    assert!(!other.same_as(&id("A")));
    assert!(id("A").same_as(&id("A")));
    assert!(id("A").duplicate().same_as(&id("A")));
}

#[test]
fn connect_listed_devices_without_live_core() {
    let mut list = AutoconnectList::new();
    list.add(&id("A"));
    list.add(&id("B"));
    list.add(&id("C"));
    let discovered = vec![id("A"), id("B"), id("C"), id("D")];
    // A has a live core, B a dead one, C none; D is not on the list
    let cores = vec![(id("A"), true), (id("B"), false)];
    assert_eq!(devices_to_connect(&discovered, &list, &cores), vec![1, 2]);
    assert!(devices_to_connect(&vec![], &list, &cores).is_empty());
}
