use battcheck::device::{BatteryState, DeviceEntry, DeviceInfo};
use battcheck::listing::list_entries;

fn named(vendor: Option<&str>, model: Option<&str>) -> DeviceEntry {
    DeviceEntry::Readable(DeviceInfo {
        vendor: vendor.map(String::from),
        model: model.map(String::from),
        state: BatteryState::Full,
        charge_milli_percent: 100_000,
    })
}

#[test]
fn broken_device_is_skipped_but_good_one_is_listed() {
    let devices = vec![
        named(Some("Acme"), Some("X1")),
        DeviceEntry::Unreadable(String::from("read failure")),
    ];
    let entries = list_entries(&devices);
    assert_eq!(entries.len(), 1);
    assert_eq!(entries[0].index, 0);
    assert_eq!(entries[0].vendor, "Acme");
    assert_eq!(entries[0].model, "X1");
}

#[test]
fn broken_slot_still_advances_the_index() {
    let devices = vec![
        DeviceEntry::Unreadable(String::from("read failure")),
        named(Some("Acme"), Some("X1")),
    ];
    let entries = list_entries(&devices);
    assert_eq!(entries.len(), 1);
    assert_eq!(entries[0].index, 1);
    assert_eq!(entries[0].vendor, "Acme");
}

#[test]
fn missing_names_print_as_unknown() {
    let devices = vec![named(None, None)];
    let entries = list_entries(&devices);
    assert_eq!(entries.len(), 1);
    assert_eq!(entries[0].vendor, "Unknown");
    assert_eq!(entries[0].model, "Unknown");
}

#[test]
fn empty_enumeration_lists_nothing() {
    let devices: Vec<DeviceEntry> = Vec::new();
    assert!(list_entries(&devices).is_empty());
}

#[test]
fn several_devices_list_in_enumeration_order() {
    let devices = vec![
        named(Some("Acme"), Some("X1")),
        named(Some("Volta"), None),
    ];
    let entries = list_entries(&devices);
    assert_eq!(entries.len(), 2);
    assert_eq!(entries[0].index, 0);
    assert_eq!(entries[1].index, 1);
    assert_eq!(entries[1].vendor, "Volta");
    assert_eq!(entries[1].model, "Unknown");
}
