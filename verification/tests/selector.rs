use battcheck::device::{BatteryState, DeviceEntry, DeviceInfo, Observation};
use battcheck::error::Error;
use battcheck::select::select;

fn readable(state: BatteryState, charge_milli_percent: u64) -> DeviceEntry {
    DeviceEntry::Readable(DeviceInfo {
        vendor: None,
        model: None,
        state,
        charge_milli_percent,
    })
}

#[test]
fn zero_devices_yield_no_batteries() {
    let r = select(Vec::new(), None);
    assert!(matches!(r, Err(Error::NoBatteries)));
    let r = select(Vec::new(), Some(0));
    assert!(matches!(r, Err(Error::NoBatteries)));
}

#[test]
fn two_devices_without_id_yield_too_many_batteries() {
    let devices = vec![
        readable(BatteryState::Full, 100_000),
        readable(BatteryState::Full, 100_000),
    ];
    let r = select(devices, None);
    assert!(matches!(r, Err(Error::TooManyBatteries)));
}

#[test]
fn id_above_count_yields_unknown_battery_id() {
    let devices = vec![
        readable(BatteryState::Full, 100_000),
        readable(BatteryState::Full, 100_000),
    ];
    let r = select(devices, Some(3));
    assert!(matches!(r, Err(Error::UnknownBatteryId)));
}

#[test]
fn id_equal_to_count_slips_to_unknown() {
    // The bound is checked against the count itself, so an id equal to the
    // count passes the check and is caught by the index test instead.
    let devices = vec![
        readable(BatteryState::Full, 100_000),
        readable(BatteryState::Full, 100_000),
    ];
    let r = select(devices, Some(2));
    assert!(matches!(r, Err(Error::Unknown)));
}

#[test]
fn single_device_without_id_selects_index_zero() {
    let devices = vec![readable(BatteryState::Discharging, 42_500)];
    let r = select(devices, None);
    assert_eq!(
        r.unwrap(),
        Observation {
            state: BatteryState::Discharging,
            charge_milli_percent: 42_500,
        }
    );
}

#[test]
fn single_device_with_out_of_range_id_yields_unknown() {
    // With one device the count checks are skipped entirely, so even a wild
    // id falls through to the internal inconsistency error.
    let devices = vec![readable(BatteryState::Full, 100_000)];
    let r = select(devices, Some(5));
    assert!(matches!(r, Err(Error::Unknown)));
}

#[test]
fn id_picks_among_several_devices() {
    let devices = vec![
        readable(BatteryState::Charging, 10_000),
        readable(BatteryState::Discharging, 20_000),
        readable(BatteryState::Full, 100_000),
    ];
    let r = select(devices, Some(1));
    assert_eq!(
        r.unwrap(),
        Observation {
            state: BatteryState::Discharging,
            charge_milli_percent: 20_000,
        }
    );
}

#[test]
fn unreadable_selected_device_yields_unknown() {
    // A device that errored during enumeration cannot be observed; selecting
    // it is the same internal inconsistency as a missing index.
    let devices = vec![DeviceEntry::Unreadable(String::from("io fault"))];
    let r = select(devices, None);
    assert!(matches!(r, Err(Error::Unknown)));
}

#[test]
fn error_messages_are_distinct() {
    let msgs = [
        Error::NoBatteries.message(),
        Error::TooManyBatteries.message(),
        Error::UnknownBatteryId.message(),
        Error::Unknown.message(),
        Error::Battery(String::from("detail")).message(),
    ];
    for i in 0..msgs.len() {
        for j in 0..msgs.len() {
            if i != j {
                assert_ne!(msgs[i], msgs[j]);
            }
        }
    }
    assert_eq!(
        msgs[0],
        "No batteries found, unable to continue program execution"
    );
    assert_eq!(msgs[4], "Unknown battery error: detail");
}
