use vstd::prelude::*;

use crate::device::DeviceEntry;
use crate::device::Observation;
use crate::error::Error;

verus! {

/// The index selection works with: the requested id, or 0 when none was
/// given.
pub open spec fn requested_index(id: Option<usize>) -> usize {
    match id {
        Some(i) => i,
        None => 0,
    }
}

/// What examining the entry at the selected index yields: the observation of
/// a readable device. A selected device whose reading cannot be obtained is
/// an internal inconsistency, `Unknown`, just like a missing index; the
/// provider-error variant is reserved for a failure of the enumeration as a
/// whole.
pub open spec fn entry_result(e: DeviceEntry) -> Result<Observation, Error> {
    match e {
        DeviceEntry::Readable(d) => Ok(d.observation()),
        DeviceEntry::Unreadable(_) => Err(Error::Unknown),
    }
}

/// The whole selection rule.
///
/// The id bound is checked against the device count itself, not count - 1,
/// and only when more than one device exists: an id equal to the count (or
/// any out-of-range id next to a single device) slips past these checks and
/// is caught by the index test below, as an internal `Unknown` error. The
/// same `Unknown` comes back when the device that stands at the selected
/// index errored during enumeration.
pub open spec fn spec_select(entries: Seq<DeviceEntry>, id: Option<usize>) -> Result<
    Observation,
    Error,
> {
    if entries.len() == 0 {
        Err(Error::NoBatteries)
    } else if entries.len() > 1 && id is None {
        Err(Error::TooManyBatteries)
    } else if entries.len() > 1 && (id matches Some(i) && i > entries.len()) {
        Err(Error::UnknownBatteryId)
    } else if requested_index(id) >= entries.len() {
        Err(Error::Unknown)
    } else {
        entry_result(entries[requested_index(id) as int])
    }
}

/// Resolve the request's battery id against the provider's enumeration to
/// exactly one observation, or a precise error.
pub fn select(devices: Vec<DeviceEntry>, battery_id: Option<usize>) -> (r: Result<
    Observation,
    Error,
>)
    ensures
        r == spec_select(devices@, battery_id),
        devices@.len() == 0 ==> r == Err::<Observation, Error>(Error::NoBatteries),
        devices@.len() > 1 && battery_id is None ==> r == Err::<Observation, Error>(
            Error::TooManyBatteries,
        ),
        devices@.len() > 1 && (battery_id matches Some(i) && i > devices@.len()) ==> r == Err::<
            Observation,
            Error,
        >(Error::UnknownBatteryId),
        devices@.len() == 1 && battery_id is None ==> r == entry_result(devices@[0]),
{
    let mut devices = devices;
    let count = devices.len();
    if count == 0 {
        return Err(Error::NoBatteries);
    }
    if count > 1 && battery_id.is_none() {
        return Err(Error::TooManyBatteries);
    }
    if count > 1 {
        if let Some(i) = battery_id {
            if i > count {
                return Err(Error::UnknownBatteryId);
            }
        }
    }
    let idx = match battery_id {
        Some(i) => i,
        None => 0,
    };
    if idx >= count {
        return Err(Error::Unknown);
    }
    match devices.remove(idx) {
        DeviceEntry::Readable(d) => Ok(
            Observation { state: d.state, charge_milli_percent: d.charge_milli_percent },
        ),
        DeviceEntry::Unreadable(_) => Err(Error::Unknown),
    }
}

} // verus!
