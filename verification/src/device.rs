use vstd::prelude::*;

verus! {

/// The power state a battery device reports.
#[derive(Clone, Copy, PartialEq, Eq, Structural, Debug)]
pub enum BatteryState {
    Charging,
    Discharging,
    Empty,
    Full,
    Unknown,
}

/// A snapshot of one battery taken at one instant.
///
/// The charge is held in thousandths of a percent (milli-percent), so a full
/// battery reads 100_000. Integer thresholds given in whole percent compare
/// exactly against this representation.
#[derive(Clone, Copy, PartialEq, Eq, Structural, Debug)]
pub struct Observation {
    pub state: BatteryState,
    pub charge_milli_percent: u64,
}

/// Everything the provider reports about one enumerable device.
#[derive(Debug)]
pub struct DeviceInfo {
    pub vendor: Option<String>,
    pub model: Option<String>,
    pub state: BatteryState,
    pub charge_milli_percent: u64,
}

impl DeviceInfo {
    /// The snapshot the evaluator works on.
    pub open spec fn observation(self) -> Observation {
        Observation { state: self.state, charge_milli_percent: self.charge_milli_percent }
    }
}

/// One element of the provider's enumeration: devices can fail to be read
/// independently of each other, so each slot is either a readable device or
/// the provider's error detail for that slot.
#[derive(Debug)]
pub enum DeviceEntry {
    Readable(DeviceInfo),
    Unreadable(String),
}

} // verus!
