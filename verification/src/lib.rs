//! Condition checker for battery power state.
//!
//! The library holds the decision logic of a command-line battery monitor:
//! picking one battery out of the devices a provider enumerated, evaluating
//! the user's predicates against an observation of that battery, driving the
//! repeat-until-pass polling state machine, and mapping the result to a
//! process exit code. Hardware enumeration, argument parsing and printing are
//! left to a thin unverified shell around this crate.

pub mod args;
pub mod device;
pub mod evaluate;
pub mod error;
pub mod listing;
pub mod runner;
pub mod select;

pub use args::Args;
pub use device::BatteryState;
pub use device::DeviceEntry;
pub use device::DeviceInfo;
pub use device::Observation;
pub use error::Error;
