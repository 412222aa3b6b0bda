use vstd::prelude::*;

verus! {

/// Every way one checking cycle can fail. Each variant maps to a distinct
/// exit code and a distinct diagnostic message.
#[derive(Debug)]
pub enum Error {
    /// The provider enumerated no devices at all.
    NoBatteries,
    /// More than one device exists and no battery id was given.
    TooManyBatteries,
    /// The given battery id strictly exceeds the device count.
    UnknownBatteryId,
    /// Internal inconsistency: the checks above passed but no device stood
    /// at the selected index, or the one that did could not be read.
    Unknown,
    /// The provider's enumeration failed as a whole; the payload carries
    /// its diagnostic detail.
    Battery(String),
}

impl Error {
    /// The diagnostic message printed for this error.
    pub fn message(&self) -> (r: String)
        ensures
            self is NoBatteries ==> r@ == "No batteries found, unable to continue program execution"@,
            self is TooManyBatteries ==> r@ == "More than one battery found, specify the battery ID"@,
            self is UnknownBatteryId ==> r@ == "Provided battery id is invalid"@,
            self is Unknown ==> r@ == "Unknown error"@,
            *self matches Error::Battery(d) ==> r@ == "Unknown battery error: "@ + d@,
    {
        match self {
            Error::NoBatteries => String::from_str(
                "No batteries found, unable to continue program execution",
            ),
            Error::TooManyBatteries => String::from_str(
                "More than one battery found, specify the battery ID",
            ),
            Error::UnknownBatteryId => String::from_str("Provided battery id is invalid"),
            Error::Unknown => String::from_str("Unknown error"),
            Error::Battery(detail) => String::from_str("Unknown battery error: ").concat(
                detail.as_str(),
            ),
        }
    }
}

} // verus!
