//! Configuration errors raised while a device is being set up.
use vstd::prelude::*;

verus! {

/// Every way in which setting up a device can fail.
///
/// All of them are detected while the device is assembled, never later, and
/// none of them can be retried: the declaration itself has to change.
#[derive(Clone, Copy, Debug, PartialEq, Eq, Structural)]
pub enum Error {
    /// A range parameter with `min > max`, a default outside `[min, max]`,
    /// or a step that is not positive.
    InvalidParameterRange,
    /// An insertion into a bounded container that is already full.
    CapacityExceeded,
    /// Two actions of one device share method and path.
    DuplicateRoute,
    /// A device was finalized before all its mandatory actions were given.
    IncompleteDevice,
}

impl Error {
    /// The text that describes each error.
    pub open spec fn spec_description(self) -> Seq<char> {
        match self {
            Error::InvalidParameterRange => "invalid parameter range"@,
            Error::CapacityExceeded => "capacity exceeded"@,
            Error::DuplicateRoute => "duplicate route"@,
            Error::IncompleteDevice => "incomplete device"@,
        }
    }

    /// A short description of the error.
    pub fn description(self) -> (text: &'static str)
        ensures
            text@ == self.spec_description(),
    {
        match self {
            Error::InvalidParameterRange => "invalid parameter range",
            Error::CapacityExceeded => "capacity exceeded",
            Error::DuplicateRoute => "duplicate route",
            Error::IncompleteDevice => "incomplete device",
        }
    }
}

} // verus!
