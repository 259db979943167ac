//! Where beacons are sent.
use vstd::prelude::*;
use crate::beacon::Beacon;

verus! {

/// A destination for beacons, implemented by the message-broker clients.
/// Each implementation names the error that a failed send reports.
pub trait Publisher {
    type Error;

    fn publish(&mut self, message: &Beacon) -> Result<(), Self::Error>;
}

} // verus!
