//! The services of the supervisor.

use vstd::prelude::*;

verus! {

/// A service that an `SVC` instruction asks for by its number.
#[derive(Debug, PartialEq, Eq, Structural, Clone, Copy)]
pub enum Service {
    /// Number 11: stop the machine.
    Halt,
}

impl Service {
    /// The service with the given number, if there is one.
    pub open spec fn spec_from_u32(number: u32) -> Option<Service> {
        if number == 11 {
            Some(Service::Halt)
        } else {
            None
        }
    }

    /// The service with the given number, if there is one.
    pub fn from_u32(number: u32) -> (service: Option<Service>)
        ensures
            service == Service::spec_from_u32(number),
    {
        match number {
            11 => Some(Service::Halt),
            _ => None,
        }
    }
}

} // verus!
