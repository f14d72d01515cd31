//! The roles on an SPI bus.
use vstd::prelude::*;

verus! {

/// A role.
pub trait CommunicationMode {
    /// Whether the role is that of the master.
    spec fn master() -> bool;

    /// Tells whether the role is that of the master.
    fn is_master() -> (master: bool)
        ensures
            master == Self::master(),
    ;
}

/// The master.
pub struct Master;

/// A slave.
pub struct Slave;

impl CommunicationMode for Master {
    open spec fn master() -> bool {
        true
    }

    fn is_master() -> (master: bool) {
        true
    }
}

impl CommunicationMode for Slave {
    open spec fn master() -> bool {
        false
    }

    fn is_master() -> (master: bool) {
        false
    }
}

} // verus!
