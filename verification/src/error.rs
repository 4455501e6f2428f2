//! Error kinds reported by the driver. Nothing is recovered locally: every
//! operation propagates the first failure to its caller unchanged.

use vstd::prelude::*;

verus! {

/// An error surfaced by a driver operation.
#[derive(Debug, Clone, Copy)]
pub enum IError {
    /// A named, non-hardware precondition failure.
    General { msg: &'static str },
    /// A serial transaction or control-line operation failed at the
    /// transport layer; timeouts included.
    HardwareIO { source: &'static str },
}

impl IError {
    /// The failure came from the transport layer.
    pub open spec fn spec_is_hardware(self) -> bool {
        self is HardwareIO
    }

    /// Tells a transport failure apart from a precondition failure.
    pub fn is_hardware(&self) -> (r: bool)
        ensures
            r == self.spec_is_hardware(),
    {
        match *self {
            IError::HardwareIO { .. } => true,
            IError::General { .. } => false,
        }
    }

    /// A short description of the failure.
    pub fn describe(&self) -> &'static str {
        match *self {
            IError::General { msg } => msg,
            IError::HardwareIO { source } => source,
        }
    }
}

} // verus!
