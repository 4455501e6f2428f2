//! Hardware capability interfaces. The driver is polymorphic over these two
//! traits; transport backends outside this crate implement them. Their
//! contracts are the interface specification the driver's proofs rest on: a
//! transaction backend keeps a grow-only log of transmitted frames and of
//! captured responses, and a control-line backend keeps the history of
//! levels it was driven to.

use crate::error::IError;
use vstd::prelude::*;

verus! {

/// Duplex serial-transaction interface to the device.
///
/// The model is two logs: the 3-byte frames the backend has transmitted
/// with the chip-select line asserted, and the responses captured by
/// completed read transactions. Dummy bytes clocked out during a capture
/// are not frames and appear in neither. A failed transaction transmits at
/// most the attempted frame and captures nothing.
pub trait Transactional {
    /// The frames transmitted so far, oldest first. The default body lets a
    /// backend outside the verifier implement the trait without providing
    /// this ghost state; the driver's reasoning never looks at it, only at
    /// the method contracts below.
    open spec fn frames(&self) -> Seq<Seq<u8>> {
        Seq::empty()
    }

    /// The responses captured by completed read transactions so far, oldest
    /// first. Ghost state with a default body, exactly as `frames`.
    open spec fn reads(&self) -> Seq<Seq<u8>> {
        Seq::empty()
    }

    /// Transmits one 3-byte frame.
    fn spi_write(&mut self, data: &[u8]) -> (r: Result<(), IError>)
        requires
            data@.len() == 3,
        ensures
            final(self).reads() == old(self).reads(),
            r is Ok ==> final(self).frames() == old(self).frames().push(data@),
            r is Err ==> (final(self).frames() == old(self).frames() || final(self).frames()
                == old(self).frames().push(data@)),
            r matches Err(e) ==> e.spec_is_hardware(),
    ;

    /// Transmits the 3-byte request `prefix`, releases and reasserts chip
    /// select to satisfy the chip's inter-frame guard time, then clocks out
    /// one dummy byte per entry of `data` while capturing the response
    /// bytes into it. What the chip shifts back depends on its register
    /// contents, so nothing is promised of the captured bytes themselves;
    /// a completed capture is appended to the capture log as it stands in
    /// `data` afterwards.
    fn spi_read(&mut self, prefix: &[u8], data: &mut [u8]) -> (r: Result<(), IError>)
        requires
            prefix@.len() == 3,
        ensures
            final(data)@.len() == old(data)@.len(),
            r is Ok ==> final(self).frames() == old(self).frames().push(prefix@) && final(self).reads() == old(self).reads().push(final(data)@),
            r is Err ==> (final(self).frames() == old(self).frames() || final(self).frames()
                == old(self).frames().push(prefix@)) && final(self).reads() == old(self).reads(),
            r matches Err(e) ==> e.spec_is_hardware(),
    ;
}

/// One digital output control line.
///
/// The model is the history of levels the line was driven to, newest last:
/// a pulse is visible as two consecutive drives. A failed drive moves the
/// line at most to the requested level.
pub trait IOController {
    /// The levels the line has been driven to, in order. Ghost state with a
    /// default body, exactly as `Transactional::frames`.
    open spec fn events(&self) -> Seq<bool> {
        Seq::empty()
    }

    /// Drives the line to logic high.
    fn set(&mut self) -> (r: Result<(), IError>)
        ensures
            r is Ok ==> final(self).events() == old(self).events().push(true),
            r is Err ==> (final(self).events() == old(self).events() || final(self).events()
                == old(self).events().push(true)),
            r matches Err(e) ==> e.spec_is_hardware(),
    ;

    /// Drives the line to logic low.
    fn reset(&mut self) -> (r: Result<(), IError>)
        ensures
            r is Ok ==> final(self).events() == old(self).events().push(false),
            r is Err ==> (final(self).events() == old(self).events() || final(self).events()
                == old(self).events().push(false)),
            r matches Err(e) ==> e.spec_is_hardware(),
    ;
}

/// The pins a backend can hand out for the control lines.
#[derive(Copy, Clone, Debug)]
pub enum Pin {
    AD0,
    AD1,
    AD2,
    AD3,
    AD4,
    AD5,
    AD6,
    AD7,
}

} // verus!
