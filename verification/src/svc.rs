//! Request values of the process-boundary control surface. The surrounding
//! endpoint glue lives outside this crate and maps these one-to-one onto
//! driver operations.

use vstd::prelude::*;

verus! {

/// A request to set one channel's output voltage, with optional trim
/// overrides.
pub struct SetVoltageReq {
    /// Requested output, as a raw 16-bit value.
    pub voltage: u16,
    /// Addressed group.
    pub group: i16,
    /// Addressed channel within the group.
    pub channel: i16,
    /// Offset trim to apply first, if any.
    pub offset: Option<u16>,
    /// Gain trim to apply first, if any.
    pub gain: Option<u16>,
}

impl SetVoltageReq {
    /// The request addresses a real channel of a real group.
    pub open spec fn wf(self) -> bool {
        0 <= self.group < 5 && 0 <= self.channel < 8
    }

    /// Checks that the request addresses a real channel of a real group.
    pub fn is_valid(&self) -> (r: bool)
        ensures
            r == self.wf(),
    {
        0 <= self.group && self.group < 5 && 0 <= self.channel && self.channel < 8
    }
}

} // verus!
