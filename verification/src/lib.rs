//! Driver library for a 40-channel precision DAC controlled over a
//! synchronous serial bus.
//!
//! The crate covers the bit-exact command/address/data frame encoding, the
//! chip's register address space, an in-memory mirror of the device
//! registers, the trim-compensated voltage-to-code transfer function, the
//! driver that sequences frames and control lines over two hardware
//! capability interfaces, and the waveform executor that keeps all channels
//! updated with independently parameterized periodic waveforms.

pub mod ad5370;
pub mod builder;
pub mod driver;
pub mod error;
pub mod frame;
pub mod interface;
pub mod reg;
pub mod sin;
pub mod svc;
pub mod volt;

use vstd::prelude::*;

verus! {

/// Sequence number of a (group, channel) pair as used by the read-back
/// selector: channels are numbered consecutively, group-major, starting at 8.
pub fn to_ch_seq(group: u8, ch: u8) -> (r: u16)
    requires
        group < 5,
        ch < 8,
    ensures
        r == group * 8 + ch + 8,
{
    (group * 8 + ch + 8) as u16
}

} // verus!
