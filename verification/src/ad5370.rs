//! The earlier single-enum encoder kept alongside the staged builders: one
//! address enumeration covers both the channel addresses and the special
//! functions, and one builder accumulates mode, address and payload by
//! or-ing into a raw frame word.

use crate::frame::{spec_frame, spec_frame_of_raw, spec_read_request_frame};
use vstd::prelude::*;

pub use crate::reg::ReadBackAddr;
pub use crate::reg::Register as AD537xRegister;

verus! {

/// A write target or special function, as one 6-bit address code.
#[derive(Copy, Clone)]
pub enum Address {
    /// Every channel in every group.
    AllCh,
    /// One channel in one group.
    SingleCh { ch: u8, group: u8 },
    /// All channels of one group.
    SingleGroup { group: u8 },
    /// Channel `ch` of every group.
    Chx { ch: u8 },
    /// Channel `ch` of every group except group 0.
    ChxExceptGroup0 { ch: u8 },
    /// Write the control register.
    WriteControl,
    /// Write the group 0 span-offset register.
    WriteOFS0,
    /// Write the span-offset register of groups 1 to 4.
    WriteOFS1,
    /// Stage a register selection for read-back.
    ReadBack,
    /// Write the A/B select register of one group.
    WriteSelect { group: u8 },
    /// Write all A/B select registers at once.
    WriteSelectAll,
}

impl Address {
    /// The address is within the chip's 5 groups of 8 channels.
    pub open spec fn wf(self) -> bool {
        match self {
            Address::SingleCh { ch, group } => ch < 8 && group < 5,
            Address::SingleGroup { group } => group < 5,
            Address::Chx { ch } => ch < 8,
            Address::ChxExceptGroup0 { ch } => ch < 8,
            Address::WriteSelect { group } => group < 5,
            _ => true,
        }
    }

    /// Documented 6-bit wire code of the address.
    pub open spec fn spec_code(self) -> u8
        recommends
            self.wf(),
    {
        match self {
            Address::AllCh => 0,
            Address::SingleCh { ch, group } => ((group + 1) * 8 + ch) as u8,
            Address::SingleGroup { group } => (group + 1) as u8,
            Address::Chx { ch } => (6 * 8 + ch) as u8,
            Address::ChxExceptGroup0 { ch } => (7 * 8 + ch) as u8,
            Address::WriteControl => 1,
            Address::WriteOFS0 => 2,
            Address::WriteOFS1 => 3,
            Address::ReadBack => 5,
            Address::WriteSelect { group } => (6 + group) as u8,
            Address::WriteSelectAll => 11,
        }
    }

    /// Encodes the address to its 6-bit wire code.
    pub fn encode(&self) -> (r: u8)
        requires
            self.wf(),
        ensures
            r == self.spec_code(),
            r < 64,
    {
        match *self {
            Address::AllCh => 0,
            Address::SingleCh { ch, group } => {
                proof {
                    assert(group < 5 && ch < 8 ==> (((group + 1) as u8) << 3) | ch == (group + 1)
                        * 8 + ch) by (bit_vector);
                }
                ((group + 1) << 3) | ch
            },
            Address::SingleGroup { group } => group + 1,
            Address::Chx { ch } => {
                proof {
                    assert(ch < 8 ==> (6u8 << 3) | ch == 6 * 8 + ch) by (bit_vector);
                }
                (6u8 << 3) | ch
            },
            Address::ChxExceptGroup0 { ch } => {
                proof {
                    assert(ch < 8 ==> (7u8 << 3) | ch == 7 * 8 + ch) by (bit_vector);
                }
                (7u8 << 3) | ch
            },
            Address::WriteControl => 1,
            Address::WriteOFS0 => 2,
            Address::WriteOFS1 => 3,
            Address::ReadBack => 5,
            Address::WriteSelect { group } => 6 + group,
            Address::WriteSelectAll => 11,
        }
    }
}

/// Write mode carried in the top 2 bits of a frame's first byte, including
/// the special-function mode.
#[derive(Copy, Clone)]
pub enum Mode {
    /// Write a channel's input data register.
    WriteData,
    /// Write a channel's offset trim register.
    WriteOffset,
    /// Write a channel's gain trim register.
    WriteGain,
    /// Special function, combined with the other bits of the data word.
    SpecialFunction,
}

impl Mode {
    /// Documented numeric value of the mode.
    pub open spec fn spec_bits(self) -> u8 {
        match self {
            Mode::WriteData => 3,
            Mode::WriteOffset => 2,
            Mode::WriteGain => 1,
            Mode::SpecialFunction => 0,
        }
    }

    /// The mode's numeric value, as placed in the top 2 bits of a frame.
    pub fn bits(&self) -> (r: u8)
        ensures
            r == self.spec_bits(),
    {
        match *self {
            Mode::WriteData => 3,
            Mode::WriteOffset => 2,
            Mode::WriteGain => 1,
            Mode::SpecialFunction => 0,
        }
    }
}

/// Accumulates one frame by or-ing mode, address and payload into a raw
/// 24-bit word.
#[derive(Copy, Clone)]
pub struct MainBuilder(u32);

/// Finishes a raw frame word from an accumulated value and a payload.
pub trait DataBuilder {
    /// Combines the accumulated word with a payload into the finished word.
    fn build(&mut self, d: u32) -> u32;
}

impl MainBuilder {
    /// The raw frame word accumulated so far.
    pub closed spec fn spec_raw(self) -> u32 {
        self.0
    }

    /// Ors the mode value into bits 22-23 of the word.
    pub fn target(self, mode: Mode) -> (r: Self)
        ensures
            r.spec_raw() == self.spec_raw() | ((mode.spec_bits() as u32) << 22),
    {
        let bits = mode.bits();
        MainBuilder(self.0 | ((bits as u32) << 22))
    }

    /// Ors the address code into bits 16-21 of the word.
    pub fn address(self, ch: Address) -> (r: Self)
        requires
            ch.wf(),
        ensures
            r.spec_raw() == self.spec_raw() | ((ch.spec_code() as u32) << 16),
    {
        let code: u8 = ch.encode();
        MainBuilder(self.0 | ((code as u32) << 16))
    }

    /// Ors the 16-bit payload into the low bits of the word.
    pub fn data(self, data: u16) -> (r: Self)
        ensures
            r.spec_raw() == self.spec_raw() | data as u32,
    {
        MainBuilder(self.0 | data as u32)
    }

    /// Ors a read request onto the word: the special-function mode, the
    /// read-back address code, and the 16-bit selector as payload.
    pub fn read(self, addr: ReadBackAddr) -> (r: Self)
        requires
            addr.wf(),
        ensures
            r.spec_raw() == self.spec_raw() | (5u32 << 16) | (addr.spec_value() as u32),
            self.spec_raw() == 0 ==> spec_frame_of_raw(r.spec_raw()) == spec_read_request_frame(
                addr,
            ),
    {
        let r = self.target(Mode::SpecialFunction).address(Address::ReadBack).data(addr.encode());
        proof {
            let s = self.spec_raw();
            assert(s | ((0u32) << 22) == s) by (bit_vector);
            if s == 0 {
                lemma_legacy_compose(0, 5, addr.spec_value());
            }
        }
        r
    }

    /// Splits the accumulated word into the 3 frame bytes, highest first.
    pub fn build(&self) -> (r: [u8; 3])
        ensures
            r@ == spec_frame_of_raw(self.spec_raw()),
    {
        let d = self.0;
        proof {
            crate::frame::lemma_word_bytes(d);
        }
        let r = [
            #[verifier::truncate] ((d >> 16) as u8),
            #[verifier::truncate] ((d >> 8) as u8),
            #[verifier::truncate] (d as u8),
        ];
        proof {
            assert(r@ =~= spec_frame_of_raw(d));
        }
        r
    }
}

/// Composition law of the accumulating builder: or-ing a mode, an address
/// code and a payload into an empty word, in any of its call orders, yields
/// the word whose bytes are exactly the frame of those fields.
pub proof fn lemma_legacy_compose(mode_bits: u8, code: u8, data: u16)
    requires
        mode_bits < 4,
        code < 64,
    ensures
        spec_frame_of_raw(((0 | ((mode_bits as u32) << 22)) | ((code as u32) << 16)) | (
        data as u32)) == spec_frame(mode_bits, code, data),
{
    assert((mode_bits < 4 && code < 64) ==> ((0 | ((mode_bits as u32) << 22)) | ((code as u32)
        << 16)) | (data as u32) == (mode_bits as u32) * 0x400000 + (code as u32) * 0x10000 + (
    data as u32)) by (bit_vector);
    crate::frame::lemma_raw_frame(mode_bits, code, data);
}

impl Default for MainBuilder {
    /// An empty frame word.
    fn default() -> (r: Self)
        ensures
            r.spec_raw() == 0,
    {
        MainBuilder(0)
    }
}

} // verus!
