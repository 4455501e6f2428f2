//! Builders that assemble the 24-bit raw frame word stage by stage, the way
//! the driver composes mode, address and payload before transmitting.

use crate::frame::{lemma_raw_frame, spec_frame_of_raw, spec_read_request_frame};
use crate::reg::{ChannelAddress, ReadBackAddr, SpecialFunctionAddress, WriteMode};
use vstd::prelude::*;

verus! {

/// Entry point of a frame build: starts empty, picks a write mode or a
/// special function, and hands over to the matching staged builder.
#[derive(Copy, Clone)]
pub struct MainBuilder(u32);

/// A frame under construction whose mode bits name a register write.
#[derive(Copy, Clone)]
pub struct WriteBuilder(u32);

/// A frame under construction whose mode bits name a special function.
#[derive(Copy, Clone)]
pub struct FunctionBuilder(u32);

/// A staged frame builder over a 24-bit raw word: the payload is or-ed into
/// the low 16 bits, and the finished word splits into the 3 frame bytes.
pub trait Builder: Sized {
    /// The raw frame word assembled so far.
    spec fn spec_raw(self) -> u32;

    /// Reads the raw frame word assembled so far.
    fn raw(&self) -> (r: u32)
        ensures
            r == self.spec_raw(),
    ;

    /// Replaces the raw frame word.
    fn set_raw(self, d: u32) -> (r: Self)
        ensures
            r.spec_raw() == d,
    ;

    /// Ors the 16-bit payload into the low bits of the word.
    fn data(self, data: u16) -> (r: Self)
        ensures
            r.spec_raw() == self.spec_raw() | data as u32,
    {
        let d = self.raw() | data as u32;
        self.set_raw(d)
    }

    /// Splits the assembled word into the 3 frame bytes, highest first.
    fn build(&self) -> (r: [u8; 3])
        ensures
            r@ == spec_frame_of_raw(self.spec_raw()),
    {
        let d = self.raw();
        proof {
            crate::frame::lemma_word_bytes(d);
        }
        let r = [
            #[verifier::truncate] ((d >> 16) as u8),
            #[verifier::truncate] ((d >> 8) as u8),
            #[verifier::truncate] (d as u8),
        ];
        proof {
            assert(r@ =~= spec_frame_of_raw(d));
        }
        r
    }
}

impl Builder for MainBuilder {
    closed spec fn spec_raw(self) -> u32 {
        self.0
    }

    fn raw(&self) -> u32 {
        self.0
    }

    fn set_raw(self, d: u32) -> Self {
        MainBuilder(d)
    }
}

impl Builder for WriteBuilder {
    closed spec fn spec_raw(self) -> u32 {
        self.0
    }

    fn raw(&self) -> u32 {
        self.0
    }

    fn set_raw(self, d: u32) -> Self {
        WriteBuilder(d)
    }
}

impl Builder for FunctionBuilder {
    closed spec fn spec_raw(self) -> u32 {
        self.0
    }

    fn raw(&self) -> u32 {
        self.0
    }

    fn set_raw(self, d: u32) -> Self {
        FunctionBuilder(d)
    }
}

impl Default for MainBuilder {
    /// An empty frame word.
    fn default() -> (r: Self)
        ensures
            r.spec_raw() == 0,
    {
        MainBuilder(0)
    }
}

impl WriteBuilder {
    /// Ors the channel address code into bits 16-21 of the word.
    pub fn address(self, ch: ChannelAddress) -> (r: Self)
        requires
            ch.wf(),
        ensures
            r.spec_raw() == self.spec_raw() | ((ch.spec_code() as u32) << 16),
    {
        let code: u8 = ch.encode();
        WriteBuilder(self.0 | ((code as u32) << 16))
    }
}

impl FunctionBuilder {
    /// Ors the special-function address code into bits 16-21 of the word.
    pub fn address(self, ch: SpecialFunctionAddress) -> (r: Self)
        requires
            ch.wf(),
        ensures
            r.spec_raw() == self.spec_raw() | ((ch.spec_code() as u32) << 16),
    {
        let code: u8 = ch.encode();
        FunctionBuilder(self.0 | ((code as u32) << 16))
    }
}

impl MainBuilder {
    /// Starts a register write: clears the word and places the mode value in
    /// bits 22-23.
    pub fn write(self, mode: WriteMode) -> (r: WriteBuilder)
        ensures
            r.spec_raw() == mode.spec_bits() * 0x400000,
    {
        let bits = mode.bits();
        proof {
            assert(bits < 4 ==> (bits as u32) << 22 == (bits as u32) * 0x400000) by (bit_vector);
        }
        WriteBuilder((bits as u32) << 22)
    }

    /// Starts a special function: clears the word, leaving the mode bits 0.
    pub fn funtion(self) -> (r: FunctionBuilder)
        ensures
            r.spec_raw() == 0,
    {
        FunctionBuilder(0)
    }

    /// Ors a special-function address code into bits 16-21 of the word.
    pub fn address(self, ch: SpecialFunctionAddress) -> (r: Self)
        requires
            ch.wf(),
        ensures
            r.spec_raw() == self.spec_raw() | ((ch.spec_code() as u32) << 16),
    {
        let code: u8 = ch.encode();
        MainBuilder(self.0 | ((code as u32) << 16))
    }

    /// Assembles a read request for the given selector: a special-function
    /// word addressed to the read-back register with the selector as
    /// payload.
    pub fn read(self, addr: ReadBackAddr) -> (r: Self)
        requires
            addr.wf(),
        ensures
            spec_frame_of_raw(r.spec_raw()) == spec_read_request_frame(addr),
    {
        let value = addr.encode();
        let b = self.funtion().address(SpecialFunctionAddress::ReadBack).data(value);
        proof {
            lemma_builder_compose(0, 5, value);
            lemma_raw_frame(0, 5, value);
        }
        MainBuilder(b.raw())
    }
}

/// A raw word built by or-ing a mode field, an address field and a payload
/// into disjoint bit ranges equals their sum.
pub proof fn lemma_builder_compose(mode_bits: u8, code: u8, data: u16)
    by (bit_vector)
    requires
        mode_bits < 4,
        code < 64,
    ensures
        ((((mode_bits as u32) * 0x400000) as u32) | ((code as u32) << 16)) | data as u32 == (
        mode_bits as u32) * 0x400000 + (code as u32) * 0x10000 + data as u32,
{
}

} // verus!
