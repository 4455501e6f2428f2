//! The wire frame: 3 bytes exchanged with the device per transaction.
//!
//! Byte 0 carries a 2-bit write mode in its top bits and a 6-bit address
//! code in its bottom bits; bytes 1 and 2 carry a 16-bit payload big-endian.

use crate::reg::{ChannelAddress, ReadBackAddr, SpecialFunctionAddress, WriteMode};
use vstd::prelude::*;

verus! {

/// The 3 frame bytes formed from a mode value, a 6-bit address code and a
/// 16-bit payload: `(mode << 6) | code`, then the payload big-endian.
pub open spec fn spec_frame(mode_bits: u8, code: u8, data: u16) -> Seq<u8>
    recommends
        mode_bits < 4,
        code < 64,
{
    seq![(mode_bits * 64 + code) as u8, (data / 256) as u8, (data % 256) as u8]
}

/// The frame that writes `data` under a write mode to the registers selected
/// by a channel address.
pub open spec fn spec_write_frame(mode: WriteMode, target: ChannelAddress, data: u16) -> Seq<u8> {
    spec_frame(mode.spec_bits(), target.spec_code(), data)
}

/// The frame that carries `data` to a special-function address.
pub open spec fn spec_special_frame(addr: SpecialFunctionAddress, data: u16) -> Seq<u8> {
    spec_frame(0, addr.spec_code(), data)
}

/// The frame that stages a register selection for read-back.
pub open spec fn spec_read_request_frame(addr: ReadBackAddr) -> Seq<u8> {
    spec_special_frame(SpecialFunctionAddress::ReadBack, addr.spec_value())
}

/// The three bytes of a 24-bit raw frame word, highest first.
pub open spec fn spec_frame_of_raw(raw: u32) -> Seq<u8> {
    seq![((raw / 0x10000) % 0x100) as u8, ((raw / 0x100) % 0x100) as u8, (raw % 0x100) as u8]
}

/// A raw frame word composed of disjoint mode, code and payload fields
/// splits back into the frame bytes of those fields.
pub proof fn lemma_raw_frame(mode_bits: u8, code: u8, data: u16)
    requires
        mode_bits < 4,
        code < 64,
    ensures
        spec_frame_of_raw(
            ((mode_bits as u32) * 0x400000 + (code as u32) * 0x10000 + data as u32) as u32,
        ) == spec_frame(mode_bits, code, data),
{
    let raw = ((mode_bits as u32) * 0x400000 + (code as u32) * 0x10000 + data as u32) as u32;
    assert((mode_bits < 4 && code < 64 && raw == (mode_bits as u32) * 0x400000 + (code as u32)
        * 0x10000 + data as u32) ==> ((raw / 0x10000) % 0x100 == mode_bits * 64 + code && (raw
        / 0x100) % 0x100 == data / 256 && raw % 0x100 == data % 256)) by (bit_vector);
    assert(spec_frame_of_raw(raw) =~= spec_frame(mode_bits, code, data));
}

/// Encodes a register write: `mode` and the target's code in byte 0, `data`
/// big-endian in bytes 1 and 2.
pub fn encode_write(mode: WriteMode, target: ChannelAddress, data: u16) -> (r: [u8; 3])
    requires
        target.wf(),
    ensures
        r@ == spec_write_frame(mode, target, data),
{
    let mode_bits = mode.bits();
    let code = target.encode();
    frame_bytes(mode_bits, code, data)
}

/// Encodes a special-function operation: mode 0 and the function's code in
/// byte 0, `data` big-endian in bytes 1 and 2.
pub fn encode_special(addr: SpecialFunctionAddress, data: u16) -> (r: [u8; 3])
    requires
        addr.wf(),
    ensures
        r@ == spec_special_frame(addr, data),
{
    let code = addr.encode();
    frame_bytes(0, code, data)
}

/// Encodes a read request: a special-function frame whose payload is the
/// 16-bit read-back selector.
pub fn encode_read_request(addr: ReadBackAddr) -> (r: [u8; 3])
    requires
        addr.wf(),
    ensures
        r@ == spec_read_request_frame(addr),
{
    encode_special(SpecialFunctionAddress::ReadBack, addr.encode())
}

/// Assembles the 3 frame bytes from a mode value, an address code and the
/// payload.
fn frame_bytes(mode_bits: u8, code: u8, data: u16) -> (r: [u8; 3])
    requires
        mode_bits < 4,
        code < 64,
    ensures
        r@ == spec_frame(mode_bits, code, data),
{
    proof {
        assert((mode_bits < 4 && code < 64) ==> ((mode_bits << 6) | code == mode_bits * 64 + code
            && (mode_bits << 6) | code < 256)) by (bit_vector);
        assert(data >> 8 == data / 256 && data >> 8 < 256 && (data & 0xFF) == data % 256 && (data
            & 0xFF) < 256) by (bit_vector);
    }
    let b0: u8 = (mode_bits << 6) | code;
    let b1: u8 = (data >> 8) as u8;
    let b2: u8 = (data & 0xFF) as u8;
    let r = [b0, b1, b2];
    proof {
        assert(r@ =~= spec_frame(mode_bits, code, data));
    }
    r
}

/// The three bytes of a raw frame word are its shifted and truncated
/// slices.
pub proof fn lemma_word_bytes(d: u32)
    by (bit_vector)
    ensures
        (d >> 16) as u8 == (d / 0x10000) % 0x100,
        (d >> 8) as u8 == (d / 0x100) % 0x100,
        d as u8 == d % 0x100,
{
}

/// Frame layout law: for every write mode, well-formed channel address and
/// 16-bit payload, byte 0's top 2 bits hold the mode's numeric value and its
/// bottom 6 bits the address code, and bytes 1 and 2 hold the payload
/// big-endian.
pub proof fn lemma_write_frame_layout(mode: WriteMode, target: ChannelAddress, data: u16)
    requires
        target.wf(),
    ensures
        spec_write_frame(mode, target, data).len() == 3,
        spec_write_frame(mode, target, data)[0] >> 6 == mode.spec_bits(),
        spec_write_frame(mode, target, data)[0] & 0x3F == target.spec_code(),
        spec_write_frame(mode, target, data)[1] == data / 256,
        spec_write_frame(mode, target, data)[2] == data % 256,
{
    let b = mode.spec_bits();
    let c = target.spec_code();
    assert((b < 4 && c < 64) ==> (((b * 64 + c) as u8) >> 6 == b && ((b * 64 + c) as u8) & 0x3F
        == c)) by (bit_vector);
}

} // verus!
