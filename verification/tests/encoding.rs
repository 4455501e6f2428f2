use ad537x::frame::{encode_read_request, encode_special, encode_write};
use ad537x::reg::{ChannelAddress, ReadBackAddr, SpecialFunctionAddress, WriteMode};
use ad537x::to_ch_seq;

#[test]
fn write_frame_vectors() {
    assert_eq!(
        encode_write(WriteMode::Data, ChannelAddress::Chx { ch: 5 }, 0xA5A5),
        [0b11_110101, 0xA5, 0xA5]
    );
    assert_eq!(
        encode_write(
            WriteMode::Offset,
            ChannelAddress::SingleCh { group: 3, ch: 7 },
            0xA5A5
        ),
        [0b10_100111, 0xA5, 0xA5]
    );
    assert_eq!(
        encode_write(WriteMode::Gain, ChannelAddress::AllCh, 0x3FFF),
        [0b01_000000, 0x3F, 0xFF]
    );
    assert_eq!(
        encode_write(WriteMode::Data, ChannelAddress::SingleGroup { group: 2 }, 0),
        [0b11_000011, 0, 0]
    );
    assert_eq!(
        encode_write(
            WriteMode::Data,
            ChannelAddress::ChxExceptGroup0 { ch: 1 },
            0xFFFF
        ),
        [0b11_111001, 0xFF, 0xFF]
    );
}

#[test]
fn read_request_vectors() {
    assert_eq!(
        encode_read_request(ReadBackAddr::M { group: 4, ch: 7 }),
        [0b00_000101, 0b011_10111, 0b1000_0000]
    );
    assert_eq!(
        encode_read_request(ReadBackAddr::Select { group: 3 }),
        [0b00_000101, 0b100_00100, 0b1000_0000]
    );
    assert_eq!(
        encode_read_request(ReadBackAddr::OFS0),
        [0b00_000101, 0b100_00001, 0b0000_0000]
    );
    assert_eq!(
        encode_read_request(ReadBackAddr::X1A { group: 2, ch: 2 }),
        [0b00_000101, 0b000_01101, 0b0000_0000]
    );
    assert_eq!(
        encode_read_request(ReadBackAddr::X1B { group: 0, ch: 0 }),
        [0b00_000101, 0b001_00100, 0b0000_0000]
    );
    assert_eq!(
        encode_read_request(ReadBackAddr::Control),
        [0b00_000101, 0b100_00000, 0b1000_0000]
    );
    assert_eq!(
        encode_read_request(ReadBackAddr::OFS1),
        [0b00_000101, 0b100_00001, 0b1000_0000]
    );
}

#[test]
fn special_frame_vectors() {
    assert_eq!(
        encode_special(SpecialFunctionAddress::WriteControl, 0b101),
        [0b00_000001, 0, 0b101]
    );
    assert_eq!(
        encode_special(SpecialFunctionAddress::WriteOFS0, 0x1555),
        [0b00_000010, 0x15, 0x55]
    );
    assert_eq!(
        encode_special(SpecialFunctionAddress::WriteSelectAll, 1),
        [0b00_001011, 0, 1]
    );
}

#[test]
fn ch_seq_formula() {
    for group in 0..5u8 {
        for ch in 0..8u8 {
            assert_eq!(to_ch_seq(group, ch), (group * 8 + ch + 8) as u16);
        }
    }
    assert_eq!(to_ch_seq(0, 0), 8);
    assert_eq!(to_ch_seq(4, 7), 47);
}

#[test]
fn frame_layout_fields() {
    for g in 0..5u8 {
        for c in 0..8u8 {
            let f = encode_write(
                WriteMode::Data,
                ChannelAddress::SingleCh { group: g, ch: c },
                0xBEEF,
            );
            assert_eq!(f[0] >> 6, 3);
            assert_eq!(f[0] & 0x3F, (g + 1) * 8 + c);
            assert_eq!(f[1], 0xBE);
            assert_eq!(f[2], 0xEF);
        }
    }
}
