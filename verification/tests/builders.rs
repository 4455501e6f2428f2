use ad537x::ad5370;
use ad537x::builder::{Builder, MainBuilder};
use ad537x::reg::{ChannelAddress, ReadBackAddr, WriteMode};

#[test]
fn driver_test_builder() {
    let data: [u8; 3] = MainBuilder::default()
        .write(WriteMode::Data)
        .address(ChannelAddress::Chx { ch: 5 })
        .data(0xA5A5)
        .build();

    assert_eq!([0b11_110101, 0xA5, 0xA5], data);

    let data: [u8; 3] = MainBuilder::default()
        .write(WriteMode::Offset)
        .address(ChannelAddress::SingleCh { group: 3, ch: 7 })
        .data(0xA5A5)
        .build();

    assert_eq!([0b10_100111, 0xA5, 0xA5], data);

    let data: [u8; 3] = MainBuilder::default()
        .read(ReadBackAddr::M { group: 4, ch: 7 })
        .build();

    assert_eq!([0b00_000101, 0b011_10111, 0b1000_0000], data);

    let data: [u8; 3] = MainBuilder::default()
        .read(ReadBackAddr::Select { group: 3 })
        .build();

    assert_eq!([0b00_000101, 0b100_00100, 0b1000_0000], data);

    let data: [u8; 3] = MainBuilder::default().read(ReadBackAddr::OFS0).build();
    assert_eq!([0b00_000101, 0b100_00001, 0b0000_0000], data);

    let data: [u8; 3] = MainBuilder::default()
        .read(ReadBackAddr::X1A { group: 2, ch: 2 })
        .build();
    assert_eq!([0b00_000101, 0b000_01101, 0b0000_0000], data);
}

#[test]
fn ad5370_test_builder() {
    let data: [u8; 3] = ad5370::MainBuilder::default()
        .target(ad5370::Mode::WriteData)
        .address(ad5370::Address::Chx { ch: 5 })
        .data(0xA5A5)
        .build();

    assert_eq!([0b11_110101, 0xA5, 0xA5], data);

    let data: [u8; 3] = ad5370::MainBuilder::default()
        .target(ad5370::Mode::WriteOffset)
        .address(ad5370::Address::SingleCh { group: 3, ch: 7 })
        .data(0xA5A5)
        .build();

    assert_eq!([0b10_100111, 0xA5, 0xA5], data);

    let data: [u8; 3] = ad5370::MainBuilder::default()
        .read(ad5370::ReadBackAddr::M { group: 4, ch: 7 })
        .build();

    assert_eq!([0b00_000101, 0b011_10111, 0b1000_0000], data);

    let data: [u8; 3] = ad5370::MainBuilder::default()
        .read(ad5370::ReadBackAddr::Select { group: 3 })
        .build();

    assert_eq!([0b00_000101, 0b100_00100, 0b1000_0000], data);

    let data: [u8; 3] = ad5370::MainBuilder::default()
        .read(ad5370::ReadBackAddr::OFS0)
        .build();
    assert_eq!([0b00_000101, 0b100_00001, 0b0000_0000], data);

    let data: [u8; 3] = ad5370::MainBuilder::default()
        .read(ad5370::ReadBackAddr::X1A { group: 2, ch: 2 })
        .build();
    assert_eq!([0b00_000101, 0b000_01101, 0b0000_0000], data);
}

#[test]
fn function_builder_composes_special_frames() {
    let data: [u8; 3] = MainBuilder::default()
        .funtion()
        .address(ad537x::reg::SpecialFunctionAddress::WriteOFS1)
        .data(0x1234)
        .build();
    assert_eq!([0b00_000011, 0x12, 0x34], data);

    let data: [u8; 3] = MainBuilder::default()
        .funtion()
        .address(ad537x::reg::SpecialFunctionAddress::WriteSelect { group: 4 })
        .data(0x00FF)
        .build();
    assert_eq!([0b00_001010, 0x00, 0xFF], data);
}
