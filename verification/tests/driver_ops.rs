use ad537x::driver::{AD5370, ReadResp};
use ad537x::error::IError;
use ad537x::interface::{IOController, Transactional};
use ad537x::reg::ChannelAddress;

/// Records every transmitted frame; optionally fails after a set number of
/// transactions and serves scripted response bytes to reads.
struct MockBus {
    sent: Vec<[u8; 3]>,
    fail_after: Option<usize>,
    response: [u8; 3],
}

impl MockBus {
    fn new() -> Self {
        MockBus {
            sent: Vec::new(),
            fail_after: None,
            response: [0, 0, 0],
        }
    }

    fn check(&mut self) -> Result<(), IError> {
        if let Some(n) = self.fail_after {
            if self.sent.len() >= n {
                return Err(IError::HardwareIO { source: "mock" });
            }
        }
        Ok(())
    }
}

impl Transactional for MockBus {
    fn spi_write(&mut self, data: &[u8]) -> Result<(), IError> {
        self.check()?;
        self.sent.push([data[0], data[1], data[2]]);
        Ok(())
    }

    fn spi_read(&mut self, prefix: &[u8], data: &mut [u8]) -> Result<(), IError> {
        self.check()?;
        self.sent.push([prefix[0], prefix[1], prefix[2]]);
        for (i, b) in data.iter_mut().enumerate() {
            *b = self.response[i % 3];
        }
        Ok(())
    }
}

/// One recorded output line.
#[derive(Clone, Copy)]
struct MockPin {
    high: bool,
    fail: bool,
}

impl MockPin {
    fn new() -> Self {
        MockPin {
            high: false,
            fail: false,
        }
    }
}

impl IOController for MockPin {
    fn set(&mut self) -> Result<(), IError> {
        if self.fail {
            return Err(IError::HardwareIO { source: "pin" });
        }
        self.high = true;
        Ok(())
    }

    fn reset(&mut self) -> Result<(), IError> {
        if self.fail {
            return Err(IError::HardwareIO { source: "pin" });
        }
        self.high = false;
        Ok(())
    }
}

fn fresh_driver() -> AD5370<MockBus, MockPin> {
    AD5370::new(
        4000,
        MockBus::new(),
        MockPin::new(),
        MockPin::new(),
        MockPin::new(),
        MockPin::new(),
    )
}

#[test]
fn set_code_transmits_one_data_frame() {
    let mut dac = fresh_driver();
    dac.set_code(0xFFFF, ChannelAddress::AllCh).unwrap();
    assert_eq!(dac.spi.sent, vec![[0b11_000000, 0xFF, 0xFF]]);
}

#[test]
fn identical_writes_transmit_identical_frames() {
    let mut dac = fresh_driver();
    dac.set_gain(0xF000).unwrap();
    dac.set_gain(0xF000).unwrap();
    dac.set_offset(0x8000).unwrap();
    dac.set_offset(0x8000).unwrap();
    dac.set_code(0x1234, ChannelAddress::Chx { ch: 3 }).unwrap();
    dac.set_code(0x1234, ChannelAddress::Chx { ch: 3 }).unwrap();
    let s = &dac.spi.sent;
    assert_eq!(s.len(), 6);
    assert_eq!(s[0], s[1]);
    assert_eq!(s[2], s[3]);
    assert_eq!(s[4], s[5]);
    assert_eq!(s[0], [0b01_000000, 0xF0, 0x00]);
    assert_eq!(s[2], [0b10_000000, 0x80, 0x00]);
    assert_eq!(s[4], [0b11_110011, 0x12, 0x34]);
}

#[test]
fn control_lines_follow_operations() {
    let mut dac = fresh_driver();
    dac.init().unwrap();
    assert!(dac._reset.high);
    assert!(dac._clr.high);
    assert!(dac._ldac.high);

    dac.clear().unwrap();
    assert!(!dac._clr.high);
    dac.restore_clear().unwrap();
    assert!(dac._clr.high);

    dac.clear_ldac().unwrap();
    assert!(!dac._ldac.high);
    dac.set_ldac().unwrap();
    assert!(dac._ldac.high);

    dac.reset().unwrap();
    assert!(dac._reset.high);

    // No frame crossed the bus for any of this.
    assert!(dac.spi.sent.is_empty());
}

#[test]
fn line_fault_surfaces_as_hardware_error() {
    let mut dac = fresh_driver();
    dac._clr.fail = true;
    let e = dac.clear().unwrap_err();
    assert!(e.is_hardware());
}

#[test]
fn set_voltage_scaled_uses_representative_trims() {
    let mut dac = fresh_driver();
    // Defaults: ofs = 0x1555, c = 0x2000, m = 0x3FFF for every channel, so
    // a zero scaled term encodes the default midscale constant 0xD550.
    dac.set_voltage_scaled(0, ChannelAddress::AllCh).unwrap();
    assert_eq!(dac.spi.sent, vec![[0b11_000000, 0xD5, 0x50]]);

    // The mirror's group 1 span offset moves the code; Chx { ch } resolves
    // to the representative pair (group 0, ch) and keeps using ofs0.
    dac.reg.ofs1 = 0;
    dac.set_voltage_scaled(0, ChannelAddress::Chx { ch: 2 }).unwrap();
    assert_eq!(dac.spi.sent[1], [0b11_110010, 0xD5, 0x50]);

    // ChxExceptGroup0 { ch } resolves to group 1 and now sees ofs1 = 0:
    // sum = 32768 - 8192 = 24576, code = 24576 * 4 mod 65536 = 32768.
    dac.set_voltage_scaled(0, ChannelAddress::ChxExceptGroup0 { ch: 2 })
        .unwrap();
    assert_eq!(dac.spi.sent[2], [0b11_111010, 0x80, 0x00]);
}

#[test]
fn read_all_issues_full_scan_and_updates_mirror() {
    let mut dac = fresh_driver();
    dac.spi.response = [0x00, 0xAB, 0xCD];
    dac.read_all().unwrap();

    // 40 channels x 4 requests, two span-offset requests, one flush read.
    assert_eq!(dac.spi.sent.len(), 163);
    // First channel of group 0: X1A, X1B, C, M selectors under tag order.
    assert_eq!(dac.spi.sent[0], [0b00_000101, 0b000_00100, 0]);
    assert_eq!(dac.spi.sent[1], [0b00_000101, 0b001_00100, 0]);
    assert_eq!(dac.spi.sent[2], [0b00_000101, 0b010_00100, 0]);
    assert_eq!(dac.spi.sent[3], [0b00_000101, 0b011_00100, 0]);
    // Last channel of group 4 ends the per-channel scan.
    assert_eq!(dac.spi.sent[159], [0b00_000101, 0b011_10111, 0b1000_0000]);
    // Span offsets, the last one read twice.
    assert_eq!(dac.spi.sent[160], [0b00_000101, 0b100_00001, 0b0000_0000]);
    assert_eq!(dac.spi.sent[161], [0b00_000101, 0b100_00001, 0b1000_0000]);
    assert_eq!(dac.spi.sent[162], [0b00_000101, 0b100_00001, 0b1000_0000]);

    // Captured 0xABCD is truncated to its 14-bit width everywhere.
    let reg = dac.get_reg();
    for i in 0..40 {
        assert_eq!(reg.x1_a[i], 0xABCD & 0x3FFF);
        assert_eq!(reg.x1_b[i], 0xABCD & 0x3FFF);
        assert_eq!(reg.offset[i], 0xABCD & 0x3FFF);
        assert_eq!(reg.gain[i], 0xABCD & 0x3FFF);
    }
    assert_eq!(reg.ofs0, 0xABCD & 0x3FFF);
    assert_eq!(reg.ofs1, 0xABCD & 0x3FFF);
    // Control and select are not part of the scan.
    assert_eq!(reg.control, 0);
    assert_eq!(reg.select, [0; 5]);
}

#[test]
fn read_all_aborts_on_first_failure_with_partial_mirror() {
    let mut dac = fresh_driver();
    dac.spi.response = [0x00, 0x12, 0x34];
    // Fail on the 9th transaction: group 0 channels 0 and 1 complete.
    dac.spi.fail_after = Some(8);
    let e = dac.read_all().unwrap_err();
    assert!(e.is_hardware());
    assert_eq!(dac.spi.sent.len(), 8);

    let reg = dac.get_reg();
    // The two scanned channels were updated...
    assert_eq!(reg.x1_a[0], 0x1234 & 0x3FFF);
    assert_eq!(reg.gain[1], 0x1234 & 0x3FFF);
    // ...the rest keep their power-on defaults: no rollback, no progress.
    assert_eq!(reg.x1_a[2], 0x1555);
    assert_eq!(reg.gain[39], 0x3FFF);
    assert_eq!(reg.ofs0, 0x1555);
}

#[test]
fn read_response_decoding() {
    let r = ReadResp::new();
    assert_eq!(r.to_u32(), 0);
    let r = ReadResp([0x01, 0xAB, 0xCD]);
    assert_eq!(r.to_u16(), 0xABCD);
    assert_eq!(r.to_u32(), 0x01ABCD);
    assert_eq!(r.to_u8(), 0xCD);
}

#[test]
fn accessors_mirror_state() {
    let dac = fresh_driver();
    assert_eq!(dac.get_vref(), 4000);
    let reg = dac.get_reg();
    assert_eq!(reg.x1_a[17], 0x1555);
    assert_eq!(reg.offset[17], 0x2000);
    assert_eq!(reg.gain[17], 0x3FFF);
}

#[test]
fn voltage_to_input_reads_channel_trims() {
    let mut dac = fresh_driver();
    dac.reg.offset[13] = 0x1000;
    dac.reg.gain[13] = 0x1FFF;
    // group 1, ch 5 -> index 13; ofs1 = 0x1555.
    // sum = 0 + 4*0x1555 + 32768 - 4096 = 50516; coefficient 8.
    // 50516 * 8 mod 65536 = 404128 mod 65536 = 10912.
    assert_eq!(dac.voltage_to_input(0, 1, 5), 10912);
    // Another channel keeps the default trims.
    assert_eq!(dac.voltage_to_input(0, 1, 6), 0xD550);
}

#[test]
fn test_set_voltage() {
    let mut guard = fresh_driver();
    guard.init().unwrap();
    for i in 0..0xFFFFu16 {
        guard._ldac.set().unwrap();
        guard.set_code(i, ChannelAddress::AllCh).unwrap();
        guard._ldac.reset().unwrap();
    }
}

#[test]
fn test_ldac() {
    let mut guard = fresh_driver();
    guard._ldac.reset().unwrap();
    guard._ldac.set().unwrap();
}

#[test]
fn test_read_all() {
    let mut guard = fresh_driver();
    guard.init().unwrap();
    // 0.1 V against the 4 V reference: round(0.1 * 65536 / 16) = 410.
    guard.set_voltage_scaled(410, ChannelAddress::AllCh).unwrap();
    guard.set_offset(0x1000).unwrap();
    guard.read_all().unwrap();
}
