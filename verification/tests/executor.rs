use ad537x::driver::AD5370;
use ad537x::error::IError;
use ad537x::interface::{IOController, Transactional};
use ad537x::sin::{dispatch_pass, Action, Polled, SinExeciter, Step};

/// Records every transmitted frame; optionally fails once armed.
struct MockBus {
    sent: Vec<[u8; 3]>,
    fail: bool,
}

impl Transactional for MockBus {
    fn spi_write(&mut self, data: &[u8]) -> Result<(), IError> {
        if self.fail {
            return Err(IError::HardwareIO { source: "mock" });
        }
        self.sent.push([data[0], data[1], data[2]]);
        Ok(())
    }

    fn spi_read(&mut self, prefix: &[u8], _data: &mut [u8]) -> Result<(), IError> {
        if self.fail {
            return Err(IError::HardwareIO { source: "mock" });
        }
        self.sent.push([prefix[0], prefix[1], prefix[2]]);
        Ok(())
    }
}

struct MockPin;

impl IOController for MockPin {
    fn set(&mut self) -> Result<(), IError> {
        Ok(())
    }

    fn reset(&mut self) -> Result<(), IError> {
        Ok(())
    }
}

fn fresh_driver() -> AD5370<MockBus, MockPin> {
    AD5370::new(
        4000,
        MockBus {
            sent: Vec::new(),
            fail: false,
        },
        MockPin,
        MockPin,
        MockPin,
        MockPin,
    )
}

/// The sine stage the execution context runs outside the library: index and
/// exact samples-per-period ratio in, wrapped code out.
fn sine_code(index: u64, sample_rate: u64, freq_mhz: u64, amplitude: u16) -> u16 {
    let spp = sample_rate as f64 * 1000.0 / freq_mhz as f64;
    let phase = index as f64 / spp;
    let amp = (f64::sin(2.0 * std::f64::consts::PI * phase) + 1.0) / 2.0;
    (amp * amplitude as f64).round() as i64 as u16
}

fn pass_codes(ex: &SinExeciter) -> [u16; 40] {
    let mut codes = [0u16; 40];
    for ch in 0..40u8 {
        codes[ch as usize] = sine_code(
            ex.sample_index(ch),
            ex.sample_rate,
            ex.freq_of(ch),
            ex.amplitude_of(ch),
        );
    }
    codes
}

#[test]
fn pass_updates_channels_in_fixed_order() {
    let mut ex = SinExeciter::new();
    let mut dac = fresh_driver();
    ex.begin_pass();
    let codes = pass_codes(&ex);
    dispatch_pass(&mut dac, &codes).unwrap();

    assert_eq!(dac.spi.sent.len(), 40);
    for i in 0..40u8 {
        let f = dac.spi.sent[i as usize];
        // Mode Data, address SingleCh { ch: i % 8, group: i / 8 }.
        assert_eq!(f[0] >> 6, 3);
        assert_eq!(f[0] & 0x3F, (i / 8 + 1) * 8 + i % 8);
        let code = ((f[1] as u16) << 8) | f[2] as u16;
        assert_eq!(code, codes[i as usize]);
    }
}

#[test]
fn dispatched_codes_are_periodic_over_one_period() {
    // 10 Hz at 175 passes per second: 17.5 samples per period, rounded
    // period 18 passes.
    let mut ex = SinExeciter::new();
    let mut first: Vec<[u16; 40]> = Vec::new();
    for _ in 0..18 {
        ex.begin_pass();
        first.push(pass_codes(&ex));
    }
    for p in 0..18 {
        ex.begin_pass();
        let again = pass_codes(&ex);
        assert_eq!(again, first[p]);
    }
}

#[test]
fn reconfiguration_applies_only_at_pass_boundaries() {
    let mut ex = SinExeciter::new();
    ex.begin_pass();
    let codes_before = pass_codes(&ex);

    // A reconfiguration between passes changes neither the pass counter nor
    // the codes already computed for the in-flight pass.
    let step = ex.apply(Polled::Received(Action::SetData {
        freq_mhz: 25_000,
        channel: 7,
        code: 0x4000,
    }));
    assert_eq!(step, Step::Continue);
    assert_eq!(ex.iter, 1);
    assert_eq!(ex.freq_of(7), 25_000);
    assert_eq!(ex.amplitude_of(7), 0x4000);
    assert_eq!(codes_before.len(), 40);

    // From the next pass on, only the reconfigured channel differs.
    ex.begin_pass();
    let codes_after = pass_codes(&ex);
    for ch in 0..40usize {
        if ch != 7 {
            let mut probe = SinExeciter::new();
            probe.begin_pass();
            probe.begin_pass();
            assert_eq!(codes_after[ch], pass_codes(&probe)[ch]);
        }
    }
}

#[test]
fn stop_and_disconnect_end_the_loop() {
    let mut ex = SinExeciter::new();
    assert_eq!(ex.apply(Polled::Received(Action::Stop)), Step::Exit);
    assert_eq!(ex.apply(Polled::Disconnected), Step::Exit);
    assert_eq!(ex.apply(Polled::Empty), Step::Continue);
    assert_eq!(ex.iter, 0);
    assert_eq!(ex.freq_of(0), 10_000);
}

#[test]
fn test_sin() {
    // The full loop shape: passes run until a stop message arrives; the
    // stop takes effect after the in-flight pass, and no frame is
    // transmitted afterwards.
    let mut ex = SinExeciter::new();
    let mut dac = fresh_driver();
    let mut polls = vec![
        Polled::Empty,
        Polled::Empty,
        Polled::Received(Action::Stop),
    ]
    .into_iter();

    let mut passes = 0;
    loop {
        ex.begin_pass();
        let codes = pass_codes(&ex);
        dispatch_pass(&mut dac, &codes).unwrap();
        passes += 1;
        match ex.apply(polls.next().unwrap()) {
            Step::Continue => {}
            Step::Exit => break,
        }
    }
    assert_eq!(passes, 3);
    assert_eq!(dac.spi.sent.len(), 120);
}

#[test]
fn write_failure_mid_pass_aborts_the_pass() {
    let mut ex = SinExeciter::new();
    let mut dac = fresh_driver();
    ex.begin_pass();
    let codes = pass_codes(&ex);
    dac.spi.fail = true;
    let e = dispatch_pass(&mut dac, &codes).unwrap_err();
    assert!(e.is_hardware());
    assert!(dac.spi.sent.is_empty());
}

#[test]
fn sample_index_follows_counter_and_period() {
    let mut ex = SinExeciter::new();
    // Rounded period of 10 Hz at 175 passes per second is 18.
    for expect in [1u64, 2, 3] {
        ex.begin_pass();
        assert_eq!(ex.sample_index(0), expect);
    }
    for _ in 3..18 {
        ex.begin_pass();
    }
    assert_eq!(ex.sample_index(0), 0);

    // A frequency of zero pins the index to zero.
    ex.set_code_freq(3, 0x1000, 0);
    assert_eq!(ex.sample_index(3), 0);

    // A frequency so high the rounded period vanishes also pins it to
    // zero: 175'000 / 400'000'000 rounds to 0.
    ex.set_code_freq(4, 0x1000, 400_000_000);
    assert_eq!(ex.sample_index(4), 0);
}
