//! The waveform executor: per-channel sine parameters, the sample clock,
//! and the decision logic of the execution loop.
//!
//! One pass updates all 40 channels in a fixed group-major, channel-minor
//! order, then polls the control channel once; messages therefore take
//! effect only at pass boundaries, never mid-pass. The loop's outside work —
//! evaluating the sine and polling the channel — happens around these
//! functions: the executor hands out each channel's sample index and
//! parameters, takes back the computed codes, and decides from the polled
//! event whether the loop goes on.

use crate::driver::AD5370;
use crate::error::IError;
use crate::frame::spec_write_frame;
use crate::interface::{IOController, Transactional};
use crate::reg::{ChannelAddress, WriteMode};
use crate::volt::round_div;
use vstd::arithmetic::div_mod::lemma_mod_multiples_vanish;
use vstd::prelude::*;

verus! {

/// Largest accepted frequency (in millihertz) and sample rate (in hertz):
/// keeps every intermediate product within the machine word.
pub const MAX_RATE: u64 = 0xFFFF_FFFF;

/// A control message to the running executor.
pub enum Action {
    /// Finish the in-flight pass, then exit without further writes.
    Stop,
    /// Give one channel a new frequency (millihertz) and amplitude code,
    /// effective from the next pass.
    SetData { freq_mhz: u64, channel: u8, code: u16 },
}

/// One non-blocking poll of the control channel, as the loop sees it.
pub enum Polled {
    /// A message arrived.
    Received(Action),
    /// No message was pending.
    Empty,
    /// Every sender is gone; treated exactly like an explicit stop.
    Disconnected,
}

/// What the loop does after handling a poll.
#[derive(Debug, PartialEq, Eq, Structural)]
pub enum Step {
    /// Run the next pass.
    Continue,
    /// Exit after the completed pass; no further writes are issued.
    Exit,
}

impl Action {
    /// The message addresses a real channel and keeps the frequency within
    /// the machine bound.
    pub open spec fn wf(self) -> bool {
        match self {
            Action::Stop => true,
            Action::SetData { freq_mhz, channel, code } => channel < 40 && freq_mhz <= MAX_RATE,
        }
    }
}

impl Polled {
    /// Any carried message is well-formed.
    pub open spec fn wf(self) -> bool {
        match self {
            Polled::Received(a) => a.wf(),
            _ => true,
        }
    }
}

/// The number of samples in one full period of a channel, rounded to the
/// nearest integer: `round(sample_rate / freq)`, with the frequency given in
/// millihertz.
pub open spec fn spec_rounded_period(sample_rate: u64, freq_mhz: u64) -> int
    recommends
        freq_mhz > 0,
{
    round_div(sample_rate * 1000, freq_mhz as int)
}

/// Where in its period a channel stands at pass `iter`: the pass counter
/// modulo the rounded period. A frequency of zero, or one so high the
/// rounded period vanishes, pins the index to zero.
pub open spec fn spec_sample_index(iter: int, sample_rate: u64, freq_mhz: u64) -> int
    recommends
        iter >= 0,
{
    if freq_mhz == 0 {
        0
    } else {
        let p = spec_rounded_period(sample_rate, freq_mhz);
        if p <= 0 {
            0
        } else {
            iter % p
        }
    }
}

/// The 40 frames one pass transmits: for channel `i`, the input-data write
/// of `codes[i]` addressed to channel `i % 8` of group `i / 8`.
pub open spec fn spec_pass_frames(codes: Seq<u16>) -> Seq<Seq<u8>>
    recommends
        codes.len() == 40,
{
    Seq::new(
        40,
        |i: int|
            spec_write_frame(
                WriteMode::Data,
                ChannelAddress::SingleCh { ch: (i % 8) as u8, group: (i / 8) as u8 },
                codes[i],
            ),
    )
}

/// The waveform executor's state: one frequency and amplitude per channel,
/// the shared pass counter every channel's phase is referenced to, and the
/// fixed sample rate.
pub struct SinExeciter {
    /// Per-channel frequency in millihertz.
    pub freq_mhz: [u64; 40],
    /// Per-channel amplitude ceiling code.
    pub amplitude: [u16; 40],
    /// Completed-pass counter; increments once per full pass over all
    /// channels, so cross-channel phase relationships are deterministic.
    pub iter: u64,
    /// Sample rate in passes per second.
    pub sample_rate: u64,
}

impl SinExeciter {
    /// The configured rates stay within the machine bound.
    pub open spec fn wf(self) -> bool {
        &&& self.sample_rate <= MAX_RATE
        &&& forall|i: int| 0 <= i < 40 ==> self.freq_mhz@[i] <= MAX_RATE
    }

    /// A fresh executor: every channel at 10 Hz with a 0xF000 amplitude
    /// ceiling, the pass counter at zero, 175 passes per second.
    pub fn new() -> (r: Self)
        ensures
            r.wf(),
            r.iter == 0,
            r.sample_rate == 175,
            forall|i: int| 0 <= i < 40 ==> r.freq_mhz@[i] == 10_000,
            forall|i: int| 0 <= i < 40 ==> r.amplitude@[i] == 0xF000,
    {
        SinExeciter { freq_mhz: [10_000; 40], amplitude: [0xF000; 40], iter: 0, sample_rate: 175 }
    }

    /// Reconfigures one channel's amplitude code and frequency.
    pub fn set_code_freq(&mut self, channel: u8, code: u16, freq_mhz: u64)
        requires
            channel < 40,
            freq_mhz <= MAX_RATE,
        ensures
            final(self).freq_mhz@ == old(self).freq_mhz@.update(channel as int, freq_mhz),
            final(self).amplitude@ == old(self).amplitude@.update(channel as int, code),
            final(self).iter == old(self).iter,
            final(self).sample_rate == old(self).sample_rate,
            old(self).wf() ==> final(self).wf(),
    {
        self.amplitude[channel as usize] = code;
        self.freq_mhz[channel as usize] = freq_mhz;
    }

    /// Opens a pass: advances the shared counter the channels' phases are
    /// computed from.
    pub fn begin_pass(&mut self)
        requires
            old(self).iter < u64::MAX,
        ensures
            final(self).iter == old(self).iter + 1,
            final(self).freq_mhz == old(self).freq_mhz,
            final(self).amplitude == old(self).amplitude,
            final(self).sample_rate == old(self).sample_rate,
            old(self).wf() ==> final(self).wf(),
    {
        self.iter = self.iter + 1;
    }

    /// One channel's sample index at the current pass: the pass counter
    /// modulo the channel's rounded period.
    pub fn sample_index(&self, channel: u8) -> (r: u64)
        requires
            channel < 40,
            self.wf(),
        ensures
            r == spec_sample_index(
                self.iter as int,
                self.sample_rate,
                self.freq_mhz@[channel as int],
            ),
    {
        let f = self.freq_mhz[channel as usize];
        if f == 0 {
            return 0;
        }
        let n: u64 = self.sample_rate * 1000;
        let p: u64 = (2 * n + f) / (2 * f);
        if p == 0 {
            0
        } else {
            self.iter % p
        }
    }

    /// One channel's amplitude ceiling code.
    pub fn amplitude_of(&self, channel: u8) -> (r: u16)
        requires
            channel < 40,
        ensures
            r == self.amplitude@[channel as int],
    {
        self.amplitude[channel as usize]
    }

    /// One channel's frequency in millihertz.
    pub fn freq_of(&self, channel: u8) -> (r: u64)
        requires
            channel < 40,
        ensures
            r == self.freq_mhz@[channel as int],
    {
        self.freq_mhz[channel as usize]
    }

    /// Applies one polled control event between passes, and decides whether
    /// the loop goes on. A stop message, like a disconnected channel, ends
    /// the loop; a reconfiguration updates one channel and continues; an
    /// empty poll changes nothing. The pass counter never moves here, so a
    /// reconfiguration takes effect exactly at the next pass boundary.
    pub fn apply(&mut self, polled: Polled) -> (r: Step)
        requires
            polled.wf(),
        ensures
            final(self).iter == old(self).iter,
            final(self).sample_rate == old(self).sample_rate,
            old(self).wf() ==> final(self).wf(),
            (polled is Disconnected || polled matches Polled::Received(Action::Stop)) ==> (r
                == Step::Exit && *final(self) == *old(self)),
            polled is Empty ==> (r == Step::Continue && *final(self) == *old(self)),
            polled matches Polled::Received(Action::SetData { freq_mhz, channel, code }) ==> (r
                == Step::Continue && final(self).freq_mhz@ == old(self).freq_mhz@.update(
                channel as int,
                freq_mhz,
            ) && final(self).amplitude@ == old(self).amplitude@.update(channel as int, code)),
    {
        match polled {
            Polled::Received(Action::Stop) => Step::Exit,
            Polled::Disconnected => Step::Exit,
            Polled::Empty => Step::Continue,
            Polled::Received(Action::SetData { freq_mhz, channel, code }) => {
                self.set_code_freq(channel, code, freq_mhz);
                Step::Continue
            },
        }
    }
}

/// Transmits one pass: for each channel in group-major, channel-minor
/// order, the input-data write of its code. The first failed write aborts
/// the pass and surfaces the error: the transmitted frames are then a front
/// part of the pass sequence, so no later channel's write follows the
/// failure. The caller treats the error as fatal rather than drive a
/// partially updated waveform blind.
pub fn dispatch_pass<S: Transactional, P: IOController>(
    dac: &mut AD5370<S, P>,
    codes: &[u16; 40],
) -> (r: Result<(), IError>)
    ensures
        AD5370::<S, P>::only_spi_changed(*old(dac), *final(dac)),
        final(dac).spi.reads() == old(dac).spi.reads(),
        old(dac).spi.frames().is_prefix_of(final(dac).spi.frames()),
        r is Ok ==> final(dac).spi.frames() == old(dac).spi.frames() + spec_pass_frames(codes@),
        r is Err ==> exists|n: int|
            0 <= n <= 40 && final(dac).spi.frames() == old(dac).spi.frames()
                + #[trigger] spec_pass_frames(codes@).take(n),
        r matches Err(e) ==> e.spec_is_hardware(),
{
    let ghost frames0 = dac.spi.frames();
    let mut i: u8 = 0;
    while i < 40
        invariant
            i <= 40,
            AD5370::<S, P>::only_spi_changed(*old(dac), *dac),
            dac.spi.reads() == old(dac).spi.reads(),
            dac.spi.frames() == frames0 + spec_pass_frames(codes@).take(i as int),
            frames0 == old(dac).spi.frames(),
        decreases 40 - i,
    {
        let target = ChannelAddress::SingleCh { ch: i % 8, group: i / 8 };
        let res = dac.set_code(codes[i as usize], target);
        if let Err(e) = res {
            proof {
                crate::driver::lemma_append_take_push(frames0, spec_pass_frames(codes@), i as int);
                if dac.spi.frames() == frames0 + spec_pass_frames(codes@).take(i as int) {
                    lemma_take_prefix(frames0, spec_pass_frames(codes@), i as int);
                } else {
                    lemma_take_prefix(frames0, spec_pass_frames(codes@), i as int + 1);
                }
            }
            return Err(e);
        }
        proof {
            assert(dac.spi.frames() =~= frames0 + spec_pass_frames(codes@).take(i + 1));
        }
        i = i + 1;
    }
    proof {
        assert(spec_pass_frames(codes@).take(40) =~= spec_pass_frames(codes@));
        lemma_take_prefix(frames0, spec_pass_frames(codes@), 40);
    }
    Ok(())
}

/// A sequence followed by a front part of another extends the former.
proof fn lemma_take_prefix(base: Seq<Seq<u8>>, s: Seq<Seq<u8>>, n: int)
    requires
        0 <= n <= s.len(),
    ensures
        base.is_prefix_of(base + s.take(n)),
{
    assert(base =~= (base + s.take(n)).subrange(0, base.len() as int));
}

/// Periodicity law: a channel with a positive rounded period repeats its
/// sample index exactly one period of passes later, so the dispatched codes
/// over one full period recur with that period.
pub proof fn lemma_sample_index_periodic(iter: int, sample_rate: u64, freq_mhz: u64)
    requires
        iter >= 0,
        freq_mhz > 0,
        spec_rounded_period(sample_rate, freq_mhz) >= 1,
    ensures
        spec_sample_index(iter + spec_rounded_period(sample_rate, freq_mhz), sample_rate, freq_mhz)
            == spec_sample_index(iter, sample_rate, freq_mhz),
{
    let p = spec_rounded_period(sample_rate, freq_mhz);
    lemma_mod_multiples_vanish(1, iter, p);
}

} // verus!
