//! The driver: owns the register mirror and the hardware capability
//! handles, and turns high-level operations into frames and control-line
//! pulses.

use crate::error::IError;
use crate::frame::{encode_read_request, encode_write, spec_read_request_frame, spec_write_frame};
use crate::interface::{IOController, Transactional};
use crate::reg::{ChannelAddress, ReadBackAddr, Register, WriteMode};
use crate::volt::{spec_voltage_code, voltage_code};
use vstd::arithmetic::div_mod::lemma_fundamental_div_mod_converse;
use vstd::prelude::*;

verus! {

/// The DAC driver, polymorphic over a serial-transaction backend and a
/// control-line backend.
pub struct AD5370<S, P> {
    /// Reference voltage of the device, in millivolts.
    pub vref_mv: u32,
    /// In-memory mirror of the chip's registers.
    pub reg: Register,
    /// Duplex serial-transaction handle.
    pub spi: S,
    /// BUSY line (active low, currently unused for flow control).
    pub _busy: P,
    /// LDAC line (active low): transfers staged input registers into the
    /// active output registers.
    pub _ldac: P,
    /// RESET line (active low): its rising edge reloads the chip's
    /// registers with their power-on defaults.
    pub _reset: P,
    /// CLR line (active low, level sensitive): while asserted, all outputs
    /// go to their clear code.
    pub _clr: P,
}

impl<S: Transactional, P: IOController> AD5370<S, P> {
    /// Neither the mirror, the configuration, nor any control line changed.
    pub open spec fn only_spi_changed(pre: Self, post: Self) -> bool {
        &&& post.vref_mv == pre.vref_mv
        &&& post.reg == pre.reg
        &&& post._busy == pre._busy
        &&& post._ldac == pre._ldac
        &&& post._reset == pre._reset
        &&& post._clr == pre._clr
    }

    /// No frame was transmitted, nothing was captured, and the mirror and
    /// configuration are unchanged; only control lines may have moved.
    pub open spec fn only_lines_changed(pre: Self, post: Self) -> bool {
        &&& post.vref_mv == pre.vref_mv
        &&& post.reg == pre.reg
        &&& post.spi == pre.spi
    }

    /// Creates a driver around the given backends, with the mirror holding
    /// the device's documented power-on values.
    pub fn new(vref_mv: u32, spi: S, busy: P, ldac: P, reset: P, clr: P) -> (r: Self)
        ensures
            r.vref_mv == vref_mv,
            r.reg.is_power_on_default(),
            r.reg.wf(),
            r.spi == spi,
            r._busy == busy,
            r._ldac == ldac,
            r._reset == reset,
            r._clr == clr,
    {
        AD5370 {
            vref_mv,
            reg: Register::default(),
            spi,
            _busy: busy,
            _ldac: ldac,
            _reset: reset,
            _clr: clr,
        }
    }

    /// Pure accessor: a copy of the register mirror.
    pub fn get_reg(&self) -> (r: Register)
        ensures
            r == self.reg,
    {
        self.reg
    }

    /// Pure accessor: the reference voltage in millivolts.
    pub fn get_vref(&self) -> (r: u32)
        ensures
            r == self.vref_mv,
    {
        self.vref_mv
    }

    /// Brings the control lines to their documented idle state: RESET, CLR
    /// and LDAC each driven high (deasserted — all three are active low).
    /// The BUSY input is not touched. A failure leaves each line either
    /// undriven or at its one requested level.
    pub fn init(&mut self) -> (r: Result<(), IError>)
        ensures
            Self::only_lines_changed(*old(self), *final(self)),
            final(self)._busy == old(self)._busy,
            r is Ok ==> final(self)._reset.events() == old(self)._reset.events().push(true),
            r is Ok ==> final(self)._clr.events() == old(self)._clr.events().push(true),
            r is Ok ==> final(self)._ldac.events() == old(self)._ldac.events().push(true),
            r is Err ==> (final(self)._reset.events() == old(self)._reset.events() || final(self)._reset.events() == old(self)._reset.events().push(true)),
            r is Err ==> (final(self)._clr.events() == old(self)._clr.events() || final(self)._clr.events() == old(self)._clr.events().push(true)),
            r is Err ==> (final(self)._ldac.events() == old(self)._ldac.events() || final(self)._ldac.events() == old(self)._ldac.events().push(true)),
            r matches Err(e) ==> e.spec_is_hardware(),
    {
        self._reset.set()?;
        self._clr.set()?;
        self._ldac.set()?;
        Ok(())
    }

    /// Pulses RESET low then high — exactly those two drives, no other
    /// line. On the rising edge the chip reloads its registers with their
    /// power-on defaults; that is a fire-and-forget hardware event the
    /// driver does not verify, so the mirror is left alone. If the low
    /// drive fails the high drive is not attempted.
    pub fn reset(&mut self) -> (r: Result<(), IError>)
        ensures
            Self::only_lines_changed(*old(self), *final(self)),
            final(self)._busy == old(self)._busy,
            final(self)._clr == old(self)._clr,
            final(self)._ldac == old(self)._ldac,
            r is Ok ==> final(self)._reset.events() == old(self)._reset.events().push(false).push(
                true,
            ),
            r is Err ==> (final(self)._reset.events() == old(self)._reset.events() || final(self)._reset.events() == old(self)._reset.events().push(false) || final(self)._reset.events() == old(self)._reset.events().push(false).push(true)),
            r matches Err(e) ==> e.spec_is_hardware(),
    {
        self._reset.reset()?;
        self._reset.set()?;
        Ok(())
    }

    /// Drives exactly the CLR line low (asserted): all outputs go to their
    /// clear code while it stays low. The mirror is not changed — the chip
    /// documents this as an output-path override, not a register write.
    pub fn clear(&mut self) -> (r: Result<(), IError>)
        ensures
            Self::only_lines_changed(*old(self), *final(self)),
            final(self)._busy == old(self)._busy,
            final(self)._ldac == old(self)._ldac,
            final(self)._reset == old(self)._reset,
            r is Ok ==> final(self)._clr.events() == old(self)._clr.events().push(false),
            r is Err ==> (final(self)._clr.events() == old(self)._clr.events() || final(self)._clr.events() == old(self)._clr.events().push(false)),
            r matches Err(e) ==> e.spec_is_hardware(),
    {
        self._clr.reset()?;
        Ok(())
    }

    /// Drives exactly the CLR line high (deasserted), restoring the staged
    /// outputs.
    pub fn restore_clear(&mut self) -> (r: Result<(), IError>)
        ensures
            Self::only_lines_changed(*old(self), *final(self)),
            final(self)._busy == old(self)._busy,
            final(self)._ldac == old(self)._ldac,
            final(self)._reset == old(self)._reset,
            r is Ok ==> final(self)._clr.events() == old(self)._clr.events().push(true),
            r is Err ==> (final(self)._clr.events() == old(self)._clr.events() || final(self)._clr.events() == old(self)._clr.events().push(true)),
            r matches Err(e) ==> e.spec_is_hardware(),
    {
        self._clr.set()?;
        Ok(())
    }

    /// Drives exactly the LDAC line high (deasserted): staged input
    /// registers stay staged.
    pub fn set_ldac(&mut self) -> (r: Result<(), IError>)
        ensures
            Self::only_lines_changed(*old(self), *final(self)),
            final(self)._busy == old(self)._busy,
            final(self)._clr == old(self)._clr,
            final(self)._reset == old(self)._reset,
            r is Ok ==> final(self)._ldac.events() == old(self)._ldac.events().push(true),
            r is Err ==> (final(self)._ldac.events() == old(self)._ldac.events() || final(self)._ldac.events() == old(self)._ldac.events().push(true)),
            r matches Err(e) ==> e.spec_is_hardware(),
    {
        self._ldac.set()?;
        Ok(())
    }

    /// Drives exactly the LDAC line low (asserted): staged values transfer
    /// into the active output registers, making a multi-channel update
    /// glitch-free.
    pub fn clear_ldac(&mut self) -> (r: Result<(), IError>)
        ensures
            Self::only_lines_changed(*old(self), *final(self)),
            final(self)._busy == old(self)._busy,
            final(self)._clr == old(self)._clr,
            final(self)._reset == old(self)._reset,
            r is Ok ==> final(self)._ldac.events() == old(self)._ldac.events().push(false),
            r is Err ==> (final(self)._ldac.events() == old(self)._ldac.events() || final(self)._ldac.events() == old(self)._ldac.events().push(false)),
            r matches Err(e) ==> e.spec_is_hardware(),
    {
        self._ldac.reset()?;
        Ok(())
    }

    /// Transmits one already-encoded frame. A failure transmits at most
    /// that frame and captures nothing.
    pub fn send_data(&mut self, data: &[u8; 3]) -> (r: Result<(), IError>)
        ensures
            Self::only_spi_changed(*old(self), *final(self)),
            final(self).spi.reads() == old(self).spi.reads(),
            r is Ok ==> final(self).spi.frames() == old(self).spi.frames().push(data@),
            r is Err ==> (final(self).spi.frames() == old(self).spi.frames() || final(self).spi.frames() == old(self).spi.frames().push(data@)),
            r matches Err(e) ==> e.spec_is_hardware(),
    {
        self.spi.spi_write(data.as_slice())?;
        Ok(())
    }

    /// Builds and transmits the frame that writes `code` to the input data
    /// registers selected by `target`. The mirror is not updated: this is
    /// the raw low-level path, and the chip does not echo writes back.
    pub fn set_code(&mut self, code: u16, target: ChannelAddress) -> (r: Result<(), IError>)
        requires
            target.wf(),
        ensures
            Self::only_spi_changed(*old(self), *final(self)),
            final(self).spi.reads() == old(self).spi.reads(),
            r is Ok ==> final(self).spi.frames() == old(self).spi.frames().push(
                spec_write_frame(WriteMode::Data, target, code),
            ),
            r is Err ==> (final(self).spi.frames() == old(self).spi.frames() || final(self).spi.frames() == old(self).spi.frames().push(
                spec_write_frame(WriteMode::Data, target, code),
            )),
            r matches Err(e) ==> e.spec_is_hardware(),
    {
        let data = encode_write(WriteMode::Data, target, code);
        self.send_data(&data)?;
        Ok(())
    }

    /// Broadcast-writes the gain trim register of every channel.
    pub fn set_gain(&mut self, value: u16) -> (r: Result<(), IError>)
        ensures
            Self::only_spi_changed(*old(self), *final(self)),
            final(self).spi.reads() == old(self).spi.reads(),
            r is Ok ==> final(self).spi.frames() == old(self).spi.frames().push(
                spec_write_frame(WriteMode::Gain, ChannelAddress::AllCh, value),
            ),
            r is Err ==> (final(self).spi.frames() == old(self).spi.frames() || final(self).spi.frames() == old(self).spi.frames().push(
                spec_write_frame(WriteMode::Gain, ChannelAddress::AllCh, value),
            )),
            r matches Err(e) ==> e.spec_is_hardware(),
    {
        let data = encode_write(WriteMode::Gain, ChannelAddress::AllCh, value);
        self.send_data(&data)?;
        Ok(())
    }

    /// Broadcast-writes the offset trim register of every channel.
    pub fn set_offset(&mut self, value: u16) -> (r: Result<(), IError>)
        ensures
            Self::only_spi_changed(*old(self), *final(self)),
            final(self).spi.reads() == old(self).spi.reads(),
            r is Ok ==> final(self).spi.frames() == old(self).spi.frames().push(
                spec_write_frame(WriteMode::Offset, ChannelAddress::AllCh, value),
            ),
            r is Err ==> (final(self).spi.frames() == old(self).spi.frames() || final(self).spi.frames() == old(self).spi.frames().push(
                spec_write_frame(WriteMode::Offset, ChannelAddress::AllCh, value),
            )),
            r matches Err(e) ==> e.spec_is_hardware(),
    {
        let data = encode_write(WriteMode::Offset, ChannelAddress::AllCh, value);
        self.send_data(&data)?;
        Ok(())
    }

    /// The transfer function applied with the trim values of one channel of
    /// the mirror and the span offset of its group.
    pub open spec fn spec_code_for(self, scaled: int, group: u8, ch: u8) -> u16
        recommends
            group < 5,
            ch < 8,
    {
        spec_voltage_code(
            scaled,
            self.reg.spec_ofs_for_group(group),
            self.reg.offset@[group * 8 + ch],
            self.reg.gain@[group * 8 + ch],
        )
    }

    /// Computes the code for a scaled voltage term using one channel's
    /// mirrored trim values.
    pub fn voltage_to_input(&self, scaled: i64, group: u8, ch: u8) -> (r: u16)
        requires
            group < 5,
            ch < 8,
            -0x8000_0000 <= scaled <= 0x7FFF_FFFF,
        ensures
            r == self.spec_code_for(scaled as int, group, ch),
    {
        let ofs: u16 = if group == 0 {
            self.reg.ofs0
        } else {
            self.reg.ofs1
        };
        let idx: usize = (group * 8 + ch) as usize;
        let c = self.reg.offset[idx];
        let m = self.reg.gain[idx];
        voltage_code(scaled, ofs, c, m)
    }

    /// Converts a scaled voltage term to a code with the trim values of the
    /// target's representative (group, channel) pair and transmits it as an
    /// input-data write. For a broadcast target one code, computed from the
    /// representative pair alone, goes to every addressed channel.
    pub fn set_voltage_scaled(&mut self, scaled: i64, target: ChannelAddress) -> (r: Result<
        (),
        IError,
    >)
        requires
            target.wf(),
            -0x8000_0000 <= scaled <= 0x7FFF_FFFF,
        ensures
            Self::only_spi_changed(*old(self), *final(self)),
            final(self).spi.reads() == old(self).spi.reads(),
            r is Ok ==> final(self).spi.frames() == old(self).spi.frames().push(
                spec_write_frame(
                    WriteMode::Data,
                    target,
                    old(self).spec_code_for(
                        scaled as int,
                        target.spec_repr_pair().0,
                        target.spec_repr_pair().1,
                    ),
                ),
            ),
            r is Err ==> (final(self).spi.frames() == old(self).spi.frames() || final(self).spi.frames() == old(self).spi.frames().push(
                spec_write_frame(
                    WriteMode::Data,
                    target,
                    old(self).spec_code_for(
                        scaled as int,
                        target.spec_repr_pair().0,
                        target.spec_repr_pair().1,
                    ),
                ),
            )),
            r matches Err(e) ==> e.spec_is_hardware(),
    {
        let (g, c) = target.repr_pair();
        let code = self.voltage_to_input(scaled, g, c);
        self.set_code(code, target)
    }
}

/// A captured 3-byte read-back response.
#[derive(Clone, Copy)]
pub struct ReadResp(pub [u8; 3]);

impl ReadResp {
    /// An empty response buffer.
    pub fn new() -> (r: Self)
        ensures
            r.0@ =~= seq![0u8, 0u8, 0u8],
    {
        ReadResp([0; 3])
    }

    /// The buffer as a mutable byte slice, for a backend to fill.
    pub fn as_mut(&mut self) -> (r: &mut [u8])
        ensures
            r@ == old(self).0@,
            final(self).0@ == final(r)@,
    {
        vstd::array::ref_mut_array_unsizing_coercion(&mut self.0)
    }

    /// The response bytes as one big-endian word.
    pub fn to_u32(self) -> (r: u32)
        ensures
            r == self.0@[0] * 0x10000 + self.0@[1] * 0x100 + self.0@[2],
    {
        (self.0[0] as u32) * 0x10000 + (self.0[1] as u32) * 0x100 + (self.0[2] as u32)
    }

    /// The low two response bytes as a big-endian 16-bit value.
    pub fn to_u16(self) -> (r: u16)
        ensures
            r == self.0@[1] * 0x100 + self.0@[2],
    {
        (self.0[1] as u16) * 0x100 + (self.0[2] as u16)
    }

    /// The last response byte.
    pub fn to_u8(self) -> (r: u8)
        ensures
            r == self.0@[2],
    {
        self.0[2]
    }
}

/// The request frame the full register scan transmits at step `t` of 163:
/// four per-channel requests for each channel in group-major,
/// channel-minor order (input bank A, input bank B, offset trim, gain
/// trim), then the two span-offset registers, the last request repeated
/// once to flush the one-frame-delayed response pipeline.
pub open spec fn spec_scan_request_at(t: int) -> Seq<u8>
    recommends
        0 <= t < 163,
{
    if t < 160 {
        let group = ((t / 4) / 8) as u8;
        let ch = ((t / 4) % 8) as u8;
        if t % 4 == 0 {
            spec_read_request_frame(ReadBackAddr::X1A { group, ch })
        } else if t % 4 == 1 {
            spec_read_request_frame(ReadBackAddr::X1B { group, ch })
        } else if t % 4 == 2 {
            spec_read_request_frame(ReadBackAddr::C { group, ch })
        } else {
            spec_read_request_frame(ReadBackAddr::M { group, ch })
        }
    } else if t == 160 {
        spec_read_request_frame(ReadBackAddr::OFS0)
    } else {
        spec_read_request_frame(ReadBackAddr::OFS1)
    }
}

/// Every request frame a full register scan transmits, in order.
pub open spec fn spec_read_all_requests() -> Seq<Seq<u8>> {
    Seq::new(163, |t: int| spec_scan_request_at(t))
}

/// The 16-bit value carried big-endian in bytes 1 and 2 of a captured
/// response, truncated to the 14-bit register width.
pub open spec fn spec_captured14(resp: Seq<u8>) -> u16
    recommends
        resp.len() == 3,
{
    ((resp[1] * 0x100 + resp[2]) as u16) & 0x3FFF
}

/// How many channels of the scan have been stored after `n` completed
/// captures: four captures per channel, all 40 once the per-channel part
/// is done.
pub open spec fn spec_stored_channels(n: int) -> int {
    if n < 160 {
        n / 4
    } else {
        40
    }
}

/// The mirror after a scan that completed `stored` channels, relative to
/// the captures of this scan, which sit in the capture log from position
/// `base` on: each stored channel's four registers hold its truncated
/// captured responses in X1A, X1B, C, M order; every other entry keeps its
/// prior value; the span offsets hold their captures exactly where their
/// reads completed.
pub open spec fn spec_scan_stores(
    pre: Register,
    post: Register,
    caps: Seq<Seq<u8>>,
    base: int,
    stored: int,
    ofs0_stored: bool,
    ofs1_stored: bool,
) -> bool {
    &&& forall|j: int|
        0 <= j < stored ==> #[trigger] post.x1_a@[j] == spec_captured14(caps[base + 4 * j])
    &&& forall|j: int|
        0 <= j < stored ==> #[trigger] post.x1_b@[j] == spec_captured14(caps[base + 4 * j + 1])
    &&& forall|j: int|
        0 <= j < stored ==> #[trigger] post.offset@[j] == spec_captured14(caps[base + 4 * j + 2])
    &&& forall|j: int|
        0 <= j < stored ==> #[trigger] post.gain@[j] == spec_captured14(caps[base + 4 * j + 3])
    &&& forall|j: int| stored <= j < 40 ==> #[trigger] post.x1_a@[j] == pre.x1_a@[j]
    &&& forall|j: int| stored <= j < 40 ==> #[trigger] post.x1_b@[j] == pre.x1_b@[j]
    &&& forall|j: int| stored <= j < 40 ==> #[trigger] post.offset@[j] == pre.offset@[j]
    &&& forall|j: int| stored <= j < 40 ==> #[trigger] post.gain@[j] == pre.gain@[j]
    &&& post.ofs0 == if ofs0_stored {
        spec_captured14(caps[base + 160])
    } else {
        pre.ofs0
    }
    &&& post.ofs1 == if ofs1_stored {
        spec_captured14(caps[base + 161])
    } else {
        pre.ofs1
    }
}

/// A value masked to 14 bits fits a trim or input register.
proof fn lemma_mask14(x: u16)
    by (bit_vector)
    ensures
        x & 0x3FFF < 0x4000,
{
}

/// Appending the next element of a sequence extends its taken front by
/// one.
pub(crate) proof fn lemma_append_take_push(pre: Seq<Seq<u8>>, s: Seq<Seq<u8>>, n: int)
    requires
        0 <= n < s.len(),
    ensures
        (pre + s.take(n)).push(s[n]) == pre + s.take(n + 1),
{
    assert((pre + s.take(n)).push(s[n]) =~= pre + s.take(n + 1));
}

/// A push extends a sequence, so it preserves its prefixes.
pub(crate) proof fn lemma_prefix_push(a: Seq<Seq<u8>>, b: Seq<Seq<u8>>, x: Seq<u8>)
    requires
        a.is_prefix_of(b),
    ensures
        a.is_prefix_of(b.push(x)),
{
    assert(a =~= b.push(x).subrange(0, a.len() as int));
}

/// The four scan requests of channel `j` stand at steps `4j` to `4j + 3`.
proof fn lemma_channel_requests(j: int)
    requires
        0 <= j < 40,
    ensures
        spec_read_all_requests()[4 * j] == spec_read_request_frame(
            ReadBackAddr::X1A { group: (j / 8) as u8, ch: (j % 8) as u8 },
        ),
        spec_read_all_requests()[4 * j + 1] == spec_read_request_frame(
            ReadBackAddr::X1B { group: (j / 8) as u8, ch: (j % 8) as u8 },
        ),
        spec_read_all_requests()[4 * j + 2] == spec_read_request_frame(
            ReadBackAddr::C { group: (j / 8) as u8, ch: (j % 8) as u8 },
        ),
        spec_read_all_requests()[4 * j + 3] == spec_read_request_frame(
            ReadBackAddr::M { group: (j / 8) as u8, ch: (j % 8) as u8 },
        ),
{
    lemma_fundamental_div_mod_converse(4 * j, 4, j, 0);
    lemma_fundamental_div_mod_converse(4 * j + 1, 4, j, 1);
    lemma_fundamental_div_mod_converse(4 * j + 2, 4, j, 2);
    lemma_fundamental_div_mod_converse(4 * j + 3, 4, j, 3);
}

impl<S: Transactional, P: IOController> AD5370<S, P> {
    /// Transmits a read-request frame, then clocks out one dummy byte per
    /// entry of `dest` while capturing the chip's response into it. The
    /// response bytes depend on the chip, so nothing is promised of them
    /// beyond their count; a completed capture is appended to the capture
    /// log. A failure transmits at most the request and captures nothing.
    pub fn read_register(&mut self, addr: &[u8; 3], dest: &mut [u8]) -> (r: Result<(), IError>)
        ensures
            Self::only_spi_changed(*old(self), *final(self)),
            final(dest)@.len() == old(dest)@.len(),
            r is Ok ==> final(self).spi.frames() == old(self).spi.frames().push(addr@) && final(self).spi.reads() == old(self).spi.reads().push(final(dest)@),
            r is Err ==> (final(self).spi.frames() == old(self).spi.frames() || final(self).spi.frames() == old(self).spi.frames().push(addr@)) && final(self).spi.reads()
                == old(self).spi.reads(),
            r matches Err(e) ==> e.spec_is_hardware(),
    {
        self.spi.spi_read(addr.as_slice(), dest)?;
        Ok(())
    }

    /// One step of the register scan: transmits the read request standing
    /// at step `t` and returns the captured response, which is also
    /// appended to the capture log.
    fn scan_read(&mut self, rb: ReadBackAddr, Ghost(t): Ghost<int>) -> (r: Result<
        ReadResp,
        IError,
    >)
        requires
            rb.wf(),
            0 <= t < 163,
            spec_read_request_frame(rb) == spec_read_all_requests()[t],
        ensures
            Self::only_spi_changed(*old(self), *final(self)),
            r matches Ok(resp) ==> final(self).spi.frames() == old(self).spi.frames().push(
                spec_read_all_requests()[t],
            ) && final(self).spi.reads() == old(self).spi.reads().push(resp.0@),
            r is Err ==> (final(self).spi.frames() == old(self).spi.frames() || final(self).spi.frames() == old(self).spi.frames().push(spec_read_all_requests()[t])) && final(self).spi.reads() == old(self).spi.reads(),
            r matches Err(e) ==> e.spec_is_hardware(),
    {
        let prefix = encode_read_request(rb);
        let mut resp = ReadResp::new();
        match self.read_register(&prefix, resp.as_mut()) {
            Ok(()) => Ok(resp),
            Err(e) => Err(e),
        }
    }

    /// A scan that aborted after `n` completed captures: the transmitted
    /// frames are the first `n` scan requests, plus at most the one whose
    /// capture failed; the capture log grew by exactly those `n`
    /// responses; and the mirror holds the truncated captures of every
    /// fully scanned register, all later ones untouched — partial update,
    /// no rollback.
    pub open spec fn spec_scan_aborted(pre: Self, post: Self, n: int) -> bool {
        &&& 0 <= n < 163
        &&& (post.spi.frames() == pre.spi.frames() + spec_read_all_requests().take(n)
            || post.spi.frames() == pre.spi.frames() + spec_read_all_requests().take(n + 1))
        &&& post.spi.reads().len() == pre.spi.reads().len() + n
        &&& spec_scan_stores(
            pre.reg,
            post.reg,
            post.spi.reads(),
            pre.spi.reads().len() as int,
            spec_stored_channels(n),
            n >= 161,
            n >= 162,
        )
    }

    /// Scans every readable register into the mirror: for each channel the
    /// four per-channel registers, then the two span offsets, each request
    /// followed by a dummy-clocked capture, with a final throwaway read to
    /// flush the one-frame-delayed response. Captured values are truncated
    /// to their 14-bit width and stored at the channel's mirror slot. A
    /// failed transaction aborts the scan at once: the registers scanned up
    /// to that point keep their captured values, the rest their previous
    /// ones, and nothing is rolled back.
    pub fn read_all(&mut self) -> (r: Result<(), IError>)
        requires
            old(self).reg.wf(),
        ensures
            final(self).vref_mv == old(self).vref_mv,
            final(self)._busy == old(self)._busy,
            final(self)._ldac == old(self)._ldac,
            final(self)._reset == old(self)._reset,
            final(self)._clr == old(self)._clr,
            final(self).reg.control == old(self).reg.control,
            final(self).reg.select == old(self).reg.select,
            final(self).reg.wf(),
            old(self).spi.reads().is_prefix_of(final(self).spi.reads()),
            r is Ok ==> final(self).spi.frames() == old(self).spi.frames()
                + spec_read_all_requests(),
            r is Ok ==> final(self).spi.reads().len() == old(self).spi.reads().len() + 163,
            r is Ok ==> spec_scan_stores(
                old(self).reg,
                final(self).reg,
                final(self).spi.reads(),
                old(self).spi.reads().len() as int,
                40,
                true,
                true,
            ),
            r is Err ==> exists|n: int| Self::spec_scan_aborted(*old(self), *final(self), n),
            r matches Err(e) ==> e.spec_is_hardware(),
    {
        let mut idx: u8 = 0;
        while idx < 40
            invariant
                idx <= 40,
                old(self).reg.wf(),
                self.reg.wf(),
                self.vref_mv == old(self).vref_mv,
                self._busy == old(self)._busy,
                self._ldac == old(self)._ldac,
                self._reset == old(self)._reset,
                self._clr == old(self)._clr,
                self.reg.control == old(self).reg.control,
                self.reg.select == old(self).reg.select,
                self.spi.frames() == old(self).spi.frames() + spec_read_all_requests().take(
                    4 * idx as int,
                ),
                self.spi.reads().len() == old(self).spi.reads().len() + 4 * idx,
                old(self).spi.reads().is_prefix_of(self.spi.reads()),
                spec_scan_stores(
                    old(self).reg,
                    self.reg,
                    self.spi.reads(),
                    old(self).spi.reads().len() as int,
                    idx as int,
                    false,
                    false,
                ),
            decreases 40 - idx,
        {
            let group: u8 = idx / 8;
            let ch: u8 = idx % 8;
            proof {
                lemma_channel_requests(idx as int);
            }

            let ghost r0 = self.spi.reads();
            let da = match self.scan_read(ReadBackAddr::X1A { group, ch }, Ghost(4 * idx as int)) {
                Ok(d) => d,
                Err(e) => {
                    proof {
                        lemma_append_take_push(
                            old(self).spi.frames(),
                            spec_read_all_requests(),
                            4 * idx as int,
                        );
                        lemma_fundamental_div_mod_converse(4 * idx as int, 4, idx as int, 0);
                        assert(Self::spec_scan_aborted(*old(self), *self, 4 * idx as int));
                    }
                    return Err(e);
                },
            };
            proof {
                lemma_append_take_push(
                    old(self).spi.frames(),
                    spec_read_all_requests(),
                    4 * idx as int,
                );
                lemma_prefix_push(old(self).spi.reads(), r0, da.0@);
            }

            let ghost r1 = self.spi.reads();
            let db = match self.scan_read(
                ReadBackAddr::X1B { group, ch },
                Ghost(4 * idx as int + 1),
            ) {
                Ok(d) => d,
                Err(e) => {
                    proof {
                        lemma_append_take_push(
                            old(self).spi.frames(),
                            spec_read_all_requests(),
                            4 * idx as int + 1,
                        );
                        lemma_fundamental_div_mod_converse(4 * idx as int + 1, 4, idx as int, 1);
                        assert(Self::spec_scan_aborted(*old(self), *self, 4 * idx as int + 1));
                    }
                    return Err(e);
                },
            };
            proof {
                lemma_append_take_push(
                    old(self).spi.frames(),
                    spec_read_all_requests(),
                    4 * idx as int + 1,
                );
                lemma_prefix_push(old(self).spi.reads(), r1, db.0@);
            }

            let ghost r2 = self.spi.reads();
            let dc = match self.scan_read(ReadBackAddr::C { group, ch }, Ghost(4 * idx as int + 2)) {
                Ok(d) => d,
                Err(e) => {
                    proof {
                        lemma_append_take_push(
                            old(self).spi.frames(),
                            spec_read_all_requests(),
                            4 * idx as int + 2,
                        );
                        lemma_fundamental_div_mod_converse(4 * idx as int + 2, 4, idx as int, 2);
                        assert(Self::spec_scan_aborted(*old(self), *self, 4 * idx as int + 2));
                    }
                    return Err(e);
                },
            };
            proof {
                lemma_append_take_push(
                    old(self).spi.frames(),
                    spec_read_all_requests(),
                    4 * idx as int + 2,
                );
                lemma_prefix_push(old(self).spi.reads(), r2, dc.0@);
            }

            let ghost r3 = self.spi.reads();
            let dm = match self.scan_read(ReadBackAddr::M { group, ch }, Ghost(4 * idx as int + 3)) {
                Ok(d) => d,
                Err(e) => {
                    proof {
                        lemma_append_take_push(
                            old(self).spi.frames(),
                            spec_read_all_requests(),
                            4 * idx as int + 3,
                        );
                        lemma_fundamental_div_mod_converse(4 * idx as int + 3, 4, idx as int, 3);
                        assert(Self::spec_scan_aborted(*old(self), *self, 4 * idx as int + 3));
                    }
                    return Err(e);
                },
            };
            proof {
                lemma_append_take_push(
                    old(self).spi.frames(),
                    spec_read_all_requests(),
                    4 * idx as int + 3,
                );
                lemma_prefix_push(old(self).spi.reads(), r3, dm.0@);
            }

            let i = idx as usize;
            let wa = da.to_u16();
            let wb = db.to_u16();
            let wc = dc.to_u16();
            let wm = dm.to_u16();
            proof {
                lemma_mask14(wa);
                lemma_mask14(wb);
                lemma_mask14(wc);
                lemma_mask14(wm);
            }
            self.reg.x1_a[i] = wa & 0x3FFF;
            self.reg.x1_b[i] = wb & 0x3FFF;
            self.reg.offset[i] = wc & 0x3FFF;
            self.reg.gain[i] = wm & 0x3FFF;

            proof {
                let base = old(self).spi.reads().len() as int;
                assert(self.spi.reads()[base + 4 * idx] == da.0@);
                assert(self.spi.reads()[base + 4 * idx + 1] == db.0@);
                assert(self.spi.reads()[base + 4 * idx + 2] == dc.0@);
                assert(self.spi.reads()[base + 4 * idx + 3] == dm.0@);
                assert((da.0@[1] * 0x100 + da.0@[2]) as u16 == wa);
                assert((db.0@[1] * 0x100 + db.0@[2]) as u16 == wb);
                assert((dc.0@[1] * 0x100 + dc.0@[2]) as u16 == wc);
                assert((dm.0@[1] * 0x100 + dm.0@[2]) as u16 == wm);
                assert(spec_scan_stores(
                    old(self).reg,
                    self.reg,
                    self.spi.reads(),
                    base,
                    idx as int + 1,
                    false,
                    false,
                ));
            }
            idx = idx + 1;
        }

        let ghost r160 = self.spi.reads();
        let d0 = match self.scan_read(ReadBackAddr::OFS0, Ghost(160)) {
            Ok(d) => d,
            Err(e) => {
                proof {
                    lemma_append_take_push(old(self).spi.frames(), spec_read_all_requests(), 160);
                    assert(Self::spec_scan_aborted(*old(self), *self, 160));
                }
                return Err(e);
            },
        };
        proof {
            lemma_append_take_push(old(self).spi.frames(), spec_read_all_requests(), 160);
            lemma_prefix_push(old(self).spi.reads(), r160, d0.0@);
        }
        let w0 = d0.to_u16();
        proof {
            lemma_mask14(w0);
        }
        self.reg.ofs0 = w0 & 0x3FFF;
        proof {
            let base = old(self).spi.reads().len() as int;
            assert(self.spi.reads()[base + 160] == d0.0@);
            assert((d0.0@[1] * 0x100 + d0.0@[2]) as u16 == w0);
            assert(spec_scan_stores(
                old(self).reg,
                self.reg,
                self.spi.reads(),
                base,
                40,
                true,
                false,
            ));
        }

        let ghost r161 = self.spi.reads();
        let d1 = match self.scan_read(ReadBackAddr::OFS1, Ghost(161)) {
            Ok(d) => d,
            Err(e) => {
                proof {
                    lemma_append_take_push(old(self).spi.frames(), spec_read_all_requests(), 161);
                    assert(Self::spec_scan_aborted(*old(self), *self, 161));
                }
                return Err(e);
            },
        };
        proof {
            lemma_append_take_push(old(self).spi.frames(), spec_read_all_requests(), 161);
            lemma_prefix_push(old(self).spi.reads(), r161, d1.0@);
        }
        let w1 = d1.to_u16();
        proof {
            lemma_mask14(w1);
        }
        self.reg.ofs1 = w1 & 0x3FFF;
        proof {
            let base = old(self).spi.reads().len() as int;
            assert(self.spi.reads()[base + 161] == d1.0@);
            assert((d1.0@[1] * 0x100 + d1.0@[2]) as u16 == w1);
            assert(spec_scan_stores(
                old(self).reg,
                self.reg,
                self.spi.reads(),
                base,
                40,
                true,
                true,
            ));
        }

        // The response to a request is latched one frame behind it, so one
        // more throwaway read flushes the final value; its capture is
        // discarded.
        let ghost r162 = self.spi.reads();
        let flush = match self.scan_read(ReadBackAddr::OFS1, Ghost(162)) {
            Ok(d) => d,
            Err(e) => {
                proof {
                    lemma_append_take_push(old(self).spi.frames(), spec_read_all_requests(), 162);
                    assert(Self::spec_scan_aborted(*old(self), *self, 162));
                }
                return Err(e);
            },
        };
        let _ = flush;
        proof {
            lemma_append_take_push(old(self).spi.frames(), spec_read_all_requests(), 162);
            lemma_prefix_push(old(self).spi.reads(), r162, flush.0@);
            assert(spec_read_all_requests().take(163) =~= spec_read_all_requests());
        }
        Ok(())
    }
}

/// Idempotence law: repeating a register write with identical arguments
/// transmits a bit-identical frame. Each successful `set_code`, `set_gain`
/// or `set_offset` appends the frame determined by its arguments alone, so
/// after two such calls the last two frames of the log are equal.
pub proof fn lemma_identical_writes_identical_frames(
    frames0: Seq<Seq<u8>>,
    frames1: Seq<Seq<u8>>,
    frames2: Seq<Seq<u8>>,
    mode: WriteMode,
    target: ChannelAddress,
    data: u16,
)
    requires
        frames1 == frames0.push(spec_write_frame(mode, target, data)),
        frames2 == frames1.push(spec_write_frame(mode, target, data)),
    ensures
        frames2.len() == frames0.len() + 2,
        frames2[frames2.len() - 1] == frames2[frames2.len() - 2],
{
}

} // verus!

