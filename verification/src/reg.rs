//! Register address space of the device: write-target addresses,
//! special-function addresses, read-back selectors, the write modes, and the
//! in-memory mirror of the chip's registers.

use vstd::prelude::*;

verus! {

/// Selects the data/trim registers targeted by a write frame.
#[derive(Copy, Clone)]
pub enum ChannelAddress {
    /// Every channel in every group.
    AllCh,
    /// One channel in one group.
    SingleCh { ch: u8, group: u8 },
    /// All channels of one group.
    SingleGroup { group: u8 },
    /// Channel `ch` of every group.
    Chx { ch: u8 },
    /// Channel `ch` of every group except group 0.
    ChxExceptGroup0 { ch: u8 },
}

impl ChannelAddress {
    /// The address is within the chip's 5 groups of 8 channels.
    pub open spec fn wf(self) -> bool {
        match self {
            ChannelAddress::AllCh => true,
            ChannelAddress::SingleCh { ch, group } => ch < 8 && group < 5,
            ChannelAddress::SingleGroup { group } => group < 5,
            ChannelAddress::Chx { ch } => ch < 8,
            ChannelAddress::ChxExceptGroup0 { ch } => ch < 8,
        }
    }

    /// Documented 6-bit wire code of the address.
    pub open spec fn spec_code(self) -> u8
        recommends
            self.wf(),
    {
        match self {
            ChannelAddress::AllCh => 0,
            ChannelAddress::SingleCh { ch, group } => ((group + 1) * 8 + ch) as u8,
            ChannelAddress::SingleGroup { group } => (group + 1) as u8,
            ChannelAddress::Chx { ch } => (6 * 8 + ch) as u8,
            ChannelAddress::ChxExceptGroup0 { ch } => (7 * 8 + ch) as u8,
        }
    }

    /// Encodes the address to its 6-bit wire code.
    pub fn encode(&self) -> (r: u8)
        requires
            self.wf(),
        ensures
            r == self.spec_code(),
            r < 64,
    {
        match *self {
            ChannelAddress::AllCh => 0,
            ChannelAddress::SingleCh { ch, group } => {
                proof {
                    assert(group < 5 && ch < 8 ==> (((group + 1) as u8) << 3) | ch == (group + 1)
                        * 8 + ch) by (bit_vector);
                }
                ((group + 1) << 3) | ch
            },
            ChannelAddress::SingleGroup { group } => group + 1,
            ChannelAddress::Chx { ch } => {
                proof {
                    assert(ch < 8 ==> (6u8 << 3) | ch == 6 * 8 + ch) by (bit_vector);
                }
                (6u8 << 3) | ch
            },
            ChannelAddress::ChxExceptGroup0 { ch } => {
                proof {
                    assert(ch < 8 ==> (7u8 << 3) | ch == 7 * 8 + ch) by (bit_vector);
                }
                (7u8 << 3) | ch
            },
        }
    }

    /// Checks that the address is within the chip's 5 groups of 8 channels,
    /// for callers outside the verifier that must test it before a write.
    pub fn is_valid(&self) -> (r: bool)
        ensures
            r == self.wf(),
    {
        match *self {
            ChannelAddress::AllCh => true,
            ChannelAddress::SingleCh { ch, group } => ch < 8 && group < 5,
            ChannelAddress::SingleGroup { group } => group < 5,
            ChannelAddress::Chx { ch } => ch < 8,
            ChannelAddress::ChxExceptGroup0 { ch } => ch < 8,
        }
    }

    /// The representative (group, channel) pair whose trim values stand in
    /// for the whole addressed set when one code is broadcast.
    pub open spec fn spec_repr_pair(self) -> (u8, u8) {
        match self {
            ChannelAddress::AllCh => (0u8, 0u8),
            ChannelAddress::SingleCh { ch, group } => (group, ch),
            ChannelAddress::SingleGroup { group } => (group, 0u8),
            ChannelAddress::Chx { ch } => (0u8, ch),
            ChannelAddress::ChxExceptGroup0 { ch } => (1u8, ch),
        }
    }

    /// Resolves the address to its representative (group, channel) pair.
    pub fn repr_pair(&self) -> (r: (u8, u8))
        ensures
            r == self.spec_repr_pair(),
    {
        match *self {
            ChannelAddress::AllCh => (0, 0),
            ChannelAddress::SingleCh { ch, group } => (group, ch),
            ChannelAddress::SingleGroup { group } => (group, 0),
            ChannelAddress::Chx { ch } => (0, ch),
            ChannelAddress::ChxExceptGroup0 { ch } => (1, ch),
        }
    }
}

/// Selects a non-data-register operation carried by a special-function frame.
#[derive(Copy, Clone)]
pub enum SpecialFunctionAddress {
    /// Write the control register.
    WriteControl,
    /// Write the group 0 span-offset register.
    WriteOFS0,
    /// Write the span-offset register of groups 1 to 4.
    WriteOFS1,
    /// Stage a register selection for read-back.
    ReadBack,
    /// Write the A/B select register of one group.
    WriteSelect { group: u8 },
    /// Write all A/B select registers at once.
    WriteSelectAll,
}

impl SpecialFunctionAddress {
    /// The address names one of the chip's 5 groups where it takes one.
    pub open spec fn wf(self) -> bool {
        match self {
            SpecialFunctionAddress::WriteSelect { group } => group < 5,
            _ => true,
        }
    }

    /// Documented 6-bit wire code of the special function.
    pub open spec fn spec_code(self) -> u8
        recommends
            self.wf(),
    {
        match self {
            SpecialFunctionAddress::WriteControl => 1,
            SpecialFunctionAddress::WriteOFS0 => 2,
            SpecialFunctionAddress::WriteOFS1 => 3,
            SpecialFunctionAddress::ReadBack => 5,
            SpecialFunctionAddress::WriteSelect { group } => (6 + group) as u8,
            SpecialFunctionAddress::WriteSelectAll => 11,
        }
    }

    /// Encodes the special function to its 6-bit wire code.
    pub fn encode(&self) -> (r: u8)
        requires
            self.wf(),
        ensures
            r == self.spec_code(),
            r < 64,
    {
        match *self {
            SpecialFunctionAddress::WriteControl => 1,
            SpecialFunctionAddress::WriteOFS0 => 2,
            SpecialFunctionAddress::WriteOFS1 => 3,
            SpecialFunctionAddress::ReadBack => 5,
            SpecialFunctionAddress::WriteSelect { group } => 6 + group,
            SpecialFunctionAddress::WriteSelectAll => 11,
        }
    }
}

/// Selects the register staged for read-back by a read-request frame.
#[derive(Copy, Clone)]
pub enum ReadBackAddr {
    /// Input register bank A of one channel.
    X1A { group: u8, ch: u8 },
    /// Input register bank B of one channel.
    X1B { group: u8, ch: u8 },
    /// Offset trim register of one channel.
    C { group: u8, ch: u8 },
    /// Gain trim register of one channel.
    M { group: u8, ch: u8 },
    /// The control register.
    Control,
    /// The group 0 span-offset register.
    OFS0,
    /// The span-offset register of groups 1 to 4.
    OFS1,
    /// The A/B select register of one group.
    Select { group: u8 },
}

impl ReadBackAddr {
    /// Any named (group, channel) pair is within the chip's 5 groups of 8
    /// channels.
    pub open spec fn wf(self) -> bool {
        match self {
            ReadBackAddr::X1A { group, ch } => group < 5 && ch < 8,
            ReadBackAddr::X1B { group, ch } => group < 5 && ch < 8,
            ReadBackAddr::C { group, ch } => group < 5 && ch < 8,
            ReadBackAddr::M { group, ch } => group < 5 && ch < 8,
            ReadBackAddr::Select { group } => group < 5,
            _ => true,
        }
    }

    /// Documented 16-bit selector: a 2-bit register-class tag in bits 13-14
    /// and a sequence number in bits 7-12. Per-channel registers use the
    /// channel's sequence number `group * 8 + ch + 8`; the control, span
    /// offset and select registers use fixed pseudo-sequence numbers under
    /// tag 4.
    pub open spec fn spec_value(self) -> u16
        recommends
            self.wf(),
    {
        match self {
            ReadBackAddr::X1A { group, ch } => ((group * 8 + ch + 8) * 128) as u16,
            ReadBackAddr::X1B { group, ch } => (8192 + (group * 8 + ch + 8) * 128) as u16,
            ReadBackAddr::C { group, ch } => (16384 + (group * 8 + ch + 8) * 128) as u16,
            ReadBackAddr::M { group, ch } => (24576 + (group * 8 + ch + 8) * 128) as u16,
            ReadBackAddr::Control => (32768 + 128) as u16,
            ReadBackAddr::OFS0 => (32768 + 256) as u16,
            ReadBackAddr::OFS1 => (32768 + 384) as u16,
            ReadBackAddr::Select { group } => (32768 + (6 + group) * 128) as u16,
        }
    }

    /// Encodes the selector to its 16-bit wire value.
    pub fn encode(&self) -> (r: u16)
        requires
            self.wf(),
        ensures
            r == self.spec_value(),
    {
        match *self {
            ReadBackAddr::X1A { group, ch } => {
                let seq = crate::to_ch_seq(group, ch);
                proof { lemma_seq_shift(seq); }
                seq << 7
            },
            ReadBackAddr::X1B { group, ch } => {
                let seq = crate::to_ch_seq(group, ch);
                proof {
                    lemma_seq_shift(seq);
                    lemma_tag_or(1, (seq * 128) as u16);
                }
                (1u16 << 13) | (seq << 7)
            },
            ReadBackAddr::C { group, ch } => {
                let seq = crate::to_ch_seq(group, ch);
                proof {
                    lemma_seq_shift(seq);
                    lemma_tag_or(2, (seq * 128) as u16);
                }
                (2u16 << 13) | (seq << 7)
            },
            ReadBackAddr::M { group, ch } => {
                let seq = crate::to_ch_seq(group, ch);
                proof {
                    lemma_seq_shift(seq);
                    lemma_tag_or(3, (seq * 128) as u16);
                }
                (3u16 << 13) | (seq << 7)
            },
            ReadBackAddr::Control => {
                proof {
                    lemma_seq_shift(1);
                    lemma_tag_or(4, 128);
                }
                (4u16 << 13) | (1u16 << 7)
            },
            ReadBackAddr::OFS0 => {
                proof {
                    lemma_seq_shift(2);
                    lemma_tag_or(4, 256);
                }
                (4u16 << 13) | (2u16 << 7)
            },
            ReadBackAddr::OFS1 => {
                proof {
                    lemma_seq_shift(3);
                    lemma_tag_or(4, 384);
                }
                (4u16 << 13) | (3u16 << 7)
            },
            ReadBackAddr::Select { group } => {
                let seq = (6 + group) as u16;
                proof {
                    lemma_seq_shift((6 + group) as u16);
                    lemma_tag_or(4, ((6 + group) * 128) as u16);
                }
                (4u16 << 13) | (seq << 7)
            },
        }
    }
}

/// A sequence number below 64 shifted into bits 7-12 is that number times
/// 128.
proof fn lemma_seq_shift(seq: u16)
    by (bit_vector)
    requires
        seq < 64,
    ensures
        seq << 7 == seq * 128,
{
}

/// A register-class tag below 8 shifted into bits 13-15 composes with the
/// low 13 bits by addition.
proof fn lemma_tag_or(tag: u16, low: u16)
    by (bit_vector)
    requires
        tag < 8,
        low < 8192,
    ensures
        (tag << 13) | low == tag * 8192 + low,
{
}

/// Write mode carried in the top 2 bits of a frame's first byte.
#[derive(Copy, Clone)]
pub enum WriteMode {
    /// Write a channel's input data register (bank chosen by the control
    /// register's A/B bit).
    Data,
    /// Write a channel's offset trim register.
    Offset,
    /// Write a channel's gain trim register.
    Gain,
}

impl WriteMode {
    /// Documented numeric value of the mode.
    pub open spec fn spec_bits(self) -> u8 {
        match self {
            WriteMode::Data => 3,
            WriteMode::Offset => 2,
            WriteMode::Gain => 1,
        }
    }

    /// The mode's numeric value, as placed in the top 2 bits of a frame.
    pub fn bits(&self) -> (r: u8)
        ensures
            r == self.spec_bits(),
    {
        match *self {
            WriteMode::Data => 3,
            WriteMode::Offset => 2,
            WriteMode::Gain => 1,
        }
    }
}

/// In-memory mirror of the chip's registers, owned by the driver. It is a
/// best-effort cache: a successful write is sent to the chip without being
/// echoed back, so the mirror holds the last values read back, or the
/// documented power-on defaults.
#[derive(Clone, Copy)]
pub struct Register {
    /// Input data register bank A, one entry per channel.
    pub x1_a: [u16; 40],
    /// Input data register bank B, one entry per channel.
    pub x1_b: [u16; 40],
    /// Gain trim register, one entry per channel.
    pub gain: [u16; 40],
    /// Offset trim register, one entry per channel.
    pub offset: [u16; 40],
    /// Span-offset register of group 0.
    pub ofs0: u16,
    /// Span-offset register of groups 1 to 4.
    pub ofs1: u16,
    /// Bit 2: global A/B select. Bit 1: temperature shutdown enable.
    /// Bit 0: soft power-down.
    pub control: u8,
    /// One byte per group; each bit picks input bank A (0) or B (1) for one
    /// channel of the group.
    pub select: [u8; 5],
}

impl Register {
    /// Every mirrored value fits its declared bit width: 14 bits for input
    /// data, trims and span offsets, and only the 3 documented control bits.
    pub open spec fn wf(self) -> bool {
        &&& forall|i: int| 0 <= i < 40 ==> self.x1_a@[i] < 0x4000
        &&& forall|i: int| 0 <= i < 40 ==> self.x1_b@[i] < 0x4000
        &&& forall|i: int| 0 <= i < 40 ==> self.gain@[i] < 0x4000
        &&& forall|i: int| 0 <= i < 40 ==> self.offset@[i] < 0x4000
        &&& self.ofs0 < 0x4000
        &&& self.ofs1 < 0x4000
        &&& self.control < 8
    }

    /// The device's documented power-on register values.
    pub open spec fn is_power_on_default(self) -> bool {
        &&& forall|i: int| 0 <= i < 40 ==> self.x1_a@[i] == 0x1555
        &&& forall|i: int| 0 <= i < 40 ==> self.x1_b@[i] == 0x1555
        &&& forall|i: int| 0 <= i < 40 ==> self.gain@[i] == 0x3FFF
        &&& forall|i: int| 0 <= i < 40 ==> self.offset@[i] == 0x2000
        &&& self.ofs0 == 0x1555
        &&& self.ofs1 == 0x1555
        &&& self.control == 0
        &&& forall|i: int| 0 <= i < 5 ==> self.select@[i] == 0
    }

    /// The span-offset register that applies to a group: group 0 has its
    /// own, groups 1 to 4 share the other.
    pub open spec fn spec_ofs_for_group(self, group: u8) -> u16 {
        if group == 0 {
            self.ofs0
        } else {
            self.ofs1
        }
    }
}

impl Default for Register {
    /// Creates the mirror holding the device's documented power-on values.
    fn default() -> (r: Self)
        ensures
            r.is_power_on_default(),
            r.wf(),
    {
        let r = Register {
            x1_a: [0x1555; 40],
            x1_b: [0x1555; 40],
            gain: [0x3FFF; 40],
            offset: [0x2000; 40],
            ofs0: 0x1555,
            ofs1: 0x1555,
            control: 0x00,
            select: [0; 5],
        };
        r
    }
}

} // verus!
