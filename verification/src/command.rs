//! What a complete KISS frame from the host asks for, and how a request
//! changes the radio settings.

use vstd::prelude::*;
use crate::frame_buffer::{PAYLOAD_CAPACITY, payload_contents, payload_new, payload_push};
use crate::kiss::{CMD_DATA, CMD_FREQ, CMD_BW, CMD_TXPWR, CMD_SF, CMD_CR};
use crate::radio_params::{
    LoraConfig, bw_from_hz, sf_from_byte, cr_from_byte, spec_bw_from_hz, spec_sf_from_byte,
    spec_cr_from_byte,
};

verus! {

/// Largest payload that one LoRa packet carries; longer data frames are cut.
pub const MAX_TX_PAYLOAD: usize = PAYLOAD_CAPACITY;

/// A request from the host, as a mathematical value.
pub enum FrameCommand {
    /// Transmit these bytes.
    Data(Seq<u8>),
    /// Set the frequency (Hz).
    Frequency(u32),
    /// Set the bandwidth from a value in Hz.
    Bandwidth(u32),
    /// Set the spreading factor from a KISS byte.
    SpreadingFactor(u8),
    /// Set the coding rate from a KISS byte.
    CodingRate(u8),
    /// Set the transmit power (dBm).
    TxPower(u8),
    /// A frame that asks for nothing this firmware does.
    Ignored,
}

/// A request from the host.
#[derive(Debug, PartialEq, Eq)]
pub enum KissCommand {
    Data(heapless::Vec<u8, 255>),
    Frequency(u32),
    Bandwidth(u32),
    SpreadingFactor(u8),
    CodingRate(u8),
    TxPower(u8),
    Ignored,
}

impl View for KissCommand {
    type V = FrameCommand;

    open spec fn view(&self) -> FrameCommand {
        match self {
            KissCommand::Data(p) => FrameCommand::Data(payload_contents(*p)),
            KissCommand::Frequency(f) => FrameCommand::Frequency(*f),
            KissCommand::Bandwidth(h) => FrameCommand::Bandwidth(*h),
            KissCommand::SpreadingFactor(s) => FrameCommand::SpreadingFactor(*s),
            KissCommand::CodingRate(c) => FrameCommand::CodingRate(*c),
            KissCommand::TxPower(p) => FrameCommand::TxPower(*p),
            KissCommand::Ignored => FrameCommand::Ignored,
        }
    }
}

/// The unsigned integer that four bytes spell, most significant first.
pub open spec fn be_u32(b0: u8, b1: u8, b2: u8, b3: u8) -> u32 {
    (b0 * 0x100_0000 + b1 * 0x1_0000 + b2 * 0x100 + b3) as u32
}

/// The payload of a data frame: the bytes after the command byte, at most
/// `MAX_TX_PAYLOAD` of them.
pub open spec fn data_payload(frame: Seq<u8>) -> Seq<u8> {
    if frame.len() <= MAX_TX_PAYLOAD + 1 {
        frame.subrange(1, frame.len() as int)
    } else {
        frame.subrange(1, MAX_TX_PAYLOAD + 1)
    }
}

/// The command number of a frame: the low nibble of its first byte (the high
/// nibble is the port, which is not looked at).
pub open spec fn command_nibble(first: u8) -> u8 {
    first % 16
}

/// What a complete frame (the bytes between two delimiters, unescaped) asks
/// for. A data frame carries at most `MAX_TX_PAYLOAD` bytes; a configuration
/// frame too short for its argument, an unknown command and an empty frame ask
/// for nothing.
pub open spec fn frame_command(frame: Seq<u8>) -> FrameCommand {
    if frame.len() == 0 {
        FrameCommand::Ignored
    } else {
        let cmd = command_nibble(frame[0]);
        if cmd == CMD_DATA {
            FrameCommand::Data(data_payload(frame))
        } else if cmd == CMD_FREQ && frame.len() >= 5 {
            FrameCommand::Frequency(be_u32(frame[1], frame[2], frame[3], frame[4]))
        } else if cmd == CMD_BW && frame.len() >= 5 {
            FrameCommand::Bandwidth(be_u32(frame[1], frame[2], frame[3], frame[4]))
        } else if cmd == CMD_SF && frame.len() >= 2 {
            FrameCommand::SpreadingFactor(frame[1])
        } else if cmd == CMD_CR && frame.len() >= 2 {
            FrameCommand::CodingRate(frame[1])
        } else if cmd == CMD_TXPWR && frame.len() >= 2 {
            FrameCommand::TxPower(frame[1])
        } else {
            FrameCommand::Ignored
        }
    }
}

/// The settings after a request.
pub open spec fn apply_command(cfg: LoraConfig, cmd: FrameCommand) -> LoraConfig {
    match cmd {
        FrameCommand::Frequency(f) => LoraConfig { freq: f, ..cfg },
        FrameCommand::Bandwidth(hz) => LoraConfig { bw: spec_bw_from_hz(hz), ..cfg },
        FrameCommand::SpreadingFactor(s) => LoraConfig { sf: spec_sf_from_byte(s), ..cfg },
        FrameCommand::CodingRate(c) => LoraConfig { cr: spec_cr_from_byte(c), ..cfg },
        FrameCommand::TxPower(p) => LoraConfig { tx_power: p as i32, ..cfg },
        _ => cfg,
    }
}

/// Whether a request changes the modulation, so that the radio's modulation and
/// packet parameters must be built again. The transmit power is read at each
/// transmission and needs no rebuild.
pub open spec fn needs_rebuild(cmd: FrameCommand) -> bool {
    match cmd {
        FrameCommand::Frequency(_) => true,
        FrameCommand::Bandwidth(_) => true,
        FrameCommand::SpreadingFactor(_) => true,
        FrameCommand::CodingRate(_) => true,
        _ => false,
    }
}

/// The integer that four big-endian bytes spell.
pub fn u32_from_be(b0: u8, b1: u8, b2: u8, b3: u8) -> (v: u32)
    ensures
        v == be_u32(b0, b1, b2, b3),
        v == b0 * 0x100_0000 + b1 * 0x1_0000 + b2 * 0x100 + b3,
{
    (b0 as u32) * 0x100_0000 + (b1 as u32) * 0x1_0000 + (b2 as u32) * 0x100 + (b3 as u32)
}

/// Reads what a complete, unescaped frame asks for.
pub fn decode_frame(frame: &[u8]) -> (cmd: KissCommand)
    ensures
        cmd@ == frame_command(frame@),
{
    if frame.len() == 0 {
        return KissCommand::Ignored;
    }
    let first = frame[0];
    let cmd = first & 0x0F;
    assert(first & 0x0F == first % 16) by (bit_vector);
    if cmd == CMD_DATA {
        // The payload is copied out of the frame, at most MAX_TX_PAYLOAD bytes.
        let end: usize = if frame.len() - 1 < MAX_TX_PAYLOAD {
            frame.len()
        } else {
            MAX_TX_PAYLOAD + 1
        };
        let mut payload = payload_new();
        let mut i: usize = 1;
        while i < end
            invariant
                1 <= i <= end,
                end <= frame@.len(),
                end <= MAX_TX_PAYLOAD + 1,
                payload_contents(payload) == frame@.subrange(1, i as int),
            decreases end - i,
        {
            let _ = payload_push(&mut payload, frame[i]);
            assert(frame@.subrange(1, i + 1) =~= frame@.subrange(1, i as int).push(frame@[i as int]));
            i = i + 1;
        }
        assert(payload_contents(payload) =~= data_payload(frame@));
        KissCommand::Data(payload)
    } else if cmd == CMD_FREQ && frame.len() >= 5 {
        KissCommand::Frequency(u32_from_be(frame[1], frame[2], frame[3], frame[4]))
    } else if cmd == CMD_BW && frame.len() >= 5 {
        KissCommand::Bandwidth(u32_from_be(frame[1], frame[2], frame[3], frame[4]))
    } else if cmd == CMD_SF && frame.len() >= 2 {
        KissCommand::SpreadingFactor(frame[1])
    } else if cmd == CMD_CR && frame.len() >= 2 {
        KissCommand::CodingRate(frame[1])
    } else if cmd == CMD_TXPWR && frame.len() >= 2 {
        KissCommand::TxPower(frame[1])
    } else {
        KissCommand::Ignored
    }
}

impl LoraConfig {
    /// Applies a request to the settings; returns whether the radio parameters
    /// must be built again.
    pub fn apply_command(&mut self, cmd: &KissCommand) -> (rebuild: bool)
        ensures
            *final(self) == apply_command(*old(self), cmd@),
            rebuild == needs_rebuild(cmd@),
            final(self).freq != old(self).freq || final(self).bw != old(self).bw
                || final(self).sf != old(self).sf || final(self).cr != old(self).cr ==> rebuild,
    {
        match cmd {
            KissCommand::Frequency(f) => {
                self.freq = *f;
                true
            },
            KissCommand::Bandwidth(hz) => {
                self.bw = bw_from_hz(*hz);
                true
            },
            KissCommand::SpreadingFactor(s) => {
                self.sf = sf_from_byte(*s);
                true
            },
            KissCommand::CodingRate(c) => {
                self.cr = cr_from_byte(*c);
                true
            },
            KissCommand::TxPower(p) => {
                self.tx_power = *p as i32;
                false
            },
            _ => false,
        }
    }
}

} // verus!
