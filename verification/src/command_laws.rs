//! Laws of the KISS command table: what each kind of frame from the host does
//! to the radio settings, on any port, and that every change of the modulation
//! asks for the radio parameters to be built again.

use vstd::prelude::*;
use crate::kiss::{CMD_DATA, CMD_FREQ, CMD_BW, CMD_TXPWR, CMD_SF, CMD_CR};
use crate::command::{FrameCommand, frame_command, apply_command, needs_rebuild, MAX_TX_PAYLOAD};
use crate::radio_params::{
    LoraConfig, SpreadingFactor, CodingRate, is_nearest_bandwidth, spreading_factor_value,
    coding_rate_denominator,
};

verus! {

/// The first byte of a frame: a port in the high nibble, a command in the low
/// nibble.
pub open spec fn command_byte(port: u8, cmd: u8) -> u8 {
    (port * 16 + cmd) as u8
}

/// The four bytes of `v`, most significant first.
pub open spec fn be_bytes(v: u32) -> Seq<u8> {
    seq![(v >> 24u32) as u8, (v >> 16u32) as u8, (v >> 8u32) as u8, v as u8]
}

proof fn lemma_command_nibble(port: u8, cmd: u8)
    requires
        port < 16,
        cmd < 16,
    ensures
        command_byte(port, cmd) % 16 == cmd,
{
    assert((port * 16 + cmd) as u8 == port * 16 + cmd);
    assert((port * 16 + cmd) % 16 == cmd) by (nonlinear_arith)
        requires
            cmd < 16,
    ;
}

proof fn lemma_be_bytes_spell(v: u32)
    ensures
        ((v >> 24u32) as u8) * 0x100_0000 + ((v >> 16u32) as u8) * 0x1_0000 + ((v >> 8u32) as u8)
            * 0x100 + (v as u8) == v,
{
    assert(((v >> 24u32) as u8) as u32 * 0x100_0000u32 + ((v >> 16u32) as u8) as u32 * 0x1_0000u32
        + ((v >> 8u32) as u8) as u32 * 0x100u32 + (v as u8) as u32 == v) by (bit_vector);
}

/// Every change that a request makes to the frequency, the bandwidth, the
/// spreading factor or the coding rate comes with a request to build the
/// radio parameters again, so the radio never keeps an old modulation.
pub proof fn lemma_modulation_change_requests_rebuild(cfg: LoraConfig, cmd: FrameCommand)
    ensures
        ({
            let after = apply_command(cfg, cmd);
            after.freq != cfg.freq || after.bw != cfg.bw || after.sf != cfg.sf || after.cr
                != cfg.cr
        }) ==> needs_rebuild(cmd),
        apply_command(cfg, cmd).tx_power != cfg.tx_power ==> !needs_rebuild(cmd),
{
}

/// A data frame on any port asks to transmit exactly the bytes after its
/// command byte, when they fit in one LoRa packet.
pub proof fn lemma_data_frame_command(port: u8, payload: Seq<u8>)
    requires
        port < 16,
        payload.len() <= MAX_TX_PAYLOAD,
    ensures
        frame_command(seq![command_byte(port, CMD_DATA)] + payload) == FrameCommand::Data(payload),
{
    lemma_command_nibble(port, CMD_DATA);
    let f = seq![command_byte(port, CMD_DATA)] + payload;
    assert(f.subrange(1, f.len() as int) =~= payload);
}

/// A frequency frame on any port sets the frequency to the value its four
/// bytes spell, leaves the other settings, and asks for a rebuild; bytes after
/// the argument do not matter.
pub proof fn lemma_frequency_frame_sets_frequency(
    cfg: LoraConfig,
    port: u8,
    freq: u32,
    rest: Seq<u8>,
)
    requires
        port < 16,
    ensures
        ({
            let cmd = frame_command(seq![command_byte(port, CMD_FREQ)] + be_bytes(freq) + rest);
            &&& apply_command(cfg, cmd) == (LoraConfig { freq, ..cfg })
            &&& needs_rebuild(cmd)
        }),
{
    lemma_command_nibble(port, CMD_FREQ);
    lemma_be_bytes_spell(freq);
}

/// A bandwidth frame on any port selects the supported bandwidth nearest to
/// the value its four bytes spell, leaves the other settings, and asks for a
/// rebuild.
pub proof fn lemma_bandwidth_frame_selects_nearest(cfg: LoraConfig, port: u8, hz: u32, rest: Seq<u8>)
    requires
        port < 16,
    ensures
        ({
            let cmd = frame_command(seq![command_byte(port, CMD_BW)] + be_bytes(hz) + rest);
            let after = apply_command(cfg, cmd);
            &&& is_nearest_bandwidth(hz, after.bw)
            &&& after == (LoraConfig { bw: after.bw, ..cfg })
            &&& needs_rebuild(cmd)
        }),
{
    lemma_command_nibble(port, CMD_BW);
    lemma_be_bytes_spell(hz);
    crate::radio_params::lemma_bw_from_hz_is_nearest(hz);
}

/// A spreading-factor frame on any port, with any argument byte, sets the
/// spreading factor (the one the byte names when it is 5 to 12, SF7 for any
/// other byte), leaves the other settings, and asks for a rebuild.
pub proof fn lemma_spreading_factor_frame(cfg: LoraConfig, port: u8, b: u8, rest: Seq<u8>)
    requires
        port < 16,
    ensures
        ({
            let cmd = frame_command(seq![command_byte(port, CMD_SF), b] + rest);
            let after = apply_command(cfg, cmd);
            &&& 5 <= b <= 12 ==> spreading_factor_value(after.sf) == b
            &&& !(5 <= b <= 12) ==> after.sf == SpreadingFactor::_7
            &&& after == (LoraConfig { sf: after.sf, ..cfg })
            &&& needs_rebuild(cmd)
        }),
{
    lemma_command_nibble(port, CMD_SF);
}

/// A coding-rate frame on any port, with any argument byte, sets the coding
/// rate (4/b when b is 5 to 8, 4/5 for any other byte), leaves the other
/// settings, and asks for a rebuild.
pub proof fn lemma_coding_rate_frame(cfg: LoraConfig, port: u8, b: u8, rest: Seq<u8>)
    requires
        port < 16,
    ensures
        ({
            let cmd = frame_command(seq![command_byte(port, CMD_CR), b] + rest);
            let after = apply_command(cfg, cmd);
            &&& 5 <= b <= 8 ==> coding_rate_denominator(after.cr) == b
            &&& !(5 <= b <= 8) ==> after.cr == CodingRate::_4_5
            &&& after == (LoraConfig { cr: after.cr, ..cfg })
            &&& needs_rebuild(cmd)
        }),
{
    lemma_command_nibble(port, CMD_CR);
}

/// A TX-power frame on any port sets the power to its argument in dBm, leaves
/// the other settings, and asks for no rebuild (the power is read at each
/// transmission).
pub proof fn lemma_tx_power_frame(cfg: LoraConfig, port: u8, b: u8, rest: Seq<u8>)
    requires
        port < 16,
    ensures
        ({
            let cmd = frame_command(seq![command_byte(port, CMD_TXPWR), b] + rest);
            &&& apply_command(cfg, cmd) == (LoraConfig { tx_power: b as i32, ..cfg })
            &&& !needs_rebuild(cmd)
        }),
{
    lemma_command_nibble(port, CMD_TXPWR);
}

} // verus!
