//! What goes to the USB host: frames cut into full-speed USB packets, and the
//! reports that follow each received LoRa packet.

use vstd::prelude::*;
use crate::frame_buffer::data_frame_contents;
use crate::kiss::{
    CMD_STAT_RSSI, CMD_STAT_SNR, data_frame, cut_to_capacity, stat_frame, encode_data_frame,
    encode_stat_frame,
};

verus! {

/// Largest USB packet of the CDC-ACM endpoint.
pub const USB_PACKET_SIZE: usize = 64;

/// How many packets carry `len` bytes: every full packet, then one shorter
/// packet, which is empty when `len` is a multiple of the packet size so that
/// the host sees where the transfer ends.
pub open spec fn usb_packet_count(len: nat) -> nat {
    len / (USB_PACKET_SIZE as nat) + 1
}

/// Where the `i`-th packet of `len` bytes starts and ends. An index past the
/// last packet gives the empty range at the end.
pub open spec fn usb_packet_range(len: nat, i: int) -> (int, int) {
    if i < 0 || i >= usb_packet_count(len) {
        (len as int, len as int)
    } else {
        let start = USB_PACKET_SIZE * i;
        let end = if start + USB_PACKET_SIZE <= len {
            start + USB_PACKET_SIZE
        } else {
            len as int
        };
        (start, end)
    }
}

/// The `i`-th packet that carries `data`.
pub open spec fn usb_packet(data: Seq<u8>, i: int) -> Seq<u8> {
    data.subrange(usb_packet_range(data.len(), i).0, usb_packet_range(data.len(), i).1)
}

/// The first `n` packets, one after the other.
pub open spec fn joined_packets(data: Seq<u8>, n: nat) -> Seq<u8>
    decreases n,
{
    if n == 0 {
        Seq::<u8>::empty()
    } else {
        joined_packets(data, (n - 1) as nat) + usb_packet(data, n - 1)
    }
}

/// How many USB packets carry `len` bytes for the host.
pub fn usb_packet_total(len: usize) -> (n: usize)
    ensures
        n == usb_packet_count(len as nat),
{
    len / USB_PACKET_SIZE + 1
}

/// Where the `i`-th USB packet of `len` bytes starts and ends: packets of
/// `USB_PACKET_SIZE` bytes, ending with a short (possibly empty) packet.
pub fn usb_packet_bounds(len: usize, i: usize) -> (range: (usize, usize))
    ensures
        range.0 as int == usb_packet_range(len as nat, i as int).0,
        range.1 as int == usb_packet_range(len as nat, i as int).1,
        range.0 <= range.1 <= len,
{
    if i > len / USB_PACKET_SIZE {
        return (len, len);
    }
    assert(USB_PACKET_SIZE * i <= len) by (nonlinear_arith)
        requires
            i <= len / 64,
            USB_PACKET_SIZE == 64,
    ;
    let start = USB_PACKET_SIZE * i;
    let end = if len - start >= USB_PACKET_SIZE {
        start + USB_PACKET_SIZE
    } else {
        len
    };
    (start, end)
}

/// The packets of some bytes carry exactly those bytes: all but the last are
/// full, the last holds what is left, and it is empty exactly when the length
/// is a multiple of the packet size.
pub proof fn lemma_usb_packets_carry_data(data: Seq<u8>)
    ensures
        joined_packets(data, usb_packet_count(data.len())) == data,
        forall|i: int|
            0 <= i < usb_packet_count(data.len()) - 1 ==> #[trigger] usb_packet(data, i).len()
                == USB_PACKET_SIZE,
        usb_packet(data, usb_packet_count(data.len()) - 1).len() == data.len() % (
        USB_PACKET_SIZE as nat),
{
    let n = usb_packet_count(data.len());
    lemma_joined_prefix(data, (n - 1) as nat);
    assert(64 * (n - 1) + data.len() % 64 == data.len()) by (nonlinear_arith)
        requires
            n == data.len() / 64 + 1,
    ;
    assert(joined_packets(data, n) =~= data);
}

proof fn lemma_joined_prefix(data: Seq<u8>, k: nat)
    requires
        USB_PACKET_SIZE * k <= data.len(),
    ensures
        joined_packets(data, k) == data.take(USB_PACKET_SIZE * k),
    decreases k,
{
    if k > 0 {
        lemma_joined_prefix(data, (k - 1) as nat);
        assert(joined_packets(data, k) =~= data.take(USB_PACKET_SIZE * k));
    }
}

/// A value clamped to a byte.
pub open spec fn clamp_to_byte(v: int) -> u8 {
    if v < 0 {
        0
    } else if v > 255 {
        255
    } else {
        v as u8
    }
}

/// The RSSI report byte, written as what it means: the magnitude of a
/// negative RSSI in dBm, 0 for a positive RSSI, 255 below -255 dBm.
pub open spec fn rssi_report_value(rssi: i16) -> u8 {
    if rssi > 0 {
        0
    } else if rssi < -255 {
        255
    } else {
        (0 - rssi) as u8
    }
}

/// The SNR report byte, written as what it means: four steps per dB from
/// -32 dB (0) up to 31 dB (252), 0 below and 255 above.
pub open spec fn snr_report_value(snr: i16) -> u8 {
    if snr < -32 {
        0
    } else if snr > 31 {
        255
    } else {
        (4 * snr + 128) as u8
    }
}

/// The RSSI report byte: minus the RSSI in dBm (-80 dBm gives 80), clamped to
/// a byte.
pub open spec fn spec_rssi_report(rssi: i16) -> u8 {
    clamp_to_byte(-rssi)
}

/// The SNR report byte: (SNR in dB + 32) * 4 (5 dB gives 148), clamped to a
/// byte.
pub open spec fn spec_snr_report(snr: i16) -> u8 {
    clamp_to_byte((snr + 32) * 4)
}

fn clamp_i32_to_byte(v: i32) -> (b: u8)
    ensures
        b == clamp_to_byte(v as int),
{
    if v < 0 {
        0
    } else if v > 255 {
        255
    } else {
        v as u8
    }
}

/// Encodes an RSSI in dBm as the report byte.
pub fn rssi_report_byte(rssi: i16) -> (b: u8)
    ensures
        b == spec_rssi_report(rssi),
        -255 <= rssi <= 0 ==> b == -rssi,
        rssi > 0 ==> b == 0,
        rssi < -255 ==> b == 255,
{
    clamp_i32_to_byte(-(rssi as i32))
}

/// Encodes an SNR in dB as the report byte.
pub fn snr_report_byte(snr: i16) -> (b: u8)
    ensures
        b == spec_snr_report(snr),
        -32 <= snr <= 31 ==> b == (snr + 32) * 4,
        snr < -32 ==> b == 0,
        snr > 31 ==> b == 255,
{
    clamp_i32_to_byte((snr as i32 + 32) * 4)
}

/// What the host is sent after a LoRa packet is received.
#[derive(Debug)]
pub struct RxReport {
    /// The data frame with the payload, sent in USB packets.
    pub data_frame: heapless::Vec<u8, 516>,
    /// The RSSI report frame (the first `.1` bytes), sent as one USB packet.
    pub rssi_frame: ([u8; 5], usize),
    /// The SNR report frame (the first `.1` bytes), sent as one USB packet.
    pub snr_frame: ([u8; 5], usize),
}

/// What an `RxReport` says, as values.
pub open spec fn rx_report_holds(report: RxReport, payload: Seq<u8>, rssi: i16, snr: i16) -> bool {
    &&& data_frame_contents(report.data_frame) == cut_to_capacity(data_frame(payload))
    &&& report.rssi_frame.1 <= 5
    &&& report.rssi_frame.0@.take(report.rssi_frame.1 as int) == stat_frame(
        CMD_STAT_RSSI,
        spec_rssi_report(rssi),
    )
    &&& report.snr_frame.1 <= 5
    &&& report.snr_frame.0@.take(report.snr_frame.1 as int) == stat_frame(
        CMD_STAT_SNR,
        spec_snr_report(snr),
    )
}

/// The messages for the host about a received packet: the payload as a data
/// frame, then the RSSI report, then the SNR report.
pub fn report_received_packet(payload: &[u8], rssi: i16, snr: i16) -> (report: RxReport)
    ensures
        rx_report_holds(report, payload@, rssi, snr),
        payload@.len() <= 255 ==> data_frame_contents(report.data_frame) == data_frame(payload@),
        report.rssi_frame.0@.take(report.rssi_frame.1 as int) == stat_frame(
            CMD_STAT_RSSI,
            rssi_report_value(rssi),
        ),
        report.snr_frame.0@.take(report.snr_frame.1 as int) == stat_frame(
            CMD_STAT_SNR,
            snr_report_value(snr),
        ),
{
    let data_frame = encode_data_frame(payload);
    let rssi_frame = encode_stat_frame(CMD_STAT_RSSI, rssi_report_byte(rssi));
    let snr_frame = encode_stat_frame(CMD_STAT_SNR, snr_report_byte(snr));
    RxReport { data_frame, rssi_frame, snr_frame }
}

} // verus!
