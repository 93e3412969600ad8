//! The decisions of the USB-to-LoRa bridge. The firmware waits for either a
//! USB read or a received LoRa packet and hands each event to a `Bridge`, which
//! says what to send and what to change; the firmware does the sending.

use vstd::prelude::*;
use crate::decoder::{DecoderState, KissDecoder, UsbReadActions, initial_decoder, run, read_start,
    payload_view, to_transmit};
use crate::host_link::{RxReport, report_received_packet, rx_report_holds, rssi_report_value,
    snr_report_value};
use crate::kiss::{CMD_STAT_RSSI, CMD_STAT_SNR, data_frame, stat_frame};
use crate::frame_buffer::data_frame_contents;
use crate::radio_params::{LoraConfig, same_modulation};

verus! {

/// The bridge's state as a value: the radio settings, which last for as long
/// as the firmware runs, and the decoder of the current USB connection.
pub struct BridgeState {
    pub cfg: LoraConfig,
    pub decoder: DecoderState,
}

/// The bridge between the USB host and the radio.
pub struct Bridge {
    cfg: LoraConfig,
    decoder: KissDecoder,
}

impl View for Bridge {
    type V = BridgeState;

    closed spec fn view(&self) -> BridgeState {
        BridgeState { cfg: self.cfg, decoder: self.decoder@ }
    }
}

impl Bridge {
    /// The bridge at power-up: the default settings, no frame under way.
    pub fn new() -> (b: Bridge)
        ensures
            b@.cfg == LoraConfig::spec_default(),
            b@.decoder == initial_decoder(),
    {
        Bridge { cfg: LoraConfig::default(), decoder: KissDecoder::new() }
    }

    /// A USB host connected: decoding starts afresh, the settings stay.
    pub fn connect(&mut self)
        ensures
            final(self)@ == (BridgeState { cfg: old(self)@.cfg, decoder: initial_decoder() }),
    {
        self.decoder = KissDecoder::new();
    }

    /// The current radio settings, from which the modulation and packet
    /// parameters are built and with whose power packets are sent.
    pub fn config(&self) -> (cfg: LoraConfig)
        ensures
            cfg == self@.cfg,
    {
        self.cfg
    }

    /// Bytes arrived from the USB host.
    pub fn on_usb_read(&mut self, bytes: &[u8]) -> (actions: UsbReadActions)
        ensures
            ({
                let r = run(read_start(old(self)@.decoder, old(self)@.cfg), bytes@);
                &&& final(self)@ == (BridgeState { cfg: r.cfg, decoder: r.decoder })
                &&& actions.rebuild_radio_params == r.changed
                &&& payload_view(actions.transmit) == to_transmit(r.tx)
            }),
            ({
                let r = run(read_start(old(self)@.decoder, old(self)@.cfg), bytes@);
                &&& !same_modulation(final(self)@.cfg, old(self)@.cfg)
                    ==> actions.rebuild_radio_params
                &&& actions.transmit is Some ==> {
                    &&& payload_view(actions.transmit) == r.tx
                    &&& r.tx->0.len() > 0
                }
                &&& (r.tx matches Some(p) && p.len() > 0) ==> payload_view(actions.transmit) == r.tx
            }),
    {
        self.decoder.feed(&mut self.cfg, bytes)
    }

    /// A LoRa packet was received: what to tell the host. The bridge's state
    /// does not change.
    pub fn on_radio_packet(&self, payload: &[u8], rssi: i16, snr: i16) -> (report: RxReport)
        ensures
            rx_report_holds(report, payload@, rssi, snr),
            payload@.len() <= 255 ==> data_frame_contents(report.data_frame) == data_frame(payload@),
            report.rssi_frame.0@.take(report.rssi_frame.1 as int) == stat_frame(
                CMD_STAT_RSSI,
                rssi_report_value(rssi),
            ),
            report.snr_frame.0@.take(report.snr_frame.1 as int) == stat_frame(
                CMD_STAT_SNR,
                snr_report_value(snr),
            ),
    {
        report_received_packet(payload, rssi, snr)
    }
}

} // verus!
