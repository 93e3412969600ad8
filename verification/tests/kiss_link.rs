use rak11300_rnode::bridge::Bridge;
use rak11300_rnode::command::{decode_frame, u32_from_be, KissCommand};
use rak11300_rnode::decoder::{KissDecoder, UsbReadActions};
use rak11300_rnode::host_link::{
    report_received_packet, rssi_report_byte, snr_report_byte, usb_packet_bounds,
    usb_packet_total,
};
use rak11300_rnode::kiss::{
    encode_data_frame, encode_stat_frame, CMD_STAT_RSSI, CMD_STAT_SNR, FEND, FESC, TFEND, TFESC,
};
use rak11300_rnode::radio_params::{
    bw_from_hz, cr_from_byte, sf_from_byte, Bandwidth, CodingRate, LoraConfig, SpreadingFactor,
};

fn fresh() -> (KissDecoder, LoraConfig) {
    (KissDecoder::new(), LoraConfig::default())
}

fn transmitted(actions: &UsbReadActions) -> Option<Vec<u8>> {
    actions.transmit.as_ref().map(|p| p.as_slice().to_vec())
}

fn stat_bytes(frame: &([u8; 5], usize)) -> Vec<u8> {
    frame.0[..frame.1].to_vec()
}

fn packets(data: &[u8]) -> Vec<Vec<u8>> {
    (0..usb_packet_total(data.len()))
        .map(|i| {
            let (start, end) = usb_packet_bounds(data.len(), i);
            data[start..end].to_vec()
        })
        .collect()
}

#[test]
fn data_frame_escapes_special_bytes() {
    let frame = encode_data_frame(&[0x01, FEND, FESC, 0x02]);
    assert_eq!(
        frame.as_slice(),
        &[FEND, 0x00, 0x01, FESC, TFEND, FESC, TFESC, 0x02, FEND][..]
    );
}

#[test]
fn data_frame_of_empty_payload() {
    assert_eq!(encode_data_frame(&[]).as_slice(), &[FEND, 0x00, FEND][..]);
}

#[test]
fn data_frame_of_largest_payload_fits() {
    let payload = vec![FEND; 255];
    let frame = encode_data_frame(&payload);
    assert_eq!(frame.len(), 2 + 510 + 1);
    assert_eq!(frame[frame.len() - 1], FEND);
}

#[test]
fn data_frame_is_cut_at_buffer_room() {
    let payload = vec![FESC; 300];
    let frame = encode_data_frame(&payload);
    assert_eq!(frame.len(), 516);
    assert_eq!(frame[514], FESC);
    assert_eq!(frame[515], TFESC);
}

#[test]
fn stat_frames() {
    assert_eq!(stat_bytes(&encode_stat_frame(CMD_STAT_RSSI, 80)), vec![FEND, 0x23, 80, FEND]);
    assert_eq!(
        stat_bytes(&encode_stat_frame(CMD_STAT_SNR, FEND)),
        vec![FEND, 0x24, FESC, TFEND, FEND]
    );
    assert_eq!(
        stat_bytes(&encode_stat_frame(CMD_STAT_SNR, FESC)),
        vec![FEND, 0x24, FESC, TFESC, FEND]
    );
    assert_eq!(encode_stat_frame(CMD_STAT_RSSI, 80), ([FEND, 0x23, 80, FEND, 0], 4));
}

#[test]
fn report_bytes() {
    assert_eq!(rssi_report_byte(-80), 80);
    assert_eq!(rssi_report_byte(10), 0);
    assert_eq!(rssi_report_byte(-300), 255);
    assert_eq!(snr_report_byte(5), 148);
    assert_eq!(snr_report_byte(-20), 48);
    assert_eq!(snr_report_byte(-40), 0);
    assert_eq!(snr_report_byte(40), 255);
}

#[test]
fn usb_packets_of_empty_data_is_one_empty_packet() {
    assert_eq!(usb_packet_total(0), 1);
    assert_eq!(usb_packet_bounds(0, 0), (0, 0));
    assert_eq!(packets(&[]), vec![Vec::<u8>::new()]);
}

#[test]
fn usb_packets_end_with_empty_packet_on_multiple_of_64() {
    let data: Vec<u8> = (0..128u32).map(|i| i as u8).collect();
    let p = packets(&data);
    assert_eq!(p.len(), 3);
    assert_eq!(p[0], data[..64].to_vec());
    assert_eq!(p[1], data[64..].to_vec());
    assert!(p[2].is_empty());
}

#[test]
fn usb_packets_end_with_short_packet() {
    let data: Vec<u8> = (0..100u32).map(|i| i as u8).collect();
    let p = packets(&data);
    assert_eq!(p.len(), 2);
    assert_eq!(p[0].len(), 64);
    assert_eq!(p[1], data[64..].to_vec());
    assert_eq!(p.concat(), data);
}

#[test]
fn usb_packet_bounds_past_the_end() {
    assert_eq!(usb_packet_bounds(100, 1), (64, 100));
    assert_eq!(usb_packet_bounds(100, 2), (100, 100));
    assert_eq!(usb_packet_bounds(100, usize::MAX), (100, 100));
}

#[test]
fn decoder_returns_encoded_payload() {
    let (mut d, mut cfg) = fresh();
    let payload = vec![0x10, FEND, 0x20, FESC, 0x30];
    let frame = encode_data_frame(&payload);
    let actions = d.feed(&mut cfg, &frame);
    assert_eq!(transmitted(&actions), Some(payload));
    assert!(!actions.rebuild_radio_params);
    assert_eq!(cfg, LoraConfig::default());
}

#[test]
fn decoder_state_lasts_across_reads() {
    let (mut d, mut cfg) = fresh();
    let frame = encode_data_frame(&[0x01, FEND, 0x02]);
    // split inside the escape sequence FESC TFEND
    let split = 4;
    assert_eq!(frame[split - 1], FESC);
    let first = d.feed(&mut cfg, &frame[..split]);
    assert_eq!(transmitted(&first), None);
    let second = d.feed(&mut cfg, &frame[split..]);
    assert_eq!(transmitted(&second), Some(vec![0x01, FEND, 0x02]));
}

#[test]
fn bytes_before_first_delimiter_are_ignored() {
    let (mut d, mut cfg) = fresh();
    let actions = d.feed(&mut cfg, &[0x01, 0x02, FESC, TFEND, FEND, 0x00, 0x07, FEND]);
    assert_eq!(transmitted(&actions), Some(vec![0x07]));
}

#[test]
fn last_data_frame_of_a_read_wins() {
    let (mut d, mut cfg) = fresh();
    let actions = d.feed(&mut cfg, &[FEND, 0x00, 0x01, FEND, 0x00, 0x02, 0x03, FEND]);
    assert_eq!(transmitted(&actions), Some(vec![0x02, 0x03]));
}

#[test]
fn empty_data_frame_is_not_transmitted() {
    let (mut d, mut cfg) = fresh();
    let actions = d.feed(&mut cfg, &[FEND, 0x00, 0x01, FEND, 0x00, FEND]);
    assert_eq!(transmitted(&actions), None);
}

#[test]
fn port_nibble_is_ignored() {
    let (mut d, mut cfg) = fresh();
    let actions = d.feed(&mut cfg, &[FEND, 0x10, 0x05, FEND]);
    assert_eq!(transmitted(&actions), Some(vec![0x05]));
}

#[test]
fn long_data_frame_is_cut_to_255() {
    let (mut d, mut cfg) = fresh();
    let payload: Vec<u8> = (0..300u32).map(|i| (i % 100) as u8).collect();
    let mut bytes = vec![FEND, 0x00];
    bytes.extend_from_slice(&payload);
    bytes.push(FEND);
    let actions = d.feed(&mut cfg, &bytes);
    assert_eq!(transmitted(&actions), Some(payload[..255].to_vec()));
}

#[test]
fn frame_buffer_overflow_drops_bytes() {
    let (mut d, mut cfg) = fresh();
    // a frequency command followed by far more bytes than the buffer holds
    // 433 MHz = 0x19CF0E40
    let mut bytes = vec![FEND, 0x01, 0x19, 0xCF, 0x0E, 0x40];
    bytes.extend(std::iter::repeat(0x11).take(700));
    bytes.push(FEND);
    let actions = d.feed(&mut cfg, &bytes);
    assert!(actions.rebuild_radio_params);
    assert_eq!(cfg.freq, 433_000_000);
}

#[test]
fn frequency_command() {
    let (mut d, mut cfg) = fresh();
    // 915 MHz = 0x3689CAC0; the last byte must be escaped
    let actions = d.feed(&mut cfg, &[FEND, 0x01, 0x36, 0x89, 0xCA, FESC, TFEND, FEND]);
    assert!(actions.rebuild_radio_params);
    assert_eq!(transmitted(&actions), None);
    assert_eq!(cfg.freq, 915_000_000);
}

#[test]
fn short_configuration_frames_are_ignored() {
    let (mut d, mut cfg) = fresh();
    let actions = d.feed(&mut cfg, &[FEND, 0x01, 0x36, 0x89, FEND, 0x04, FEND, 0x03, FEND]);
    assert!(!actions.rebuild_radio_params);
    assert_eq!(cfg, LoraConfig::default());
}

#[test]
fn bandwidth_spreading_factor_coding_rate_commands() {
    let (mut d, mut cfg) = fresh();
    // 250000 Hz = 0x0003D090
    let actions = d.feed(
        &mut cfg,
        &[FEND, 0x02, 0x00, 0x03, 0xD0, 0x90, FEND, 0x04, 9, FEND, 0x05, 7, FEND],
    );
    assert!(actions.rebuild_radio_params);
    assert_eq!(cfg.bw, Bandwidth::_250KHz);
    assert_eq!(cfg.sf, SpreadingFactor::_9);
    assert_eq!(cfg.cr, CodingRate::_4_7);
}

#[test]
fn bandwidth_command_selects_nearest() {
    let (mut d, mut cfg) = fresh();
    // 13000 Hz = 0x000032C8: 10.42 kHz is nearer than 15.63 kHz
    let actions = d.feed(&mut cfg, &[FEND, 0x02, 0x00, 0x00, 0x32, 0xC8, FEND]);
    assert!(actions.rebuild_radio_params);
    assert_eq!(cfg.bw, Bandwidth::_10KHz);
}

#[test]
fn tx_power_needs_no_rebuild() {
    let (mut d, mut cfg) = fresh();
    let actions = d.feed(&mut cfg, &[FEND, 0x03, 20, FEND]);
    assert!(!actions.rebuild_radio_params);
    assert_eq!(cfg.tx_power, 20);
}

#[test]
fn unknown_command_is_ignored() {
    let (mut d, mut cfg) = fresh();
    let actions = d.feed(&mut cfg, &[FEND, 0x0F, 1, 2, 3, 4, FEND]);
    assert!(!actions.rebuild_radio_params);
    assert_eq!(transmitted(&actions), None);
    assert_eq!(cfg, LoraConfig::default());
}

#[test]
fn malformed_escape_passes_byte_through() {
    let (mut d, mut cfg) = fresh();
    let actions = d.feed(&mut cfg, &[FEND, 0x00, FESC, 0x41, FEND]);
    assert_eq!(transmitted(&actions), Some(vec![0x41]));
}

#[test]
fn default_config() {
    let cfg = LoraConfig::default();
    assert_eq!(cfg.freq, 868_200_000);
    assert_eq!(cfg.sf, SpreadingFactor::_7);
    assert_eq!(cfg.bw, Bandwidth::_125KHz);
    assert_eq!(cfg.cr, CodingRate::_4_5);
    assert_eq!(cfg.tx_power, 14);
}

#[test]
fn bandwidth_bands() {
    // each request selects the nearest supported bandwidth; exactly midway
    // between two, the wider one, except 375 kHz, which selects 250 kHz
    assert_eq!(bw_from_hz(0), Bandwidth::_7KHz);
    assert_eq!(bw_from_hz(7810), Bandwidth::_7KHz);
    assert_eq!(bw_from_hz(9_000), Bandwidth::_7KHz);
    assert_eq!(bw_from_hz(9_001), Bandwidth::_7KHz);
    assert_eq!(bw_from_hz(9_114), Bandwidth::_7KHz);
    assert_eq!(bw_from_hz(9_115), Bandwidth::_10KHz);
    assert_eq!(bw_from_hz(10420), Bandwidth::_10KHz);
    assert_eq!(bw_from_hz(13_000), Bandwidth::_10KHz);
    assert_eq!(bw_from_hz(13_024), Bandwidth::_10KHz);
    assert_eq!(bw_from_hz(13_025), Bandwidth::_15KHz);
    assert_eq!(bw_from_hz(18_229), Bandwidth::_15KHz);
    assert_eq!(bw_from_hz(18_230), Bandwidth::_20KHz);
    assert_eq!(bw_from_hz(26_040), Bandwidth::_31KHz);
    assert_eq!(bw_from_hz(36_460), Bandwidth::_41KHz);
    assert_eq!(bw_from_hz(52_085), Bandwidth::_62KHz);
    assert_eq!(bw_from_hz(15630), Bandwidth::_15KHz);
    assert_eq!(bw_from_hz(20830), Bandwidth::_20KHz);
    assert_eq!(bw_from_hz(31250), Bandwidth::_31KHz);
    assert_eq!(bw_from_hz(41670), Bandwidth::_41KHz);
    assert_eq!(bw_from_hz(62500), Bandwidth::_62KHz);
    assert_eq!(bw_from_hz(93_749), Bandwidth::_62KHz);
    assert_eq!(bw_from_hz(93_750), Bandwidth::_125KHz);
    assert_eq!(bw_from_hz(125_000), Bandwidth::_125KHz);
    assert_eq!(bw_from_hz(187_200), Bandwidth::_125KHz);
    assert_eq!(bw_from_hz(187_499), Bandwidth::_125KHz);
    assert_eq!(bw_from_hz(187_500), Bandwidth::_250KHz);
    assert_eq!(bw_from_hz(375_000), Bandwidth::_250KHz);
    assert_eq!(bw_from_hz(375_001), Bandwidth::_500KHz);
    assert_eq!(bw_from_hz(500_000), Bandwidth::_500KHz);
    assert_eq!(bw_from_hz(u32::MAX), Bandwidth::_500KHz);
}

#[test]
fn spreading_factor_and_coding_rate_bytes() {
    assert_eq!(sf_from_byte(5), SpreadingFactor::_5);
    assert_eq!(sf_from_byte(12), SpreadingFactor::_12);
    assert_eq!(sf_from_byte(4), SpreadingFactor::_7);
    assert_eq!(sf_from_byte(13), SpreadingFactor::_7);
    assert_eq!(cr_from_byte(5), CodingRate::_4_5);
    assert_eq!(cr_from_byte(8), CodingRate::_4_8);
    assert_eq!(cr_from_byte(4), CodingRate::_4_5);
    assert_eq!(cr_from_byte(9), CodingRate::_4_5);
}

#[test]
fn frame_decoding() {
    assert_eq!(decode_frame(&[]), KissCommand::Ignored);
    assert_eq!(decode_frame(&[0x00]), KissCommand::Data(heapless::Vec::new()));
    match decode_frame(&[0x00, 1, 2, 3]) {
        KissCommand::Data(p) => assert_eq!(p.as_slice(), &[1, 2, 3][..]),
        other => panic!("unexpected {:?}", other),
    }
    assert_eq!(
        decode_frame(&[0x01, 0x33, 0xBF, 0xAE, 0x40]),
        KissCommand::Frequency(868_200_000)
    );
    assert_eq!(decode_frame(&[0x02, 0, 1, 0xE8, 0x48]), KissCommand::Bandwidth(125_000));
    assert_eq!(decode_frame(&[0x03, 17]), KissCommand::TxPower(17));
    assert_eq!(decode_frame(&[0x14, 8]), KissCommand::SpreadingFactor(8));
    assert_eq!(decode_frame(&[0x05, 6]), KissCommand::CodingRate(6));
    assert_eq!(decode_frame(&[0x05]), KissCommand::Ignored);
    assert_eq!(u32_from_be(0x12, 0x34, 0x56, 0x78), 0x1234_5678);
    assert_eq!(u32_from_be(0xFF, 0xFF, 0xFF, 0xFF), u32::MAX);
}

#[test]
fn config_apply_command() {
    let mut cfg = LoraConfig::default();
    assert!(cfg.apply_command(&KissCommand::Frequency(433_000_000)));
    assert_eq!(cfg.freq, 433_000_000);
    assert!(!cfg.apply_command(&KissCommand::TxPower(2)));
    assert_eq!(cfg.tx_power, 2);
    assert!(!cfg.apply_command(&KissCommand::Data(heapless::Vec::new())));
    assert!(!cfg.apply_command(&KissCommand::Ignored));
    assert!(cfg.apply_command(&KissCommand::Bandwidth(13_000)));
    assert_eq!(cfg.bw, Bandwidth::_10KHz);
    assert_eq!(cfg.freq, 433_000_000);
}

#[test]
fn bridge_keeps_settings_across_connections() {
    let mut bridge = Bridge::new();
    assert_eq!(bridge.config(), LoraConfig::default());
    // an unfinished frame at disconnect
    let actions = bridge.on_usb_read(&[FEND, 0x04, 11, FEND, 0x00, 0x42]);
    assert!(actions.rebuild_radio_params);
    assert_eq!(bridge.config().sf, SpreadingFactor::_11);
    bridge.connect();
    // the unfinished data frame is gone after reconnecting
    let actions = bridge.on_usb_read(&[FEND]);
    assert_eq!(transmitted(&actions), None);
    assert_eq!(bridge.config().sf, SpreadingFactor::_11);
}

#[test]
fn bridge_reports_received_packet() {
    let bridge = Bridge::new();
    let report = bridge.on_radio_packet(&[0xAA, FEND], -80, 5);
    assert_eq!(report.data_frame.as_slice(), &[FEND, 0x00, 0xAA, FESC, TFEND, FEND][..]);
    assert_eq!(packets(&report.data_frame), vec![vec![FEND, 0x00, 0xAA, FESC, TFEND, FEND]]);
    assert_eq!(stat_bytes(&report.rssi_frame), vec![FEND, CMD_STAT_RSSI, 80, FEND]);
    assert_eq!(stat_bytes(&report.snr_frame), vec![FEND, CMD_STAT_SNR, 148, FEND]);
    let direct = report_received_packet(&[0xAA, FEND], -80, 5);
    assert_eq!(direct.data_frame, report.data_frame);
}

#[test]
fn received_packet_of_64_byte_frame_ends_with_empty_packet() {
    // 61 plain bytes make a 64-byte frame
    let payload = vec![0x01; 61];
    let report = report_received_packet(&payload, -50, 0);
    let p = packets(&report.data_frame);
    assert_eq!(p.len(), 2);
    assert_eq!(p[0].len(), 64);
    assert!(p[1].is_empty());
    assert_eq!(stat_bytes(&report.snr_frame), vec![FEND, CMD_STAT_SNR, 128, FEND]);
}

#[test]
fn stat_frame_reaches_a_decoder_as_two_byte_frame() {
    // a report frame read back by a KISS decoder is the frame [cmd, value]:
    // for this firmware's own decoder, command nibble 3 is the TX power
    let (mut d, mut cfg) = fresh();
    let frame = encode_stat_frame(CMD_STAT_RSSI, FEND);
    let actions = d.feed(&mut cfg, &frame.0[..frame.1]);
    assert!(!actions.rebuild_radio_params);
    assert_eq!(cfg.tx_power, FEND as i32);
}

#[test]
fn reads_split_anywhere_give_the_same_result() {
    let payload = vec![FEND, FESC, 0x01, TFEND, TFESC, FEND];
    let frame = encode_data_frame(&payload);
    for split in 0..=frame.len() {
        let (mut d, mut cfg) = fresh();
        let first = d.feed(&mut cfg, &frame[..split]);
        let second = d.feed(&mut cfg, &frame[split..]);
        let got = transmitted(&second).or(transmitted(&first));
        assert_eq!(got, Some(payload.clone()));
    }
}
