//! The LoRa settings that the host can change, and how the bytes of a KISS
//! configuration command map to them.

use vstd::prelude::*;

verus! {

/// LoRa bandwidths that the SX1262 supports.
#[allow(non_camel_case_types)]
#[derive(Clone, Copy, Debug, PartialEq, Eq, Structural)]
pub enum Bandwidth {
    _7KHz,
    _10KHz,
    _15KHz,
    _20KHz,
    _31KHz,
    _41KHz,
    _62KHz,
    _125KHz,
    _250KHz,
    _500KHz,
}

/// LoRa spreading factors 5 to 12.
#[allow(non_camel_case_types)]
#[derive(Clone, Copy, Debug, PartialEq, Eq, Structural)]
pub enum SpreadingFactor {
    _5,
    _6,
    _7,
    _8,
    _9,
    _10,
    _11,
    _12,
}

/// LoRa coding rates 4/5 to 4/8.
#[allow(non_camel_case_types)]
#[derive(Clone, Copy, Debug, PartialEq, Eq, Structural)]
pub enum CodingRate {
    _4_5,
    _4_6,
    _4_7,
    _4_8,
}

/// Preamble length, in symbols, of every packet sent and received.
pub const PREAMBLE_SYMBOLS: u16 = 8;

/// Packets carry an explicit header.
pub const IMPLICIT_HEADER: bool = false;

/// Packets carry a CRC.
pub const CRC_ON: bool = true;

/// The IQ signal is not inverted.
pub const IQ_INVERTED: bool = false;

/// Largest payload that the receiver accepts (the SX1262 maximum).
pub const RX_MAX_PAYLOAD: u8 = 255;

/// The radio settings that the host changes through KISS commands.
#[derive(Clone, Copy, Debug, PartialEq, Eq, Structural)]
pub struct LoraConfig {
    /// Carrier frequency in Hz.
    pub freq: u32,
    pub sf: SpreadingFactor,
    pub bw: Bandwidth,
    pub cr: CodingRate,
    /// Transmit power in dBm.
    pub tx_power: i32,
}

impl LoraConfig {
    /// The settings at power-up: 868.2 MHz (EU), SF7, 125 kHz, CR 4/5, 14 dBm.
    pub open spec fn spec_default() -> LoraConfig {
        LoraConfig {
            freq: 868_200_000,
            sf: SpreadingFactor::_7,
            bw: Bandwidth::_125KHz,
            cr: CodingRate::_4_5,
            tx_power: 14,
        }
    }
}

impl Default for LoraConfig {
    /// 868.2 MHz (EU), SF7, 125 kHz, CR 4/5, 14 dBm.
    fn default() -> (cfg: Self)
        ensures
            cfg == LoraConfig::spec_default(),
    {
        LoraConfig {
            freq: 868_200_000,
            sf: SpreadingFactor::_7,
            bw: Bandwidth::_125KHz,
            cr: CodingRate::_4_5,
            tx_power: 14,
        }
    }
}

/// How far a requested bandwidth in Hz lies from a supported bandwidth.
pub open spec fn bw_distance(hz: u32, bw: Bandwidth) -> int {
    let n = bandwidth_hz(bw);
    if hz >= n {
        hz - n
    } else {
        n - hz
    }
}

/// Which of two equally near bandwidths a request exactly at their midpoint
/// selects: the wider one, except that 375 kHz, midway between 250 kHz and
/// 500 kHz, selects 250 kHz (the firmware's band table has always been so).
pub open spec fn wins_tie(bw: Bandwidth, other: Bandwidth) -> bool {
    if bw == other {
        true
    } else if bandwidth_hz(bw) + bandwidth_hz(other) == 750_000 {
        bandwidth_hz(bw) < bandwidth_hz(other)
    } else {
        bandwidth_hz(bw) > bandwidth_hz(other)
    }
}

/// `bw` is the supported bandwidth nearest to `hz`; of two equally near ones,
/// the one that `wins_tie`.
pub open spec fn is_nearest_bandwidth(hz: u32, bw: Bandwidth) -> bool {
    forall|other: Bandwidth|
        #![trigger bw_distance(hz, other)]
        bw_distance(hz, bw) < bw_distance(hz, other) || (bw_distance(hz, bw) == bw_distance(
            hz,
            other,
        ) && wins_tie(bw, other))
}

/// Two settings that give the same modulation: the same frequency,
/// bandwidth, spreading factor and coding rate.
pub open spec fn same_modulation(a: LoraConfig, b: LoraConfig) -> bool {
    a.freq == b.freq && a.bw == b.bw && a.sf == b.sf && a.cr == b.cr
}

/// The supported bandwidth that a requested bandwidth in Hz selects: the
/// nearest one (on a tie, the one that `wins_tie`).
pub open spec fn spec_bw_from_hz(hz: u32) -> Bandwidth {
    choose|bw: Bandwidth| is_nearest_bandwidth(hz, bw)
}

/// The spreading factor that a KISS byte selects: 5 to 12 select themselves,
/// any other byte selects SF7.
pub open spec fn spec_sf_from_byte(sf: u8) -> SpreadingFactor {
    if sf == 5 {
        SpreadingFactor::_5
    } else if sf == 6 {
        SpreadingFactor::_6
    } else if sf == 8 {
        SpreadingFactor::_8
    } else if sf == 9 {
        SpreadingFactor::_9
    } else if sf == 10 {
        SpreadingFactor::_10
    } else if sf == 11 {
        SpreadingFactor::_11
    } else if sf == 12 {
        SpreadingFactor::_12
    } else {
        SpreadingFactor::_7
    }
}

/// The coding rate that a KISS byte selects: 5 to 8 select 4/5 to 4/8, any
/// other byte selects 4/5.
pub open spec fn spec_cr_from_byte(cr: u8) -> CodingRate {
    if cr == 6 {
        CodingRate::_4_6
    } else if cr == 7 {
        CodingRate::_4_7
    } else if cr == 8 {
        CodingRate::_4_8
    } else {
        CodingRate::_4_5
    }
}

/// Nominal value in Hz of each bandwidth.
pub open spec fn bandwidth_hz(bw: Bandwidth) -> u32 {
    match bw {
        Bandwidth::_7KHz => 7810,
        Bandwidth::_10KHz => 10420,
        Bandwidth::_15KHz => 15630,
        Bandwidth::_20KHz => 20830,
        Bandwidth::_31KHz => 31250,
        Bandwidth::_41KHz => 41670,
        Bandwidth::_62KHz => 62500,
        Bandwidth::_125KHz => 125000,
        Bandwidth::_250KHz => 250000,
        Bandwidth::_500KHz => 500000,
    }
}

/// Of neighbouring nominal values `lo < hi`, `lo` is selected: below their
/// midpoint it is nearer (at the midpoint the wider one wins the tie).
spec fn below_midpoint(hz: u32, lo: Bandwidth, hi: Bandwidth) -> bool {
    2 * hz < bandwidth_hz(lo) + bandwidth_hz(hi)
}

/// The nearest bandwidth, found by comparing the request with the midpoints
/// between neighbouring nominal values.
spec fn bw_by_midpoints(hz: u32) -> Bandwidth {
    if below_midpoint(hz, Bandwidth::_7KHz, Bandwidth::_10KHz) {
        Bandwidth::_7KHz
    } else if below_midpoint(hz, Bandwidth::_10KHz, Bandwidth::_15KHz) {
        Bandwidth::_10KHz
    } else if below_midpoint(hz, Bandwidth::_15KHz, Bandwidth::_20KHz) {
        Bandwidth::_15KHz
    } else if below_midpoint(hz, Bandwidth::_20KHz, Bandwidth::_31KHz) {
        Bandwidth::_20KHz
    } else if below_midpoint(hz, Bandwidth::_31KHz, Bandwidth::_41KHz) {
        Bandwidth::_31KHz
    } else if below_midpoint(hz, Bandwidth::_41KHz, Bandwidth::_62KHz) {
        Bandwidth::_41KHz
    } else if below_midpoint(hz, Bandwidth::_62KHz, Bandwidth::_125KHz) {
        Bandwidth::_62KHz
    } else if below_midpoint(hz, Bandwidth::_125KHz, Bandwidth::_250KHz) {
        Bandwidth::_125KHz
    } else if 2 * hz <= bandwidth_hz(Bandwidth::_250KHz) + bandwidth_hz(Bandwidth::_500KHz) {
        Bandwidth::_250KHz
    } else {
        Bandwidth::_500KHz
    }
}

/// The midpoint comparison finds the nearest bandwidth, and no other
/// bandwidth is nearest.
proof fn lemma_midpoints_find_nearest(hz: u32)
    ensures
        is_nearest_bandwidth(hz, bw_by_midpoints(hz)),
        spec_bw_from_hz(hz) == bw_by_midpoints(hz),
{
    let sel = bw_by_midpoints(hz);
    assert forall|other: Bandwidth|
        #![trigger bw_distance(hz, other)]
        bw_distance(hz, sel) < bw_distance(hz, other) || (bw_distance(hz, sel) == bw_distance(
            hz,
            other,
        ) && wins_tie(sel, other)) by {
        match other {
            Bandwidth::_7KHz => {},
            Bandwidth::_10KHz => {},
            Bandwidth::_15KHz => {},
            Bandwidth::_20KHz => {},
            Bandwidth::_31KHz => {},
            Bandwidth::_41KHz => {},
            Bandwidth::_62KHz => {},
            Bandwidth::_125KHz => {},
            Bandwidth::_250KHz => {},
            Bandwidth::_500KHz => {},
        }
    }
    assert(is_nearest_bandwidth(hz, sel));
    let chosen = spec_bw_from_hz(hz);
    lemma_nearest_is_unique(hz, chosen, sel);
}

/// Two bandwidths that are both nearest to a request are the same.
proof fn lemma_nearest_is_unique(hz: u32, a: Bandwidth, b: Bandwidth)
    requires
        is_nearest_bandwidth(hz, a),
        is_nearest_bandwidth(hz, b),
    ensures
        a == b,
{
    assert(bw_distance(hz, a) <= bw_distance(hz, b));
    assert(bw_distance(hz, b) <= bw_distance(hz, a));
    assert(wins_tie(a, b) && wins_tie(b, a));
}

/// Maps a bandwidth in Hz to the nearest supported bandwidth; a request midway
/// between two selects the wider, except that 375 kHz selects 250 kHz.
pub fn bw_from_hz(hz: u32) -> (bw: Bandwidth)
    ensures
        is_nearest_bandwidth(hz, bw),
        bw == spec_bw_from_hz(hz),
{
    proof {
        lemma_midpoints_find_nearest(hz);
    }
    // Twice the request, compared with the sum of two neighbouring nominal
    // values, tells on which side of their midpoint it lies.
    let twice: u64 = 2 * (hz as u64);
    if twice < 7_810 + 10_420 {
        Bandwidth::_7KHz
    } else if twice < 10_420 + 15_630 {
        Bandwidth::_10KHz
    } else if twice < 15_630 + 20_830 {
        Bandwidth::_15KHz
    } else if twice < 20_830 + 31_250 {
        Bandwidth::_20KHz
    } else if twice < 31_250 + 41_670 {
        Bandwidth::_31KHz
    } else if twice < 41_670 + 62_500 {
        Bandwidth::_41KHz
    } else if twice < 62_500 + 125_000 {
        Bandwidth::_62KHz
    } else if twice < 125_000 + 250_000 {
        Bandwidth::_125KHz
    } else if twice <= 250_000 + 500_000 {
        Bandwidth::_250KHz
    } else {
        Bandwidth::_500KHz
    }
}

/// Maps a spreading-factor byte (5 to 12) to a spreading factor; SF7 otherwise.
pub fn sf_from_byte(sf: u8) -> (r: SpreadingFactor)
    ensures
        r == spec_sf_from_byte(sf),
{
    match sf {
        5 => SpreadingFactor::_5,
        6 => SpreadingFactor::_6,
        7 => SpreadingFactor::_7,
        8 => SpreadingFactor::_8,
        9 => SpreadingFactor::_9,
        10 => SpreadingFactor::_10,
        11 => SpreadingFactor::_11,
        12 => SpreadingFactor::_12,
        _ => SpreadingFactor::_7,
    }
}

/// Maps a coding-rate byte (5 to 8, for 4/5 to 4/8) to a coding rate; 4/5
/// otherwise.
pub fn cr_from_byte(cr: u8) -> (r: CodingRate)
    ensures
        r == spec_cr_from_byte(cr),
{
    match cr {
        5 => CodingRate::_4_5,
        6 => CodingRate::_4_6,
        7 => CodingRate::_4_7,
        8 => CodingRate::_4_8,
        _ => CodingRate::_4_5,
    }
}

/// The selected bandwidth is the nearest one to the request.
pub proof fn lemma_bw_from_hz_is_nearest(hz: u32)
    ensures
        is_nearest_bandwidth(hz, spec_bw_from_hz(hz)),
{
    lemma_midpoints_find_nearest(hz);
}

/// Requesting a bandwidth by its nominal value selects that bandwidth.
pub proof fn lemma_bw_nominal_selects_itself(bw: Bandwidth)
    ensures
        spec_bw_from_hz(bandwidth_hz(bw)) == bw,
{
    lemma_midpoints_find_nearest(bandwidth_hz(bw));
}

/// A larger request never selects a narrower bandwidth.
pub proof fn lemma_bw_from_hz_monotonic(lo: u32, hi: u32)
    requires
        lo <= hi,
    ensures
        bandwidth_hz(spec_bw_from_hz(lo)) <= bandwidth_hz(spec_bw_from_hz(hi)),
{
    lemma_midpoints_find_nearest(lo);
    lemma_midpoints_find_nearest(hi);
}

/// A spreading-factor byte in 5..=12 selects the factor it names, and the
/// selection is the same for every byte outside that range.
pub proof fn lemma_sf_byte_round_trip(sf: u8)
    ensures
        5 <= sf <= 12 ==> spreading_factor_value(spec_sf_from_byte(sf)) == sf,
        !(5 <= sf <= 12) ==> spec_sf_from_byte(sf) == SpreadingFactor::_7,
{
}

/// A coding-rate byte in 5..=8 selects the rate 4/byte.
pub proof fn lemma_cr_byte_round_trip(cr: u8)
    ensures
        5 <= cr <= 8 ==> coding_rate_denominator(spec_cr_from_byte(cr)) == cr,
        !(5 <= cr <= 8) ==> spec_cr_from_byte(cr) == CodingRate::_4_5,
{
}

/// The number that a spreading factor stands for.
pub open spec fn spreading_factor_value(sf: SpreadingFactor) -> u8 {
    match sf {
        SpreadingFactor::_5 => 5,
        SpreadingFactor::_6 => 6,
        SpreadingFactor::_7 => 7,
        SpreadingFactor::_8 => 8,
        SpreadingFactor::_9 => 9,
        SpreadingFactor::_10 => 10,
        SpreadingFactor::_11 => 11,
        SpreadingFactor::_12 => 12,
    }
}

/// The denominator of a coding rate 4/n.
pub open spec fn coding_rate_denominator(cr: CodingRate) -> u8 {
    match cr {
        CodingRate::_4_5 => 5,
        CodingRate::_4_6 => 6,
        CodingRate::_4_7 => 7,
        CodingRate::_4_8 => 8,
    }
}

} // verus!
