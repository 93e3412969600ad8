//! Laws of the KISS link: how the decoder's runs compose over USB reads, and
//! that what the encoder frames reaches a decoder intact.

use vstd::prelude::*;
use crate::kiss::{FEND, FESC, CMD_DATA, escape, escape_byte, data_frame, stat_frame};
use crate::command::{FrameCommand, frame_command, data_payload, MAX_TX_PAYLOAD, apply_command,
    needs_rebuild};
use crate::decoder::{
    DecoderState, FeedState, read_start, run, step, close_frame, open_frame,
};
use crate::frame_buffer::FRAME_BUFFER_CAPACITY;
use crate::radio_params::{LoraConfig, same_modulation};
use crate::host_link::{RxReport, rx_report_holds, spec_rssi_report, spec_snr_report};
use crate::kiss::{CMD_STAT_RSSI, CMD_STAT_SNR};
use crate::frame_buffer::data_frame_contents;

verus! {

/// Running over `a` and then over `b` is running over `a + b`.
pub proof fn lemma_run_concat(s: FeedState, a: Seq<u8>, b: Seq<u8>)
    ensures
        run(s, a + b) == run(run(s, a), b),
    decreases b.len(),
{
    if b.len() == 0 {
        assert(a + b =~= a);
    } else {
        assert((a + b).drop_last() =~= a + b.drop_last());
        assert((a + b).last() == b.last());
        lemma_run_concat(s, a, b.drop_last());
    }
}

/// The decoder and the settings that a run ends with do not depend on the
/// payload and flag that it starts with; the run's own payload and flag add to
/// them.
proof fn lemma_run_results_independent(s: FeedState, b: Seq<u8>)
    ensures
        ({
            let clean = run(FeedState { tx: None, changed: false, ..s }, b);
            let r = run(s, b);
            &&& r.decoder == clean.decoder
            &&& r.cfg == clean.cfg
            &&& r.changed == (s.changed || clean.changed)
            &&& r.tx == (if clean.tx is Some {
                clean.tx
            } else {
                s.tx
            })
        }),
    decreases b.len(),
{
    if b.len() > 0 {
        lemma_run_results_independent(s, b.drop_last());
    }
}

/// The decoder's state lasts across USB reads: running over the bytes of two
/// reads one after the other leaves the decoder and the settings as one run
/// over all the bytes would; the rebuild flag of the whole is set when either
/// read set it, and the last data payload of the whole is that of the second
/// read, or of the first when the second has none.
pub proof fn lemma_reads_compose(d: DecoderState, cfg: LoraConfig, a: Seq<u8>, b: Seq<u8>)
    ensures
        ({
            let whole = run(read_start(d, cfg), a + b);
            let first = run(read_start(d, cfg), a);
            let second = run(read_start(first.decoder, first.cfg), b);
            &&& whole.decoder == second.decoder
            &&& whole.cfg == second.cfg
            &&& whole.changed == (first.changed || second.changed)
            &&& whole.tx == (if second.tx is Some {
                second.tx
            } else {
                first.tx
            })
        }),
{
    let first = run(read_start(d, cfg), a);
    lemma_run_concat(read_start(d, cfg), a, b);
    lemma_run_results_independent(first, b);
    assert(FeedState { tx: None, changed: false, ..first } == read_start(first.decoder, first.cfg));
}

/// Inside a frame, the escaped form of some bytes appends exactly those bytes
/// to the frame, while they fit.
proof fn lemma_escaped_bytes_arrive(t: FeedState, q: Seq<u8>)
    requires
        t.decoder.in_frame,
        !t.decoder.escaped,
        t.decoder.frame.len() + q.len() <= FRAME_BUFFER_CAPACITY,
    ensures
        run(t, escape(q)) == (FeedState {
            decoder: DecoderState { frame: t.decoder.frame + q, ..t.decoder },
            ..t
        }),
    decreases q.len(),
{
    if q.len() == 0 {
        assert(t.decoder.frame + q =~= t.decoder.frame);
        assert(DecoderState { frame: t.decoder.frame + q, ..t.decoder } == t.decoder);
    } else {
        let head = q.drop_last();
        let x = q.last();
        lemma_escaped_bytes_arrive(t, head);
        let mid = run(t, escape(head));
        lemma_run_concat(t, escape(head), escape_byte(x));
        assert(t.decoder.frame + head + seq![x] =~= t.decoder.frame + q);
        reveal_with_fuel(run, 3);
        if x == FEND {
            assert(escape_byte(x).drop_last() =~= seq![FESC]);
            assert(escape_byte(x).drop_last().drop_last() =~= Seq::<u8>::empty());
        } else if x == FESC {
            assert(escape_byte(x).drop_last() =~= seq![FESC]);
            assert(escape_byte(x).drop_last().drop_last() =~= Seq::<u8>::empty());
        } else {
            assert(escape_byte(x).drop_last() =~= Seq::<u8>::empty());
        }
        assert((t.decoder.frame + head).push(x) =~= t.decoder.frame + q);
    }
}

/// Escaping a sequence that starts with a given byte.
proof fn lemma_escape_prepend(b: u8, q: Seq<u8>)
    ensures
        escape(seq![b] + q) == escape_byte(b) + escape(q),
    decreases q.len(),
{
    if q.len() == 0 {
        reveal_with_fuel(escape, 2);
        assert(seq![b] + q =~= seq![b]);
        assert(seq![b].drop_last() =~= Seq::<u8>::empty());
        assert(escape_byte(b) + escape(q) =~= escape_byte(b));
        assert(Seq::<u8>::empty() + escape_byte(b) =~= escape_byte(b));
    } else {
        lemma_escape_prepend(b, q.drop_last());
        assert((seq![b] + q).drop_last() =~= seq![b] + q.drop_last());
        assert(escape_byte(b) + escape(q.drop_last()) + escape_byte(q.last()) =~= escape_byte(b)
            + escape(q));
    }
}

/// A frame sent as `FEND`, the escaped bytes of the frame, `FEND` reaches the
/// decoder intact, from any state in which the previous byte was no escape:
/// the first delimiter carries out what was pending and opens a frame, the
/// bytes fill it, and the second delimiter carries out exactly those bytes.
pub proof fn lemma_frame_arrives(s: FeedState, f: Seq<u8>)
    requires
        !s.decoder.escaped,
        f.len() <= FRAME_BUFFER_CAPACITY,
    ensures
        run(s, seq![FEND] + escape(f) + seq![FEND]) == close_frame(
            FeedState { decoder: DecoderState { frame: f, ..open_frame() }, ..close_frame(s) },
        ),
{
    let opened = close_frame(s);
    reveal_with_fuel(run, 2);
    assert(run(s, seq![FEND]) == step(run(s, Seq::<u8>::empty()), FEND)) by {
        assert(seq![FEND].drop_last() =~= Seq::<u8>::empty());
    }
    assert(run(s, seq![FEND]) == opened);
    lemma_run_concat(s, seq![FEND], escape(f));
    lemma_escaped_bytes_arrive(opened, f);
    assert(Seq::<u8>::empty() + f =~= f);
    let filled = FeedState { decoder: DecoderState { frame: f, ..open_frame() }, ..opened };
    assert(run(s, seq![FEND] + escape(f)) == filled);
    lemma_run_concat(s, seq![FEND] + escape(f), seq![FEND]);
    assert(run(filled, seq![FEND]) == step(filled, FEND)) by {
        assert(seq![FEND].drop_last() =~= Seq::<u8>::empty());
    }
}

/// A data frame reaches the decoder with its payload intact: whatever state
/// the decoder was in (but just after an escape byte), a data frame of at most
/// `MAX_TX_PAYLOAD` bytes ends with that payload as the one to transmit, the
/// decoder inside a new empty frame, and the settings as the opening delimiter
/// left them.
pub proof fn lemma_data_frame_round_trip(s: FeedState, p: Seq<u8>)
    requires
        !s.decoder.escaped,
        p.len() <= MAX_TX_PAYLOAD,
    ensures
        ({
            let r = run(s, data_frame(p));
            &&& r.tx == Some(p)
            &&& r.decoder == open_frame()
            &&& r.cfg == close_frame(s).cfg
            &&& r.changed == close_frame(s).changed
        }),
{
    let f = seq![CMD_DATA] + p;
    lemma_escape_prepend(CMD_DATA, p);
    assert(escape_byte(CMD_DATA) =~= seq![CMD_DATA]);
    assert(data_frame(p) =~= seq![FEND] + escape(f) + seq![FEND]);
    lemma_frame_arrives(s, f);
    assert(f[0] == CMD_DATA);
    assert(data_payload(f) =~= p);
    assert(frame_command(f) == FrameCommand::Data(p));
}

/// A signal-quality report reaches a decoder as the two-byte frame
/// `cmd value`, with the value unescaped, when the command byte needs no
/// escaping (as holds of both report commands).
pub proof fn lemma_stat_frame_round_trip(s: FeedState, cmd: u8, value: u8)
    requires
        !s.decoder.escaped,
        cmd != FEND,
        cmd != FESC,
    ensures
        run(s, stat_frame(cmd, value)) == close_frame(
            FeedState {
                decoder: DecoderState { frame: seq![cmd, value], ..open_frame() },
                ..close_frame(s)
            },
        ),
{
    let f = seq![cmd, value];
    lemma_escape_prepend(cmd, seq![value]);
    assert(seq![cmd] + seq![value] =~= f);
    assert(escape(seq![value]) =~= escape_byte(value)) by {
        reveal_with_fuel(escape, 2);
        assert(seq![value].drop_last() =~= Seq::<u8>::empty());
        assert(Seq::<u8>::empty() + escape_byte(value) =~= escape_byte(value));
    }
    assert(escape_byte(cmd) =~= seq![cmd]);
    assert(stat_frame(cmd, value) =~= seq![FEND] + escape(f) + seq![FEND]);
    lemma_frame_arrives(s, f);
}

/// The frame under way never holds more than the frame buffer's room, and
/// an escape is pending only inside a frame.
pub proof fn lemma_frame_stays_bounded(s: FeedState, bytes: Seq<u8>)
    requires
        s.decoder.frame.len() <= FRAME_BUFFER_CAPACITY,
        s.decoder.escaped ==> s.decoder.in_frame,
    ensures
        run(s, bytes).decoder.frame.len() <= FRAME_BUFFER_CAPACITY,
        run(s, bytes).decoder.escaped ==> run(s, bytes).decoder.in_frame,
    decreases bytes.len(),
{
    if bytes.len() > 0 {
        lemma_frame_stays_bounded(s, bytes.drop_last());
    }
}

/// A data frame's payload stays the one to transmit when other frames follow
/// it in the same read: a configuration frame, an unknown command or an empty
/// frame after a data frame does not take its payload away.
pub proof fn lemma_later_frames_keep_payload(s: FeedState, p: Seq<u8>, f: Seq<u8>)
    requires
        !s.decoder.escaped,
        p.len() <= MAX_TX_PAYLOAD,
        f.len() <= FRAME_BUFFER_CAPACITY,
        !(frame_command(f) is Data),
    ensures
        run(s, data_frame(p) + escape(f) + seq![FEND]).tx == Some(p),
{
    lemma_data_frame_round_trip(s, p);
    let r = run(s, data_frame(p));
    lemma_run_concat(s, data_frame(p), escape(f));
    lemma_escaped_bytes_arrive(r, f);
    assert(Seq::<u8>::empty() + f =~= f);
    let filled = FeedState { decoder: DecoderState { frame: f, ..open_frame() }, ..r };
    assert(run(s, data_frame(p) + escape(f)) == filled);
    lemma_run_concat(s, data_frame(p) + escape(f), seq![FEND]);
    assert(run(filled, seq![FEND]) == step(filled, FEND)) by {
        reveal_with_fuel(run, 2);
        assert(seq![FEND].drop_last() =~= Seq::<u8>::empty());
    }
}

/// What the host is sent about a received packet decodes back to it: the data
/// frame gives the whole payload (of at most one LoRa packet) to transmit, and
/// the report frames arrive as `[CMD_STAT_RSSI, rssi byte]` and
/// `[CMD_STAT_SNR, snr byte]`.
pub proof fn lemma_rx_report_round_trip(
    report: RxReport,
    payload: Seq<u8>,
    rssi: i16,
    snr: i16,
    s: FeedState,
)
    requires
        rx_report_holds(report, payload, rssi, snr),
        payload.len() <= MAX_TX_PAYLOAD,
        !s.decoder.escaped,
    ensures
        run(s, data_frame_contents(report.data_frame)).tx == Some(payload),
        run(s, report.rssi_frame.0@.take(report.rssi_frame.1 as int)) == close_frame(
            FeedState {
                decoder: DecoderState {
                    frame: seq![CMD_STAT_RSSI, spec_rssi_report(rssi)],
                    ..open_frame()
                },
                ..close_frame(s)
            },
        ),
        run(s, report.snr_frame.0@.take(report.snr_frame.1 as int)) == close_frame(
            FeedState {
                decoder: DecoderState {
                    frame: seq![CMD_STAT_SNR, spec_snr_report(snr)],
                    ..open_frame()
                },
                ..close_frame(s)
            },
        ),
{
    crate::kiss::lemma_escape_len_bound(payload);
    lemma_data_frame_round_trip(s, payload);
    lemma_stat_frame_round_trip(s, CMD_STAT_RSSI, spec_rssi_report(rssi));
    lemma_stat_frame_round_trip(s, CMD_STAT_SNR, spec_snr_report(snr));
}

/// The RSSI report byte is the magnitude of the RSSI in dBm over the whole
/// range of a byte, and a stronger signal never gives a larger byte.
pub proof fn lemma_rssi_report_is_magnitude(rssi: i16, other: i16)
    ensures
        -255 <= rssi <= 0 ==> spec_rssi_report(rssi) == -rssi,
        rssi <= other ==> spec_rssi_report(other) <= spec_rssi_report(rssi),
{
}

/// The SNR report byte is (SNR + 32) * 4 over the whole range of a byte, and
/// a better SNR never gives a smaller byte.
pub proof fn lemma_snr_report_is_scaled(snr: i16, other: i16)
    ensures
        -32 <= snr <= 31 ==> spec_snr_report(snr) == 4 * snr + 128,
        snr <= other ==> spec_snr_report(snr) <= spec_snr_report(other),
{
}

/// A run that did not ask for a rebuild left the modulation as it found it:
/// every frequency, bandwidth, spreading-factor or coding-rate change in a
/// read asks for the radio parameters to be built again, and once asked, the
/// request stays.
pub proof fn lemma_modulation_change_in_run_requests_rebuild(s: FeedState, bytes: Seq<u8>)
    ensures
        run(s, bytes).changed || same_modulation(run(s, bytes).cfg, s.cfg),
        s.changed ==> run(s, bytes).changed,
    decreases bytes.len(),
{
    if bytes.len() > 0 {
        lemma_modulation_change_in_run_requests_rebuild(s, bytes.drop_last());
        let before = run(s, bytes.drop_last());
        if before.decoder.in_frame && before.decoder.frame.len() > 0 {
            crate::command_laws::lemma_modulation_change_requests_rebuild(
                before.cfg,
                frame_command(before.decoder.frame),
            );
        }
    }
}

/// Bytes that come before the first frame delimiter are ignored: outside a
/// frame, a run over bytes without a delimiter leaves everything as it was.
pub proof fn lemma_bytes_outside_frames_ignored(s: FeedState, bytes: Seq<u8>)
    requires
        !s.decoder.in_frame,
        !s.decoder.escaped,
        !bytes.contains(FEND),
    ensures
        run(s, bytes) == s,
    decreases bytes.len(),
{
    if bytes.len() > 0 {
        assert(!bytes.drop_last().contains(FEND)) by {
            if bytes.drop_last().contains(FEND) {
                let i = choose|i: int| 0 <= i < bytes.drop_last().len() && bytes.drop_last()[i] == FEND;
                assert(bytes[i] == FEND);
            }
        }
        assert(bytes.last() != FEND) by {
            if bytes.last() == FEND {
                assert(bytes[bytes.len() - 1] == FEND);
            }
        }
        lemma_bytes_outside_frames_ignored(s, bytes.drop_last());
    }
}

} // verus!
