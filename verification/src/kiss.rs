//! KISS framing: the special bytes, byte stuffing and the frames that go from
//! the radio side to the host.

use vstd::prelude::*;
use crate::frame_buffer::{DATA_FRAME_CAPACITY, data_frame_contents, data_frame_new, data_frame_push};

verus! {

/// Frame delimiter, at the start and at the end of every frame.
pub const FEND: u8 = 0xC0;

/// Escape byte.
pub const FESC: u8 = 0xDB;

/// Escaped frame delimiter: `FESC TFEND` stands for `FEND`.
pub const TFEND: u8 = 0xDC;

/// Escaped escape byte: `FESC TFESC` stands for `FESC`.
pub const TFESC: u8 = 0xDD;

/// Command byte of a data frame.
pub const CMD_DATA: u8 = 0x00;

/// Command byte that sets the radio frequency (4 bytes, big-endian, Hz).
pub const CMD_FREQ: u8 = 0x01;

/// Command byte that sets the bandwidth (4 bytes, big-endian, Hz).
pub const CMD_BW: u8 = 0x02;

/// Command byte that sets the transmit power (1 byte, dBm).
pub const CMD_TXPWR: u8 = 0x03;

/// Command byte that sets the spreading factor (1 byte, 5 to 12).
pub const CMD_SF: u8 = 0x04;

/// Command byte that sets the coding rate (1 byte, 5 to 8 for 4/5 to 4/8).
pub const CMD_CR: u8 = 0x05;

/// Command byte of the RSSI report sent to the host after a received packet.
pub const CMD_STAT_RSSI: u8 = 0x23;

/// Command byte of the SNR report sent to the host after a received packet.
pub const CMD_STAT_SNR: u8 = 0x24;

/// What one payload byte becomes on the wire.
pub open spec fn escape_byte(b: u8) -> Seq<u8> {
    if b == FEND {
        seq![FESC, TFEND]
    } else if b == FESC {
        seq![FESC, TFESC]
    } else {
        seq![b]
    }
}

/// Byte stuffing of a whole payload.
pub open spec fn escape(s: Seq<u8>) -> Seq<u8>
    decreases s.len(),
{
    if s.len() == 0 {
        Seq::<u8>::empty()
    } else {
        escape(s.drop_last()) + escape_byte(s.last())
    }
}

/// The complete data frame that carries `payload`.
pub open spec fn data_frame(payload: Seq<u8>) -> Seq<u8> {
    seq![FEND, CMD_DATA] + escape(payload) + seq![FEND]
}

/// A byte sequence cut to the room of the outgoing frame buffer.
pub open spec fn cut_to_capacity(s: Seq<u8>) -> Seq<u8> {
    if s.len() <= DATA_FRAME_CAPACITY {
        s
    } else {
        s.take(DATA_FRAME_CAPACITY as int)
    }
}

/// The one-byte report frame `FEND cmd value FEND`, with `value` escaped.
pub open spec fn stat_frame(cmd: u8, value: u8) -> Seq<u8> {
    seq![FEND, cmd] + escape_byte(value) + seq![FEND]
}

proof fn lemma_cut_push(s: Seq<u8>, b: u8)
    ensures
        cut_to_capacity(s).len() < DATA_FRAME_CAPACITY ==> cut_to_capacity(s.push(b))
            == cut_to_capacity(s).push(b),
        cut_to_capacity(s).len() >= DATA_FRAME_CAPACITY ==> cut_to_capacity(s.push(b))
            == cut_to_capacity(s),
{
    if s.len() >= DATA_FRAME_CAPACITY {
        assert(s.push(b).take(DATA_FRAME_CAPACITY as int) =~= s.take(DATA_FRAME_CAPACITY as int));
    }
}

/// Appends `b` to the data-frame buffer, which drops it when full.
fn push_to_frame(frame: &mut heapless::Vec<u8, 516>, b: u8, Ghost(full): Ghost<Seq<u8>>)
    requires
        data_frame_contents(*old(frame)) == cut_to_capacity(full),
    ensures
        data_frame_contents(*final(frame)) == cut_to_capacity(full.push(b)),
{
    proof {
        lemma_cut_push(full, b);
    }
    let _ = data_frame_push(frame, b);
}

/// The data frame that forwards a received radio payload to the host. The frame
/// is built in a buffer of `DATA_FRAME_CAPACITY` bytes; bytes beyond its room are
/// dropped, which cannot happen for a payload of at most 255 bytes.
pub fn encode_data_frame(payload: &[u8]) -> (frame: heapless::Vec<u8, 516>)
    ensures
        data_frame_contents(frame) == cut_to_capacity(data_frame(payload@)),
        payload@.len() <= 255 ==> data_frame_contents(frame) == data_frame(payload@),
{
    let mut frame = data_frame_new();
    let ghost head: Seq<u8> = seq![FEND, CMD_DATA];
    let ghost nothing: Seq<u8> = Seq::<u8>::empty();
    let ghost opened: Seq<u8> = seq![FEND];
    assert(nothing.push(FEND) =~= opened);
    push_to_frame(&mut frame, FEND, Ghost(nothing));
    push_to_frame(&mut frame, CMD_DATA, Ghost(opened));
    assert(opened.push(CMD_DATA) =~= head);
    assert(head =~= head + escape(payload@.take(0)));
    let mut i: usize = 0;
    while i < payload.len()
        invariant
            i <= payload@.len(),
            head == seq![FEND, CMD_DATA],
            data_frame_contents(frame) == cut_to_capacity(head + escape(payload@.take(i as int))),
        decreases payload@.len() - i,
    {
        let b = payload[i];
        let ghost before = head + escape(payload@.take(i as int));
        assert(payload@.take(i + 1).drop_last() =~= payload@.take(i as int));
        if b == FEND {
            push_to_frame(&mut frame, FESC, Ghost(before));
            push_to_frame(&mut frame, TFEND, Ghost(before.push(FESC)));
            assert(before.push(FESC).push(TFEND) =~= head + escape(payload@.take(i + 1)));
        } else if b == FESC {
            push_to_frame(&mut frame, FESC, Ghost(before));
            push_to_frame(&mut frame, TFESC, Ghost(before.push(FESC)));
            assert(before.push(FESC).push(TFESC) =~= head + escape(payload@.take(i + 1)));
        } else {
            push_to_frame(&mut frame, b, Ghost(before));
            assert(before.push(b) =~= head + escape(payload@.take(i + 1)));
        }
        i = i + 1;
    }
    assert(payload@.take(payload@.len() as int) =~= payload@);
    let ghost body = head + escape(payload@);
    push_to_frame(&mut frame, FEND, Ghost(body));
    assert(body.push(FEND) =~= data_frame(payload@));
    proof {
        if payload@.len() <= 255 {
            lemma_escape_len_bound(payload@);
        }
    }
    frame
}

/// Byte stuffing at most doubles the length.
pub proof fn lemma_escape_len_bound(s: Seq<u8>)
    ensures
        s.len() <= escape(s).len() <= 2 * s.len(),
    decreases s.len(),
{
    if s.len() > 0 {
        lemma_escape_len_bound(s.drop_last());
    }
}

/// The report frame that carries one signal-quality byte to the host: the
/// frame is the first `len` bytes of the array (an unused last byte is 0).
pub fn encode_stat_frame(cmd: u8, value: u8) -> (frame: ([u8; 5], usize))
    ensures
        frame.1 <= 5,
        frame.0@.take(frame.1 as int) == stat_frame(cmd, value),
        frame.1 == 4 ==> frame.0@[4] == 0,
{
    let frame: ([u8; 5], usize) = if value == FEND {
        ([FEND, cmd, FESC, TFEND, FEND], 5)
    } else if value == FESC {
        ([FEND, cmd, FESC, TFESC, FEND], 5)
    } else {
        ([FEND, cmd, value, FEND, 0], 4)
    };
    assert(frame.0@.take(frame.1 as int) =~= stat_frame(cmd, value));
    frame
}

} // verus!
