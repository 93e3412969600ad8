//! The KISS decoder: a byte-by-byte state machine that turns the byte stream
//! from the host into requests. Its state lasts across USB reads for the whole
//! of a connection.

use vstd::prelude::*;
use crate::kiss::{FEND, FESC, TFEND, TFESC};
use crate::command::{
    FrameCommand, KissCommand, frame_command, apply_command, needs_rebuild, decode_frame,
};
use crate::frame_buffer::{
    payload_contents, payload_bytes, FRAME_BUFFER_CAPACITY, frame_buffer_contents, frame_buffer_new, frame_buffer_push,
    frame_buffer_clear, frame_buffer_bytes,
};
use crate::radio_params::{LoraConfig, same_modulation};

verus! {

/// The decoder's state as a mathematical value.
pub struct DecoderState {
    /// The unescaped bytes of the frame being received.
    pub frame: Seq<u8>,
    /// A frame delimiter has been seen, so bytes belong to a frame.
    pub in_frame: bool,
    /// The previous byte was an escape byte.
    pub escaped: bool,
}

/// Everything that one run of the decoder over some bytes reads and changes:
/// the decoder, the radio settings, the last data payload seen, and whether a
/// setting that shapes the modulation changed.
pub struct FeedState {
    pub decoder: DecoderState,
    pub cfg: LoraConfig,
    pub tx: Option<Seq<u8>>,
    pub changed: bool,
}

/// The state of a decoder at the start of a connection.
pub open spec fn initial_decoder() -> DecoderState {
    DecoderState { frame: Seq::<u8>::empty(), in_frame: false, escaped: false }
}

/// The state just after a frame delimiter: inside a new, empty frame.
pub open spec fn open_frame() -> DecoderState {
    DecoderState { frame: Seq::<u8>::empty(), in_frame: true, escaped: false }
}

/// Where a run over the bytes of one USB read starts.
pub open spec fn read_start(d: DecoderState, cfg: LoraConfig) -> FeedState {
    FeedState { decoder: d, cfg, tx: None, changed: false }
}

/// Appends a byte to the frame unless the frame buffer is full; a byte that
/// does not fit is dropped.
pub open spec fn push_capped(frame: Seq<u8>, b: u8) -> Seq<u8> {
    if frame.len() < FRAME_BUFFER_CAPACITY {
        frame.push(b)
    } else {
        frame
    }
}

/// The byte that an escape sequence `FESC b` stands for; a malformed sequence
/// stands for `b` itself.
pub open spec fn unescape_byte(b: u8) -> u8 {
    if b == TFEND {
        FEND
    } else if b == TFESC {
        FESC
    } else {
        b
    }
}

/// What a request does to the run's results.
pub open spec fn perform(s: FeedState, cmd: FrameCommand) -> FeedState {
    match cmd {
        FrameCommand::Data(p) => FeedState { tx: Some(p), ..s },
        _ => FeedState {
            cfg: apply_command(s.cfg, cmd),
            changed: s.changed || needs_rebuild(cmd),
            ..s
        },
    }
}

/// A frame delimiter: the frame received so far, if any, is carried out, and
/// a new frame begins.
pub open spec fn close_frame(s: FeedState) -> FeedState {
    let done = if s.decoder.in_frame && s.decoder.frame.len() > 0 {
        perform(s, frame_command(s.decoder.frame))
    } else {
        s
    };
    FeedState { decoder: open_frame(), ..done }
}

/// One byte from the host.
pub open spec fn step(s: FeedState, b: u8) -> FeedState {
    let d = s.decoder;
    if d.escaped {
        let frame = if d.in_frame {
            push_capped(d.frame, unescape_byte(b))
        } else {
            d.frame
        };
        FeedState { decoder: DecoderState { frame, in_frame: d.in_frame, escaped: false }, ..s }
    } else if b == FEND {
        close_frame(s)
    } else if b == FESC {
        FeedState { decoder: DecoderState { escaped: d.in_frame, ..d }, ..s }
    } else {
        let frame = if d.in_frame {
            push_capped(d.frame, b)
        } else {
            d.frame
        };
        FeedState { decoder: DecoderState { frame, ..d }, ..s }
    }
}

/// The bytes from the host, one after the other.
pub open spec fn run(s: FeedState, bytes: Seq<u8>) -> FeedState
    decreases bytes.len(),
{
    if bytes.len() == 0 {
        s
    } else {
        step(run(s, bytes.drop_last()), bytes.last())
    }
}

/// The payload to transmit after a USB read: the last data payload of the read,
/// unless it is empty.
pub open spec fn to_transmit(tx: Option<Seq<u8>>) -> Option<Seq<u8>> {
    match tx {
        Some(p) => if p.len() > 0 {
            Some(p)
        } else {
            None
        },
        None => None,
    }
}

/// A payload held in an `Option<heapless::Vec<u8, 255>>`, as a value.
pub open spec fn payload_view(p: Option<heapless::Vec<u8, 255>>) -> Option<Seq<u8>> {
    match p {
        Some(v) => Some(payload_contents(v)),
        None => None,
    }
}

/// What the firmware must do after the bytes of one USB read.
#[derive(Debug)]
pub struct UsbReadActions {
    /// A payload to send over the radio.
    pub transmit: Option<heapless::Vec<u8, 255>>,
    /// The modulation changed: build the modulation and packet parameters again.
    pub rebuild_radio_params: bool,
}

/// The KISS decoder.
pub struct KissDecoder {
    frame: heapless::Vec<u8, 512>,
    in_frame: bool,
    escaped: bool,
}

impl View for KissDecoder {
    type V = DecoderState;

    closed spec fn view(&self) -> DecoderState {
        DecoderState {
            frame: frame_buffer_contents(self.frame),
            in_frame: self.in_frame,
            escaped: self.escaped,
        }
    }
}

impl KissDecoder {
    /// A decoder at the start of a connection: outside any frame.
    pub fn new() -> (d: KissDecoder)
        ensures
            d@ == initial_decoder(),
    {
        KissDecoder { frame: frame_buffer_new(), in_frame: false, escaped: false }
    }

    /// Appends a byte to the frame being received, if there is one.
    fn push_in_frame(&mut self, b: u8)
        ensures
            final(self)@ == (DecoderState {
                frame: if old(self)@.in_frame {
                    push_capped(old(self)@.frame, b)
                } else {
                    old(self)@.frame
                },
                ..old(self)@
            }),
    {
        if self.in_frame {
            let _ = frame_buffer_push(&mut self.frame, b);
        }
    }

    /// Carries out the frame received so far, if any, and opens a new one.
    fn end_frame(
        &mut self,
        cfg: &mut LoraConfig,
        tx: &mut Option<heapless::Vec<u8, 255>>,
        changed: &mut bool,
    )
        ensures
            ({
                let after = close_frame(
                    FeedState {
                        decoder: old(self)@,
                        cfg: *old(cfg),
                        tx: payload_view(*old(tx)),
                        changed: *old(changed),
                    },
                );
                &&& final(self)@ == after.decoder
                &&& *final(cfg) == after.cfg
                &&& payload_view(*final(tx)) == after.tx
                &&& *final(changed) == after.changed
            }),
    {
        if self.in_frame {
            let bytes = frame_buffer_bytes(&self.frame);
            if bytes.len() > 0 {
                let cmd = decode_frame(bytes);
                match cmd {
                    KissCommand::Data(p) => {
                        *tx = Some(p);
                    },
                    other => {
                        let rebuild = cfg.apply_command(&other);
                        *changed = *changed || rebuild;
                    },
                }
            }
        }
        frame_buffer_clear(&mut self.frame);
        self.in_frame = true;
        self.escaped = false;
    }

    /// One byte from the host.
    fn step(
        &mut self,
        cfg: &mut LoraConfig,
        byte: u8,
        tx: &mut Option<heapless::Vec<u8, 255>>,
        changed: &mut bool,
    )
        ensures
            ({
                let after = step(
                    FeedState {
                        decoder: old(self)@,
                        cfg: *old(cfg),
                        tx: payload_view(*old(tx)),
                        changed: *old(changed),
                    },
                    byte,
                );
                &&& final(self)@ == after.decoder
                &&& *final(cfg) == after.cfg
                &&& payload_view(*final(tx)) == after.tx
                &&& *final(changed) == after.changed
            }),
    {
        if self.escaped {
            self.escaped = false;
            let decoded = if byte == TFEND {
                FEND
            } else if byte == TFESC {
                FESC
            } else {
                byte
            };
            self.push_in_frame(decoded);
        } else if byte == FEND {
            self.end_frame(cfg, tx, changed);
        } else if byte == FESC {
            if self.in_frame {
                self.escaped = true;
            }
        } else {
            self.push_in_frame(byte);
        }
    }

    /// Runs the decoder over the bytes of one USB read. The decoder keeps its
    /// state for the next read; the settings change as the configuration
    /// frames of the read ask. Of the data frames completed in the read, the
    /// last one's payload is to be transmitted, unless it is empty.
    pub fn feed(&mut self, cfg: &mut LoraConfig, bytes: &[u8]) -> (actions: UsbReadActions)
        ensures
            ({
                let r = run(read_start(old(self)@, *old(cfg)), bytes@);
                &&& final(self)@ == r.decoder
                &&& *final(cfg) == r.cfg
                &&& actions.rebuild_radio_params == r.changed
                &&& payload_view(actions.transmit) == to_transmit(r.tx)
            }),
            ({
                let r = run(read_start(old(self)@, *old(cfg)), bytes@);
                &&& !same_modulation(*final(cfg), *old(cfg)) ==> actions.rebuild_radio_params
                &&& actions.transmit is Some ==> {
                    &&& payload_view(actions.transmit) == r.tx
                    &&& r.tx->0.len() > 0
                }
                &&& (r.tx matches Some(p) && p.len() > 0) ==> payload_view(actions.transmit) == r.tx
            }),
    {
        proof {
            crate::framing_laws::lemma_modulation_change_in_run_requests_rebuild(
                read_start(self@, *cfg),
                bytes@,
            );
        }
        let ghost start = read_start(self@, *cfg);
        let mut tx: Option<heapless::Vec<u8, 255>> = None;
        let mut changed = false;
        let mut i: usize = 0;
        while i < bytes.len()
            invariant
                i <= bytes@.len(),
                ({
                    let r = run(start, bytes@.take(i as int));
                    &&& self@ == r.decoder
                    &&& *cfg == r.cfg
                    &&& payload_view(tx) == r.tx
                    &&& changed == r.changed
                }),
            decreases bytes@.len() - i,
        {
            assert(bytes@.take(i + 1).drop_last() =~= bytes@.take(i as int));
            self.step(cfg, bytes[i], &mut tx, &mut changed);
            i = i + 1;
        }
        assert(bytes@.take(bytes@.len() as int) =~= bytes@);
        let transmit = match tx {
            Some(p) => if payload_bytes(&p).len() > 0 {
                Some(p)
            } else {
                None
            },
            None => None,
        };
        UsbReadActions { transmit, rebuild_radio_params: changed }
    }
}

} // verus!
