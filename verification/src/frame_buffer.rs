//! The fixed-room buffers of the link, all `heapless::Vec`s used through the
//! few calls below: the decoder's frame buffer (512 bytes), the payload of a
//! data frame from the host (255 bytes), and the data frame built for the host
//! (516 bytes). What each kind of buffer holds is named by a `*_contents`
//! function; each call states what it does to that sequence. A name cannot be
//! generic over the room, so each room has its own name and calls.

use vstd::prelude::*;

verus! {

/// Room of the decoder's frame buffer, in bytes.
pub const FRAME_BUFFER_CAPACITY: usize = 512;

/// Room of a data payload, in bytes: the most that one LoRa packet carries.
pub const PAYLOAD_CAPACITY: usize = 255;

/// Room of the buffer in which an outgoing data frame is built: a payload of
/// 255 bytes, every one of them escaped, and three framing bytes fit.
pub const DATA_FRAME_CAPACITY: usize = 516;

/// `heapless::Vec`, a vector of fixed room `N` that lives inline.
#[verifier::external_type_specification]
#[verifier::external_body]
#[verifier::reject_recursive_types(T)]
pub struct ExHeaplessVec<T, const N: usize>(heapless::Vec<T, N>);

/// The bytes that a frame buffer holds, in order.
pub uninterp spec fn frame_buffer_contents(buf: heapless::Vec<u8, 512>) -> Seq<u8>;

/// The bytes that a payload buffer holds, in order.
pub uninterp spec fn payload_contents(buf: heapless::Vec<u8, 255>) -> Seq<u8>;

/// The bytes that an outgoing data-frame buffer holds, in order.
pub uninterp spec fn data_frame_contents(buf: heapless::Vec<u8, 516>) -> Seq<u8>;

/// `heapless::Vec::new`: a frame buffer that holds nothing.
#[verifier::external_body]
pub(crate) fn frame_buffer_new() -> (buf: heapless::Vec<u8, 512>)
    ensures
        frame_buffer_contents(buf) == Seq::<u8>::empty(),
{
    heapless::Vec::new()
}

/// `heapless::Vec::push` on a frame buffer: appends `byte` when the buffer
/// holds fewer than 512 bytes and returns `Ok`; otherwise leaves the buffer as
/// it was and hands `byte` back in `Err`.
#[verifier::external_body]
pub(crate) fn frame_buffer_push(buf: &mut heapless::Vec<u8, 512>, byte: u8) -> (r: Result<(), u8>)
    ensures
        frame_buffer_contents(*old(buf)).len() < FRAME_BUFFER_CAPACITY ==> {
            &&& r is Ok
            &&& frame_buffer_contents(*final(buf)) == frame_buffer_contents(*old(buf)).push(byte)
        },
        frame_buffer_contents(*old(buf)).len() >= FRAME_BUFFER_CAPACITY ==> {
            &&& r == Err::<(), u8>(byte)
            &&& frame_buffer_contents(*final(buf)) == frame_buffer_contents(*old(buf))
        },
{
    buf.push(byte)
}

/// `heapless::Vec::clear` on a frame buffer: afterwards it holds nothing.
#[verifier::external_body]
pub(crate) fn frame_buffer_clear(buf: &mut heapless::Vec<u8, 512>)
    ensures
        frame_buffer_contents(*final(buf)) == Seq::<u8>::empty(),
{
    buf.clear()
}

/// `heapless::Vec::as_slice` on a frame buffer: the bytes that it holds, never
/// more than its room.
#[verifier::external_body]
pub(crate) fn frame_buffer_bytes(buf: &heapless::Vec<u8, 512>) -> (s: &[u8])
    ensures
        s@ == frame_buffer_contents(*buf),
        s@.len() <= FRAME_BUFFER_CAPACITY,
{
    buf.as_slice()
}

/// `heapless::Vec::new`: a payload buffer that holds nothing.
#[verifier::external_body]
pub(crate) fn payload_new() -> (buf: heapless::Vec<u8, 255>)
    ensures
        payload_contents(buf) == Seq::<u8>::empty(),
{
    heapless::Vec::new()
}

/// `heapless::Vec::push` on a payload buffer: appends `byte` when the buffer
/// holds fewer than 255 bytes and returns `Ok`; otherwise leaves the buffer as
/// it was and hands `byte` back in `Err`.
#[verifier::external_body]
pub(crate) fn payload_push(buf: &mut heapless::Vec<u8, 255>, byte: u8) -> (r: Result<(), u8>)
    ensures
        payload_contents(*old(buf)).len() < PAYLOAD_CAPACITY ==> {
            &&& r is Ok
            &&& payload_contents(*final(buf)) == payload_contents(*old(buf)).push(byte)
        },
        payload_contents(*old(buf)).len() >= PAYLOAD_CAPACITY ==> {
            &&& r == Err::<(), u8>(byte)
            &&& payload_contents(*final(buf)) == payload_contents(*old(buf))
        },
{
    buf.push(byte)
}

/// `heapless::Vec::as_slice` on a payload buffer: the bytes that it holds,
/// never more than its room.
#[verifier::external_body]
pub(crate) fn payload_bytes(buf: &heapless::Vec<u8, 255>) -> (s: &[u8])
    ensures
        s@ == payload_contents(*buf),
        s@.len() <= PAYLOAD_CAPACITY,
{
    buf.as_slice()
}

/// `heapless::Vec::new`: a data-frame buffer that holds nothing.
#[verifier::external_body]
pub(crate) fn data_frame_new() -> (buf: heapless::Vec<u8, 516>)
    ensures
        data_frame_contents(buf) == Seq::<u8>::empty(),
{
    heapless::Vec::new()
}

/// `heapless::Vec::push` on a data-frame buffer: appends `byte` when the
/// buffer holds fewer than 516 bytes and returns `Ok`; otherwise leaves the
/// buffer as it was and hands `byte` back in `Err`.
#[verifier::external_body]
pub(crate) fn data_frame_push(buf: &mut heapless::Vec<u8, 516>, byte: u8) -> (r: Result<(), u8>)
    ensures
        data_frame_contents(*old(buf)).len() < DATA_FRAME_CAPACITY ==> {
            &&& r is Ok
            &&& data_frame_contents(*final(buf)) == data_frame_contents(*old(buf)).push(byte)
        },
        data_frame_contents(*old(buf)).len() >= DATA_FRAME_CAPACITY ==> {
            &&& r == Err::<(), u8>(byte)
            &&& data_frame_contents(*final(buf)) == data_frame_contents(*old(buf))
        },
{
    buf.push(byte)
}

} // verus!
