use vstd::prelude::*;

verus! {

/// The most bytes that one queued message can hold.
pub const FRAME_CAPACITY: usize = 256;

/// The most messages that the relay queue holds at once.
pub const QUEUE_DEPTH: usize = 8;

#[verifier::external_type_specification]
#[verifier::external_body]
#[verifier::reject_recursive_types(T)]
pub struct ExHeaplessVec<T, const N: usize>(heapless::Vec<T, N>);

/// The bytes that a bounded message buffer holds, in order.
pub uninterp spec fn frame_bytes(frame: heapless::Vec<u8, 256>) -> Seq<u8>;

/// `core::str::from_utf8(data).is_ok()`: whether the bytes are well-formed
/// UTF-8 (no overlong encodings, no surrogates, nothing above U+10FFFF), as
/// vstd's `valid_utf8` states it.
#[verifier::external_body]
fn str_from_utf8_is_ok(data: &[u8]) -> (valid: bool)
    ensures
        valid == vstd::utf8::valid_utf8(data@),
{
    core::str::from_utf8(data).is_ok()
}

/// `heapless::Vec::<u8, 256>::try_from(&[u8])`: in the crate's source it is
/// `Vec::from_slice`, which fails with `()` when the slice is longer than the
/// capacity and otherwise holds a copy of the slice's bytes in order.
#[verifier::external_body]
fn heapless_vec_try_from(data: &[u8]) -> (r: Result<heapless::Vec<u8, 256>, ()>)
    ensures
        r is Ok <==> data@.len() <= 256,
        r matches Ok(frame) ==> frame_bytes(frame) == data@,
{
    heapless::Vec::try_from(data)
}

/// Why a received chunk cannot become a queued message.
#[derive(Clone, Copy, Debug, PartialEq, Eq, Structural)]
pub enum FrameError {
    /// The chunk is not well-formed UTF-8 text.
    NotUtf8,
    /// The chunk is longer than `FRAME_CAPACITY`; `len` is its length.
    TooLong { len: usize },
}

/// What turning a chunk into a message gives: the message, or which check
/// refused the chunk. The text check comes first.
pub open spec fn spec_frame_from_chunk(data: Seq<u8>) -> Result<Seq<u8>, FrameError> {
    if !vstd::utf8::valid_utf8(data) {
        Err(FrameError::NotUtf8)
    } else if data.len() > FRAME_CAPACITY {
        Err(FrameError::TooLong { len: data.len() as usize })
    } else {
        Ok(data)
    }
}

/// Copies a chunk into a bounded message buffer; fails exactly when the chunk
/// is longer than `FRAME_CAPACITY`.
fn make_frame(data: &[u8]) -> (r: Result<heapless::Vec<u8, 256>, FrameError>)
    ensures
        r is Ok <==> data@.len() <= FRAME_CAPACITY,
        r matches Ok(frame) ==> frame_bytes(frame) == data@,
        r matches Err(e) ==> e == (FrameError::TooLong { len: data@.len() as usize }),
{
    match heapless_vec_try_from(data) {
        Ok(frame) => Ok(frame),
        Err(()) => Err(FrameError::TooLong { len: data.len() }),
    }
}

/// Turns a chunk read from a peer into a message for the relay queue. The
/// chunk must be UTF-8 text (it is logged as such) and must fit in one
/// message; the message then holds the chunk's bytes unchanged.
pub fn frame_from_chunk(data: &[u8]) -> (r: Result<heapless::Vec<u8, 256>, FrameError>)
    ensures
        match (r, spec_frame_from_chunk(data@)) {
            (Ok(frame), Ok(bytes)) => frame_bytes(frame) == bytes,
            (Err(e), Err(f)) => e == f,
            _ => false,
        },
        (r matches Err(e) && e == FrameError::NotUtf8) <==> !vstd::utf8::valid_utf8(data@),
        vstd::utf8::valid_utf8(data@) && data@.len() <= FRAME_CAPACITY ==> (r matches Ok(frame)
            && frame_bytes(frame) == data@),
        vstd::utf8::valid_utf8(data@) && data@.len() > FRAME_CAPACITY ==> (r matches Err(e) && e
            == (FrameError::TooLong { len: data@.len() as usize })),
{
    if !str_from_utf8_is_ok(data) {
        return Err(FrameError::NotUtf8);
    }
    make_frame(data)
}

/// Every chunk of UTF-8 text that fits in one message is accepted, and the
/// message is the chunk itself: no byte is added, dropped or changed.
pub proof fn frame_accepts_every_fitting_text(data: Seq<u8>)
    requires
        vstd::utf8::valid_utf8(data),
        data.len() <= FRAME_CAPACITY,
    ensures
        spec_frame_from_chunk(data) == Ok::<Seq<u8>, FrameError>(data),
{
}

/// An accepted chunk becomes a message with exactly its bytes.
pub proof fn frame_keeps_accepted_bytes(data: Seq<u8>)
    ensures
        spec_frame_from_chunk(data) matches Ok(bytes) ==> bytes == data,
{
}

/// A chunk is refused as not being text exactly when it is not well-formed
/// UTF-8, and as too long exactly when it is text longer than one message.
pub proof fn frame_refuses_only_bad_text_or_oversize(data: Seq<u8>)
    ensures
        (spec_frame_from_chunk(data) == Err::<Seq<u8>, FrameError>(FrameError::NotUtf8))
            <==> !vstd::utf8::valid_utf8(data),
        (spec_frame_from_chunk(data) is Err && spec_frame_from_chunk(data)
            != Err::<Seq<u8>, FrameError>(FrameError::NotUtf8)) <==> (vstd::utf8::valid_utf8(data)
            && data.len() > FRAME_CAPACITY),
        spec_frame_from_chunk(data) is Ok <==> (vstd::utf8::valid_utf8(data) && data.len()
            <= FRAME_CAPACITY),
{
}

} // verus!
