//! The compressed-frame boundary: decompression of self-describing compressed
//! frames is delegated to the zstd crate behind trusted wrappers.
//!
//! A frame's decompressed content is a function of the frame bytes alone, so
//! the wrappers name their results with uninterpreted spec functions rather
//! than restating the compression format.

use vstd::prelude::*;

verus! {

/// The full decompressed content of the compressed frame `frame`, or `None`
/// when the frame cannot be decoded to completion.
pub uninterp spec fn frame_decoded(frame: Seq<u8>) -> Option<Seq<u8>>;

/// The first `n` decompressed bytes of the compressed frame `frame`, or
/// `None` when fewer than `n` bytes can be decoded from it.
pub uninterp spec fn frame_prefix(frame: Seq<u8>, n: int) -> Option<Seq<u8>>;

/// The decompressed size recorded in the frame header `header`, or `None`
/// when the header is too short, corrupt, or records no size.
pub uninterp spec fn frame_size_hint(header: Seq<u8>) -> Option<u64>;

/// Relies on zstd::stream::decode_all: decompresses one whole frame to
/// completion; the result depends on the frame bytes alone.
#[verifier::external_body]
pub(crate) fn decode_frame_all(frame: &[u8]) -> (r: Option<Vec<u8>>)
    ensures
        r matches Some(v) ==> frame_decoded(frame@) == Some(v@),
        r is None ==> frame_decoded(frame@) is None,
{
    zstd::stream::decode_all(frame).ok()
}

/// Relies on zstd::stream::Decoder and std::io::Read::read_exact: decodes
/// exactly `n` decompressed bytes from the start of the frame; the result
/// depends on the frame bytes and `n` alone.
#[verifier::external_body]
pub(crate) fn decode_frame_prefix(frame: &[u8], n: usize) -> (r: Option<Vec<u8>>)
    ensures
        r matches Some(v) ==> v@.len() == n && frame_prefix(frame@, n as int) == Some(v@),
        r is None ==> frame_prefix(frame@, n as int) is None,
{
    let mut decoder = zstd::stream::Decoder::new(frame).ok()?;
    let mut buf = vec![0u8; n];
    std::io::Read::read_exact(&mut decoder, &mut buf).ok()?;
    Some(buf)
}

/// Relies on zstd::zstd_safe::get_frame_content_size: reads the decompressed
/// size recorded in a frame header; the result depends on the bytes alone.
#[verifier::external_body]
pub(crate) fn frame_content_size(header: &[u8]) -> (r: Option<u64>)
    ensures
        r == frame_size_hint(header@),
{
    match zstd::zstd_safe::get_frame_content_size(header) {
        Ok(size) => size,
        Err(_) => None,
    }
}

} // verus!
