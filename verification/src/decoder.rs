//! Frame decoding: a capture buffer becomes raw interleaved pixel bytes.
//! Raw frames pass through unchanged; compressed frames go through a full
//! image decode.

use vstd::prelude::*;
use crate::negotiate::PixelEncoding;

verus! {

/// Failure of the frame decode step. Both are fatal to the capture loop.
#[derive(Clone, Copy, Debug, PartialEq, Eq, Structural)]
pub enum DecodeError {
    /// The compressed bitstream could not be parsed.
    Malformed,
    /// The session's encoding is none that this pipeline drives. It cannot
    /// arise once a `CaptureFormat` holds one of the two encodings here; the
    /// variant names the invariant violation all the same.
    UnsupportedEncoding,
}

/// The capture format fixed at session start by negotiation: exactly one
/// encoding is active for the session's lifetime, at the device's native
/// resolution.
#[derive(Clone, Copy, Debug, PartialEq, Eq, Structural)]
pub struct CaptureFormat {
    pub pixel_encoding: PixelEncoding,
    pub width: u32,
    pub height: u32,
}

/// Declares `jpeg_decoder::Error` as an opaque outside type, so the decode
/// wrapper below can return it and verified code can map it to the
/// library's own error.
#[verifier::external_type_specification]
#[verifier::external_body]
pub struct ExJpegError(jpeg_decoder::Error);

/// What `jpeg_decoder` yields for a bitstream: the decoded interleaved pixel
/// bytes if it parses as an image, nothing otherwise. The outcome depends on
/// the input bytes alone: this crate enables `jpeg_decoder`'s
/// `platform_independent` feature, which compiles only the code whose output
/// is bit-for-bit the same on all platforms (without it, runtime-detected
/// SIMD paths round differently machine to machine).
pub uninterp spec fn jpeg_decoding(bytes: Seq<u8>) -> Option<Seq<u8>>;

/// Relies on `jpeg_decoder::Decoder::decode` under the crate's
/// `platform_independent` feature: parses the buffer as a JPEG bitstream and
/// returns the decoded pixel bytes, or an error — never a panic — when the
/// bitstream is malformed or unsupported; with that feature the outcome is a
/// function of the input bytes alone on every machine.
#[verifier::external_body]
fn jpeg_decode_bytes(buffer: &Vec<u8>) -> (r: Result<Vec<u8>, jpeg_decoder::Error>)
    ensures
        match r {
            Ok(v) => jpeg_decoding(buffer@) == Some(v@),
            Err(_) => jpeg_decoding(buffer@) is None,
        },
{
    let mut decoder = jpeg_decoder::Decoder::new(buffer.as_slice());
    decoder.decode()
}

/// What the decode step yields for a buffer under an encoding: the bytes
/// unchanged for raw frames, the decoded image for compressed ones.
pub open spec fn decoded_bytes(encoding: PixelEncoding, bytes: Seq<u8>) -> Option<Seq<u8>> {
    match encoding {
        PixelEncoding::Raw24 => Some(bytes),
        PixelEncoding::CompressedImage => jpeg_decoding(bytes),
    }
}

/// Decodes one capture buffer under the session's active encoding:
/// pass-through for raw frames, a full image decode for compressed ones.
/// A bitstream that cannot be parsed is `Malformed`, which the capture loop
/// treats as fatal.
pub fn decode(buffer: Vec<u8>, format: &CaptureFormat) -> (r: Result<Vec<u8>, DecodeError>)
    ensures
        match r {
            Ok(v) => decoded_bytes(format.pixel_encoding, buffer@) == Some(v@),
            Err(e) => e == DecodeError::Malformed && decoded_bytes(
                format.pixel_encoding,
                buffer@,
            ) is None,
        },
{
    match format.pixel_encoding {
        PixelEncoding::Raw24 => Ok(buffer),
        PixelEncoding::CompressedImage => match jpeg_decode_bytes(&buffer) {
            Ok(v) => Ok(v),
            Err(_) => Err(DecodeError::Malformed),
        },
    }
}

} // verus!
