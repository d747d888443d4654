//! Capture-format negotiation: pick the first supported pixel encoding from
//! an ordered preference list, or report that none is supported.

use vstd::prelude::*;

verus! {

/// The two pixel encodings the pipeline handles: uncompressed 3-byte-per-pixel
/// frames, or a compressed bitstream that needs a full image decode.
#[derive(Clone, Copy, Debug, PartialEq, Eq, Structural)]
pub enum PixelEncoding {
    Raw24,
    CompressedImage,
}

/// No encoding in the preference list is supported by the device.
#[derive(Clone, Copy, Debug, PartialEq, Eq, Structural)]
pub struct NegotiationError;

/// Whether the device supports `e`, given the device's answers for the two
/// encodings the pipeline can drive.
pub open spec fn encoding_supported(
    e: PixelEncoding,
    raw24_supported: bool,
    compressed_supported: bool,
) -> bool {
    match e {
        PixelEncoding::Raw24 => raw24_supported,
        PixelEncoding::CompressedImage => compressed_supported,
    }
}

/// The first encoding of `prefs` that the device supports, if any.
pub open spec fn first_supported(
    prefs: Seq<PixelEncoding>,
    raw24_supported: bool,
    compressed_supported: bool,
) -> Option<PixelEncoding>
    decreases prefs.len(),
{
    if prefs.len() == 0 {
        None
    } else if encoding_supported(prefs[0], raw24_supported, compressed_supported) {
        Some(prefs[0])
    } else {
        first_supported(prefs.drop_first(), raw24_supported, compressed_supported)
    }
}

/// Selects the capture encoding: the first entry of `prefs` that the device
/// supports. `raw24_supported` and `compressed_supported` are the device's
/// answers, gathered by the caller from its format probes.
pub fn negotiate_format(
    prefs: &Vec<PixelEncoding>,
    raw24_supported: bool,
    compressed_supported: bool,
) -> (r: Result<PixelEncoding, NegotiationError>)
    ensures
        match r {
            Ok(e) => first_supported(prefs@, raw24_supported, compressed_supported) == Some(e),
            Err(_) => first_supported(prefs@, raw24_supported, compressed_supported) is None,
        },
{
    let n = prefs.len();
    proof {
        assert(prefs@.skip(0) =~= prefs@);
    }
    for i in 0..n
        invariant
            n == prefs@.len(),
            first_supported(prefs@, raw24_supported, compressed_supported)
                == first_supported(
                prefs@.skip(i as int),
                raw24_supported,
                compressed_supported,
            ),
    {
        let e = prefs[i];
        let ok = match e {
            PixelEncoding::Raw24 => raw24_supported,
            PixelEncoding::CompressedImage => compressed_supported,
        };
        proof {
            assert(prefs@.skip(i as int).len() > 0);
            assert(prefs@.skip(i as int)[0] == prefs@[i as int]);
            assert(prefs@.skip(i as int).drop_first() =~= prefs@.skip(i + 1));
        }
        if ok {
            return Ok(e);
        }
    }
    proof {
        assert(prefs@.skip(n as int).len() == 0);
    }
    Err(NegotiationError)
}

} // verus!
