//! Clipboard payload preparation: size-gate, decode and unpack a
//! base64-encoded compressed image into raw RGBA pixels.
//!
//! The payload arrives base64-encoded and without a data-URL prefix. Before
//! any decoding work, the least decoded size the input could have is held
//! against the 50 MiB ceiling — a bound that never rejects a payload the
//! ceiling allows, so a payload of exactly the ceiling passes; the actual
//! decoded size is then checked exactly after decoding. The surrounding
//! application pushes the prepared pixels to the OS clipboard.

use vstd::prelude::*;

use crate::MAX_PAYLOAD_SIZE;
use vstd::string::StringSliceAdditionalSpecFns;

verus! {

/// An image ready for the OS clipboard: dimensions and raw RGBA8 bytes.
pub struct ClipboardImage {
    pub width: u32,
    pub height: u32,
    pub rgba: Vec<u8>,
}

/// How preparing a clipboard payload can fail.
#[derive(Debug)]
pub enum ClipboardError {
    /// The input is too large even before decoding; carries the least
    /// decoded size the input could have, in bytes.
    TooLarge { estimated: usize },
    /// The decoded payload exceeds the ceiling; carries its size in bytes.
    DecodedTooLarge { actual: usize },
    /// The input is not valid base64; carries the decoder's message.
    DecodeFailed(String),
    /// The decoded bytes are not a loadable image; carries the codec's
    /// message.
    LoadFailed(String),
}

impl ClipboardError {
    /// Human-readable description, surfaced verbatim to the caller.
    pub fn message(&self) -> (r: String)
        ensures
            self matches ClipboardError::TooLarge { estimated } ==> r@ == "Image too large"@,
            self matches ClipboardError::DecodedTooLarge { actual } ==> r@
                == "Decoded image too large"@,
            self matches ClipboardError::DecodeFailed(m) ==> r@ == m@,
            self matches ClipboardError::LoadFailed(m) ==> r@ == m@,
    {
        match self {
            ClipboardError::TooLarge { .. } => String::from_str("Image too large"),
            ClipboardError::DecodedTooLarge { .. } => String::from_str(
                "Decoded image too large",
            ),
            ClipboardError::DecodeFailed(m) => m.clone(),
            ClipboardError::LoadFailed(m) => m.clone(),
        }
    }
}

/// The least decoded size a padded base64 input of this byte length can
/// have: each four-character block yields three bytes, except the last,
/// which may carry up to two padding characters. The decoded size of a
/// well-formed input of length `len` lies in `[(len/4)*3 - 2, (len/4)*3]`,
/// so gating on this lower bound never rejects a payload the ceiling
/// allows.
pub open spec fn min_decoded_size(len: nat) -> nat {
    if (len / 4) * 3 >= 2 {
        ((len / 4) * 3 - 2) as nat
    } else {
        0
    }
}

/// The pre-decode size bound applied to a base64 input string.
pub open spec fn clipboard_min_size(s: &str) -> nat {
    min_decoded_size((s.spec_bytes().len() as usize) as nat)
}

/// Whether standard, padded base64 decoding accepts this input.
pub uninterp spec fn base64_ok(s: Seq<char>) -> bool;

/// The bytes that standard, padded base64 decoding yields for this input:
/// a function of the input characters alone.
pub uninterp spec fn base64_decoded(s: Seq<char>) -> Seq<u8>;

/// Relies on base64's `Engine::decode` with the standard-alphabet, padded
/// engine: decoding is deterministic in the input alone, succeeds exactly
/// on well-formed base64, and the failure message opens with a fixed
/// prefix.
#[verifier::external_body]
fn decode_base64(s: &str) -> (r: Result<Vec<u8>, String>)
    ensures
        r is Ok <==> base64_ok(s@),
        r matches Ok(v) ==> v@ == base64_decoded(s@),
        r matches Err(m) ==> m@.len() >= "Failed to decode base64"@.len() && m@.subrange(
            0,
            "Failed to decode base64"@.len() as int,
        ) == "Failed to decode base64"@,
{
    match base64::Engine::decode(&base64::engine::general_purpose::STANDARD, s) {
        Ok(v) => Ok(v),
        Err(e) => Err(format!("Failed to decode base64: {}", e)),
    }
}

/// Whether these bytes are a self-describing compressed image the codec can
/// decode.
pub uninterp spec fn image_loadable(bytes: Seq<u8>) -> bool;

/// The RGBA8 form of a self-describing compressed image: its width, height
/// and raw pixel bytes, a function of the compressed bytes alone.
pub uninterp spec fn decoded_image(bytes: Seq<u8>) -> (u32, u32, Seq<u8>);

/// Relies on image::load_from_memory and DynamicImage::to_rgba8: decoding a
/// compressed image and converting it to RGBA8 is deterministic in the
/// input bytes and succeeds exactly when the bytes are a decodable image;
/// the buffer that ImageBuffer::into_raw hands back holds exactly width
/// times height four-byte pixels, and the failure message opens with a
/// fixed prefix.
#[verifier::external_body]
fn decode_image_rgba(bytes: &Vec<u8>) -> (r: Result<(u32, u32, Vec<u8>), String>)
    ensures
        r is Ok <==> image_loadable(bytes@),
        r matches Ok(t) ==> (t.0, t.1, t.2@) == decoded_image(bytes@),
        r matches Ok(t) ==> t.2@.len() == 4 * t.0 * t.1,
        r matches Err(m) ==> m@.len() >= "Failed to load image"@.len() && m@.subrange(
            0,
            "Failed to load image"@.len() as int,
        ) == "Failed to load image"@,
{
    match image::load_from_memory(bytes) {
        Ok(img) => {
            let rgba = img.to_rgba8();
            let width = rgba.width();
            let height = rgba.height();
            Ok((width, height, rgba.into_raw()))
        },
        Err(e) => Err(format!("Failed to load image: {}", e)),
    }
}

/// Prepare a base64-encoded compressed image for the OS clipboard.
///
/// An input that cannot decode to a payload within the 50 MiB ceiling is
/// rejected before any decoding; a payload of exactly the ceiling is let
/// through, and the actual decoded size is then held exactly against the
/// same ceiling before the image is unpacked. On success the returned value
/// carries the decoded image's dimensions and raw RGBA bytes for the
/// application to push to the clipboard; success comes exactly when both
/// size checks, the base64 decoding and the image decoding all pass.
pub fn copy_image_to_clipboard(base64_data: &str) -> (r: Result<ClipboardImage, ClipboardError>)
    ensures
        ({
            let bound = clipboard_min_size(base64_data);
            let wellformed = base64_ok(base64_data@);
            let decoded = base64_decoded(base64_data@);
            &&& ((r matches Err(ClipboardError::TooLarge { estimated: _ })) <==> bound
                > MAX_PAYLOAD_SIZE)
            &&& (r matches Err(ClipboardError::TooLarge { estimated }) ==> estimated == bound)
            &&& ((r matches Err(ClipboardError::DecodeFailed(_))) <==> (bound <= MAX_PAYLOAD_SIZE
                && !wellformed))
            &&& (r matches Err(ClipboardError::DecodeFailed(m)) ==> m@.len()
                >= "Failed to decode base64"@.len() && m@.subrange(
                0,
                "Failed to decode base64"@.len() as int,
            ) == "Failed to decode base64"@)
            &&& ((r matches Err(ClipboardError::DecodedTooLarge { actual: _ })) <==> (bound
                <= MAX_PAYLOAD_SIZE && wellformed && decoded.len() > MAX_PAYLOAD_SIZE))
            &&& (r matches Err(ClipboardError::DecodedTooLarge { actual }) ==> actual
                == decoded.len())
            &&& ((r matches Err(ClipboardError::LoadFailed(_))) <==> (bound <= MAX_PAYLOAD_SIZE
                && wellformed && decoded.len() <= MAX_PAYLOAD_SIZE && !image_loadable(decoded)))
            &&& (r matches Err(ClipboardError::LoadFailed(m)) ==> m@.len()
                >= "Failed to load image"@.len() && m@.subrange(
                0,
                "Failed to load image"@.len() as int,
            ) == "Failed to load image"@)
            &&& ((r is Ok) <==> (bound <= MAX_PAYLOAD_SIZE && wellformed && decoded.len()
                <= MAX_PAYLOAD_SIZE && image_loadable(decoded)))
            &&& (r matches Ok(img) ==> {
                &&& (img.width, img.height, img.rgba@) == decoded_image(decoded)
                &&& img.rgba@.len() == 4 * img.width * img.height
            })
        }),
{
    let len: usize = base64_data.len();
    proof {
        assert((len / 4) * 4 <= len && (len / 4) * 3 <= (len / 4) * 4) by (nonlinear_arith);
    }
    let base: usize = (len / 4) * 3;
    let min_est: usize = if base >= 2 {
        base - 2
    } else {
        0
    };
    proof {
        assert(min_est == clipboard_min_size(base64_data));
    }
    if min_est > MAX_PAYLOAD_SIZE {
        return Err(ClipboardError::TooLarge { estimated: min_est });
    }
    let png_bytes = match decode_base64(base64_data) {
        Ok(v) => v,
        Err(m) => {
            return Err(ClipboardError::DecodeFailed(m));
        },
    };
    if png_bytes.len() > MAX_PAYLOAD_SIZE {
        return Err(ClipboardError::DecodedTooLarge { actual: png_bytes.len() });
    }
    match decode_image_rgba(&png_bytes) {
        Ok((width, height, rgba)) => Ok(ClipboardImage { width, height, rgba }),
        Err(m) => Err(ClipboardError::LoadFailed(m)),
    }
}

} // verus!
