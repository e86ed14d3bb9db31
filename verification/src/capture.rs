//! From captured pixels to a snapshot that can be sent to a user interface.

use crate::encode::{encode_webp, encoded, EncodeError, EncodeFailure};
use crate::pixels::{normalize, rgba_from_bgra};
use crate::region::CaptureRegion;
use crate::session::CaptureError;
use crate::transport::{base64_len, base64_text, convert_webp_to_base64, payload_fits, webp_prefix};
use vstd::prelude::*;

verus! {

/// A snapshot of a screen region: the image as a `data:` URI, and the
/// dimensions of the region it shows.
#[derive(Debug, PartialEq, Eq)]
pub struct CaptureResult {
    pub image_base64: String,
    pub width: u32,
    pub height: u32,
}

/// `CaptureResult` with its text as a sequence of characters.
pub struct Snapshot {
    pub image_base64: Seq<char>,
    pub width: u32,
    pub height: u32,
}

impl View for CaptureResult {
    type V = Snapshot;

    open spec fn view(&self) -> Snapshot {
        Snapshot { image_base64: self.image_base64@, width: self.width, height: self.height }
    }
}

/// Why there is no snapshot.
#[derive(Debug, PartialEq, Eq)]
pub enum SnapshotError {
    /// The display gave no pixels, or the region cannot be captured.
    Capture(CaptureError),
    /// The pixels could not be encoded.
    Encode(EncodeError),
    /// The encoded image is too long for its base64 text to be addressed.
    PayloadTooLarge,
}

/// `SnapshotError` with its text as a sequence of characters.
pub enum SnapshotFailure {
    Capture(CaptureError),
    Encode(EncodeFailure),
    PayloadTooLarge,
}

impl View for SnapshotError {
    type V = SnapshotFailure;

    open spec fn view(&self) -> SnapshotFailure {
        match self {
            SnapshotError::Capture(error) => SnapshotFailure::Capture(*error),
            SnapshotError::Encode(error) => SnapshotFailure::Encode(error@),
            SnapshotError::PayloadTooLarge => SnapshotFailure::PayloadTooLarge,
        }
    }
}

/// The sentence that stands for an encoder's error.
pub open spec fn encode_failure_text(failure: EncodeFailure) -> Seq<char> {
    match failure {
        EncodeFailure::BufferShapeMismatch => "Failed to create image from buffer"@,
        EncodeFailure::EncodingFailed(diagnostic) => "Failed to encode WebP: "@ + diagnostic,
    }
}

/// The sentence that stands for a snapshot's error.
pub open spec fn snapshot_failure_text(failure: SnapshotFailure) -> Seq<char> {
    match failure {
        SnapshotFailure::Capture(error) => error.text(),
        SnapshotFailure::Encode(failure) => encode_failure_text(failure),
        SnapshotFailure::PayloadTooLarge => "Encoded image is too large"@,
    }
}

impl SnapshotError {
    /// The error as a sentence for the caller.
    pub fn message(&self) -> (text: String)
        ensures
            text@ == snapshot_failure_text(self@),
    {
        match self {
            SnapshotError::Capture(error) => error.message(),
            SnapshotError::Encode(error) => error.message(),
            SnapshotError::PayloadTooLarge => String::from_str("Encoded image is too large"),
        }
    }
}

/// What the display handed over, with the pixels as a sequence.
pub open spec fn captured_view(captured: Result<Vec<u8>, CaptureError>) -> Result<
    Seq<u8>,
    CaptureError,
> {
    match captured {
        Ok(pixels) => Ok(pixels@),
        Err(error) => Err(error),
    }
}

/// The encoded image of a capture. A capture that failed stays failed; the
/// pixels of one that succeeded are converted from BGRA to RGBA and encoded
/// in the dimensions of the region.
pub open spec fn image_of_capture(
    region: CaptureRegion,
    captured: Result<Seq<u8>, CaptureError>,
) -> Result<Seq<u8>, SnapshotFailure> {
    match captured {
        Err(error) => Err(SnapshotFailure::Capture(error)),
        Ok(pixels) => {
            if !region.is_capturable() {
                Err(SnapshotFailure::Capture(CaptureError::InvalidRegion))
            } else {
                match encoded(rgba_from_bgra(pixels), region.width as u32, region.height as u32) {
                    Ok(bytes) => Ok(bytes),
                    Err(failure) => Err(SnapshotFailure::Encode(failure)),
                }
            }
        },
    }
}

/// The snapshot of a capture: its encoded image as a WebP `data:` URI, under
/// the dimensions of the region.
pub open spec fn snapshot_of_capture(
    region: CaptureRegion,
    captured: Result<Seq<u8>, CaptureError>,
) -> Result<Snapshot, SnapshotFailure> {
    match image_of_capture(region, captured) {
        Err(failure) => Err(failure),
        Ok(bytes) => {
            if base64_len(bytes.len()) <= usize::MAX {
                Ok(
                    Snapshot {
                        image_base64: webp_prefix() + base64_text(bytes),
                        width: region.width as u32,
                        height: region.height as u32,
                    },
                )
            } else {
                Err(SnapshotFailure::PayloadTooLarge)
            }
        },
    }
}

/// The result of `capture_screen_region_to_bytes` with bytes and text as
/// sequences.
pub open spec fn image_view(result: Result<Vec<u8>, SnapshotError>) -> Result<
    Seq<u8>,
    SnapshotFailure,
> {
    match result {
        Ok(bytes) => Ok(bytes@),
        Err(error) => Err(error@),
    }
}

/// The result of `capture_screen_region` with its text as sequences.
pub open spec fn snapshot_view(result: Result<CaptureResult, SnapshotError>) -> Result<
    Snapshot,
    SnapshotFailure,
> {
    match result {
        Ok(snapshot) => Ok(snapshot@),
        Err(error) => Err(error@),
    }
}

/// A snapshot carries the dimensions that were asked for, and its text is a
/// WebP payload.
pub proof fn snapshot_has_requested_dimensions(
    region: CaptureRegion,
    captured: Result<Seq<u8>, CaptureError>,
)
    ensures
        match snapshot_of_capture(region, captured) {
            Ok(snapshot) => {
                &&& region.width > 0
                &&& region.height > 0
                &&& snapshot.width == region.width
                &&& snapshot.height == region.height
                &&& captured is Ok
                &&& captured->Ok_0.len() == region.width * region.height * 4
                &&& snapshot.image_base64.subrange(0, 23) == webp_prefix()
            },
            Err(_) => true,
        },
{
    reveal_strlit("data:image/webp;base64,");
    if let Ok(snapshot) = snapshot_of_capture(region, captured) {
        assert(snapshot.image_base64.subrange(0, 23) =~= webp_prefix());
    }
}

/// Turns what the display handed over into the bytes of a WebP image. The
/// pixels arrive in BGRA order, rows from the top down, four bytes for each
/// pixel of the region.
pub fn capture_screen_region_to_bytes(
    region: &CaptureRegion,
    captured: Result<Vec<u8>, CaptureError>,
) -> (result: Result<Vec<u8>, SnapshotError>)
    ensures
        image_view(result) == image_of_capture(*region, captured_view(captured)),
{
    match captured {
        Err(error) => Err(SnapshotError::Capture(error)),
        Ok(pixels) => {
            if region.buffer_len().is_none() {
                return Err(SnapshotError::Capture(CaptureError::InvalidRegion));
            }
            let mut pixels = pixels;
            normalize(&mut pixels);
            match encode_webp(pixels.as_slice(), region.width as u32, region.height as u32) {
                Ok(bytes) => Ok(bytes),
                Err(error) => Err(SnapshotError::Encode(error)),
            }
        },
    }
}

/// Turns what the display handed over into a snapshot: the WebP image of the
/// pixels as a `data:` URI, with the width and height of the region.
pub fn capture_screen_region(
    region: &CaptureRegion,
    captured: Result<Vec<u8>, CaptureError>,
) -> (result: Result<CaptureResult, SnapshotError>)
    ensures
        snapshot_view(result) == snapshot_of_capture(*region, captured_view(captured)),
        result is Ok ==> result->Ok_0.width == region.width && result->Ok_0.height
            == region.height,
{
    match capture_screen_region_to_bytes(region, captured) {
        Err(error) => Err(error),
        Ok(webp_bytes) => {
            if !payload_fits(webp_bytes.len()) {
                return Err(SnapshotError::PayloadTooLarge);
            }
            let image_base64 = convert_webp_to_base64(webp_bytes.as_slice());
            Ok(
                CaptureResult {
                    image_base64,
                    width: region.width as u32,
                    height: region.height as u32,
                },
            )
        },
    }
}

} // verus!
