//! Serialization of a normalized pixel buffer as a WebP image.

use vstd::prelude::*;

verus! {

/// Why a pixel buffer could not be encoded.
#[derive(Debug, PartialEq, Eq)]
pub enum EncodeError {
    /// The buffer does not hold exactly four bytes for each pixel of the
    /// declared dimensions.
    BufferShapeMismatch,
    /// The codec refused the image; the text is the codec's own diagnostic.
    EncodingFailed(String),
}

/// `EncodeError` with its text as a sequence of characters.
pub enum EncodeFailure {
    BufferShapeMismatch,
    EncodingFailed(Seq<char>),
}

impl View for EncodeError {
    type V = EncodeFailure;

    open spec fn view(&self) -> EncodeFailure {
        match self {
            EncodeError::BufferShapeMismatch => EncodeFailure::BufferShapeMismatch,
            EncodeError::EncodingFailed(diagnostic) => EncodeFailure::EncodingFailed(diagnostic@),
        }
    }
}

/// The outcome of the codec on a dense RGBA grid of `width` by `height`
/// pixels: the bytes of the WebP file, or the codec's diagnostic.
pub uninterp spec fn webp_encoding(width: u32, height: u32, pixels: Seq<u8>) -> Result<
    Seq<u8>,
    Seq<char>,
>;

/// The largest width and height that the WebP format can hold.
pub const WEBP_MAX_DIMENSION: u32 = 16384;

/// Whether a buffer of `len` bytes holds exactly four bytes per pixel.
pub open spec fn shape_matches(len: nat, width: u32, height: u32) -> bool {
    len == width as int * height as int * 4
}

/// What the encoder makes of the codec's outcome.
pub open spec fn encoding_result(outcome: Result<Seq<u8>, Seq<char>>) -> Result<
    Seq<u8>,
    EncodeFailure,
> {
    match outcome {
        Ok(bytes) => Ok(bytes),
        Err(diagnostic) => Err(EncodeFailure::EncodingFailed(diagnostic)),
    }
}

/// What encoding `buffer` as an image of the given dimensions returns.
pub open spec fn encoded(buffer: Seq<u8>, width: u32, height: u32) -> Result<
    Seq<u8>,
    EncodeFailure,
> {
    if shape_matches(buffer.len(), width, height) {
        encoding_result(webp_encoding(width, height, buffer))
    } else {
        Err(EncodeFailure::BufferShapeMismatch)
    }
}

/// An encoder's result with bytes and text as sequences.
pub open spec fn result_view(result: Result<Vec<u8>, EncodeError>) -> Result<
    Seq<u8>,
    EncodeFailure,
> {
    match result {
        Ok(bytes) => Ok(bytes@),
        Err(error) => Err(error@),
    }
}

/// The encoder reports a shape mismatch exactly when the buffer's length
/// differs from four bytes per pixel, whatever the codec would do.
pub proof fn shape_mismatch_iff_length_differs(buffer: Seq<u8>, width: u32, height: u32)
    ensures
        encoded(buffer, width, height) == Err::<Seq<u8>, EncodeFailure>(
            EncodeFailure::BufferShapeMismatch,
        ) <==> buffer.len() != width as int * height as int * 4,
{
}

impl EncodeError {
    /// The error as a sentence for the caller.
    pub fn message(&self) -> (text: String)
        ensures
            text@ == match self@ {
                EncodeFailure::BufferShapeMismatch => "Failed to create image from buffer"@,
                EncodeFailure::EncodingFailed(diagnostic) => "Failed to encode WebP: "@
                    + diagnostic,
            },
    {
        match self {
            EncodeError::BufferShapeMismatch => String::from_str(
                "Failed to create image from buffer",
            ),
            EncodeError::EncodingFailed(diagnostic) => {
                let mut text = String::from_str("Failed to encode WebP: ");
                text.append(diagnostic.as_str());
                text
            },
        }
    }
}

/// Calls `image::write_buffer_with_format` for RGBA8 pixels and the WebP
/// format, writing into memory; a failure is handed back as the text that the
/// crate's error displays. The result depends on the arguments alone. The
/// encoder panics on a buffer of another length than four bytes per pixel,
/// which the precondition rules out, and refuses a width or height that is
/// zero or above 16384.
#[verifier::external_body]
fn webp_encode(pixels: &[u8], width: u32, height: u32) -> (outcome: Result<Vec<u8>, String>)
    requires
        shape_matches(pixels@.len(), width, height),
    ensures
        webp_encoding(width, height, pixels@) == match outcome {
            Ok(bytes) => Ok::<Seq<u8>, Seq<char>>(bytes@),
            Err(diagnostic) => Err::<Seq<u8>, Seq<char>>(diagnostic@),
        },
        width == 0 || height == 0 || width > WEBP_MAX_DIMENSION || height > WEBP_MAX_DIMENSION
            ==> outcome is Err,
{
    let mut bytes = Vec::new();
    image::write_buffer_with_format(
        &mut std::io::Cursor::new(&mut bytes),
        pixels,
        width,
        height,
        image::ExtendedColorType::Rgba8,
        image::ImageFormat::WebP,
    )
        .map_err(|e| e.to_string())?;
    Ok(bytes)
}

/// Turns the codec's outcome into the encoder's: the bytes as they are, a
/// diagnostic as `EncodingFailed`.
pub fn encoding_outcome(outcome: Result<Vec<u8>, String>) -> (result: Result<Vec<u8>, EncodeError>)
    ensures
        result_view(result) == encoding_result(
            match outcome {
                Ok(bytes) => Ok(bytes@),
                Err(diagnostic) => Err(diagnostic@),
            },
        ),
{
    match outcome {
        Ok(bytes) => Ok(bytes),
        Err(diagnostic) => Err(EncodeError::EncodingFailed(diagnostic)),
    }
}

/// Whether `len` bytes are exactly four for each pixel of the dimensions.
pub fn has_shape(len: usize, width: u32, height: u32) -> (fits: bool)
    ensures
        fits == shape_matches(len as nat, width, height),
{
    assert(width as int * height as int <= 0xFFFF_FFFF * 0xFFFF_FFFF) by (nonlinear_arith)
        requires
            0 <= width <= 0xFFFF_FFFF,
            0 <= height <= 0xFFFF_FFFF,
    ;
    let pixels: u64 = width as u64 * height as u64;
    len as u128 == pixels as u128 * 4
}

/// Encodes a dense RGBA grid of `width` by `height` pixels as a WebP image.
/// A buffer whose length is not exactly `width * height * 4` is refused, not
/// cut or padded; a refusal by the codec comes back with its diagnostic.
pub fn encode_webp(buffer: &[u8], width: u32, height: u32) -> (result: Result<
    Vec<u8>,
    EncodeError,
>)
    ensures
        result_view(result) == encoded(buffer@, width, height),
        (width == 0 || height == 0 || width > WEBP_MAX_DIMENSION || height > WEBP_MAX_DIMENSION)
            ==> result is Err,
{
    if !has_shape(buffer.len(), width, height) {
        return Err(EncodeError::BufferShapeMismatch);
    }
    encoding_outcome(webp_encode(buffer, width, height))
}

} // verus!
