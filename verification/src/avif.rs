use vstd::prelude::*;

use crate::bytebuffer::{vec_capacity, ByteBuffer};

verus! {

/// The AVIF encoder's settings, carried through unread.
#[verifier::external_type_specification]
#[verifier::external_body]
pub struct ExEncoder<'exif_slice>(ravif::Encoder<'exif_slice>);

/// The errors the AVIF encoder reports.
#[verifier::external_type_specification]
#[verifier::external_body]
pub struct ExAvifError(ravif::Error);

/// `outcome` is what ravif's encoder can answer for the image of `width` by
/// `height` pixels whose RGBA bytes open `pixels` (rows of `width` pixels, one
/// after another, four bytes per pixel), encoded at `speed`: `Some(file)` for
/// an AVIF file it gives, `None` for an error it reports.
///
/// This is a relation, not a function: the encoder's other settings (its
/// quality) and the machine it runs on may give other answers for the same
/// image, and each of them is such an outcome.
pub uninterp spec fn is_avif_encoding(
    pixels: Seq<u8>,
    width: usize,
    height: usize,
    speed: u8,
    outcome: Option<Seq<u8>>,
) -> bool;

/// `ravif::Encoder::with_speed` followed by `ravif::Encoder::encode_rgba` on
/// the image `ravif::Img::new(rgb::FromSlice::as_rgba(pixels), width, height)`,
/// giving the bytes of the AVIF file the encoder returns.
///
/// `as_rgba` reads the bytes as RGBA pixels, four bytes each. `with_speed`
/// panics outside `1..=10`; `Img::new` panics on a zero width and on a width
/// or height above `u32::MAX`; reading the image panics when it holds fewer
/// than `width * height` pixels: those inputs are left out. What is claimed of
/// the answer is only that it is an outcome of encoding these pixels, size and
/// speed; a file's bytes are left unsaid. rav1e refuses a still picture whose width or height
/// is outside `1..=65535` with an error when the encoder is configured, which
/// happens before any frame is encoded; on which other images the encoder
/// reports an error is left unsaid.
#[verifier::external_body]
fn encode_rgba_file(
    encoder: ravif::Encoder<'static>,
    pixels: &[u8],
    width: usize,
    height: usize,
    speed: u8,
) -> (r: Result<Vec<u8>, ravif::Error>)
    requires
        1 <= speed <= 10,
        0 < width <= u32::MAX,
        height <= u32::MAX,
        width * height * 4 <= pixels@.len(),
    ensures
        r matches Ok(file) ==> is_avif_encoding(pixels@, width, height, speed, Some(file@)),
        r is Err ==> is_avif_encoding(pixels@, width, height, speed, None),
        (width > 65535 || height == 0 || height > 65535) ==> r is Err,
{
    let image = ravif::Img::new(rgb::FromSlice::as_rgba(pixels), width, height);
    encoder.with_speed(speed).encode_rgba(image).map(|encoded| encoded.avif_file)
}

/// Why an image could not be turned into a buffer of AVIF bytes.
pub enum EncodeError {
    /// The encoder reported an error.
    Encoder(ravif::Error),
    /// The encoded file does not fit in a buffer whose sizes are `i32`.
    TooLarge,
}

/// Wraps an encoded file in a [`ByteBuffer`]; `capacity` is the capacity of
/// the file's vector. The file is refused as `TooLarge` exactly where its
/// length or that capacity does not fit in an `i32`; otherwise the buffer
/// gives the file back when destroyed.
pub fn buffer_from_file_and_capacity(file: Vec<u8>, capacity: usize) -> (r: Result<ByteBuffer, EncodeError>)
    requires
        capacity >= file.len(),
    ensures
        r is Ok <==> (file.len() <= i32::MAX && capacity <= i32::MAX),
        r matches Ok(b) ==> {
            &&& b.holds(file@)
            &&& b.length == file.len()
            &&& b.capacity == capacity
            &&& b.destroyable()
            &&& b.contents() == file@
        },
        r matches Err(err) ==> err is TooLarge,
{
    if file.len() > i32::MAX as usize {
        return Err(EncodeError::TooLarge);
    }
    let ghost bytes = file@;
    match ByteBuffer::from_vec_and_capacity(file, capacity) {
        Some(b) => {
            proof {
                crate::bytebuffer::lemma_from_vec_round_trip(b, bytes);
            }
            Ok(b)
        },
        None => Err(EncodeError::TooLarge),
    }
}

/// Turns what the encoder returned into the result of [`ravif__encode_rgba`]:
/// an encoder error is passed on; a file goes through
/// [`buffer_from_file_and_capacity`] with its vector's capacity.
pub fn buffer_from_encoded(encoded: Result<Vec<u8>, ravif::Error>) -> (r: Result<ByteBuffer, EncodeError>)
    ensures
        encoded matches Err(e) ==> r matches Err(EncodeError::Encoder(e2)) && e2 == e,
        encoded matches Ok(file) ==> {
            &&& (file.len() > i32::MAX ==> r matches Err(EncodeError::TooLarge))
            &&& (r matches Ok(b) ==> {
                &&& b.holds(file@)
                &&& b.length == file.len()
                &&& b.length <= b.capacity
                &&& b.destroyable()
                &&& b.contents() == file@
            })
            &&& (r matches Err(err) ==> err is TooLarge)
        },
{
    match encoded {
        Ok(file) => {
            let capacity = vec_capacity(&file);
            buffer_from_file_and_capacity(file, capacity)
        },
        Err(e) => Err(EncodeError::Encoder(e)),
    }
}

/// Encodes the `width * height` RGBA pixels that open `pixels` (four bytes
/// each, row by row) to an AVIF file at the given speed (1 slowest ..
/// 10 fastest), with an encoder whose other settings (the quality) the caller
/// chose, and wraps the file in a [`ByteBuffer`].
///
/// The width must not be zero, neither size may exceed `u32::MAX`, and
/// `pixels` must hold at least `width * height * 4` bytes. What the encoder
/// returns goes through [`buffer_from_encoded`]: a buffer gives back an AVIF
/// encoding of exactly these pixels, size and speed; `TooLarge` comes only
/// after the encoder gave such a file; a width or height above 65535, or a
/// height of zero, is an encoder error.
pub fn ravif__encode_rgba(
    encoder: ravif::Encoder<'static>,
    pixels: &[u8],
    width: usize,
    height: usize,
    speed: u8,
) -> (r: Result<ByteBuffer, EncodeError>)
    requires
        0 < width <= u32::MAX,
        height <= u32::MAX,
        width * height * 4 <= pixels@.len(),
        1 <= speed <= 10,
    ensures
        r matches Ok(b) ==> {
            &&& b.data is Some
            &&& b.length == b.data.unwrap().len()
            &&& b.length <= b.capacity
            &&& b.destroyable()
            &&& is_avif_encoding(pixels@, width, height, speed, Some(b.contents()))
        },
        r matches Err(EncodeError::TooLarge) ==> exists|file: Seq<u8>|
            #[trigger] is_avif_encoding(pixels@, width, height, speed, Some(file)),
        r matches Err(EncodeError::Encoder(_)) ==> is_avif_encoding(pixels@, width, height, speed, None),
        (width > 65535 || height == 0 || height > 65535) ==> r matches Err(EncodeError::Encoder(_)),
{
    let encoded = encode_rgba_file(encoder, pixels, width, height, speed);
    buffer_from_encoded(encoded)
}

} // verus!
