//! The Response Encoder: serialization of a generated image to GIF bytes.
//!
//! The composed image itself is an opaque raster produced by the
//! image-composition collaborator; the library only serializes it, through
//! the `image` crate, into an in-memory buffer.
use vstd::prelude::*;

verus! {

/// The opaque raster image type the generator produces and the encoder
/// consumes, from the `image` crate.
#[verifier::external_type_specification]
#[verifier::external_body]
pub struct ExDynamicImage(image::DynamicImage);

/// Everything of an image that its encoding depends on: dimensions, color
/// layout and pixel data, abstracted as one byte sequence.
pub uninterp spec fn image_content(img: image::DynamicImage) -> Seq<u8>;

/// The GIF serialization of an image with the given content: the encoded
/// bytes, or `None` where the encoder rejects the image (for GIF, a dimension
/// above what its header can hold).
pub uninterp spec fn gif_encoding(content: Seq<u8>) -> Option<Seq<u8>>;

/// The six signature bytes `GIF89a` that open every GIF stream the encoder
/// emits.
pub open spec fn gif_magic() -> Seq<u8> {
    seq![71u8, 73u8, 70u8, 56u8, 57u8, 97u8]
}

/// Relies on `image::DynamicImage::to_rgba8` and `image::ImageBuffer::write_to`
/// with `ImageFormat::Gif`: the image is first canonicalized to a packed RGBA
/// copy, and the typed buffer's write path reads exactly width x height
/// pixels of it, so the call returns on every image, even one whose backing
/// container is longer than its pixel data. Encoding into the in-memory
/// buffer does no I/O and depends on the image's value alone, so both the
/// outcome and the bytes are named functions of its content; a successful run
/// has first written the `GIF89a` signature of its logical screen descriptor.
#[verifier::external_body]
fn write_gif_bytes(img: &image::DynamicImage) -> (r: Option<Vec<u8>>)
    ensures
        r is Some <==> gif_encoding(image_content(*img)) is Some,
        r matches Some(b) ==> Some(b@) == gif_encoding(image_content(*img)),
        r matches Some(b) ==> b@.len() >= 6 && b@.subrange(0, 6) == gif_magic(),
{
    let rgba = img.to_rgba8();
    let mut bytes: Vec<u8> = Vec::new();
    match rgba.write_to(&mut std::io::Cursor::new(&mut bytes), image::ImageFormat::Gif) {
        Ok(()) => Some(bytes),
        Err(_) => None,
    }
}

/// A byte sequence holding the image in its wire format, paired with the
/// content type it must be served under. Produced once per request and
/// returned as the HTTP body.
#[derive(Clone, Debug, PartialEq, Eq)]
pub struct EncodedPayload {
    pub content_type: String,
    pub body: Vec<u8>,
}

/// The generated image could not be serialized to the target format. The
/// client never sees more than this fact; detail stays out of the response.
#[derive(Clone, Copy, Debug, PartialEq, Eq, Structural)]
pub struct EncodingFailure;

/// Serialize a generated image to a GIF payload: exactly when the encoder
/// accepts the image's content, the payload holds the encoder's bytes (a
/// stream opening with the `GIF89a` signature, hence never empty) under the
/// fixed `image/gif` content type.
pub fn encode_gif_payload(img: &image::DynamicImage) -> (r: Result<EncodedPayload, EncodingFailure>)
    ensures
        r is Ok <==> gif_encoding(image_content(*img)) is Some,
        r matches Ok(p) ==> {
            &&& p.content_type@ == "image/gif"@
            &&& Some(p.body@) == gif_encoding(image_content(*img))
            &&& p.body@.len() >= 6
            &&& p.body@.subrange(0, 6) == gif_magic()
        },
{
    match write_gif_bytes(img) {
        Some(bytes) => Ok(EncodedPayload { content_type: "image/gif".to_owned(), body: bytes }),
        None => Err(EncodingFailure),
    }
}

} // verus!
