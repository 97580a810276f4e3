use vstd::prelude::*;

verus! {

/// Byte length above which an image is re-encoded before it is embedded.
pub const COMPRESSION_THRESHOLD: usize = 500_000;

#[verifier::external_type_specification]
#[verifier::external_body]
pub struct ExDynamicImage(image::DynamicImage);

#[verifier::external_type_specification]
#[verifier::external_body]
pub struct ExImageError(image::ImageError);

/// Why re-encoding an image did not produce bytes.
#[derive(Clone, Copy, Debug, PartialEq, Eq, Structural)]
pub enum CompressError {
    Decode,
    Encode,
}

/// Pixel size of the image that `image::load_from_memory` decodes from the
/// bytes, or `None` where it returns an error.
pub uninterp spec fn decoded_size(buf: Seq<u8>) -> Option<(u32, u32)>;

/// What `DynamicImage::write_to` with the JPEG format returns for the image
/// decoded from `source`, scaled by `DynamicImage::resize` into the box `fit`
/// where that is set; `None` where encoding returns an error.
pub uninterp spec fn jpeg_of(source: Seq<u8>, fit: Option<(u32, u32)>) -> Option<Seq<u8>>;

/// A decoded picture: the image that `source` decodes to, scaled into the box
/// `fit` where that is set; `size` is its pixel size.
struct Picture {
    image: image::DynamicImage,
    source: Ghost<Seq<u8>>,
    fit: Ghost<Option<(u32, u32)>>,
    size: Ghost<(u32, u32)>,
}

/// Relies on image::load_from_memory: guesses the format and decodes the bytes.
#[verifier::external_body]
fn decode_image(buf: &[u8]) -> (r: Result<Picture, image::ImageError>)
    ensures
        r.is_ok() == decoded_size(buf@).is_some(),
        r matches Ok(p) ==> p.source@ == buf@ && p.fit@.is_none() && decoded_size(buf@) == Some(p.size@),
{
    match image::load_from_memory(buf) {
        Ok(image) => Ok(
            Picture { image, source: Ghost(buf@), fit: Ghost(None), size: Ghost(decoded_size(buf@).unwrap()) },
        ),
        Err(e) => Err(e),
    }
}

/// Relies on DynamicImage::width: the decoded image's width in pixels.
#[verifier::external_body]
fn image_width(p: &Picture) -> (r: u32)
    ensures
        r == p.size@.0,
{
    p.image.width()
}

/// Relies on DynamicImage::height: the decoded image's height in pixels.
#[verifier::external_body]
fn image_height(p: &Picture) -> (r: u32)
    ensures
        r == p.size@.1,
{
    p.image.height()
}

/// Relies on DynamicImage::resize with the Lanczos3 filter: scales the image to
/// the largest size that fits the box while keeping its aspect ratio. For an
/// image that does not fit, each side is scaled by a ratio below one, rounded
/// and kept at least one pixel.
#[verifier::external_body]
fn resize_image(p: &Picture, max_width: u32, max_height: u32) -> (r: Picture)
    requires
        p.fit@.is_none(),
        p.size@.0 > max_width || p.size@.1 > max_height,
    ensures
        r.source@ == p.source@,
        r.fit@ == Some((max_width, max_height)),
        max_width >= 1 && max_height >= 1 ==> r.size@.0 <= max_width && r.size@.1 <= max_height,
        p.size@.0 >= 1 && p.size@.1 >= 1 ==> r.size@.0 <= p.size@.0 && r.size@.1 <= p.size@.1,
{
    // the ghost size is erased; the clauses above describe it
    let image = p.image.resize(max_width, max_height, image::imageops::FilterType::Lanczos3);
    Picture { image, source: Ghost(p.source@), fit: Ghost(Some((max_width, max_height))), size: Ghost(arbitrary()) }
}

/// Relies on DynamicImage::write_to: encodes the image as JPEG into memory,
/// with its pixel size in the frame header, so that the bytes decode to an
/// image of that size.
#[verifier::external_body]
fn encode_jpeg(p: &Picture) -> (r: Result<Vec<u8>, image::ImageError>)
    ensures
        r.is_ok() == jpeg_of(p.source@, p.fit@).is_some(),
        r matches Ok(out) ==> jpeg_of(p.source@, p.fit@) == Some(out@),
        r matches Ok(out) ==> decoded_size(out@) == Some(p.size@),
{
    let mut cursor = std::io::Cursor::new(Vec::new());
    match p.image.write_to(&mut cursor, image::ImageFormat::Jpeg) {
        Ok(()) => Ok(cursor.into_inner()),
        Err(e) => Err(e),
    }
}

/// The box a decoded image of `size` is scaled into: none where it already
/// fits, so an image is never enlarged.
pub open spec fn fit_box(size: (u32, u32), max_width: u32, max_height: u32) -> Option<(u32, u32)> {
    if size.0 > max_width || size.1 > max_height {
        Some((max_width, max_height))
    } else {
        None
    }
}

/// Outcome of re-encoding `buf` into the box: a decode failure, an encode
/// failure, or the JPEG bytes of the decoded image, scaled only where it does
/// not fit.
pub open spec fn compressed(buf: Seq<u8>, max_width: u32, max_height: u32) -> Result<Seq<u8>, CompressError> {
    match decoded_size(buf) {
        None => Err(CompressError::Decode),
        Some(size) => match jpeg_of(buf, fit_box(size, max_width, max_height)) {
            Some(out) => Ok(out),
            None => Err(CompressError::Encode),
        },
    }
}

/// Size facts of re-encoded bytes `out` of an image decoded from `buf`: they
/// decode; an image that fits the box keeps its size; one that does not is
/// shrunk into a box of at least one pixel a side; and a picture with sides of
/// at least one pixel never grows.
pub open spec fn shrunk_into(buf: Seq<u8>, out: Seq<u8>, max_width: u32, max_height: u32) -> bool {
    match (decoded_size(buf), decoded_size(out)) {
        (Some(before), Some(after)) => {
            &&& fit_box(before, max_width, max_height).is_none() ==> after == before
            &&& fit_box(before, max_width, max_height).is_some() && max_width >= 1 && max_height >= 1
                ==> after.0 <= max_width && after.1 <= max_height
            &&& before.0 >= 1 && before.1 >= 1 ==> after.0 <= before.0 && after.1 <= before.1
        },
        _ => false,
    }
}

/// The bytes embedded for a picture file's contents: small contents as they
/// are, larger ones re-encoded, or as they are where re-encoding fails.
pub open spec fn embedded_bytes(buf: Seq<u8>, max_width: u32, max_height: u32) -> Seq<u8> {
    if buf.len() > COMPRESSION_THRESHOLD {
        match compressed(buf, max_width, max_height) {
            Ok(out) => out,
            Err(_) => buf,
        }
    } else {
        buf
    }
}

/// Whether a buffer of `len` bytes is re-encoded before it is embedded.
pub fn needs_compression(len: usize) -> (r: bool)
    ensures
        r == (len > COMPRESSION_THRESHOLD),
{
    len > COMPRESSION_THRESHOLD
}

/// Whether an image of `width` by `height` pixels must shrink to fit the box.
/// An image that already fits is never scaled, so it is never enlarged.
pub fn needs_resize(width: u32, height: u32, max_width: u32, max_height: u32) -> (r: bool)
    ensures
        r == (width > max_width || height > max_height),
{
    width > max_width || height > max_height
}

/// Decodes `buf`, shrinks it into the box when it does not fit, and encodes it
/// as JPEG.
pub fn compress_image(buf: &[u8], max_width: u32, max_height: u32) -> (r: Result<Vec<u8>, CompressError>)
    ensures
        match r {
            Ok(out) => compressed(buf@, max_width, max_height) == Ok::<Seq<u8>, CompressError>(out@),
            Err(e) => compressed(buf@, max_width, max_height) == Err::<Seq<u8>, CompressError>(e),
        },
        r matches Ok(out) ==> shrunk_into(buf@, out@, max_width, max_height),
{
    let img = match decode_image(buf) {
        Ok(img) => img,
        Err(_) => {
            return Err(CompressError::Decode);
        },
    };
    let width = image_width(&img);
    let height = image_height(&img);
    let encoded = if needs_resize(width, height, max_width, max_height) {
        encode_jpeg(&resize_image(&img, max_width, max_height))
    } else {
        encode_jpeg(&img)
    };
    match encoded {
        Ok(out) => Ok(out),
        Err(_) => Err(CompressError::Encode),
    }
}

/// The bytes to embed: the re-encoded ones when re-encoding succeeded, else
/// the raw bytes unchanged.
pub fn choose_image_bytes(raw: Vec<u8>, compressed: Result<Vec<u8>, CompressError>) -> (r: Vec<u8>)
    ensures
        r@ == match compressed {
            Ok(c) => c@,
            Err(_) => raw@,
        },
{
    match compressed {
        Ok(c) => c,
        Err(_) => raw,
    }
}

/// The bytes to embed for a picture file's contents: small files as they are,
/// larger ones re-encoded, or as they are when re-encoding fails.
pub fn prepare_image(buf: Vec<u8>, max_width: u32, max_height: u32) -> (r: Vec<u8>)
    ensures
        r@ == embedded_bytes(buf@, max_width, max_height),
{
    if needs_compression(buf.len()) {
        let compressed = compress_image(buf.as_slice(), max_width, max_height);
        choose_image_bytes(buf, compressed)
    } else {
        buf
    }
}

} // verus!
