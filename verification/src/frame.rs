//! Frames: from the pixels of an RGB32 sample to a JPEG image, and the numbered JPEG
//! images that go out to the viewers.
use bytes::Bytes;
use image::codecs::jpeg::JpegEncoder;
use image::{ExtendedColorType, ImageEncoder};
use vstd::prelude::*;

verus! {

/// `bytes::Bytes`, a shared and immutable run of bytes.
#[verifier::external_type_specification]
#[verifier::external_body]
pub struct ExBytes(Bytes);

/// `image::ImageError`, the error of the JPEG encoder.
#[verifier::external_type_specification]
#[verifier::external_body]
pub struct ExImageError(image::ImageError);

/// The bytes that a `bytes::Bytes` holds.
pub uninterp spec fn content(b: Bytes) -> Seq<u8>;

/// Calls `bytes::Bytes::from` on a `Vec<u8>`: the result takes the vector's storage over
/// and holds the same bytes in the same order.
#[verifier::external_body]
fn share(v: Vec<u8>) -> (r: Bytes)
    ensures
        content(r) == v@,
{
    Bytes::from(v)
}

/// Copies a `bytes::Bytes` out through its dereference to a slice: the vector holds the
/// same bytes in the same order.
#[verifier::external_body]
fn copy_out(b: &Bytes) -> (r: Vec<u8>)
    ensures
        r@ == content(*b),
{
    b.to_vec()
}

/// `bytes::Bytes::clone`: the clone shares the storage and holds the same bytes.
pub assume_specification[ <Bytes as Clone>::clone ](b: &Bytes) -> (r: Bytes)
    ensures
        content(r) == content(*b),
;

/// A JPEG image on its way to the viewers.
#[derive(Debug)]
pub struct JpegFrame {
    pub bytes: Bytes,
    pub seq: u64,
}

impl JpegFrame {
    /// The JPEG image.
    pub open spec fn image(self) -> Seq<u8> {
        content(self.bytes)
    }

    /// The frame with number `seq` that carries the image `jpeg`.
    pub fn new(jpeg: Vec<u8>, seq: u64) -> (r: Self)
        ensures
            r.image() == jpeg@,
            r.seq == seq,
    {
        JpegFrame { bytes: share(jpeg), seq }
    }

    /// The message that a viewer receives for the frame: the JPEG image.
    pub fn message(&self) -> (r: Vec<u8>)
        ensures
            r@ == self.image(),
    {
        copy_out(&self.bytes)
    }
}

impl Clone for JpegFrame {
    /// The same frame for one more viewer.
    fn clone(&self) -> (r: Self)
        ensures
            r.image() == self.image(),
            r.seq == self.seq,
    {
        JpegFrame { bytes: self.bytes.clone(), seq: self.seq }
    }
}

/// The RGB bytes of an RGB32 sample. A sample stores each pixel in four bytes, blue, green,
/// red and one that is not used; bytes after the last whole pixel are left out.
pub open spec fn rgb_of(bgra: Seq<u8>) -> Seq<u8> {
    Seq::new((bgra.len() / 4) * 3, |k: int| bgra[(k / 3) * 4 + 2 - k % 3])
}

/// Turns an RGB32 sample into RGB bytes.
pub fn bgra_to_rgb(bgra: &[u8]) -> (r: Vec<u8>)
    ensures
        r@ == rgb_of(bgra@),
{
    let len: usize = bgra.len();
    let pixels: usize = len / 4;
    let mut rgb: Vec<u8> = Vec::with_capacity(pixels * 3);
    let mut i: usize = 0;
    while i < pixels
        invariant
            i <= pixels,
            len == bgra@.len(),
            pixels == len / 4,
            rgb@ == rgb_of(bgra@).take(i * 3),
        decreases pixels - i,
    {
        rgb.push(bgra[i * 4 + 2]);
        rgb.push(bgra[i * 4 + 1]);
        rgb.push(bgra[i * 4]);
        i += 1;
        assert(rgb@ =~= rgb_of(bgra@).take(i * 3));
    }
    assert(rgb_of(bgra@).take(i * 3) =~= rgb_of(bgra@));
    rgb
}

/// Why an image could not be encoded.
#[derive(Clone, Copy, Debug, PartialEq, Eq, Structural)]
pub enum EncodeError {
    /// JPEG has no images of this size.
    InvalidSize { width: u32, height: u32 },
}

/// The sizes that a JPEG image can have.
pub open spec fn is_jpeg_size(width: u32, height: u32) -> bool {
    1 <= width <= 65535 && 1 <= height <= 65535
}

/// The JPEG image that `image::codecs::jpeg::JpegEncoder` makes of RGB pixels.
pub uninterp spec fn jpeg_of(rgb: Seq<u8>, width: u32, height: u32, quality: u8) -> Seq<u8>;

/// Calls `image::codecs::jpeg::JpegEncoder::new_with_quality` and, on the encoder, its
/// `write_image` with eight-bit RGB pixels, writing into a vector.
///
/// The encoder fails on a size that JPEG does not have and on no other, since writing to a
/// vector does not fail. What it writes depends on the pixels, the size and the quality
/// alone; it divides in `f32`, by the rules of IEEE 754. It panics where the pixels are not
/// as many as the size says, and where the bytes of a row are too many for a `usize`.
#[verifier::external_body]
fn write_jpeg(rgb: &[u8], width: u32, height: u32, quality: u8) -> (r: Result<
    Vec<u8>,
    image::ImageError,
>)
    requires
        rgb@.len() == width * height * 3,
        width * 3 <= usize::MAX,
    ensures
        r is Ok <==> is_jpeg_size(width, height),
        r matches Ok(jpeg) ==> jpeg@ == jpeg_of(rgb@, width, height, quality),
{
    let mut jpeg = Vec::new();
    let encoder = JpegEncoder::new_with_quality(&mut jpeg, quality);
    match encoder.write_image(rgb, width, height, ExtendedColorType::Rgb8) {
        Ok(()) => Ok(jpeg),
        Err(e) => Err(e),
    }
}

/// Whether an RGB32 sample of `len` bytes holds an image of the given size: as many whole
/// pixels as the size says, in rows whose bytes can be counted.
pub open spec fn sample_fits(len: nat, width: u32, height: u32) -> bool {
    &&& len / 4 == width * height
    &&& width * 3 <= usize::MAX
}

/// Whether an RGB32 sample of `len` bytes holds an image of the given size.
pub fn check_sample(len: usize, width: u32, height: u32) -> (r: bool)
    ensures
        r == sample_fits(len as nat, width, height),
{
    assert(width * height <= u32::MAX * u32::MAX) by (nonlinear_arith)
        requires
            0 <= width <= u32::MAX,
            0 <= height <= u32::MAX,
    ;
    (len / 4) as u64 == width as u64 * height as u64 && width as u64 * 3 <= usize::MAX as u64
}

/// Encodes an RGB32 sample as a JPEG image.
pub fn encode_rgb32_to_jpeg(bgra: &[u8], width: u32, height: u32, quality: u8) -> (r: Result<
    Vec<u8>,
    EncodeError,
>)
    requires
        sample_fits(bgra@.len(), width, height),
    ensures
        match r {
            Ok(jpeg) => {
                &&& is_jpeg_size(width, height)
                &&& jpeg@ == jpeg_of(rgb_of(bgra@), width, height, quality)
            },
            Err(e) => {
                &&& !is_jpeg_size(width, height)
                &&& e == (EncodeError::InvalidSize { width, height })
            },
        },
{
    let rgb: Vec<u8> = bgra_to_rgb(bgra);
    match write_jpeg(rgb.as_slice(), width, height, quality) {
        Ok(jpeg) => Ok(jpeg),
        Err(_) => Err(EncodeError::InvalidSize { width, height }),
    }
}

/// Each pixel keeps its place and its three channels, red first.
pub proof fn pixels_keep_their_channels(bgra: Seq<u8>, i: int)
    requires
        0 <= i < bgra.len() / 4,
    ensures
        rgb_of(bgra).len() == bgra.len() / 4 * 3,
        rgb_of(bgra)[i * 3] == bgra[i * 4 + 2],
        rgb_of(bgra)[i * 3 + 1] == bgra[i * 4 + 1],
        rgb_of(bgra)[i * 3 + 2] == bgra[i * 4],
{
}

/// The fourth byte of a pixel has no part in the image: two samples that differ in those
/// bytes only become the same image.
pub proof fn unused_byte_is_ignored(a: Seq<u8>, b: Seq<u8>)
    requires
        a.len() == b.len(),
        forall|k: int| 0 <= k < a.len() && k % 4 != 3 ==> #[trigger] a[k] == b[k],
    ensures
        rgb_of(a) == rgb_of(b),
{
    assert(rgb_of(a) =~= rgb_of(b));
}

/// Turning a sample into RGB bytes gives three bytes for each whole pixel, in place: its red,
/// its green and its blue, which the sample stores the other way round.
pub proof fn sample_becomes_rgb(bgra: &[u8], r: Vec<u8>, i: int)
    requires
        call_ensures(bgra_to_rgb, (bgra,), r),
        0 <= i < bgra@.len() / 4,
    ensures
        r@.len() == bgra@.len() / 4 * 3,
        r@[i * 3] == bgra@[i * 4 + 2],
        r@[i * 3 + 1] == bgra@[i * 4 + 1],
        r@[i * 3 + 2] == bgra@[i * 4],
{
}

/// A sample is taken for an image exactly when it has as many whole pixels as the image, in
/// rows whose bytes can be counted.
pub proof fn samples_are_measured_in_pixels(len: usize, width: u32, height: u32, r: bool)
    requires
        call_ensures(check_sample, (len, width, height), r),
    ensures
        r <==> len / 4 == width * height && width * 3 <= usize::MAX,
        r <==> sample_fits(len as nat, width, height),
{
}

/// A sample is encoded exactly when JPEG has images of its size, from one to 65535 columns and
/// as many rows: what the encoder makes of the pixels, in that size and quality. For any other
/// size the error names it.
pub proof fn encoding_fails_on_the_size_alone(
    bgra: &[u8],
    width: u32,
    height: u32,
    quality: u8,
    r: Result<Vec<u8>, EncodeError>,
)
    requires
        sample_fits(bgra@.len(), width, height),
        call_ensures(encode_rgb32_to_jpeg, (bgra, width, height, quality), r),
    ensures
        0 < width < 65536 && 0 < height < 65536 ==> (r matches Ok(jpeg) && jpeg@ == jpeg_of(
            rgb_of(bgra@),
            width,
            height,
            quality,
        )),
        !(0 < width < 65536 && 0 < height < 65536) ==> r == Err::<Vec<u8>, EncodeError>(
            EncodeError::InvalidSize { width, height },
        ),
{
}

/// What a viewer receives for a frame is the image that the frame was made of, byte for byte,
/// and so it is for a copy of the frame.
pub proof fn frame_delivers_its_image(
    jpeg: Vec<u8>,
    seq: u64,
    frame: JpegFrame,
    copy: JpegFrame,
    message: Vec<u8>,
    copied: Vec<u8>,
)
    requires
        call_ensures(JpegFrame::new, (jpeg, seq), frame),
        call_ensures(JpegFrame::clone, (&frame,), copy),
        call_ensures(JpegFrame::message, (&frame,), message),
        call_ensures(JpegFrame::message, (&copy,), copied),
    ensures
        message@ == jpeg@,
        copied@ == jpeg@,
        frame.seq == seq,
        copy.seq == seq,
{
}

} // verus!
