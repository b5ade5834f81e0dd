//! Decoded images and the transformations on them. The pixel work is the
//! image library's; what is decided here is which pixels it is asked for
//! and what is done where it cannot be asked.

use crate::error::{ErrorKind, ServiceError, ServiceErrorView};
use crate::geometry::{no_dimension_message, resize_dimensions, resized_dimensions};
use crate::text::joined;
use vstd::prelude::*;

verus! {

/// The mathematical value of an image: its dimensions and its RGBA
/// samples, row by row from the top left.
pub struct ImageView {
    pub width: u32,
    pub height: u32,
    pub pixels: Seq<u8>,
}

impl ImageView {
    /// Four samples for every pixel, no more and no less.
    pub open spec fn wf(self) -> bool {
        self.pixels.len() == 4 * self.width * self.height
    }

    /// Where channel `c` of the pixel in column `x` of row `y` lies.
    pub open spec fn offset(self, x: int, y: int, c: int) -> int {
        (y * self.width + x) * 4 + c
    }

    /// Channel `c` of the pixel in column `x` of row `y`.
    pub open spec fn channel(self, x: int, y: int, c: int) -> u8
        recommends
            0 <= x < self.width,
            0 <= y < self.height,
            0 <= c < 4,
    {
        self.pixels[self.offset(x, y, c)]
    }
}

/// A decoded image. Every value holds exactly four samples per pixel.
#[derive(Debug)]
pub struct Image {
    pixels: Vec<u8>,
    width: u32,
    height: u32,
}

impl View for Image {
    type V = ImageView;

    closed spec fn view(&self) -> ImageView {
        ImageView { width: self.width, height: self.height, pixels: self.pixels@ }
    }
}

impl Image {
    #[verifier::type_invariant]
    spec fn sized(self) -> bool {
        self.pixels@.len() == 4 * self.width * self.height
    }

    /// An image of the given dimensions over the given samples, if there
    /// are exactly four samples per pixel.
    pub fn new(pixels: Vec<u8>, width: u32, height: u32) -> (r: Option<Image>)
        ensures
            match r {
                Some(img) => img@ == (ImageView { width, height, pixels: pixels@ }) && img@.wf(),
                None => pixels@.len() != 4 * width * height,
            },
    {
        assert(4 * width * height <= 4 * 0xffff_ffff * 0xffff_ffff) by (nonlinear_arith)
            requires
                0 <= width <= 0xffff_ffff,
                0 <= height <= 0xffff_ffff,
        ;
        let need: u128 = 4 * (width as u128) * (height as u128);
        if pixels.len() as u128 == need {
            Some(Image { pixels, width, height })
        } else {
            None
        }
    }

    /// The number of pixels in a row.
    pub fn width(&self) -> (w: u32)
        ensures
            w == self@.width,
    {
        self.width
    }

    /// The number of rows.
    pub fn height(&self) -> (h: u32)
        ensures
            h == self@.height,
    {
        self.height
    }

    /// The samples, four per pixel.
    pub fn pixels(&self) -> (p: &Vec<u8>)
        ensures
            p@ == self@.pixels,
            self@.wf(),
    {
        proof {
            use_type_invariant(self);
        }
        &self.pixels
    }

    /// The samples, given up by the image.
    pub fn into_pixels(self) -> (p: Vec<u8>)
        ensures
            p@ == self@.pixels,
            self@.wf(),
    {
        proof {
            use_type_invariant(&self);
        }
        self.pixels
    }
}

/// The error with which the image library reports a failed decode.
#[verifier::external_type_specification]
#[verifier::external_body]
pub struct ExCodecFailure(photon_rs::native::Error);

/// Calls `photon_rs::native::open_image_from_bytes`, which decodes an
/// encoded image of any format that the image library reads, or reports
/// why it cannot. Trusted: a decoded image holds four samples per pixel.
/// Nothing else is claimed, and the decoded image has no name: the JPEG
/// decoder chooses by the processor it runs on between implementations
/// that may round differently, so the same bytes may decode to different
/// samples on different machines.
#[verifier::external_body]
fn decode(data: &[u8]) -> (r: Result<Image, photon_rs::native::Error>)
    ensures
        r matches Ok(img) ==> img@.wf(),
{
    match photon_rs::native::open_image_from_bytes(data) {
        Ok(p) => Ok(
            Image { width: p.get_width(), height: p.get_height(), pixels: p.get_raw_pixels() },
        ),
        Err(e) => Err(e),
    }
}

/// Formats a `photon_rs::native::Error` by its `Display`. Nothing is
/// claimed of the text.
#[verifier::external_body]
fn failure_text(e: &photon_rs::native::Error) -> (text: String) {
    format!("{}", e)
}

/// The largest extent, of source or result, that is resampled. Up to it
/// the single-precision arithmetic of the resampling places every sample
/// within a quarter of a pixel; far beyond it a sample can miss all the
/// pixels that it is to be made from.
pub const RESAMPLE_EXTENT_LIMIT: u32 = 2097152;

/// Whether the image library can resample `src` to `width` by `height`:
/// the source is not empty, no extent of source or result is beyond
/// [`RESAMPLE_EXTENT_LIMIT`], and the buffers of the two passes, sixteen
/// bytes per pixel at most, can be allocated.
pub open spec fn resizable(src: ImageView, width: u32, height: u32) -> bool {
    &&& 1 <= src.width <= RESAMPLE_EXTENT_LIMIT
    &&& 1 <= src.height <= RESAMPLE_EXTENT_LIMIT
    &&& width <= RESAMPLE_EXTENT_LIMIT
    &&& height <= RESAMPLE_EXTENT_LIMIT
    &&& 16 * src.width * height <= isize::MAX
    &&& 16 * width * height <= isize::MAX
}

/// Calls `photon_rs::transform::resize` with the `Lanczos3` filter.
/// Trusted: the result has exactly the dimensions asked for, and where
/// these are the source's own, it is a copy of the source. Left out by
/// `requires`: an empty source, on which the sampling reads outside the
/// image; sizes whose buffers cannot be allocated; and extents so large
/// that in single precision a sample's weights can all be zero; on each
/// of these the call panics. Of resampled samples nothing is claimed, and they have no
/// name: the Lanczos kernel is computed with the floating-point sine,
/// whose precision the standard library leaves open, so the same image
/// may resample to different samples on different machines.
#[verifier::external_body]
fn resample_lanczos3(img: &Image, width: u32, height: u32) -> (out: Image)
    requires
        img@.wf(),
        resizable(img@, width, height),
    ensures
        out@.wf(),
        out@.width == width,
        out@.height == height,
        width == img@.width && height == img@.height ==> out@ == img@,
{
    let src = photon_rs::PhotonImage::new(img.pixels.clone(), img.width, img.height);
    let filter = photon_rs::transform::SamplingFilter::Lanczos3;
    let dst = photon_rs::transform::resize(&src, width, height, filter);
    Image { width: dst.get_width(), height: dst.get_height(), pixels: dst.get_raw_pixels() }
}

/// The largest decoded size, in bytes, that the image library reads back
/// without being given other limits.
pub const DECODE_LIMIT: u64 = 536870912;

/// The largest extent that a JPEG frame can record.
pub const JPEG_EXTENT_LIMIT: u32 = 65535;

/// Whether the image library can re-encode `src` as JPEG and read it
/// back: both extents fit a JPEG frame and are not zero, and the decoded
/// picture, three bytes per pixel, stays within the decode limit.
pub open spec fn compressible(src: ImageView) -> bool {
    &&& 1 <= src.width <= JPEG_EXTENT_LIMIT
    &&& 1 <= src.height <= JPEG_EXTENT_LIMIT
    &&& 3 * src.width * src.height <= DECODE_LIMIT
}

/// Calls `photon_rs::transform::compress`, which encodes the image as
/// JPEG at the given quality and decodes the result. Trusted: the
/// dimensions stay. Left out by `requires`: images that the JPEG encoder
/// or the decoder refuses, on which the call panics. The encoder holds
/// the quality within 1 to 100 itself. Of the samples nothing is
/// claimed, and they have no name: the JPEG decoder chooses by the
/// processor it runs on between implementations that may round
/// differently.
#[verifier::external_body]
fn recompress(img: &Image, quality: u8) -> (out: Image)
    requires
        img@.wf(),
        compressible(img@),
    ensures
        out@.wf(),
        out@.width == img@.width,
        out@.height == img@.height,
{
    let src = photon_rs::PhotonImage::new(img.pixels.clone(), img.width, img.height);
    let dst = photon_rs::transform::compress(&src, quality);
    Image { width: dst.get_width(), height: dst.get_height(), pixels: dst.get_raw_pixels() }
}

/// Calls `photon_rs::transform::crop`, which copies the pixels of the
/// rectangle from `(x1, y1)` up to, not including, `(x2, y2)`. Trusted:
/// the result has the rectangle's dimensions and, pixel for pixel, the
/// source's samples. Left out by `requires`: a rectangle that reaches
/// outside the source or has its corners in the wrong order, and one of
/// so many pixels that the library's 32-bit counter overflows; on these
/// the call panics.
#[verifier::external_body]
fn copy_rectangle(img: &Image, x1: u32, y1: u32, x2: u32, y2: u32) -> (out: Image)
    requires
        img@.wf(),
        x1 <= x2 <= img@.width,
        y1 <= y2 <= img@.height,
        (x2 - x1) * (y2 - y1) < u32::MAX,
    ensures
        out@.wf(),
        out@.width == x2 - x1,
        out@.height == y2 - y1,
        forall|i: int, j: int, c: int|
            0 <= i < x2 - x1 && 0 <= j < y2 - y1 && 0 <= c < 4 ==> #[trigger] out@.channel(i, j, c)
                == img@.channel(x1 + i, y1 + j, c),
{
    let src = photon_rs::PhotonImage::new(img.pixels.clone(), img.width, img.height);
    let dst = photon_rs::transform::crop(&src, x1, y1, x2, y2);
    Image { width: dst.get_width(), height: dst.get_height(), pixels: dst.get_raw_pixels() }
}

/// The text that starts the error for bytes that are no image.
pub open spec fn decode_failure_prefix() -> Seq<char> {
    "Failed to decode image: "@
}

/// The text of the error for a resize that the image library cannot do.
pub open spec fn resize_limit_message() -> Seq<char> {
    "Cannot resize: the source is empty or the result too large"@
}

/// The text of the error for an image that cannot pass through JPEG.
pub open spec fn compress_limit_message() -> Seq<char> {
    "Cannot compress: the image is empty or too large"@
}

/// What a failed decode is reported as: a codec error whose text holds
/// the library's own words.
pub fn decode_failure(detail: &str) -> (e: ServiceError)
    ensures
        e@ == (ServiceErrorView {
            kind: ErrorKind::Codec,
            message: decode_failure_prefix() + detail@,
        }),
{
    ServiceError { kind: ErrorKind::Codec, message: joined("Failed to decode image: ", detail) }
}

/// Whether an error reports bytes that are no image: a codec error whose
/// text starts with [`decode_failure_prefix`].
pub open spec fn is_decode_failure(e: ServiceErrorView) -> bool {
    &&& e.kind == ErrorKind::Codec
    &&& e.message.len() >= decode_failure_prefix().len()
    &&& e.message.subrange(0, decode_failure_prefix().len() as int) == decode_failure_prefix()
}

/// Decodes the stored bytes of an asset. Whether bytes decode, and to
/// which image, is the image library's to say. What comes back is an
/// image of four samples per pixel, or a codec error that starts with
/// [`decode_failure_prefix`] and goes on in the image library's words.
pub fn read_image(data: &[u8]) -> (r: Result<Image, ServiceError>)
    ensures
        match r {
            Ok(img) => img@.wf(),
            Err(e) => is_decode_failure(e@),
        },
{
    match decode(data) {
        Ok(img) => Ok(img),
        Err(failure) => {
            let detail = failure_text(&failure);
            let e = decode_failure(detail.as_str());
            assert(e@.message.subrange(0, decode_failure_prefix().len() as int)
                =~= decode_failure_prefix());
            Err(e)
        },
    }
}

/// Whether `16 * a * b` can be the size of an allocation.
fn allocatable_sixteenfold(a: u32, b: u32) -> (ok: bool)
    ensures
        ok == (16 * a * b <= isize::MAX),
{
    assert(16 * a * b <= 16 * 0xffff_ffff * 0xffff_ffff) by (nonlinear_arith)
        requires
            0 <= a <= 0xffff_ffff,
            0 <= b <= 0xffff_ffff,
    ;
    let need: u128 = 16 * (a as u128) * (b as u128);
    need <= isize::MAX as u128
}

/// Resizes an image.
///
/// Fails with a parameter error where neither `width` nor `height` is
/// given. Otherwise the target dimensions are those of
/// [`resized_dimensions`], the resampling is Lanczos3, and the result has
/// exactly those dimensions; where they are the source's own, the result
/// is a copy of the source. Where the image library cannot produce them
/// (see [`resizable`]) the failure is a codec error.
pub fn resize_image(
    image: &Image,
    width: Option<u32>,
    height: Option<u32>,
    maintain_aspect: bool,
) -> (r: Result<Image, ServiceError>)
    ensures
        match resized_dimensions(image@.width, image@.height, width, height, maintain_aspect) {
            None => r matches Err(e) && e@ == (ServiceErrorView {
                kind: ErrorKind::Parameter,
                message: no_dimension_message(),
            }),
            Some(d) => if resizable(image@, d.0, d.1) {
                r matches Ok(out) && out@.wf() && out@.width == d.0 && out@.height == d.1 && (d.0
                    == image@.width && d.1 == image@.height ==> out@ == image@)
            } else {
                r matches Err(e) && e@ == (ServiceErrorView {
                    kind: ErrorKind::Codec,
                    message: resize_limit_message(),
                })
            },
        },
{
    let (new_width, new_height) = match resize_dimensions(
        image.width(),
        image.height(),
        width,
        height,
        maintain_aspect,
    ) {
        Ok(d) => d,
        Err(e) => {
            return Err(e);
        },
    };
    proof {
        use_type_invariant(image);
    }
    if 1 <= image.width() && image.width() <= RESAMPLE_EXTENT_LIMIT && 1 <= image.height()
        && image.height() <= RESAMPLE_EXTENT_LIMIT && new_width <= RESAMPLE_EXTENT_LIMIT
        && new_height <= RESAMPLE_EXTENT_LIMIT && allocatable_sixteenfold(
        image.width(),
        new_height,
    ) && allocatable_sixteenfold(new_width, new_height) {
        Ok(resample_lanczos3(image, new_width, new_height))
    } else {
        Err(
            ServiceError::new(
                ErrorKind::Codec,
                "Cannot resize: the source is empty or the result too large",
            ),
        )
    }
}

/// Re-encodes an image at the given quality, from 0 for the smallest
/// result to 100 for the most faithful, and decodes it again. The
/// quality is handed to the encoder as it is. The dimensions stay; where
/// the image cannot pass through the encoder (see [`compressible`]) the
/// failure is a codec error.
pub fn compress(image: &Image, quality: u8) -> (r: Result<Image, ServiceError>)
    ensures
        if compressible(image@) {
            r matches Ok(out) && out@.wf() && out@.width == image@.width && out@.height
                == image@.height
        } else {
            r matches Err(e) && e@ == (ServiceErrorView {
                kind: ErrorKind::Codec,
                message: compress_limit_message(),
            })
        },
{
    proof {
        use_type_invariant(image);
    }
    let w = image.width();
    let h = image.height();
    assert(3 * w * h <= 3 * 0xffff_ffff * 0xffff_ffff) by (nonlinear_arith)
        requires
            0 <= w <= 0xffff_ffff,
            0 <= h <= 0xffff_ffff,
    ;
    let decoded_size: u128 = 3 * (w as u128) * (h as u128);
    if 1 <= w && w <= JPEG_EXTENT_LIMIT && 1 <= h && h <= JPEG_EXTENT_LIMIT && decoded_size
        <= DECODE_LIMIT as u128 {
        Ok(recompress(image, quality))
    } else {
        Err(ServiceError::new(ErrorKind::Codec, "Cannot compress: the image is empty or too large"))
    }
}

/// How much of the span of `len` from `start` lies within `extent`.
pub open spec fn overlap(start: u32, len: u32, extent: u32) -> int {
    if start >= extent {
        0
    } else if start + len <= extent {
        len as int
    } else {
        extent - start
    }
}

/// Whether `out` is the rectangle of `width` by `height` at `(x, y)` of
/// `src`: it has exactly those dimensions, holds the source's samples
/// where the rectangle lies on the source, and is transparent black
/// where it reaches beyond.
pub open spec fn is_crop_of(
    out: ImageView,
    src: ImageView,
    x: u32,
    y: u32,
    width: u32,
    height: u32,
) -> bool {
    &&& out.wf()
    &&& out.width == width
    &&& out.height == height
    &&& forall|i: int, j: int, c: int|
        0 <= i < width && 0 <= j < height && 0 <= c < 4 ==> #[trigger] out.channel(i, j, c) == (if x
            + i < src.width && y + j < src.height {
            src.channel(x + i, y + j, c)
        } else {
            0u8
        })
}

/// Whether the rectangle can be cut: its samples can be allocated, and
/// the part that lies on the source is within what the image library
/// counts.
pub open spec fn croppable(src: ImageView, x: u32, y: u32, width: u32, height: u32) -> bool {
    &&& 4 * width * height <= isize::MAX
    &&& overlap(x, width, src.width) * overlap(y, height, src.height) < u32::MAX
}

/// The text of the error for a rectangle too large to cut.
pub open spec fn crop_limit_message() -> Seq<char> {
    "Cannot crop: the rectangle is too large"@
}

/// Within one image, different channels of different pixels lie at
/// different offsets, all of them within the samples.
pub proof fn lemma_offsets(v: ImageView, i: int, j: int, c: int, i2: int, j2: int, c2: int)
    requires
        v.wf(),
        0 <= i < v.width,
        0 <= j < v.height,
        0 <= c < 4,
        0 <= i2 < v.width,
        0 <= j2 < v.height,
        0 <= c2 < 4,
    ensures
        0 <= v.offset(i, j, c) < v.pixels.len(),
        v.offset(i, j, c) == v.offset(i2, j2, c2) ==> i == i2 && j == j2 && c == c2,
{
    let w = v.width as int;
    let h = v.height as int;
    assert((j * w + i) * 4 + c < 4 * w * h) by (nonlinear_arith)
        requires
            0 <= i < w,
            0 <= j < h,
            0 <= c < 4,
    ;
    assert(0 <= (j * w + i) * 4 + c) by (nonlinear_arith)
        requires
            0 <= i < w,
            0 <= j < h,
            0 <= c < 4,
    ;
    if v.offset(i, j, c) == v.offset(i2, j2, c2) {
        assert(j * w + i == j2 * w + i2 && c == c2);
        assert(j == j2 && i == i2) by (nonlinear_arith)
            requires
                j * w + i == j2 * w + i2,
                0 <= i < w,
                0 <= i2 < w,
        ;
    }
}

/// How much of the span of `len` from `start` lies within `extent`.
fn span_within(start: u32, len: u32, extent: u32) -> (n: u32)
    ensures
        n == overlap(start, len, extent),
        n <= len,
        start < extent ==> start + n <= extent,
{
    if start >= extent {
        0
    } else if len <= extent - start {
        len
    } else {
        extent - start
    }
}

/// A canvas of `width` by `height` pixels, all transparent black.
fn blank(width: u32, height: u32) -> (out: Vec<u8>)
    requires
        4 * width * height <= isize::MAX,
    ensures
        out@.len() == 4 * width * height,
        forall|k: int| 0 <= k < out@.len() ==> out@[k] == 0u8,
{
    assert(4 * width * height >= 0) by (nonlinear_arith)
        requires
            width >= 0,
            height >= 0,
    ;
    assert(4 * width * height == 4 * (width as int) * (height as int));
    assert(4 * width * height <= 4 * 0xffff_ffff * 0xffff_ffff) by (nonlinear_arith)
        requires
            0 <= width <= 0xffff_ffff,
            0 <= height <= 0xffff_ffff,
    ;
    let n: u128 = 4 * (width as u128) * (height as u128);
    vec![0u8; n as usize]
}

/// Cuts the rectangle of `width` by `height` pixels whose top left corner
/// is at `(x, y)`. The result always has exactly the dimensions asked
/// for: where the rectangle reaches beyond the source, the part outside
/// is transparent black. The only failure is a rectangle too large to
/// cut (see [`croppable`]), a codec error.
pub fn crop(image: &Image, x: u32, y: u32, width: u32, height: u32) -> (r: Result<
    Image,
    ServiceError,
>)
    ensures
        if croppable(image@, x, y, width, height) {
            r matches Ok(out) && is_crop_of(out@, image@, x, y, width, height)
        } else {
            r matches Err(e) && e@ == (ServiceErrorView {
                kind: ErrorKind::Codec,
                message: crop_limit_message(),
            })
        },
{
    proof {
        use_type_invariant(image);
    }
    let covered_width = span_within(x, width, image.width());
    let covered_height = span_within(y, height, image.height());
    assert(4 * width * height <= 4 * 0xffff_ffff * 0xffff_ffff) by (nonlinear_arith)
        requires
            0 <= width <= 0xffff_ffff,
            0 <= height <= 0xffff_ffff,
    ;
    assert(covered_width * covered_height <= 0xffff_ffff * 0xffff_ffff) by (nonlinear_arith)
        requires
            0 <= covered_width <= 0xffff_ffff,
            0 <= covered_height <= 0xffff_ffff,
    ;
    let size: u128 = 4 * (width as u128) * (height as u128);
    let covered: u64 = (covered_width as u64) * (covered_height as u64);
    if size > isize::MAX as u128 || covered >= u32::MAX as u64 {
        return Err(ServiceError::new(ErrorKind::Codec, "Cannot crop: the rectangle is too large"));
    }
    if covered_width == 0 || covered_height == 0 {
        let out = Image { pixels: blank(width, height), width, height };
        proof {
            assert forall|i: int, j: int, c: int|
                0 <= i < width && 0 <= j < height && 0 <= c < 4 implies #[trigger] out@.channel(
                i,
                j,
                c,
            ) == 0u8 && !(x + i < image@.width && y + j < image@.height) by {
                lemma_offsets(out@, i, j, c, i, j, c);
            }
        }
        return Ok(out);
    }
    let part = copy_rectangle(image, x, y, x + covered_width, y + covered_height);
    if covered_width == width && covered_height == height {
        return Ok(part);
    }
    let mut canvas = blank(width, height);
    let from = part.pixels();
    proof {
        let empty = ImageView { width, height, pixels: canvas@ };
        assert forall|i: int, j: int, c: int|
            0 <= i < width && 0 <= j < height && 0 <= c < 4 implies #[trigger] canvas@[(j * width
            + i) * 4 + c] == 0u8 by {
            lemma_offsets(empty, i, j, c, i, j, c);
        }
    }
    let samples: usize = from.len();
    let room: usize = canvas.len();
    let mut row: u32 = 0;
    while row < covered_height
        invariant
            row <= covered_height <= height,
            0 < covered_width <= width,
            samples == from@.len(),
            room == canvas@.len(),
            part@.wf(),
            part@.width == covered_width,
            part@.height == covered_height,
            from@ == part@.pixels,
            canvas@.len() == 4 * width * height,
            forall|i: int, j: int, c: int|
                0 <= i < width && 0 <= j < height && 0 <= c < 4 ==> #[trigger] canvas@[(j * width
                    + i) * 4 + c] == (if i < covered_width && j < row {
                    part@.channel(i, j, c)
                } else {
                    0u8
                }),
        decreases covered_height - row,
    {
        let mut col: u32 = 0;
        while col < covered_width
            invariant
                row < covered_height <= height,
                col <= covered_width <= width,
                samples == from@.len(),
                room == canvas@.len(),
                part@.wf(),
                part@.width == covered_width,
                part@.height == covered_height,
                from@ == part@.pixels,
                canvas@.len() == 4 * width * height,
                forall|i: int, j: int, c: int|
                    0 <= i < width && 0 <= j < height && 0 <= c < 4 ==> #[trigger] canvas@[(j
                        * width + i) * 4 + c] == (if i < covered_width && (j < row || (j == row && i
                        < col)) {
                        part@.channel(i, j, c)
                    } else {
                        0u8
                    }),
            decreases covered_width - col,
        {
            let ghost before = canvas@;
            let ghost shape = ImageView { width, height, pixels: before };
            proof {
                lemma_offsets(part@, col as int, row as int, 3, col as int, row as int, 0);
                lemma_offsets(shape, col as int, row as int, 3, col as int, row as int, 0);
                assert(0 <= row * covered_width && 0 <= row * width) by (nonlinear_arith)
                    requires
                        row >= 0,
                        covered_width >= 0,
                        width >= 0,
                ;
                assert(part@.offset(col as int, row as int, 3) == (row * covered_width + col) * 4
                    + 3);
                assert(shape.offset(col as int, row as int, 3) == (row * width + col) * 4 + 3);
            }
            let src_at: usize = (row as usize * covered_width as usize + col as usize) * 4;
            let dst_at: usize = (row as usize * width as usize + col as usize) * 4;
            canvas.set(dst_at, from[src_at]);
            canvas.set(dst_at + 1, from[src_at + 1]);
            canvas.set(dst_at + 2, from[src_at + 2]);
            canvas.set(dst_at + 3, from[src_at + 3]);
            proof {
                assert forall|i: int, j: int, c: int|
                    0 <= i < width && 0 <= j < height && 0 <= c < 4 implies #[trigger] canvas@[(j
                    * width + i) * 4 + c] == (if i < covered_width && (j < row || (j == row && i
                    < col + 1)) {
                    part@.channel(i, j, c)
                } else {
                    0u8
                }) by {
                    lemma_offsets(shape, i, j, c, col as int, row as int, 0);
                    lemma_offsets(shape, i, j, c, col as int, row as int, 1);
                    lemma_offsets(shape, i, j, c, col as int, row as int, 2);
                    lemma_offsets(shape, i, j, c, col as int, row as int, 3);
                    assert(before[(j * width + i) * 4 + c] == (if i < covered_width && (j < row || (
                    j == row && i < col)) {
                        part@.channel(i, j, c)
                    } else {
                        0u8
                    }));
                }
            }
            col = col + 1;
        }
        row = row + 1;
    }
    let out = Image { pixels: canvas, width, height };
    proof {
        assert forall|i: int, j: int, c: int|
            0 <= i < width && 0 <= j < height && 0 <= c < 4 implies #[trigger] out@.channel(i, j, c)
            == (if x + i < image@.width && y + j < image@.height {
            image@.channel(x + i, y + j, c)
        } else {
            0u8
        }) by {
            if i < covered_width && j < covered_height {
                assert(part@.channel(i, j, c) == image@.channel(x + i, y + j, c));
            }
        }
    }
    Ok(out)
}

} // verus!
