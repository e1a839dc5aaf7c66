//! Decoded images and the codecs that work on them. The pixels stay inside
//! the `image` crate's own type; what the pipeline reads of an image (its
//! size, the bytes of one pixel, whether it has an alpha channel) is kept
//! beside them as plain values.

use fast_image_resize::{FilterType, ResizeAlg, ResizeOptions, Resizer};
use vstd::prelude::*;

use crate::dimensions::ImageDimensions;
use crate::format::{AVIF_QUALITY, AVIF_SPEED};

verus! {

/// An image as the `image` crate holds it in memory.
#[verifier::external_type_specification]
#[verifier::external_body]
pub struct ExDynamicImage(image::DynamicImage);

/// What the pipeline reads of an image.
#[derive(Debug, Clone, Copy, PartialEq, Eq, Structural)]
pub struct Shape {
    pub width: u32,
    pub height: u32,
    /// The number of channels of one pixel.
    pub channels: u8,
    /// The number of bytes that one pixel takes in memory.
    pub bytes_per_pixel: u8,
    pub has_alpha: bool,
}

impl Shape {
    /// The number of bytes that the pixels of an image of this shape take.
    pub open spec fn byte_size(self) -> int {
        self.width * self.height * self.bytes_per_pixel
    }

    /// The same kind of pixels at another size.
    pub open spec fn resized_to(self, width: u32, height: u32) -> Shape {
        Shape { width, height, ..self }
    }

    /// Two images hold the same kind of pixels: as many channels of as many
    /// bytes, with or without alpha. No two colour types of the `image`
    /// crate agree in all of these.
    pub open spec fn same_kind(self, other: Shape) -> bool {
        &&& self.channels == other.channels
        &&& self.bytes_per_pixel == other.bytes_per_pixel
        &&& self.has_alpha == other.has_alpha
    }
}

/// A decoded image. Pictures are made by decoding and by resampling only, so
/// the shape always records what the pixels report of themselves.
#[derive(Debug)]
pub struct Picture {
    shape: Shape,
    pixels: image::DynamicImage,
}

impl Picture {
    /// The shape of the picture.
    pub closed spec fn shape_of(&self) -> Shape {
        self.shape
    }

    pub fn shape(&self) -> (shape: Shape)
        ensures
            shape == self.shape_of(),
    {
        self.shape
    }

    /// The pixels, for a codec that is not part of this library.
    pub fn pixels(&self) -> (pixels: &image::DynamicImage)
        ensures
            *pixels == self.pixels_of(),
    {
        &self.pixels
    }

    /// The image that holds the pixels of the picture.
    pub closed spec fn pixels_of(&self) -> image::DynamicImage {
        self.pixels
    }
}

impl ImageDimensions for Picture {
    open spec fn width_of(&self) -> u32 {
        self.shape_of().width
    }

    open spec fn height_of(&self) -> u32 {
        self.shape_of().height
    }

    fn width(&self) -> (w: u32) {
        self.shape.width
    }

    fn height(&self) -> (h: u32) {
        self.shape.height
    }
}

/// A way to resample an image: by the nearest pixel, or by a convolution
/// with one of three filters.
#[derive(Debug, Clone, Copy, PartialEq, Eq, Structural)]
pub enum Resampling {
    Nearest,
    Bilinear,
    CatmullRom,
    Lanczos3,
}

/// How every image is resampled: by a convolution with the Catmull-Rom
/// filter.
pub const RESAMPLING: Resampling = Resampling::CatmullRom;

/// Whether the alpha channel takes part in the weights of the resampler. It
/// does not.
pub const RESIZE_WEIGHS_ALPHA: bool = false;

/// A name for the QOI stream that `rapid_qoi` writes for an image of the
/// given size from tightly packed RGB or RGBA pixels.
pub uninterp spec fn qoi_encoding(width: u32, height: u32, has_alpha: bool, pixels: Seq<u8>) -> Seq<
    u8,
>;

/// The number of bytes that QOI reads for one pixel.
pub open spec fn qoi_channels(has_alpha: bool) -> int {
    if has_alpha {
        4
    } else {
        3
    }
}

/// The number that four bytes of a stream spell, the most significant first.
pub open spec fn big_endian_at(stream: Seq<u8>, at: int) -> int {
    stream[at] * 0x100_0000 + stream[at + 1] * 0x1_0000 + stream[at + 2] * 0x100 + stream[at + 3]
}

/// The stream starts with the header of a QOI image of the given size with
/// linear colours, and has room for the padding at its end: the letters
/// `qoif`, the width, the height, the number of channels and a one.
pub open spec fn has_qoi_header(stream: Seq<u8>, width: u32, height: u32, has_alpha: bool) -> bool {
    &&& stream.len() >= 22
    &&& stream[0] == 0x71 && stream[1] == 0x6f && stream[2] == 0x69 && stream[3] == 0x66
    &&& big_endian_at(stream, 4) == width
    &&& big_endian_at(stream, 8) == height
    &&& stream[12] == qoi_channels(has_alpha)
    &&& stream[13] == 1
}

/// Calls `image::load_from_memory`, which guesses the format of the bytes
/// and decodes them, and records the shape that the decoded image reports.
/// The decoders that are asked can be changed by any code of the process, so
/// nothing is claimed of which bytes decode, nor of the shape.
#[verifier::external_body]
pub(crate) fn load_picture(bytes: &[u8]) -> (picture: Option<Picture>) {
    match image::load_from_memory(bytes) {
        Ok(pixels) => {
            let (width, height, color) = (pixels.width(), pixels.height(), pixels.color());
            let (channels, bytes_per_pixel) = (color.channel_count(), color.bytes_per_pixel());
            let has_alpha = color.has_alpha();
            let shape = Shape { width, height, channels, bytes_per_pixel, has_alpha };
            Some(Picture { shape, pixels })
        },
        Err(_) => None,
    }
}

/// Calls `DynamicImage::new` for an image of the given size with the pixel
/// kind of `like`. The new image reports the size it was made with and the
/// colour type it was given. `DynamicImage::new` panics where the pixels do
/// not fit in a vector, which `requires` leaves out.
#[verifier::external_body]
pub(crate) fn blank_canvas(like: &Picture, width: u32, height: u32) -> (canvas: Picture)
    requires
        like.shape_of().resized_to(width, height).byte_size() <= isize::MAX,
    ensures
        canvas.shape_of() == like.shape_of().resized_to(width, height),
{
    let pixels = image::DynamicImage::new(width, height, like.pixels.color());
    let (width, height, color) = (pixels.width(), pixels.height(), pixels.color());
    let (channels, bytes_per_pixel) = (color.channel_count(), color.bytes_per_pixel());
    let has_alpha = color.has_alpha();
    let shape = Shape { width, height, channels, bytes_per_pixel, has_alpha };
    Picture { shape, pixels }
}

/// Calls `Resizer::resize` of `fast_image_resize`, in the way that `method`
/// names, and with the alpha channel in the weights or left out of them as
/// `weigh_alpha` says. It fills the pixels of `canvas` from `source` and
/// changes neither size nor pixel kind. The resizer refuses images of
/// different pixel types, buffers that are too small and a crop box outside
/// the image; none of these can be where both images hold the same kind of
/// pixels, so it succeeds there. The pipeline resamples in one way only, and
/// `requires` holds every caller to it.
#[verifier::external_body]
pub(crate) fn resample(source: &Picture, canvas: Picture, method: Resampling, weigh_alpha: bool)
    -> (resized: Option<Picture>)
    requires
        method == RESAMPLING,
        weigh_alpha == RESIZE_WEIGHS_ALPHA,
    ensures
        resized matches Some(picture) ==> picture.shape_of() == canvas.shape_of(),
        source.shape_of().same_kind(canvas.shape_of()) ==> resized is Some,
{
    let algorithm = match method {
        Resampling::Nearest => ResizeAlg::Nearest,
        Resampling::Bilinear => ResizeAlg::Convolution(FilterType::Bilinear),
        Resampling::CatmullRom => ResizeAlg::Convolution(FilterType::CatmullRom),
        Resampling::Lanczos3 => ResizeAlg::Convolution(FilterType::Lanczos3),
    };
    let options = ResizeOptions::new().resize_alg(algorithm).use_alpha(weigh_alpha);
    let mut canvas = canvas;
    match Resizer::new().resize(&source.pixels, &mut canvas.pixels, &options) {
        Ok(()) => Some(canvas),
        Err(_) => None,
    }
}

/// Calls `AvifEncoder::new_with_speed_quality` and `write_image` of the
/// `image` crate on the pixels of `picture`, with the size and colour type
/// that the pixels report. The encoder splits its work by the number of
/// threads of the machine, so the bytes have no name; whatever they are,
/// they are a file, which starts with its file-type box and is not empty.
/// The encoder underneath asserts that speed and quality are at least 1 and
/// is not made for an image without pixels. AVIF is encoded at one preset
/// only, and `requires` holds every caller to it. `write_image` asserts
/// that the buffer holds exactly the pixels of the size given, which is so
/// for every image that a decoder or `DynamicImage::new` has made.
#[verifier::external_body]
pub(crate) fn avif_bytes(picture: &Picture, speed: u8, quality: u8) -> (encoded: Option<Vec<u8>>)
    requires
        picture.shape_of().width > 0,
        picture.shape_of().height > 0,
        speed == AVIF_SPEED,
        quality == AVIF_QUALITY,
    ensures
        encoded matches Some(bytes) ==> bytes@.len() > 0,
{
    let mut buffer = std::io::Cursor::new(Vec::new());
    let encoder = image::codecs::avif::AvifEncoder::new_with_speed_quality(
        &mut buffer,
        speed,
        quality,
    );
    let color = image::ExtendedColorType::from(picture.pixels.color());
    let (width, height) = (picture.pixels.width(), picture.pixels.height());
    match image::ImageEncoder::write_image(encoder, picture.pixels.as_bytes(), width, height, color) {
        Ok(()) => Some(buffer.into_inner()),
        Err(_) => None,
    }
}

/// Calls `DynamicImage::to_rgb8` and hands out the buffer of the copy
/// whole: three bytes for each pixel of the picture, and never fewer.
/// Nothing is claimed of the bytes themselves.
#[verifier::external_body]
pub(crate) fn rgb8_samples(picture: &Picture) -> (samples: Vec<u8>)
    ensures
        samples@.len() >= picture.shape_of().width * picture.shape_of().height * 3,
{
    picture.pixels.to_rgb8().into_raw()
}

/// Calls `DynamicImage::to_rgba8` and hands out the buffer of the copy
/// whole: four bytes for each pixel of the picture, and never fewer.
/// Nothing is claimed of the bytes themselves. Samples with alpha are taken
/// of a picture that has an alpha channel only, and `requires` holds every
/// caller to that.
#[verifier::external_body]
pub(crate) fn rgba8_samples(picture: &Picture) -> (samples: Vec<u8>)
    requires
        picture.shape_of().has_alpha,
    ensures
        samples@.len() >= picture.shape_of().width * picture.shape_of().height * 4,
{
    picture.pixels.to_rgba8().into_raw()
}

/// Calls `Qoi::encode_alloc` of `rapid_qoi`, with linear colours. It fails
/// exactly where `pixels` holds fewer bytes than the image has samples, and
/// otherwise gives the stream, which depends on the arguments alone. The
/// stream starts with the 14 bytes of the header and ends with 8 bytes of
/// padding. The encoder allocates five bytes for each pixel and 22 more;
/// `requires` leaves out the sizes for which that does not fit in a vector.
#[verifier::external_body]
pub(crate) fn qoi_stream(width: u32, height: u32, has_alpha: bool, pixels: &[u8]) -> (encoded:
    Option<Vec<u8>>)
    requires
        width * height * 5 + 22 <= isize::MAX,
    ensures
        match encoded {
            Some(stream) => {
                &&& pixels@.len() >= width * height * qoi_channels(has_alpha)
                &&& stream@ == qoi_encoding(width, height, has_alpha, pixels@)
                &&& has_qoi_header(stream@, width, height, has_alpha)
            },
            None => pixels@.len() < width * height * qoi_channels(has_alpha),
        },
{
    let colors = if has_alpha {
        rapid_qoi::Colors::Rgba
    } else {
        rapid_qoi::Colors::Rgb
    };
    rapid_qoi::Qoi { width, height, colors }.encode_alloc(pixels).ok()
}

} // verus!
