//! The stages that work on pixels: decode, resize, encode. They run one after
//! the other on the bytes of one source and are timed one by one.

use vstd::prelude::*;

use crate::dimensions::{resize_dimensions, resized_dimensions};
use crate::error::CustomError;
use crate::format::{Format, AVIF_QUALITY, AVIF_SPEED};
use crate::metrics::{clock_now, nanos_since, steps_of, StageTiming, Step};
use crate::picture::{
    avif_bytes, blank_canvas, has_qoi_header, load_picture, qoi_channels, qoi_encoding, qoi_stream,
    resample, rgb8_samples, rgba8_samples, Picture, Shape, RESAMPLING, RESIZE_WEIGHS_ALPHA,
};

verus! {

/// Work for a codec that is not part of this library: the pixels of the
/// resized image as tightly packed RGB, three bytes for each pixel.
#[derive(Debug, PartialEq, Eq)]
pub struct ExternalJob {
    pub format: Format,
    pub width: u32,
    pub height: u32,
    pub rgb: Vec<u8>,
}

/// What the encode stage hands on.
#[derive(Debug, PartialEq, Eq)]
pub enum Encoding {
    /// The encoded image.
    Bytes(Vec<u8>),
    /// The codec of the format is not part of this library: the caller runs it.
    Pending(ExternalJob),
}

/// What the three stages made of one source.
#[derive(Debug, PartialEq, Eq)]
pub struct Processed {
    pub output: Encoding,
    pub timings: Vec<StageTiming>,
}

impl ExternalJob {
    /// The job holds exactly the pixels of an image that has some, for a
    /// format whose codec is outside.
    pub open spec fn well_formed(self) -> bool {
        &&& self.format == Format::Jxl || self.format == Format::Heic
        &&& self.width > 0
        &&& self.height > 0
        &&& self.rgb@.len() == self.width * self.height * 3
    }
}

/// Whether the codec of a format is part of this library.
pub open spec fn encoded_here(format: Format) -> bool {
    format == Format::Avif || format == Format::Qoi
}

/// The size that the resize stage aims at, and `None` where it refuses: an
/// image that would have no pixels, or more than a vector can hold.
pub open spec fn resize_target(shape: Shape, tallest_side: u32) -> Option<Shape> {
    let dims = resized_dimensions(shape.width as int, shape.height as int, tallest_side as int);
    if dims.0 <= 0 || dims.1 <= 0 {
        None
    } else {
        let target = shape.resized_to(dims.0 as u32, dims.1 as u32);
        if target == shape || target.byte_size() <= isize::MAX {
            Some(target)
        } else {
            None
        }
    }
}

/// Decodes the bytes of a source, whatever their format. The decoder
/// decides whether they are an image; bytes that are none are a decode
/// error, and there is no other error.
pub fn decode_image(bytes: &[u8]) -> (result: Result<Picture, CustomError>)
    ensures
        result matches Err(error) ==> error == CustomError::ImageDecodeError,
{
    match load_picture(bytes) {
        Some(picture) => Ok(picture),
        None => Err(CustomError::ImageDecodeError),
    }
}

fn fits_in_memory(shape: Shape) -> (fits: bool)
    ensures
        fits == (shape.byte_size() <= isize::MAX),
{
    assert(shape.width * shape.height <= 0xffff_ffff * 0xffff_ffff) by (nonlinear_arith)
        requires
            0 <= shape.width <= 0xffff_ffff,
            0 <= shape.height <= 0xffff_ffff,
    ;
    let pixels: u128 = (shape.width as u128) * (shape.height as u128);
    assert(pixels * shape.bytes_per_pixel <= 0xffff_ffff * 0xffff_ffff * 255) by (nonlinear_arith)
        requires
            0 <= pixels <= 0xffff_ffff * 0xffff_ffff,
            0 <= shape.bytes_per_pixel <= 255,
    ;
    let bytes: u128 = pixels * (shape.bytes_per_pixel as u128);
    bytes <= isize::MAX as u128
}

/// Brings a picture to the size that `resize_dimensions` gives
/// for it. A picture that has that size already is handed back as it is;
/// any other is resampled by a Catmull-Rom convolution, the alpha channel
/// left out of the weights, and that succeeds. Where the computed size has
/// a side of zero, or is more than a vector can hold, the stage fails
/// without calling the resampler.
pub fn resize_picture(picture: Picture, tallest_side: u32) -> (result: Result<Picture, CustomError>)
    ensures
        match resize_target(picture.shape_of(), tallest_side) {
            None => result matches Err(error) && error == CustomError::ResizeError,
            Some(target) => if target == picture.shape_of() {
                result == Ok::<Picture, CustomError>(picture)
            } else {
                result matches Ok(resized) && resized.shape_of() == target
            },
        },
{
    let shape = picture.shape();
    let dims = resize_dimensions(shape.width, shape.height, tallest_side);
    if dims.width == 0 || dims.height == 0 {
        return Err(CustomError::ResizeError);
    }
    if dims.width == shape.width && dims.height == shape.height {
        return Ok(picture);
    }
    let target = Shape { width: dims.width, height: dims.height, ..shape };
    if !fits_in_memory(target) {
        return Err(CustomError::ResizeError);
    }
    let canvas = blank_canvas(&picture, dims.width, dims.height);
    match resample(&picture, canvas, RESAMPLING, RESIZE_WEIGHS_ALPHA) {
        Some(resized) => Ok(resized),
        None => Err(CustomError::ResizeError),
    }
}

/// Whether a QOI stream for an image of this size fits in a vector.
pub open spec fn qoi_fits(width: u32, height: u32) -> bool {
    width * height * 5 + 22 <= isize::MAX
}

fn qoi_size_fits(width: u32, height: u32) -> (fits: bool)
    ensures
        fits == qoi_fits(width, height),
{
    assert(width * height <= 0xffff_ffff * 0xffff_ffff) by (nonlinear_arith)
        requires
            0 <= width <= 0xffff_ffff,
            0 <= height <= 0xffff_ffff,
    ;
    let pixels: u128 = (width as u128) * (height as u128);
    pixels * 5 + 22 <= isize::MAX as u128
}

/// A QOI stream of an image of the given size: what the codec writes for
/// some pixels of that size, after the header that carries the size.
pub open spec fn is_qoi_of(stream: Seq<u8>, width: u32, height: u32, has_alpha: bool) -> bool {
    &&& exists|samples: Seq<u8>|
        samples.len() >= width * height * qoi_channels(has_alpha) && stream
            == #[trigger] qoi_encoding(width, height, has_alpha, samples)
    &&& has_qoi_header(stream, width, height, has_alpha)
}

/// Encodes tightly packed RGB or RGBA pixels as QOI, which loses nothing.
/// It fails where the pixels given are fewer than the size asks for, or the
/// stream would not fit in a vector.
pub fn encode_qoi_pixels(width: u32, height: u32, has_alpha: bool, pixels: &[u8]) -> (result:
    Result<Vec<u8>, CustomError>)
    ensures
        if qoi_fits(width, height) && pixels@.len() >= width * height * qoi_channels(has_alpha) {
            &&& result matches Ok(stream)
            &&& stream@ == qoi_encoding(width, height, has_alpha, pixels@)
            &&& is_qoi_of(stream@, width, height, has_alpha)
        } else {
            result matches Err(error) && error == CustomError::ImageEncodeError
        },
{
    if !qoi_size_fits(width, height) {
        return Err(CustomError::ImageEncodeError);
    }
    match qoi_stream(width, height, has_alpha, pixels) {
        Some(stream) => Ok(stream),
        None => Err(CustomError::ImageEncodeError),
    }
}

/// Makes the job of a codec outside from the RGB samples of an image: the
/// first three bytes for each pixel, and no more. There is no job for a
/// format that is encoded here, for an image without pixels, or from fewer
/// samples than the image has.
pub fn rgb_job(format: Format, width: u32, height: u32, samples: Vec<u8>) -> (result: Result<
    ExternalJob,
    CustomError,
>)
    ensures
        if !encoded_here(format) && width > 0 && height > 0 && samples@.len() >= width * height
            * 3 {
            &&& result matches Ok(job)
            &&& job.format == format
            &&& job.width == width
            &&& job.height == height
            &&& job.rgb@ == samples@.subrange(0, width * height * 3)
            &&& job.well_formed()
        } else {
            result matches Err(error) && error == CustomError::ImageEncodeError
        },
{
    match format {
        Format::Avif | Format::Qoi => {
            return Err(CustomError::ImageEncodeError);
        },
        Format::Jxl | Format::Heic => {},
    }
    if width == 0 || height == 0 {
        return Err(CustomError::ImageEncodeError);
    }
    assert(width * height <= 0xffff_ffff * 0xffff_ffff) by (nonlinear_arith)
        requires
            0 <= width <= 0xffff_ffff,
            0 <= height <= 0xffff_ffff,
    ;
    let needed: u128 = (width as u128) * (height as u128) * 3;
    if (samples.len() as u128) < needed {
        return Err(CustomError::ImageEncodeError);
    }
    let mut rgb = samples;
    rgb.truncate(needed as usize);
    Ok(ExternalJob { format, width, height, rgb })
}

/// What the encode stage owes for a picture of a given shape. A picture
/// without pixels is not encoded. QOI is encoded whenever its stream fits
/// in a vector, and the stream is that of an image of the picture's size,
/// with an alpha channel where the picture has one. JPEG XL and HEIC always
/// get their job, of the picture's size. For AVIF the encoder decides, and
/// what it gives is not empty.
pub open spec fn encoded_as(shape: Shape, format: Format, result: Result<Encoding, CustomError>)
    -> bool {
    if shape.width == 0 || shape.height == 0 {
        result matches Err(error) && error == CustomError::ImageEncodeError
    } else {
        match format {
            Format::Avif => match result {
                Ok(Encoding::Bytes(bytes)) => bytes@.len() > 0,
                Ok(Encoding::Pending(_)) => false,
                Err(error) => error == CustomError::ImageEncodeError,
            },
            Format::Qoi => if qoi_fits(shape.width, shape.height) {
                result matches Ok(Encoding::Bytes(stream)) && is_qoi_of(
                    stream@,
                    shape.width,
                    shape.height,
                    shape.has_alpha,
                )
            } else {
                result matches Err(error) && error == CustomError::ImageEncodeError
            },
            Format::Jxl | Format::Heic => {
                &&& result matches Ok(Encoding::Pending(job))
                &&& job.format == format
                &&& job.width == shape.width
                &&& job.height == shape.height
                &&& job.well_formed()
            },
        }
    }
}

/// Encodes a picture in the given format. AVIF and QOI are encoded here:
/// AVIF at its fixed speed and quality, QOI as RGBA where the picture has
/// an alpha channel and as RGB where it has none. For the other formats
/// the pixels are laid out as RGB for the codec that the caller runs. A
/// picture without pixels is not encoded.
pub fn encode_picture(picture: &Picture, format: Format) -> (result: Result<Encoding, CustomError>)
    ensures
        encoded_as(picture.shape_of(), format, result),
{
    let shape = picture.shape();
    if shape.width == 0 || shape.height == 0 {
        return Err(CustomError::ImageEncodeError);
    }
    match format {
        Format::Avif => match avif_bytes(picture, AVIF_SPEED, AVIF_QUALITY) {
            Some(bytes) => Ok(Encoding::Bytes(bytes)),
            None => Err(CustomError::ImageEncodeError),
        },
        Format::Qoi => {
            let samples = if shape.has_alpha {
                rgba8_samples(picture)
            } else {
                rgb8_samples(picture)
            };
            match encode_qoi_pixels(shape.width, shape.height, shape.has_alpha, samples.as_slice()) {
                Ok(stream) => Ok(Encoding::Bytes(stream)),
                Err(error) => Err(error),
            }
        },
        Format::Jxl | Format::Heic => {
            let samples = rgb8_samples(picture);
            match rgb_job(format, shape.width, shape.height, samples) {
                Ok(job) => Ok(Encoding::Pending(job)),
                Err(error) => Err(error),
            }
        },
    }
}

/// The stages that `process_image` reports for an outcome: all three where
/// the image was encoded here, the first two where the encoding is still
/// to be done.
pub open spec fn stages_run(output: Encoding) -> Seq<Step> {
    match output {
        Encoding::Bytes(_) => seq![Step::Decoding, Step::Resizing, Step::Encoding],
        Encoding::Pending(_) => seq![Step::Decoding, Step::Resizing],
    }
}

/// What resizing and encoding owe for a picture of a given shape. The run
/// is a resize error exactly where the resize stage refuses the size.
/// Otherwise a run that succeeds gives what the encode stage owes for the
/// target shape, with a timing for each stage that ran, and a run that fails
/// is an encode error, where the encode stage may fail for the target shape.
pub open spec fn processed_as(
    shape: Shape,
    tallest_side: u32,
    format: Format,
    result: Result<Processed, CustomError>,
) -> bool {
    match resize_target(shape, tallest_side) {
        None => result matches Err(error) && error == CustomError::ResizeError,
        Some(target) => match result {
            Ok(processed) => {
                &&& steps_of(processed.timings@) == stages_run(processed.output)
                &&& encoded_as(target, format, Ok(processed.output))
            },
            Err(error) => error == CustomError::ImageEncodeError && encoded_as(
                target,
                format,
                Err(error),
            ),
        },
    }
}

/// Runs resize and encode on a decoded picture and times each; the time
/// that decoding took is put in front. The picture is brought to the size
/// that `resize_target` gives and encoded in the given format. The first
/// stage that fails ends the run with its own error.
pub fn process_picture(picture: Picture, decoding_nanos: u128, tallest_side: u32, format: Format)
    -> (result: Result<Processed, CustomError>)
    ensures
        processed_as(picture.shape_of(), tallest_side, format, result),
        result matches Ok(processed) ==> processed.timings@[0].nanos == decoding_nanos,
{
    let mut timings: Vec<StageTiming> = Vec::new();
    timings.push(StageTiming { step: Step::Decoding, nanos: decoding_nanos });

    let resize_start = clock_now();
    let resized = match resize_picture(picture, tallest_side) {
        Ok(resized) => resized,
        Err(error) => {
            return Err(error);
        },
    };
    timings.push(StageTiming { step: Step::Resizing, nanos: nanos_since(&resize_start) });

    let encode_start = clock_now();
    let output = match encode_picture(&resized, format) {
        Ok(output) => output,
        Err(error) => {
            return Err(error);
        },
    };
    match &output {
        Encoding::Bytes(_) => {
            timings.push(StageTiming { step: Step::Encoding, nanos: nanos_since(&encode_start) });
            assert(steps_of(timings@) =~= stages_run(output));
        },
        Encoding::Pending(_) => {
            assert(steps_of(timings@) =~= stages_run(output));
        },
    }
    Ok(Processed { output, timings })
}

/// Runs decode, resize and encode on the bytes of one source, in that
/// order, and times each. The decoder decides whether the bytes are an
/// image. Bytes that are none are a decode error; bytes that are one give
/// `process_picture` of the picture that they decode to, whatever its shape
/// is. So the first stage that fails ends the run with its own error.
pub fn process_image(image_bytes: &[u8], tallest_side: u32, format: Format) -> (result: Result<
    Processed,
    CustomError,
>)
    ensures
        ({
            ||| result matches Err(error) && error == CustomError::ImageDecodeError
            ||| exists|shape: Shape| #[trigger] processed_as(shape, tallest_side, format, result)
        }),
{
    let decode_start = clock_now();
    let picture = match decode_image(image_bytes) {
        Ok(picture) => picture,
        Err(error) => {
            return Err(error);
        },
    };
    let decoding_nanos = nanos_since(&decode_start);
    let ghost shape = picture.shape_of();
    let result = process_picture(picture, decoding_nanos, tallest_side, format);
    assert(processed_as(shape, tallest_side, format, result));
    result
}

/// Whatever the source and the format, a run that succeeds was asked for a
/// size above zero, and what it made has the calculated size: no side of it
/// is longer than the size asked for, and the longer one is that size.
pub proof fn lemma_processed_within_size(
    shape: Shape,
    tallest_side: u32,
    format: Format,
    result: Result<Processed, CustomError>,
)
    requires
        processed_as(shape, tallest_side, format, result),
        result is Ok,
    ensures
        tallest_side > 0,
        resize_target(shape, tallest_side) is Some,
        resize_target(shape, tallest_side)->0.width <= tallest_side,
        resize_target(shape, tallest_side)->0.height <= tallest_side,
        resize_target(shape, tallest_side)->0.width == tallest_side || resize_target(
            shape,
            tallest_side,
        )->0.height == tallest_side,
{
    crate::dimensions::lemma_zero_input_gives_zero(
        shape.width as int,
        shape.height as int,
        tallest_side as int,
    );
    if shape.width > 0 && shape.height > 0 && tallest_side > 0 {
        crate::dimensions::lemma_longer_side_is_pinned(
            shape.width as int,
            shape.height as int,
            tallest_side as int,
        );
    }
}

} // verus!
