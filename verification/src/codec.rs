//! Raster files in and out, through the `image` crate.
//!
//! The crate's decoders and its PNG encoder are called as they are; what
//! they compute is not restated here. Their results are given names,
//! [`decoded_rgb8`] and [`encoded_png`], and the functions of this module
//! say what the library makes of each possible result.

use vstd::prelude::*;
use crate::error::{DecodeError, ExportError};
use crate::ingest::RasterFormat;
use crate::readback::ReadbackLayout;

verus! {

/// The error type of the `image` crate, carried through unread.
#[verifier::external_type_specification]
#[verifier::external_body]
pub struct ExImageError(::image::ImageError);

/// What the `image` crate decodes `bytes` to when it reads them as `format`
/// and converts the picture to eight-bit RGB: width, height and the
/// interleaved samples, or `None` where it reports an error.
pub uninterp spec fn decoded_rgb8(bytes: Seq<u8>, format: RasterFormat) -> Option<
    (u32, u32, Seq<u8>),
>;

/// The PNG file that the `image` crate writes for a `width` by `height`
/// picture with the interleaved eight-bit RGBA samples `rgba`, or `None`
/// where it reports an error.
pub uninterp spec fn encoded_png(width: u32, height: u32, rgba: Seq<u8>) -> Option<Seq<u8>>;

/// Calls `image::load_from_memory_with_format` on `bytes` with the format
/// that `format` stands for, then `DynamicImage::to_rgb8`, and takes the
/// result apart into width, height and raw buffer. The contract claims only
/// that the outcome is the one named [`decoded_rgb8`]: the decoders read
/// nothing but their arguments.
#[verifier::external_body]
fn decode_with_codec(bytes: &[u8], format: RasterFormat) -> (decoded: Result<
    (u32, u32, Vec<u8>),
    ::image::ImageError,
>)
    ensures
        match decoded {
            Ok((width, height, samples)) => decoded_rgb8(bytes@, format) == Some(
                (width, height, samples@),
            ),
            Err(_) => decoded_rgb8(bytes@, format) is None,
        },
{
    let format = match format {
        RasterFormat::Png => ::image::ImageFormat::Png,
        RasterFormat::Jpeg => ::image::ImageFormat::Jpeg,
        RasterFormat::Bmp => ::image::ImageFormat::Bmp,
        RasterFormat::Gif => ::image::ImageFormat::Gif,
        RasterFormat::Tiff => ::image::ImageFormat::Tiff,
    };
    let rgb = ::image::load_from_memory_with_format(bytes, format)?.to_rgb8();
    Ok((rgb.width(), rgb.height(), rgb.into_raw()))
}

/// Calls `PngEncoder::write_image` of the `image` crate, with a vector as
/// the sink and RGBA8 as the colour type. The encoder panics on a buffer
/// whose length is not `width * height * 4`, so such a buffer is excluded.
/// The contract claims only that the outcome is the one named
/// [`encoded_png`].
#[verifier::external_body]
fn encode_with_codec(width: u32, height: u32, rgba: &[u8]) -> (encoded: Result<
    Vec<u8>,
    ::image::ImageError,
>)
    requires
        rgba@.len() == width as int * height as int * 4,
    ensures
        match encoded {
            Ok(file) => encoded_png(width, height, rgba@) == Some(file@),
            Err(_) => encoded_png(width, height, rgba@) is None,
        },
{
    let mut file = Vec::new();
    let encoder = ::image::codecs::png::PngEncoder::new(&mut file);
    ::image::ImageEncoder::write_image(encoder, rgba, width, height, ::image::ExtendedColorType::Rgba8)?;
    Ok(file)
}

/// What a [`RasterImage`] stands for.
pub struct RasterImageView {
    pub width: nat,
    pub height: nat,
    pub samples: Seq<u8>,
}

/// A decoded raster picture: eight-bit red, green and blue for every pixel,
/// row after row, still gamma-encoded.
#[derive(Debug)]
pub struct RasterImage {
    width: u32,
    height: u32,
    samples: Vec<u8>,
}

impl View for RasterImage {
    type V = RasterImageView;

    closed spec fn view(&self) -> RasterImageView {
        RasterImageView {
            width: self.width as nat,
            height: self.height as nat,
            samples: self.samples@,
        }
    }
}

/// Whether `samples` are exactly the three channels of a `width` by
/// `height` picture.
pub open spec fn fills_rgb8(width: u32, height: u32, samples: Seq<u8>) -> bool {
    samples.len() == width as int * height as int * 3
}

/// The pixels that interleaved samples hold: one for every whole group of
/// three.
pub open spec fn rgb_pixels(samples: Seq<u8>) -> Seq<(u8, u8, u8)> {
    Seq::new(
        (samples.len() / 3) as nat,
        |i: int| (samples[3 * i], samples[3 * i + 1], samples[3 * i + 2]),
    )
}

/// What the library makes of a decoder's outcome: a picture where the
/// decoder succeeded and its buffer has three samples for every pixel, a
/// corrupt file otherwise.
pub open spec fn raster_of(outcome: Option<(u32, u32, Seq<u8>)>) -> Result<
    RasterImageView,
    DecodeError,
> {
    match outcome {
        Some((width, height, samples)) => if fills_rgb8(width, height, samples) {
            Ok(RasterImageView { width: width as nat, height: height as nat, samples })
        } else {
            Err(DecodeError::Corrupt)
        },
        None => Err(DecodeError::Corrupt),
    }
}

impl RasterImage {
    #[verifier::type_invariant]
    spec fn complete(&self) -> bool {
        fills_rgb8(self.width, self.height, self.samples@)
    }

    /// The picture that a decoder produced. A buffer that does not hold
    /// exactly three samples for every pixel is a corrupt result.
    pub fn from_decoded(width: u32, height: u32, samples: Vec<u8>) -> (image: Result<
        RasterImage,
        DecodeError,
    >)
        ensures
            image is Ok <==> fills_rgb8(width, height, samples@),
            image matches Ok(i) ==> i@ == (RasterImageView {
                width: width as nat,
                height: height as nat,
                samples: samples@,
            }),
            image matches Err(e) ==> e == DecodeError::Corrupt,
    {
        assert(width as int * height as int * 3 <= 0xffff_ffff * 0xffff_ffff * 3)
            by (nonlinear_arith)
            requires
                0 <= width <= 0xffff_ffff,
                0 <= height <= 0xffff_ffff,
        ;
        if samples.len() as u128 != width as u128 * height as u128 * 3 {
            return Err(DecodeError::Corrupt);
        }
        Ok(RasterImage { width, height, samples })
    }

    /// Width in pixels.
    pub fn width(&self) -> (width: u32)
        ensures
            width == self@.width,
    {
        self.width
    }

    /// Height in pixels.
    pub fn height(&self) -> (height: u32)
        ensures
            height == self@.height,
    {
        self.height
    }

    /// The interleaved samples; there are `3 * width * height` of them.
    pub fn samples(&self) -> (samples: &Vec<u8>)
        ensures
            samples@ == self@.samples,
            fills_rgb8(self@.width as u32, self@.height as u32, samples@),
    {
        proof {
            use_type_invariant(self);
        }
        &self.samples
    }

    /// The samples grouped into pixels, `width * height` of them.
    pub fn pixels(&self) -> (pixels: Vec<(u8, u8, u8)>)
        ensures
            pixels@ == rgb_pixels(self@.samples),
            pixels@.len() == self@.width * self@.height,
    {
        proof {
            use_type_invariant(self);
        }
        let count: usize = self.samples.len() / 3;
        let mut pixels: Vec<(u8, u8, u8)> = Vec::new();
        let mut i: usize = 0;
        while i < count
            invariant
                count == self.samples@.len() / 3,
                self.samples@.len() <= usize::MAX,
                i <= count,
                pixels@.len() == i,
                forall|j: int|
                    0 <= j < i ==> #[trigger] pixels@[j] == rgb_pixels(self.samples@)[j],
            decreases count - i,
        {
            let at: usize = 3 * i;
            pixels.push((self.samples[at], self.samples[at + 1], self.samples[at + 2]));
            i = i + 1;
        }
        assert(pixels@ =~= rgb_pixels(self.samples@));
        pixels
    }
}

/// The picture in the contents of a raster file of the given format.
/// Whatever the decoder refuses, and any result whose buffer does not match
/// its dimensions, is reported as a corrupt file.
pub fn decode_raster(bytes: &[u8], format: RasterFormat) -> (image: Result<RasterImage, DecodeError>)
    ensures
        match image {
            Ok(i) => raster_of(decoded_rgb8(bytes@, format)) == Ok::<RasterImageView, DecodeError>(
                i@,
            ),
            Err(e) => raster_of(decoded_rgb8(bytes@, format)) == Err::<
                RasterImageView,
                DecodeError,
            >(e),
        },
{
    match decode_with_codec(bytes, format) {
        Ok((width, height, samples)) => RasterImage::from_decoded(width, height, samples),
        Err(_) => Err(DecodeError::Corrupt),
    }
}

/// The PNG file for a `width` by `height` picture of interleaved RGBA8
/// samples. Samples that do not fill the picture exactly, and whatever the
/// encoder refuses, are reported as a failure to write.
pub fn encode_png(width: u32, height: u32, rgba: &[u8]) -> (file: Result<Vec<u8>, ExportError>)
    ensures
        match file {
            Ok(f) => rgba@.len() == width as int * height as int * 4 && encoded_png(
                width,
                height,
                rgba@,
            ) == Some(f@),
            Err(e) => e == ExportError::IOFailure && (rgba@.len() != width as int * height as int
                * 4 || encoded_png(width, height, rgba@) is None),
        },
{
    assert(width as int * height as int * 4 <= 0xffff_ffff * 0xffff_ffff * 4) by (nonlinear_arith)
        requires
            0 <= width <= 0xffff_ffff,
            0 <= height <= 0xffff_ffff,
    ;
    if rgba.len() as u128 != width as u128 * height as u128 * 4 {
        return Err(ExportError::IOFailure);
    }
    match encode_with_codec(width, height, rgba) {
        Ok(f) => Ok(f),
        Err(_) => Err(ExportError::IOFailure),
    }
}

/// The file to write for an export: the image taken out of the mapped
/// staging buffer, padding dropped, and encoded. A buffer too short for the
/// layout, and whatever the encoder refuses, are reported as a failure to
/// write.
pub fn export_file(layout: &ReadbackLayout, mapped: &[u8]) -> (file: Result<Vec<u8>, ExportError>)
    ensures
        match file {
            Ok(f) => mapped@.len() >= layout@.extent() && encoded_png(
                layout@.width as u32,
                layout@.height as u32,
                layout@.image(mapped@),
            ) == Some(f@),
            Err(e) => e == ExportError::IOFailure && (mapped@.len() < layout@.extent()
                || encoded_png(
                layout@.width as u32,
                layout@.height as u32,
                layout@.image(mapped@),
            ) is None),
        },
{
    match layout.strip_padding(mapped) {
        Some(image) => encode_png(layout.width(), layout.height(), image.as_slice()),
        None => Err(ExportError::IOFailure),
    }
}

} // verus!
