//! The active image: decoded pixels, ready to be drawn.
//!
//! Decoding is the work of the `image` crate. This module hands it the bytes
//! of a file together with the container that the file's name announced, and
//! keeps the outcome as plain values: width, height, and four bytes (red,
//! green, blue, alpha) for every pixel, row by row.

use vstd::prelude::*;
use crate::kind::ImageKind;
use crate::viewport::Size;

verus! {

/// `image::ImageError`: why a decoder gave up. The slideshow only needs to
/// know that it did.
#[verifier::external_type_specification]
#[verifier::external_body]
pub struct ExImageError(image::ImageError);

/// `epaint::ColorImage`: a size and one colour for each pixel, both in the
/// open.
#[verifier::external_type_specification]
pub struct ExColorImage(eframe::epaint::ColorImage);

/// `epaint::Color32`: one colour as the painter stores it.
#[verifier::external_type_specification]
#[verifier::external_body]
pub struct ExColor32(eframe::epaint::Color32);

/// An image as the decoder hands it out: its width and height, and the
/// buffer that holds the samples of its pixels, four for each pixel.
pub struct RgbaFrame {
    pub width: u32,
    pub height: u32,
    pub samples: Vec<u8>,
}

/// A decoder's frame in contracts: width, height, and the samples.
pub struct RgbaFrameView {
    pub width: u32,
    pub height: u32,
    pub samples: Seq<u8>,
}

impl View for RgbaFrame {
    type V = RgbaFrameView;

    open spec fn view(&self) -> RgbaFrameView {
        RgbaFrameView { width: self.width, height: self.height, samples: self.samples@ }
    }
}

/// What the `image` crate makes of `bytes` when they are read as an image
/// of the container `kind`, all sample types turned into 8-bit RGBA: the
/// frame, or nothing where the decoder rejects the bytes. The decoders read
/// nothing but the bytes they are given, so the same bytes give the same
/// frame everywhere.
pub uninterp spec fn decoded_rgba8(bytes: Seq<u8>, kind: ImageKind) -> Option<RgbaFrameView>;

/// Calls `image::load_from_memory_with_format` on `bytes`, with the format
/// that `kind` stands for, and turns the image it returns into plain values
/// with `DynamicImage::to_rgba8` and the buffer's `width`, `height` and
/// `into_vec`. The outcome is what `decoded_rgba8` names. An image buffer
/// always holds at least four samples for each of its pixels; it may hold
/// more.
#[verifier::external_body]
fn load_rgba8(bytes: &[u8], kind: ImageKind) -> (loaded: Result<RgbaFrame, image::ImageError>)
    ensures
        match loaded {
            Ok(frame) => decoded_rgba8(bytes@, kind) == Some(frame@),
            Err(_) => decoded_rgba8(bytes@, kind) is None,
        },
        loaded matches Ok(frame) ==> frame.samples@.len() >= 4 * frame.width * frame.height,
{
    let format = match kind {
        ImageKind::Jpeg => image::ImageFormat::Jpeg,
        ImageKind::Png => image::ImageFormat::Png,
        ImageKind::Gif => image::ImageFormat::Gif,
        ImageKind::Bmp => image::ImageFormat::Bmp,
        ImageKind::WebP => image::ImageFormat::WebP,
    };
    let buffer = image::load_from_memory_with_format(bytes, format)?.to_rgba8();
    Ok(RgbaFrame { width: buffer.width(), height: buffer.height(), samples: buffer.into_vec() })
}

/// Calls `epaint::ColorImage::from_rgba_unmultiplied` with the size
/// `[width, height]`. That function panics unless `rgba` holds exactly four
/// bytes for each pixel of that size. The image it returns has that size
/// and one colour for each four bytes; which colour is not claimed.
#[verifier::external_body]
fn color_image_from_rgba(width: usize, height: usize, rgba: &[u8]) -> (texture:
    eframe::epaint::ColorImage)
    requires
        width * height * 4 == rgba@.len(),
    ensures
        texture.size@ == seq![width, height],
        texture.pixels@.len() == width * height,
{
    eframe::epaint::ColorImage::from_rgba_unmultiplied([width, height], rgba)
}

/// A decoded image: its size in pixels, and its pixels.
#[derive(Debug, PartialEq, Eq)]
pub struct ActiveImage {
    width: u32,
    height: u32,
    pixels: Vec<u8>,
}

/// What an `ActiveImage` stands for in contracts.
pub struct ActiveImageView {
    /// Width and height, in pixels.
    pub size: Size,
    /// Four bytes for each pixel, row by row from the top.
    pub pixels: Seq<u8>,
}

impl View for ActiveImage {
    type V = ActiveImageView;

    closed spec fn view(&self) -> ActiveImageView {
        ActiveImageView {
            size: Size { width: self.width, height: self.height },
            pixels: self.pixels@,
        }
    }
}

impl Clone for ActiveImage {
    fn clone(&self) -> (copy: Self)
        ensures
            copy@ == self@,
    {
        proof {
            use_type_invariant(self);
        }
        ActiveImage { width: self.width, height: self.height, pixels: self.pixels.clone() }
    }
}

impl ActiveImage {
    /// Every image holds exactly four bytes for each of its pixels.
    #[verifier::type_invariant]
    spec fn holds_every_pixel(self) -> bool {
        self.pixels@.len() == 4 * self.width * self.height
    }

    /// The image of `width` by `height` pixels whose samples open `samples`.
    /// There is none where `samples` is too short for that size; samples
    /// beyond the last pixel are dropped.
    pub fn from_rgba8(width: u32, height: u32, samples: Vec<u8>) -> (image: Option<ActiveImage>)
        ensures
            image is Some <==> samples@.len() >= 4 * width * height,
            image matches Some(made) ==> made@ == (ActiveImageView {
                size: Size { width, height },
                pixels: samples@.take(4 * width * height),
            }),
    {
        assert(0 <= width * height <= 0xffff_ffff * 0xffff_ffff) by (nonlinear_arith)
            requires
                0 <= width <= 0xffff_ffff,
                0 <= height <= 0xffff_ffff,
        ;
        let count: u64 = (width as u64) * (height as u64);
        let needed: u128 = 4 * (count as u128);
        assert(needed == 4 * width * height) by (nonlinear_arith)
            requires
                needed == 4 * count,
                count == width * height,
        ;
        if (samples.len() as u128) < needed {
            return None;
        }
        let mut pixels = samples;
        pixels.truncate(needed as usize);
        Some(ActiveImage { width, height, pixels })
    }

    /// The width of the image, in pixels.
    pub fn width(&self) -> (width: u32)
        ensures
            width == self@.size.width,
    {
        self.width
    }

    /// The height of the image, in pixels.
    pub fn height(&self) -> (height: u32)
        ensures
            height == self@.size.height,
    {
        self.height
    }

    /// The size of the image, in pixels.
    pub fn size(&self) -> (size: Size)
        ensures
            size == self@.size,
    {
        Size { width: self.width, height: self.height }
    }

    /// The pixels of the image: four bytes each, row by row from the top.
    pub fn pixels(&self) -> (pixels: &Vec<u8>)
        ensures
            pixels@ == self@.pixels,
            pixels@.len() == 4 * self@.size.width * self@.size.height,
    {
        proof {
            use_type_invariant(self);
        }
        &self.pixels
    }

    /// The image in the form in which the painter takes textures.
    pub fn to_color_image(&self) -> (texture: eframe::epaint::ColorImage)
        ensures
            texture.size@ == seq![self@.size.width as usize, self@.size.height as usize],
            texture.pixels@.len() == self@.size.width * self@.size.height,
    {
        proof {
            use_type_invariant(self);
        }
        assert(self.width * self.height * 4 == self.pixels@.len()) by (nonlinear_arith)
            requires
                self.pixels@.len() == 4 * self.width * self.height,
        ;
        color_image_from_rgba(self.width as usize, self.height as usize, self.pixels.as_slice())
    }
}

/// The image that a frame holds: its size, and the samples of its pixels.
/// Samples that the buffer holds beyond the last pixel are no part of it.
pub open spec fn image_of_frame(frame: RgbaFrameView) -> ActiveImageView {
    ActiveImageView {
        size: Size { width: frame.width, height: frame.height },
        pixels: frame.samples.take(4 * frame.width * frame.height),
    }
}

/// The image that `bytes` decode to as a file of the container `kind`, or
/// nothing where the decoder rejects them.
pub open spec fn decoded_image(bytes: Seq<u8>, kind: ImageKind) -> Option<ActiveImageView> {
    match decoded_rgba8(bytes, kind) {
        Some(frame) => Some(image_of_frame(frame)),
        None => None,
    }
}

/// Whether the decoder accepts `bytes` as an image of the container `kind`.
pub open spec fn decodes(bytes: Seq<u8>, kind: ImageKind) -> bool {
    decoded_rgba8(bytes, kind) is Some
}

/// What an image that may be absent stands for in contracts.
pub open spec fn view_of(image: Option<ActiveImage>) -> Option<ActiveImageView> {
    match image {
        Some(image) => Some(image@),
        None => None,
    }
}

/// Decodes the content of a file as an image of the container `kind`.
/// There is an image exactly where the decoder accepts the bytes, and it
/// holds what the decoder returned: nothing is lost, nothing is added.
pub fn decode(bytes: &[u8], kind: ImageKind) -> (decoded: Option<ActiveImage>)
    ensures
        view_of(decoded) == decoded_image(bytes@, kind),
        decoded is Some <==> decodes(bytes@, kind),
{
    match load_rgba8(bytes, kind) {
        Ok(frame) => ActiveImage::from_rgba8(frame.width, frame.height, frame.samples),
        Err(_) => None,
    }
}

} // verus!
