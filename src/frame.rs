//! Decoded rasters of three or four samples per pixel, built only when the
//! samples fit the declared geometry, and their conversion into a normalised
//! image.

use crate::error::DecodeError;
use crate::pixels::{from_rgb_unmultiplied, from_rgba_unmultiplied, pixels_of, ColorImage};
use vstd::prelude::*;

verus! {

/// How the samples of a decoded frame are laid out per pixel.
#[derive(Clone, Copy, Debug, PartialEq, Eq, Structural)]
pub enum ChannelLayout {
    Grayscale,
    GrayscaleAlpha,
    Indexed,
    Rgb,
    Rgba,
}

/// What a format decoder hands over: the geometry, the sample layout, and
/// the samples in row-major order.
#[derive(Clone, Debug, PartialEq, Eq)]
pub struct DecodedFrame {
    pub width: u32,
    pub height: u32,
    pub layout: ChannelLayout,
    pub samples: Vec<u8>,
}

/// The plain value of a decoded frame.
pub struct FrameView {
    pub width: u32,
    pub height: u32,
    pub layout: ChannelLayout,
    pub samples: Seq<u8>,
}

impl View for DecodedFrame {
    type V = FrameView;

    open spec fn view(&self) -> FrameView {
        FrameView {
            width: self.width,
            height: self.height,
            layout: self.layout,
            samples: self.samples@,
        }
    }
}

/// What a decoded raster holds: its width and height in pixels and its
/// samples in row-major order.
pub struct RasterView {
    pub width: nat,
    pub height: nat,
    pub samples: Seq<u8>,
}

/// A raster of red, green and blue samples, `width * height * 3` of them.
pub struct RgbImage {
    width: u32,
    height: u32,
    samples: Vec<u8>,
}

/// A raster of red, green, blue and alpha samples, `width * height * 4` of them.
pub struct RgbaImage {
    width: u32,
    height: u32,
    samples: Vec<u8>,
}

impl View for RgbImage {
    type V = RasterView;

    closed spec fn view(&self) -> RasterView {
        RasterView { width: self.width as nat, height: self.height as nat, samples: self.samples@ }
    }
}

impl View for RgbaImage {
    type V = RasterView;

    closed spec fn view(&self) -> RasterView {
        RasterView { width: self.width as nat, height: self.height as nat, samples: self.samples@ }
    }
}

impl RgbImage {
    #[verifier::type_invariant]
    spec fn fits(&self) -> bool {
        self.samples@.len() == self.width * self.height * 3
    }

    pub fn width(&self) -> (w: u32)
        ensures
            w == self@.width,
    {
        self.width
    }

    pub fn height(&self) -> (h: u32)
        ensures
            h == self@.height,
    {
        self.height
    }

    /// The samples, three for each pixel.
    pub fn as_raw(&self) -> (s: &[u8])
        ensures
            s@ == self@.samples,
            s@.len() == self@.width * self@.height * 3,
    {
        proof {
            use_type_invariant(self);
        }
        self.samples.as_slice()
    }
}

impl RgbaImage {
    #[verifier::type_invariant]
    spec fn fits(&self) -> bool {
        self.samples@.len() == self.width * self.height * 4
    }

    pub fn width(&self) -> (w: u32)
        ensures
            w == self@.width,
    {
        self.width
    }

    pub fn height(&self) -> (h: u32)
        ensures
            h == self@.height,
    {
        self.height
    }

    /// The samples, four for each pixel.
    pub fn as_raw(&self) -> (s: &[u8])
        ensures
            s@ == self@.samples,
            s@.len() == self@.width * self@.height * 4,
    {
        proof {
            use_type_invariant(self);
        }
        self.samples.as_slice()
    }
}

/// The number of pixels of a `width` by `height` raster.
fn pixel_count(width: u32, height: u32) -> (n: u64)
    ensures
        n == width * height,
{
    assert(width * height <= u32::MAX * u32::MAX) by (nonlinear_arith)
        requires
            width <= u32::MAX,
            height <= u32::MAX,
    ;
    width as u64 * height as u64
}

/// Wraps `data` as an RGB raster of `width` by `height` pixels; fails with
/// `MalformedBuffer` unless it holds exactly three samples per pixel.
pub fn rgb_image_from_raw(width: u32, height: u32, data: Vec<u8>, ext: &str) -> (r: Result<
    RgbImage,
    DecodeError,
>)
    ensures
        data@.len() == width * height * 3 <==> r is Ok,
        r matches Ok(img) ==> img@ == (RasterView {
            width: width as nat,
            height: height as nat,
            samples: data@,
        }),
        r matches Err(e) ==> e matches DecodeError::MalformedBuffer { extension } && extension@
            == ext@,
{
    let pixels = pixel_count(width, height);
    if pixels as u128 * 3 == data.len() as u128 {
        Ok(RgbImage { width, height, samples: data })
    } else {
        Err(DecodeError::MalformedBuffer { extension: ext.to_string() })
    }
}

/// Wraps `data` as an RGBA raster of `width` by `height` pixels; fails with
/// `MalformedBuffer` unless it holds exactly four samples per pixel.
pub fn rgba_image_from_raw(width: u32, height: u32, data: Vec<u8>, ext: &str) -> (r: Result<
    RgbaImage,
    DecodeError,
>)
    ensures
        data@.len() == width * height * 4 <==> r is Ok,
        r matches Ok(img) ==> img@ == (RasterView {
            width: width as nat,
            height: height as nat,
            samples: data@,
        }),
        r matches Err(e) ==> e matches DecodeError::MalformedBuffer { extension } && extension@
            == ext@,
{
    let pixels = pixel_count(width, height);
    if pixels as u128 * 4 == data.len() as u128 {
        Ok(RgbaImage { width, height, samples: data })
    } else {
        Err(DecodeError::MalformedBuffer { extension: ext.to_string() })
    }
}

/// The normalised image of an RGB raster: same size, every pixel opaque.
pub fn color_image_from_rgb_image_buffer(image: RgbImage) -> (r: Result<ColorImage, DecodeError>)
    ensures
        r matches Ok(img) && img.size[0] == image@.width && img.size[1] == image@.height
            && img.pixels@ == pixels_of(image@.samples, 3) && img.wf(),
{
    let size: [usize; 2] = [image.width() as usize, image.height() as usize];
    Ok(from_rgb_unmultiplied(size, image.as_raw()))
}

/// The normalised image of an RGBA raster: same size, samples kept as they stand.
pub fn color_image_from_rgba_image_buffer(image: RgbaImage) -> (r: Result<ColorImage, DecodeError>)
    ensures
        r matches Ok(img) && img.size[0] == image@.width && img.size[1] == image@.height
            && img.pixels@ == pixels_of(image@.samples, 4) && img.wf(),
{
    let size: [usize; 2] = [image.width() as usize, image.height() as usize];
    Ok(from_rgba_unmultiplied(size, image.as_raw()))
}

} // verus!
