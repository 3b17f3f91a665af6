//! The calls into the format decoders and into std that the pipeline makes,
//! each with what it relies on.

use crate::frame::{ChannelLayout, DecodedFrame, FrameView};
use vstd::prelude::*;
use vstd::utf8::{decode_utf8, valid_utf8};

verus! {

/// The extension that `std::path::Path` finds in a path.
pub uninterp spec fn path_extension(path: Seq<char>) -> Option<Seq<char>>;

/// The frame that libspng decodes from a PNG stream, if it accepts it.
pub uninterp spec fn png_frame_of(file: Seq<u8>) -> Option<FrameView>;

/// The frame that the QOI decoder decodes from a QOI stream, if it accepts it.
pub uninterp spec fn qoi_frame_of(file: Seq<u8>) -> Option<FrameView>;

/// Width, height and RGBA samples that the `image` crate decodes from bytes
/// of any format it recognises, if it does.
pub uninterp spec fn image_rgba_of(file: Seq<u8>) -> Option<(u32, u32, Seq<u8>)>;

/// Relies on `std::path::Path::extension`: the part of the file name after
/// its last dot, if it has one that does not start it. A path given as text
/// has an extension that is text too, so the lossy conversion keeps it whole.
#[verifier::external_body]
pub(crate) fn extension_of(path: &str) -> (r: Option<String>)
    ensures
        r is None <==> path_extension(path@) is None,
        r matches Some(e) ==> path_extension(path@) == Some(e@),
{
    match std::path::Path::new(path).extension() {
        Some(e) => Some(e.to_string_lossy().into_owned()),
        None => None,
    }
}

/// Relies on `spng::decode` in the stream's own sample format: the first
/// frame's width, height, colour type and samples, or libspng's error.
#[verifier::external_body]
pub(crate) fn spng_decode(file: &[u8]) -> (r: Result<DecodedFrame, String>)
    ensures
        r is Err <==> png_frame_of(file@) is None,
        r matches Ok(f) ==> png_frame_of(file@) == Some(f@),
{
    match spng::decode(std::io::Cursor::new(file), spng::Format::Png) {
        Ok((info, samples)) => {
            let layout = match info.color_type {
                spng::ColorType::Grayscale => ChannelLayout::Grayscale,
                spng::ColorType::GrayscaleAlpha => ChannelLayout::GrayscaleAlpha,
                spng::ColorType::Indexed => ChannelLayout::Indexed,
                spng::ColorType::Truecolor => ChannelLayout::Rgb,
                spng::ColorType::TruecolorAlpha => ChannelLayout::Rgba,
            };
            Ok(DecodedFrame { width: info.width, height: info.height, layout, samples })
        },
        Err(e) => Err(e.to_string()),
    }
}

/// Relies on `qoi::decode_to_vec`: the header's width, height and channel
/// count with the decoded samples, or the decoder's error.
#[verifier::external_body]
pub(crate) fn qoi_decode(file: &[u8]) -> (r: Result<DecodedFrame, String>)
    ensures
        r is Err <==> qoi_frame_of(file@) is None,
        r matches Ok(f) ==> qoi_frame_of(file@) == Some(f@),
{
    match qoi::decode_to_vec(file) {
        Ok((header, samples)) => {
            let layout = match header.channels {
                qoi::Channels::Rgb => ChannelLayout::Rgb,
                qoi::Channels::Rgba => ChannelLayout::Rgba,
            };
            Ok(DecodedFrame { width: header.width, height: header.height, layout, samples })
        },
        Err(e) => Err(e.to_string()),
    }
}

/// Relies on `image::load_from_memory`, which guesses the format from the
/// leading bytes and decodes the image; the result is taken as 8-bit RGBA
/// (`DynamicImage::to_rgba8`) and handed over as width, height and samples.
#[verifier::external_body]
pub(crate) fn image_decode_rgba(file: &[u8]) -> (r: Option<(u32, u32, Vec<u8>)>)
    ensures
        r is None <==> image_rgba_of(file@) is None,
        r matches Some((w, h, s)) ==> image_rgba_of(file@) == Some((w, h, s@)),
{
    match image::load_from_memory(file) {
        Ok(img) => {
            let rgba = img.to_rgba8();
            Some((rgba.width(), rgba.height(), rgba.into_raw()))
        },
        Err(_) => None,
    }
}

/// Relies on `std::str::from_utf8`: the bytes read as text when they are
/// valid UTF-8.
#[verifier::external_body]
pub(crate) fn text_from_utf8(bytes: &[u8]) -> (r: Option<&str>)
    ensures
        r is Some <==> valid_utf8(bytes@),
        r matches Some(s) ==> s@ == decode_utf8(bytes@),
{
    std::str::from_utf8(bytes).ok()
}

} // verus!
