//! Format dispatch by extension and the per-format decode paths, from a
//! file's bytes to a normalised image or a typed error.

use crate::codecs::{
    extension_of, image_decode_rgba, image_rgba_of, path_extension, png_frame_of, qoi_decode,
    qoi_frame_of, spng_decode, text_from_utf8,
};
use crate::error::DecodeError;
use crate::frame::{
    color_image_from_rgb_image_buffer, color_image_from_rgba_image_buffer, rgb_image_from_raw,
    rgba_image_from_raw, ChannelLayout, DecodedFrame, FrameView, RasterView, RgbImage,
};
use crate::pixels::{pixels_of, ColorImage, Rgba8};
use vstd::prelude::*;
use vstd::utf8::{decode_utf8, valid_utf8};

verus! {

/// The decode strategy that a file's extension selects.
#[derive(Clone, Copy, Debug, PartialEq, Eq, Structural)]
pub enum Decoder {
    Jpeg,
    Png,
    Qoi,
    Generic,
}

/// The dispatch table: `jpg` and `jfif` go to the JPEG decoder, `png` and
/// `qoi` to theirs, anything else and no extension at all to the generic
/// decoder. The match is exact, case included.
pub open spec fn decoder_for(ext: Option<Seq<char>>) -> Decoder {
    match ext {
        Some(e) => if e == "jpg"@ || e == "jfif"@ {
            Decoder::Jpeg
        } else if e == "png"@ {
            Decoder::Png
        } else if e == "qoi"@ {
            Decoder::Qoi
        } else {
            Decoder::Generic
        },
        None => Decoder::Generic,
    }
}

/// The extension as it is carried in errors: empty when there is none.
pub open spec fn extension_text(ext: Option<Seq<char>>) -> Seq<char> {
    match ext {
        Some(e) => e,
        None => Seq::empty(),
    }
}

/// What a load comes to, error messages left aside.
pub enum LoadOutcome {
    Loaded { width: nat, height: nat, pixels: Seq<Rgba8> },
    UnreadableFile,
    UnsupportedFormat,
    UnsupportedColorType,
    Decoding { extension: Seq<char> },
    MalformedBuffer { extension: Seq<char> },
}

/// The outcome of a result of the pipeline.
pub open spec fn outcome(r: Result<ColorImage, DecodeError>) -> LoadOutcome {
    match r {
        Ok(img) => LoadOutcome::Loaded {
            width: img.size[0] as nat,
            height: img.size[1] as nat,
            pixels: img.pixels@,
        },
        Err(DecodeError::UnreadableFile) => LoadOutcome::UnreadableFile,
        Err(DecodeError::UnsupportedFormat) => LoadOutcome::UnsupportedFormat,
        Err(DecodeError::UnsupportedColorType) => LoadOutcome::UnsupportedColorType,
        Err(DecodeError::Decoding { extension, .. }) => LoadOutcome::Decoding {
            extension: extension@,
        },
        Err(DecodeError::MalformedBuffer { extension }) => LoadOutcome::MalformedBuffer {
            extension: extension@,
        },
    }
}

/// A raster of `channels` (3 or 4) samples per pixel: its colours when the
/// samples fit `width * height` pixels exactly, else `MalformedBuffer`.
pub open spec fn raster_outcome(
    width: u32,
    height: u32,
    channels: nat,
    samples: Seq<u8>,
    ext: Seq<char>,
) -> LoadOutcome {
    if samples.len() == width * height * channels {
        LoadOutcome::Loaded {
            width: width as nat,
            height: height as nat,
            pixels: pixels_of(samples, channels),
        }
    } else {
        LoadOutcome::MalformedBuffer { extension: ext }
    }
}

/// A frame that a format decoder handed over: RGB and RGBA frames are
/// normalised, other layouts are `UnsupportedColorType`.
pub open spec fn frame_outcome(f: FrameView, ext: Seq<char>) -> LoadOutcome {
    match f.layout {
        ChannelLayout::Rgb => raster_outcome(f.width, f.height, 3, f.samples, ext),
        ChannelLayout::Rgba => raster_outcome(f.width, f.height, 4, f.samples, ext),
        _ => LoadOutcome::UnsupportedColorType,
    }
}

/// What a format decoder's answer comes to: its rejection is `Decoding`.
pub open spec fn decoded_outcome(d: Option<FrameView>, ext: Seq<char>) -> LoadOutcome {
    match d {
        Some(f) => frame_outcome(f, ext),
        None => LoadOutcome::Decoding { extension: ext },
    }
}

/// What the JPEG decoder's answer (an RGB raster or a message) comes to.
pub open spec fn jpeg_outcome(d: Result<(u32, u32, Vec<u8>), String>, ext: Seq<char>) -> LoadOutcome {
    match d {
        Ok((w, h, s)) => raster_outcome(w, h, 3, s@, ext),
        Err(_) => LoadOutcome::Decoding { extension: ext },
    }
}

/// What the generic decoder's answer comes to: its rejection is `UnsupportedFormat`.
pub open spec fn generic_outcome(d: Option<(u32, u32, Seq<u8>)>, ext: Seq<char>) -> LoadOutcome {
    match d {
        Some((w, h, s)) => raster_outcome(w, h, 4, s, ext),
        None => LoadOutcome::UnsupportedFormat,
    }
}

/// Whether the extension of `path` selects the JPEG decoder.
pub open spec fn selects_jpeg(path: Seq<char>) -> bool {
    decoder_for(path_extension(path)) == Decoder::Jpeg
}

/// What loading `bytes` under `path` comes to, for a path whose extension
/// does not select the JPEG decoder.
pub open spec fn file_outcome(path: Seq<char>, bytes: Seq<u8>) -> LoadOutcome {
    let ext = path_extension(path);
    let text = extension_text(ext);
    match decoder_for(ext) {
        Decoder::Png => decoded_outcome(png_frame_of(bytes), text),
        Decoder::Qoi => decoded_outcome(qoi_frame_of(bytes), text),
        _ => generic_outcome(image_rgba_of(bytes), text),
    }
}

/// Whether two texts hold the same characters.
fn text_equals(a: &str, b: &str) -> (r: bool)
    ensures
        r == (a@ == b@),
{
    let n = a.unicode_len();
    if n != b.unicode_len() {
        return false;
    }
    let mut i: usize = 0;
    while i < n
        invariant
            n == a@.len(),
            n == b@.len(),
            i <= n,
            forall|j: int| 0 <= j < i ==> a@[j] == b@[j],
        decreases n - i,
    {
        if a.get_char(i) != b.get_char(i) {
            return false;
        }
        i = i + 1;
    }
    assert(a@ =~= b@);
    true
}

/// Selects the decoder for a file extension (see `decoder_for`).
pub fn decoder_for_extension(ext: Option<&str>) -> (d: Decoder)
    ensures
        d == decoder_for(
            match ext {
                Some(e) => Some(e@),
                None => None,
            },
        ),
{
    match ext {
        Some(e) => {
            if text_equals(e, "jpg") || text_equals(e, "jfif") {
                Decoder::Jpeg
            } else if text_equals(e, "png") {
                Decoder::Png
            } else if text_equals(e, "qoi") {
                Decoder::Qoi
            } else {
                Decoder::Generic
            }
        },
        None => Decoder::Generic,
    }
}

/// Builds the RGB raster that the JPEG decoder answered with, or wraps its
/// rejection as `Decoding` with `ext` as context.
pub fn decode_jpg(decoded: Result<(u32, u32, Vec<u8>), String>, ext: &str) -> (r: Result<
    RgbImage,
    DecodeError,
>)
    ensures
        decoded matches Err(m) ==> r matches Err(DecodeError::Decoding { extension, message })
            && extension@ == ext@ && message@ == m@,
        decoded matches Ok((w, h, s)) ==> {
            &&& (s@.len() == w * h * 3 <==> r is Ok)
            &&& r matches Ok(img) ==> img@ == (RasterView {
                width: w as nat,
                height: h as nat,
                samples: s@,
            })
            &&& r matches Err(e) ==> e matches DecodeError::MalformedBuffer { extension }
                && extension@ == ext@
        },
{
    match decoded {
        Ok((width, height, samples)) => rgb_image_from_raw(width, height, samples, ext),
        Err(message) => Err(DecodeError::Decoding { extension: ext.to_string(), message }),
    }
}

/// Normalises the frame that a format decoder answered with, or wraps its
/// rejection as `Decoding` with `ext` as context.
pub fn color_image_from_decoded(decoded: Result<DecodedFrame, String>, ext: &str) -> (r: Result<
    ColorImage,
    DecodeError,
>)
    ensures
        outcome(r) == decoded_outcome(
            match decoded {
                Ok(f) => Some(f@),
                Err(_) => None,
            },
            ext@,
        ),
        decoded matches Err(m) ==> r matches Err(DecodeError::Decoding { message, .. })
            && message@ == m@,
        r matches Ok(img) ==> img.wf(),
{
    match decoded {
        Ok(frame) => match frame.layout {
            ChannelLayout::Rgb => {
                match rgb_image_from_raw(frame.width, frame.height, frame.samples, ext) {
                    Ok(image) => color_image_from_rgb_image_buffer(image),
                    Err(e) => Err(e),
                }
            },
            ChannelLayout::Rgba => {
                match rgba_image_from_raw(frame.width, frame.height, frame.samples, ext) {
                    Ok(image) => color_image_from_rgba_image_buffer(image),
                    Err(e) => Err(e),
                }
            },
            _ => Err(DecodeError::UnsupportedColorType),
        },
        Err(message) => Err(DecodeError::Decoding { extension: ext.to_string(), message }),
    }
}

/// Decodes PNG bytes with libspng and normalises the frame.
pub fn decode_png(file: &[u8], ext: &str) -> (r: Result<ColorImage, DecodeError>)
    ensures
        outcome(r) == decoded_outcome(png_frame_of(file@), ext@),
        r matches Ok(img) ==> img.wf(),
{
    color_image_from_decoded(spng_decode(file), ext)
}

/// Decodes QOI bytes and normalises the frame.
pub fn decode_qoi(file: &[u8], ext: &str) -> (r: Result<ColorImage, DecodeError>)
    ensures
        outcome(r) == decoded_outcome(qoi_frame_of(file@), ext@),
        r matches Ok(img) ==> img.wf(),
{
    color_image_from_decoded(qoi_decode(file), ext)
}

/// Normalises what the generic decoder answered with (width, height and RGBA
/// samples), or fails with `UnsupportedFormat` where it recognised nothing.
pub fn color_image_from_generic(decoded: Option<(u32, u32, Vec<u8>)>, ext: &str) -> (r: Result<
    ColorImage,
    DecodeError,
>)
    ensures
        outcome(r) == generic_outcome(
            match decoded {
                Some((w, h, s)) => Some((w, h, s@)),
                None => None,
            },
            ext@,
        ),
        r matches Ok(img) ==> img.wf(),
{
    match decoded {
        Some((width, height, samples)) => {
            match rgba_image_from_raw(width, height, samples, ext) {
                Ok(image) => color_image_from_rgba_image_buffer(image),
                Err(e) => Err(e),
            }
        },
        None => Err(DecodeError::UnsupportedFormat),
    }
}

/// Decodes bytes of any format that the `image` crate recognises, as RGBA.
pub fn decode_generic(file: &[u8], ext: &str) -> (r: Result<ColorImage, DecodeError>)
    ensures
        outcome(r) == generic_outcome(image_rgba_of(file@), ext@),
        r matches Ok(img) ==> img.wf(),
{
    color_image_from_generic(image_decode_rgba(file), ext)
}

/// Loads an image file: `path` names it and selects the decoder by its
/// extension, `file` holds the bytes that reading it gave (`None` where the
/// read failed), and `decode_jpeg` is the JPEG decoder, called on those bytes
/// when the extension is `jpg` or `jfif`, answering with an RGB raster or a
/// message.
pub fn load_image_from_path<F>(path: &str, file: Option<&[u8]>, decode_jpeg: F) -> (r: Result<
    ColorImage,
    DecodeError,
>) where F: Fn(&[u8]) -> Result<(u32, u32, Vec<u8>), String>
    requires
        file matches Some(bytes) ==> decode_jpeg.requires((bytes,)),
    ensures
        file is None ==> r matches Err(DecodeError::UnreadableFile),
        file matches Some(bytes) ==> if selects_jpeg(path@) {
            exists|d: Result<(u32, u32, Vec<u8>), String>|
                decode_jpeg.ensures((bytes,), d) && outcome(r) == jpeg_outcome(
                    d,
                    extension_text(path_extension(path@)),
                )
        } else {
            outcome(r) == file_outcome(path@, bytes@)
        },
        r matches Ok(img) ==> img.wf(),
{
    let bytes = match file {
        Some(bytes) => bytes,
        None => return Err(DecodeError::UnreadableFile),
    };
    let ext = extension_of(path);
    let text = match &ext {
        Some(e) => e.as_str(),
        None => "",
    };
    proof {
        reveal_strlit("");
    }
    assert(text@ == extension_text(path_extension(path@)));
    let decoder = decoder_for_extension(
        match &ext {
            Some(e) => Some(e.as_str()),
            None => None,
        },
    );
    match decoder {
        Decoder::Jpeg => {
            let decoded = decode_jpeg(bytes);
            let ghost answer = decoded;
            let r = match decode_jpg(decoded, text) {
                Ok(image) => color_image_from_rgb_image_buffer(image),
                Err(e) => Err(e),
            };
            assert(decode_jpeg.ensures((bytes,), answer) && outcome(r) == jpeg_outcome(answer, text@));
            r
        },
        Decoder::Png => decode_png(bytes, text),
        Decoder::Qoi => decode_qoi(bytes, text),
        Decoder::Generic => decode_generic(bytes, text),
    }
}

/// The path's text, where its bytes (as the platform encodes them) are valid
/// UTF-8.
pub fn path_to_string(path: &[u8]) -> (r: Option<String>)
    ensures
        r is Some <==> valid_utf8(path@),
        r matches Some(s) ==> s@ == decode_utf8(path@),
{
    match text_from_utf8(path) {
        Some(s) => Some(s.to_string()),
        None => None,
    }
}

/// A three-sample source that loads comes out fully opaque: every pixel's
/// alpha is 255.
pub proof fn lemma_rgb_source_opaque(width: u32, height: u32, samples: Seq<u8>, ext: Seq<char>)
    ensures
        raster_outcome(width, height, 3, samples, ext) matches LoadOutcome::Loaded { pixels, .. }
            ==> pixels.len() == width * height && forall|i: int|
            0 <= i < pixels.len() ==> (#[trigger] pixels[i]).a == 255,
{
}

/// A four-sample source that loads comes out sample for sample: the `i`-th
/// pixel is samples `4i` to `4i + 3`, with nothing premultiplied.
pub proof fn lemma_rgba_source_verbatim(width: u32, height: u32, samples: Seq<u8>, ext: Seq<char>)
    ensures
        raster_outcome(width, height, 4, samples, ext) matches LoadOutcome::Loaded { pixels, .. }
            ==> pixels.len() == width * height && forall|i: int|
            0 <= i < pixels.len() ==> (#[trigger] pixels[i]) == (Rgba8 {
                r: samples[4 * i],
                g: samples[4 * i + 1],
                b: samples[4 * i + 2],
                a: samples[4 * i + 3],
            }),
{
}

/// Loading the same bytes under the same path twice comes to the same
/// outcome, pixel for pixel, wherever the decoders are the library's own
/// (PNG, QOI and the generic one).
pub proof fn lemma_load_deterministic(
    path: Seq<char>,
    bytes: Seq<u8>,
    first: Result<ColorImage, DecodeError>,
    second: Result<ColorImage, DecodeError>,
)
    requires
        !selects_jpeg(path),
        outcome(first) == file_outcome(path, bytes),
        outcome(second) == file_outcome(path, bytes),
    ensures
        outcome(first) == outcome(second),
        first matches Ok(a) ==> second matches Ok(b) && a.size == b.size && a.pixels@
            == b.pixels@,
{
    if let Ok(a) = first {
        if let Ok(b) = second {
            assert(a.size =~= b.size);
        }
    }
}

/// Whatever the JPEG decoder answers, the same answer under the same
/// extension comes to the same outcome.
pub proof fn lemma_jpeg_deterministic(
    answer: Result<(u32, u32, Vec<u8>), String>,
    ext: Seq<char>,
    first: Result<ColorImage, DecodeError>,
    second: Result<ColorImage, DecodeError>,
)
    requires
        outcome(first) == jpeg_outcome(answer, ext),
        outcome(second) == jpeg_outcome(answer, ext),
    ensures
        first matches Ok(a) ==> second matches Ok(b) && a.size == b.size && a.pixels@
            == b.pixels@,
{
    if let Ok(a) = first {
        if let Ok(b) = second {
            assert(a.size =~= b.size);
        }
    }
}

} // verus!
