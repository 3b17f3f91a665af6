//! Image decoding and colour-buffer normalisation: raw bytes of a JPEG, PNG,
//! QOI or other image file become one RGBA pixel buffer, and a viewer steps
//! through the images of a directory.

pub mod codecs;
pub mod error;
pub mod frame;
pub mod loader;
pub mod navigation;
pub mod pixels;

pub use error::DecodeError;
pub use frame::{
    color_image_from_rgb_image_buffer, color_image_from_rgba_image_buffer, rgb_image_from_raw,
    rgba_image_from_raw, ChannelLayout, DecodedFrame, RgbImage, RgbaImage,
};
pub use loader::{
    color_image_from_decoded, color_image_from_generic, decode_generic, decode_jpg, decode_png,
    decode_qoi, decoder_for_extension, load_image_from_path, path_to_string, Decoder,
};
pub use navigation::{navigation_candidates, Direction};
pub use pixels::{
    from_rgb_unmultiplied, from_rgba_unmultiplied, pixel_from_chunk, pixels_sequential, ColorImage,
    Rgba8,
};
