//! Pixels, the normalised image, and the conversion of a raster of three or
//! four samples per pixel into display-ready colours.

use rayon::iter::ParallelIterator;
use rayon::slice::ParallelSlice;
use vstd::prelude::*;

verus! {

/// One display-ready colour: red, green, blue and alpha, unmultiplied.
#[derive(Clone, Copy, Debug, PartialEq, Eq, Structural)]
pub struct Rgba8 {
    pub r: u8,
    pub g: u8,
    pub b: u8,
    pub a: u8,
}

/// The colour of the `i`-th pixel of a raster with `channels` samples per
/// pixel: three samples are red, green and blue, made opaque; four samples are
/// taken as they stand.
pub open spec fn pixel_at(samples: Seq<u8>, channels: nat, i: int) -> Rgba8 {
    if channels == 3 {
        Rgba8 { r: samples[3 * i], g: samples[3 * i + 1], b: samples[3 * i + 2], a: 255 }
    } else {
        Rgba8 {
            r: samples[4 * i],
            g: samples[4 * i + 1],
            b: samples[4 * i + 2],
            a: samples[4 * i + 3],
        }
    }
}

/// The colours of a raster, one per complete group of `channels` samples, in
/// raster order.
pub open spec fn pixels_of(samples: Seq<u8>, channels: nat) -> Seq<Rgba8> {
    Seq::new(samples.len() / channels, |i: int| pixel_at(samples, channels, i))
}

/// A normalised image: `size` is `[width, height]`, `pixels` the raster in
/// row-major order.
#[derive(Clone, Debug, PartialEq, Eq)]
pub struct ColorImage {
    pub size: [usize; 2],
    pub pixels: Vec<Rgba8>,
}

impl ColorImage {
    /// One colour for each of the `width * height` positions.
    pub open spec fn wf(&self) -> bool {
        self.pixels@.len() == self.size[0] * self.size[1]
    }
}

/// The colour of one chunk of three (red, green, blue) or four (red, green,
/// blue, alpha) samples.
pub fn pixel_from_chunk(chunk: &[u8]) -> (p: Rgba8)
    requires
        chunk@.len() == 3 || chunk@.len() == 4,
    ensures
        p == pixel_at(chunk@, chunk@.len(), 0),
{
    if chunk.len() == 3 {
        Rgba8 { r: chunk[0], g: chunk[1], b: chunk[2], a: 255 }
    } else {
        Rgba8 { r: chunk[0], g: chunk[1], b: chunk[2], a: chunk[3] }
    }
}

/// Relies on rayon's `par_chunks_exact` and the ordered `collect` of an
/// indexed parallel iterator: the samples are cut into consecutive chunks of
/// exactly `channels` samples (a shorter tail is left out), each chunk is
/// converted by `pixel_from_chunk` on the worker pool, and the colours come
/// back in the chunks' order.
#[verifier::external_body]
fn par_pixels_from_chunks(samples: &[u8], channels: usize) -> (r: Vec<Rgba8>)
    requires
        channels == 3 || channels == 4,
    ensures
        r@ == pixels_of(samples@, channels as nat),
{
    samples.par_chunks_exact(channels).map(pixel_from_chunk).collect()
}

/// Converts a raster of `channels` samples per pixel on one thread, chunk
/// after chunk.
pub fn pixels_sequential(samples: &[u8], channels: usize) -> (r: Vec<Rgba8>)
    requires
        channels == 3 || channels == 4,
    ensures
        r@ == pixels_of(samples@, channels as nat),
{
    let len: usize = samples.len();
    let n: usize = len / channels;
    let mut out: Vec<Rgba8> = Vec::with_capacity(n);
    let mut i: usize = 0;
    while i < n
        invariant
            channels == 3 || channels == 4,
            len == samples@.len(),
            n == samples@.len() / (channels as nat),
            i <= n,
            out@.len() == i,
            forall|j: int| 0 <= j < i ==> out@[j] == pixel_at(samples@, channels as nat, j),
        decreases n - i,
    {
        let p = if channels == 3 {
            assert(3 * i + 2 < samples@.len());
            let k: usize = 3 * i;
            Rgba8 { r: samples[k], g: samples[k + 1], b: samples[k + 2], a: 255 }
        } else {
            assert(4 * i + 3 < samples@.len());
            let k: usize = 4 * i;
            Rgba8 { r: samples[k], g: samples[k + 1], b: samples[k + 2], a: samples[k + 3] }
        };
        out.push(p);
        i = i + 1;
    }
    assert(out@ =~= pixels_of(samples@, channels as nat));
    out
}

/// Converting a raster cut in two after `m` whole pixels, part by part, and
/// putting the parts' colours end to end gives the colours of the whole
/// raster, in the same order.
pub proof fn lemma_pixels_split(samples: Seq<u8>, channels: nat, m: nat)
    requires
        channels == 3 || channels == 4,
        m * channels <= samples.len(),
    ensures
        pixels_of(samples, channels) =~= pixels_of(samples.subrange(0, m * channels as int), channels)
            + pixels_of(samples.subrange(m * channels as int, samples.len() as int), channels),
{
    let k = m * channels;
    let left = samples.subrange(0, k as int);
    let right = samples.subrange(k as int, samples.len() as int);
    if channels == 3 {
        assert(left.len() / 3 == m);
        assert(samples.len() / 3 == m + right.len() / 3);
    } else {
        assert(left.len() / 4 == m);
        assert(samples.len() / 4 == m + right.len() / 4);
    }
    assert forall|i: int| 0 <= i < pixels_of(samples, channels).len() implies
        #[trigger] pixels_of(samples, channels)[i]
            == (pixels_of(left, channels) + pixels_of(right, channels))[i] by {
        if i >= m {
            assert(pixels_of(right, channels)[i - m] == pixel_at(right, channels, i - m));
        }
    }
}

/// Converts an RGB raster of `size[0] * size[1]` pixels into a normalised
/// image; every pixel is made opaque.
pub fn from_rgb_unmultiplied(size: [usize; 2], rgb: &[u8]) -> (img: ColorImage)
    requires
        size[0] * size[1] * 3 == rgb@.len(),
    ensures
        img.size == size,
        img.wf(),
        img.pixels@ == pixels_of(rgb@, 3),
        forall|i: int|
            0 <= i < img.pixels@.len() ==> (#[trigger] img.pixels@[i]) == (Rgba8 {
                r: rgb@[3 * i],
                g: rgb@[3 * i + 1],
                b: rgb@[3 * i + 2],
                a: 255,
            }),
        forall|i: int| 0 <= i < img.pixels@.len() ==> (#[trigger] img.pixels@[i]).a == 255,
{
    let pixels = par_pixels_from_chunks(rgb, 3);
    ColorImage { size, pixels }
}

/// Converts an RGBA raster of `size[0] * size[1]` pixels into a normalised
/// image; the samples are kept as they stand.
pub fn from_rgba_unmultiplied(size: [usize; 2], rgba: &[u8]) -> (img: ColorImage)
    requires
        size[0] * size[1] * 4 == rgba@.len(),
    ensures
        img.size == size,
        img.wf(),
        img.pixels@ == pixels_of(rgba@, 4),
        forall|i: int|
            0 <= i < img.pixels@.len() ==> (#[trigger] img.pixels@[i]) == (Rgba8 {
                r: rgba@[4 * i],
                g: rgba@[4 * i + 1],
                b: rgba@[4 * i + 2],
                a: rgba@[4 * i + 3],
            }),
{
    let pixels = par_pixels_from_chunks(rgba, 4);
    ColorImage { size, pixels }
}

} // verus!
