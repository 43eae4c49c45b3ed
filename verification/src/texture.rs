//! Textures: decoding image files into texels, and the descriptor set that
//! binds a texture to a material.

use vstd::prelude::*;

use crate::mesh::{MaterialSet, MaterialSetView, TextureSource};
use crate::resources::{Filter, Sampler, SamplerAddressMode};

verus! {

/// The sampler of every material texture: linear filtering, repeating in
/// every direction.
pub open spec fn default_sampler() -> Sampler {
    Sampler {
        mag_filter: Filter::Linear,
        min_filter: Filter::Linear,
        address_mode: SamplerAddressMode::Repeat,
    }
}

/// The sampler that textures are read through.
pub fn get_default_sampler() -> (sampler: Sampler)
    ensures
        sampler == default_sampler(),
{
    Sampler {
        mag_filter: Filter::Linear,
        min_filter: Filter::Linear,
        address_mode: SamplerAddressMode::Repeat,
    }
}

/// The descriptor set of a material whose base colour is `texture`.
pub fn get_descriptor_set(texture: TextureSource) -> (set: MaterialSet)
    ensures
        set@ == (MaterialSetView { texture: texture@, sampler: default_sampler() }),
{
    MaterialSet { texture, sampler: get_default_sampler() }
}

/// How the pixels of a PNG file are made up.
#[derive(Clone, Copy, Debug, PartialEq, Eq, Structural)]
pub enum ColorType {
    Grayscale,
    Rgb,
    Indexed,
    GrayscaleAlpha,
    Rgba,
}

/// What the header of a PNG file says about the image.
#[derive(Clone, Copy, Debug, PartialEq, Eq, Structural)]
pub struct PngInfo {
    pub width: u32,
    pub height: u32,
    pub color_type: ColorType,
}

impl PngInfo {
    /// Bytes per pixel that the decoder is given room for: four with an
    /// alpha channel, three without.
    pub open spec fn channels(self) -> nat {
        if self.color_type == ColorType::Rgba {
            4
        } else {
            3
        }
    }

    /// Size in bytes of the buffer the image is decoded into.
    pub open spec fn buffer_size(self) -> nat {
        self.width as nat * self.height as nat * self.channels()
    }
}

/// What the PNG decoder reads from the header of the file `data`, or `None`
/// if it rejects the file before any pixel data.
pub uninterp spec fn png_info(data: Seq<u8>) -> Option<PngInfo>;

/// What the PNG decoder leaves in a buffer holding `buffer` after decoding
/// the first frame of the file `data` into it, or `None` if it fails.
pub uninterp spec fn png_frame(data: Seq<u8>, buffer: Seq<u8>) -> Option<Seq<u8>>;

/// Reads the header of a PNG file.
///
/// Calls `png::Decoder::new` on the bytes, then `read_info`, and copies
/// width, height and colour type out of `Reader::info`. Assumed: the result
/// depends on the bytes alone.
#[verifier::external_body]
fn read_info(data: &Vec<u8>) -> (info: Option<PngInfo>)
    ensures
        info == png_info(data@),
{
    match png::Decoder::new(data.as_slice()).read_info() {
        Ok(reader) => {
            let color_type = match reader.info().color_type {
                png::ColorType::Grayscale => ColorType::Grayscale,
                png::ColorType::Rgb => ColorType::Rgb,
                png::ColorType::Indexed => ColorType::Indexed,
                png::ColorType::GrayscaleAlpha => ColorType::GrayscaleAlpha,
                png::ColorType::Rgba => ColorType::Rgba,
            };
            Some(PngInfo { width: reader.info().width, height: reader.info().height, color_type })
        },
        Err(_) => None,
    }
}

/// Decodes the first frame of a PNG file into `buffer`.
///
/// Calls `png::Decoder::new` on the bytes, then `read_info`, then
/// `Reader::next_frame` on the buffer. Assumed: whether decoding succeeds,
/// and what the buffer holds afterwards, depends on the bytes and on the
/// buffer alone. The buffer keeps its length.
#[verifier::external_body]
fn next_frame(data: &Vec<u8>, buffer: &mut Vec<u8>) -> (decoded: bool)
    ensures
        final(buffer)@.len() == old(buffer)@.len(),
        decoded == png_frame(data@, old(buffer)@).is_some(),
        decoded ==> final(buffer)@ == png_frame(data@, old(buffer)@).unwrap(),
{
    match png::Decoder::new(data.as_slice()).read_info() {
        Ok(mut reader) => reader.next_frame(buffer.as_mut_slice()).is_ok(),
        Err(_) => false,
    }
}

/// A decoded texture: 8-bit RGBA texels, sRGB encoded, row by row.
#[derive(Debug, PartialEq, Eq)]
pub struct Texture {
    pub width: u32,
    pub height: u32,
    pub pixels: Vec<u8>,
}

impl Texture {
    /// There are four bytes for every texel.
    pub open spec fn well_formed(&self) -> bool {
        self.pixels@.len() == 4 * (self.width as nat * self.height as nat)
    }
}

/// Why a file did not become a texture.
#[derive(Clone, Copy, Debug, PartialEq, Eq, Structural)]
pub enum TextureError {
    /// The file's header is not that of a PNG image.
    BadHeader,
    /// The image needs a larger buffer than 32 bits can address.
    TooLarge,
    /// The pixel data cannot be decoded into the buffer made for it.
    BadImageData,
}

/// RGB texels with an opaque alpha channel added: every three bytes of `rgb`
/// followed by 255.
pub open spec fn with_opaque_alpha(rgb: Seq<u8>) -> Seq<u8> {
    Seq::new(
        (rgb.len() / 3 * 4) as nat,
        |i: int|
            if i % 4 == 3 {
                255u8
            } else {
                rgb[i / 4 * 3 + i % 4]
            },
    )
}

/// Expands RGB texels to RGBA texels that are fully opaque.
pub fn add_opaque_alpha(rgb: &Vec<u8>) -> (rgba: Vec<u8>)
    requires
        rgb@.len() % 3 == 0,
    ensures
        rgba@ == with_opaque_alpha(rgb@),
{
    let mut rgba: Vec<u8> = Vec::new();
    let texels = rgb.len() / 3;
    let mut t: usize = 0;
    while t < texels
        invariant
            t <= texels,
            3 * texels == rgb@.len() <= usize::MAX,
            rgba@.len() == 4 * t,
            forall|i: int|
                0 <= i < 4 * t ==> rgba@[i] == if i % 4 == 3 {
                    255u8
                } else {
                    rgb@[i / 4 * 3 + i % 4]
                },
        decreases texels - t,
    {
        rgba.push(rgb[3 * t]);
        rgba.push(rgb[3 * t + 1]);
        rgba.push(rgb[3 * t + 2]);
        rgba.push(255);
        t += 1;
    }
    rgba
}

/// The texels of an image with header `info` whose decoded frame is `frame`.
pub open spec fn texels_of(info: PngInfo, frame: Seq<u8>) -> Seq<u8> {
    if info.color_type == ColorType::Rgba {
        frame
    } else {
        with_opaque_alpha(frame)
    }
}

/// Turns a decoded frame into a texture: frames with an alpha channel are
/// taken as they are, all others get an opaque one.
pub fn texture_from_frame(info: PngInfo, frame: Vec<u8>) -> (texture: Texture)
    requires
        frame@.len() == info.buffer_size(),
    ensures
        texture.width == info.width,
        texture.height == info.height,
        texture.pixels@ == texels_of(info, frame@),
        texture.well_formed(),
{
    proof {
        lemma_buffer_size(info);
    }
    let pixels = match info.color_type {
        ColorType::Rgba => frame,
        _ => add_opaque_alpha(&frame),
    };
    Texture { width: info.width, height: info.height, pixels }
}

/// The decoding buffer holds a whole number of texels.
pub proof fn lemma_buffer_size(info: PngInfo)
    ensures
        info.buffer_size() == info.channels() * (info.width as nat * info.height as nat),
        info.buffer_size() % info.channels() == 0,
        info.buffer_size() / info.channels() == info.width as nat * info.height as nat,
{
    let texels = info.width as nat * info.height as nat;
    let channels = info.channels();
    assert(info.buffer_size() == channels * texels) by (nonlinear_arith)
        requires
            info.buffer_size() == texels * channels,
    ;
    assert((channels * texels) % channels == 0 && (channels * texels) / channels == texels)
        by (nonlinear_arith)
        requires
            channels == 3 || channels == 4,
    ;
}

/// What decoding the PNG file `data` comes to.
pub open spec fn decoded(data: Seq<u8>) -> Result<(PngInfo, Seq<u8>), TextureError> {
    match png_info(data) {
        None => Err(TextureError::BadHeader),
        Some(info) => if info.buffer_size() > u32::MAX {
            Err(TextureError::TooLarge)
        } else {
            match png_frame(data, Seq::new(info.buffer_size(), |i: int| 0u8)) {
                None => Err(TextureError::BadImageData),
                Some(frame) => Ok((info, frame)),
            }
        },
    }
}

/// Decodes a PNG file into a texture. The image is decoded into a zeroed
/// buffer of three bytes per pixel, or four if it has red, green, blue and
/// alpha channels; without an alpha channel an opaque one is added.
pub fn load_png(data: &Vec<u8>) -> (result: Result<Texture, TextureError>)
    ensures
        match decoded(data@) {
            Ok((info, frame)) => {
                &&& result matches Ok(texture)
                &&& texture.width == info.width
                &&& texture.height == info.height
                &&& texture.pixels@ == texels_of(info, frame)
                &&& texture.well_formed()
            },
            Err(e) => result == Err::<Texture, TextureError>(e),
        },
{
    let info = match read_info(data) {
        Some(info) => info,
        None => {
            return Err(TextureError::BadHeader);
        },
    };
    let channels: u64 = match info.color_type {
        ColorType::Rgba => 4,
        _ => 3,
    };
    assert(info.width as nat * info.height as nat <= 0xffff_ffff * 0xffff_ffff) by (nonlinear_arith)
        requires
            info.width <= 0xffff_ffff,
            info.height <= 0xffff_ffff,
    ;
    let texels: u64 = info.width as u64 * info.height as u64;
    if texels > 0xffff_ffff / channels {
        assert(info.buffer_size() > u32::MAX) by (nonlinear_arith)
            requires
                info.buffer_size() == texels * channels,
                channels == 3 || channels == 4,
                texels > 0xffff_ffffu64 / channels,
        ;
        return Err(TextureError::TooLarge);
    }
    assert(texels * channels <= u32::MAX) by (nonlinear_arith)
        requires
            channels == 3 || channels == 4,
            texels <= 0xffff_ffffu64 / channels,
    ;
    let size = (texels * channels) as usize;
    let mut buffer: Vec<u8> = Vec::new();
    buffer.resize(size, 0);
    assert(buffer@ =~= Seq::new(info.buffer_size(), |i: int| 0u8));
    if !next_frame(data, &mut buffer) {
        return Err(TextureError::BadImageData);
    }
    Ok(texture_from_frame(info, buffer))
}

} // verus!
