//! Textures as they are handed to the graphics device.
//!
//! An image is decoded by the caller. Here it is a block of pixels of four
//! bytes each, red, green, blue and alpha, row after row from the top, with
//! the description of the texture and of the sampler that it is shown
//! through. An instance whose image cannot be had is shown white.

use vstd::prelude::*;

verus! {

/// The number of bytes of one pixel.
pub const PIXEL_BYTES: u32 = 4;

/// How the values of a texture are stored and read.
#[derive(Clone, Copy, Debug, PartialEq, Eq, Structural)]
pub enum TextureFormat {
    /// Four bytes for red, green, blue and alpha, the colours sRGB-encoded.
    Rgba8UnormSrgb,
    /// Depth of at least 24 bits.
    Depth24Plus,
}

/// What a sampler returns outside the texture.
#[derive(Clone, Copy, Debug, PartialEq, Eq, Structural)]
pub enum AddressMode {
    Repeat,
}

/// How a sampler blends neighbouring values.
#[derive(Clone, Copy, Debug, PartialEq, Eq, Structural)]
pub enum FilterMode {
    Nearest,
    Linear,
}

/// How a texture is read by the fragment stage.
#[derive(Clone, Copy, Debug, PartialEq, Eq, Structural)]
pub struct SamplerDescription {
    pub address_mode_u: AddressMode,
    pub address_mode_v: AddressMode,
    pub address_mode_w: AddressMode,
    pub mag_filter: FilterMode,
    pub min_filter: FilterMode,
    pub mipmap_filter: FilterMode,
}

/// The shape of a two-dimensional texture.
#[derive(Clone, Copy, Debug, PartialEq, Eq, Structural)]
pub struct TextureDescription {
    pub width: u32,
    pub height: u32,
    pub mip_level_count: u32,
    pub sample_count: u32,
    pub format: TextureFormat,
}

/// An image to be shown on an instance.
#[derive(Debug)]
pub struct Texture {
    pub width: u32,
    pub height: u32,
    /// Four bytes for each pixel, row after row.
    pub rgba: Vec<u8>,
}

/// A texture as a mathematical value.
pub struct TextureView {
    pub width: u32,
    pub height: u32,
    pub rgba: Seq<u8>,
}

impl View for Texture {
    type V = TextureView;

    open spec fn view(&self) -> TextureView {
        TextureView { width: self.width, height: self.height, rgba: self.rgba@ }
    }
}

/// Whether the block of pixels has four bytes for each pixel of the image.
pub open spec fn filled(t: TextureView) -> bool {
    t.rgba.len() == PIXEL_BYTES * t.width * t.height
}

/// One opaque white pixel.
pub open spec fn white() -> TextureView {
    TextureView { width: 1, height: 1, rgba: seq![255u8, 255u8, 255u8, 255u8] }
}

/// The texture that an instance is shown with: the one that was loaded for
/// it, or white if none could be.
pub open spec fn shown(loaded: Option<TextureView>) -> TextureView {
    match loaded {
        Some(t) => t,
        None => white(),
    }
}

/// The sampler of every texture: it repeats the texture in all directions,
/// blends linearly within a level and takes the nearest level.
pub open spec fn sampler() -> SamplerDescription {
    SamplerDescription {
        address_mode_u: AddressMode::Repeat,
        address_mode_v: AddressMode::Repeat,
        address_mode_w: AddressMode::Repeat,
        mag_filter: FilterMode::Linear,
        min_filter: FilterMode::Linear,
        mipmap_filter: FilterMode::Nearest,
    }
}

/// The shape of a texture of the given size and format: one level, one
/// sample for each pixel.
pub open spec fn single_level(width: u32, height: u32, format: TextureFormat) -> TextureDescription {
    TextureDescription { width, height, mip_level_count: 1, sample_count: 1, format }
}

impl Texture {
    /// The texture of a decoded image.
    pub fn from_image(width: u32, height: u32, rgba: Vec<u8>) -> (t: Texture)
        requires
            rgba.len() == PIXEL_BYTES * width * height,
        ensures
            t@ == (TextureView { width, height, rgba: rgba@ }),
            filled(t@),
    {
        Texture { width, height, rgba }
    }

    /// One opaque white pixel.
    pub fn create_white_texture() -> (t: Texture)
        ensures
            t@ == white(),
            filled(t@),
    {
        let mut rgba: Vec<u8> = Vec::new();
        rgba.push(255);
        rgba.push(255);
        rgba.push(255);
        rgba.push(255);
        proof {
            assert(rgba@ == seq![255u8, 255u8, 255u8, 255u8]);
        }
        Texture { width: 1, height: 1, rgba }
    }

    /// The texture that an instance is shown with: the one that was loaded
    /// for it, or white if none could be. A texture that cannot be had is no
    /// reason to give up on the instance.
    pub fn or_white(loaded: Option<Texture>) -> (t: Texture)
        ensures
            t@ == shown(
                match loaded {
                    Some(l) => Some(l@),
                    None => None,
                },
            ),
    {
        match loaded {
            Some(t) => t,
            None => Self::create_white_texture(),
        }
    }

    /// The shape of the texture on the device.
    pub fn description(&self) -> (d: TextureDescription)
        ensures
            d == single_level(self.width, self.height, TextureFormat::Rgba8UnormSrgb),
    {
        TextureDescription {
            width: self.width,
            height: self.height,
            mip_level_count: 1,
            sample_count: 1,
            format: TextureFormat::Rgba8UnormSrgb,
        }
    }

    /// The number of bytes of one row of pixels.
    pub fn bytes_per_row(&self) -> (n: u32)
        requires
            PIXEL_BYTES * self.width <= u32::MAX,
        ensures
            n == PIXEL_BYTES * self.width,
    {
        PIXEL_BYTES * self.width
    }

    /// The number of rows of pixels.
    pub fn rows_per_image(&self) -> (n: u32)
        ensures
            n == self.height,
    {
        self.height
    }

    /// How the texture is read.
    pub fn sampler(&self) -> (s: SamplerDescription)
        ensures
            s == sampler(),
    {
        SamplerDescription {
            address_mode_u: AddressMode::Repeat,
            address_mode_v: AddressMode::Repeat,
            address_mode_w: AddressMode::Repeat,
            mag_filter: FilterMode::Linear,
            min_filter: FilterMode::Linear,
            mipmap_filter: FilterMode::Nearest,
        }
    }
}

} // verus!
