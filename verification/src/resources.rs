//! Plain descriptions of device resources: formats, extents, images.
//!
//! Nothing here touches a device. A value of these types says what a resource
//! must look like; creating it is left to whoever owns the device.

use vstd::prelude::*;

verus! {

/// Texel formats used by the renderer.
#[derive(Clone, Copy, Debug, PartialEq, Eq, Structural)]
pub enum Format {
    /// 8-bit BGRA, sRGB encoded: the presentable colour target.
    B8G8R8A8Srgb,
    /// 8-bit RGBA, sRGB encoded: decoded textures.
    R8G8B8A8Srgb,
    /// Packed 10-10-10-2 unsigned normalised: albedo.
    A2B10G10R10UnormPack32,
    /// Four 16-bit floating-point channels: normals and positions.
    R16G16B16A16Sfloat,
    /// 16-bit unsigned normalised depth.
    D16Unorm,
    /// Two 32-bit floating-point channels: a 2D vertex attribute.
    R32G32Sfloat,
    /// Three 32-bit floating-point channels: a 3D vertex attribute.
    R32G32B32Sfloat,
}

impl Format {
    /// True for formats that hold depth rather than colour.
    pub open spec fn is_depth(self) -> bool {
        self == Format::D16Unorm
    }

    /// Size of one texel (or one vertex attribute) in bytes.
    pub open spec fn texel_size(self) -> nat {
        match self {
            Format::B8G8R8A8Srgb => 4,
            Format::R8G8B8A8Srgb => 4,
            Format::A2B10G10R10UnormPack32 => 4,
            Format::R16G16B16A16Sfloat => 8,
            Format::D16Unorm => 2,
            Format::R32G32Sfloat => 8,
            Format::R32G32B32Sfloat => 12,
        }
    }

    pub fn has_depth(&self) -> (depth: bool)
        ensures
            depth == self.is_depth(),
    {
        match self {
            Format::D16Unorm => true,
            _ => false,
        }
    }

    pub fn size_in_bytes(&self) -> (size: u32)
        ensures
            size == self.texel_size(),
    {
        match self {
            Format::B8G8R8A8Srgb => 4,
            Format::R8G8B8A8Srgb => 4,
            Format::A2B10G10R10UnormPack32 => 4,
            Format::R16G16B16A16Sfloat => 8,
            Format::D16Unorm => 2,
            Format::R32G32Sfloat => 8,
            Format::R32G32B32Sfloat => 12,
        }
    }
}

/// Width and height in pixels.
#[derive(Clone, Copy, Debug, PartialEq, Eq, Structural)]
pub struct Extent {
    pub width: u32,
    pub height: u32,
}

impl Extent {
    /// An extent with no pixels: what a minimised window reports.
    pub open spec fn is_empty(self) -> bool {
        self.width == 0 || self.height == 0
    }

    pub fn has_no_area(&self) -> (empty: bool)
        ensures
            empty == self.is_empty(),
    {
        self.width == 0 || self.height == 0
    }
}

/// The rectangle that is drawn to. It starts at the origin and spans the
/// whole depth range; only its size varies.
#[derive(Clone, Copy, Debug, PartialEq, Eq, Structural)]
pub struct Viewport {
    pub dimensions: Extent,
}

/// How an attachment image is going to be used, which decides how it is
/// allocated.
#[derive(Clone, Copy, Debug, PartialEq, Eq, Structural)]
pub enum ImageKind {
    /// Lives only inside a render pass.
    Transient,
    /// Lives only inside a render pass and is read by a later subpass.
    TransientInput,
    /// Outlives the render pass and is sampled afterwards.
    Sampled,
}

/// An image that a render pass writes to.
#[derive(Clone, Copy, Debug, PartialEq, Eq, Structural)]
pub struct AttachmentImage {
    pub format: Format,
    pub extent: Extent,
    pub kind: ImageKind,
}

/// One image of the swapchain.
#[derive(Clone, Copy, Debug, PartialEq, Eq, Structural)]
pub struct SwapchainImage {
    pub extent: Extent,
}

/// The value an attachment is cleared to when a render pass begins.
/// Components are whole numbers: 0 is none of a channel, 1 is all of it, and
/// a depth of 1 is the far plane.
#[derive(Clone, Copy, Debug, PartialEq, Eq, Structural)]
pub enum ClearValue {
    Color { red: u8, green: u8, blue: u8, alpha: u8 },
    Depth { depth: u8 },
}

/// Texture filtering.
#[derive(Clone, Copy, Debug, PartialEq, Eq, Structural)]
pub enum Filter {
    Nearest,
    Linear,
}

/// What happens outside the unit square of texture coordinates.
#[derive(Clone, Copy, Debug, PartialEq, Eq, Structural)]
pub enum SamplerAddressMode {
    Repeat,
    ClampToEdge,
}

/// How a texture is sampled.
#[derive(Clone, Copy, Debug, PartialEq, Eq, Structural)]
pub struct Sampler {
    pub mag_filter: Filter,
    pub min_filter: Filter,
    pub address_mode: SamplerAddressMode,
}

} // verus!
