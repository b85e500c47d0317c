//! Plain descriptions of GPU resources: what is asked of the device, as data.

use vstd::prelude::*;
use crate::util::Size;

verus! {

/// Texel formats the pipeline uses.
#[derive(Clone, Copy, Debug, PartialEq, Eq, Structural)]
pub enum TexelFormat {
    /// Four 8-bit unsigned normalized channels.
    Rgba8Unorm,
    /// One 32-bit floating channel: a sensor plane.
    R32Float,
    /// Four 32-bit floating channels: linear intermediate results.
    Rgba32Float,
}

impl TexelFormat {
    /// Bytes one texel occupies in host memory.
    pub open spec fn spec_bytes_per_texel(self) -> int {
        match self {
            TexelFormat::Rgba8Unorm => 4,
            TexelFormat::R32Float => 4,
            TexelFormat::Rgba32Float => 16,
        }
    }

    /// True for the formats a sampler may filter without asking the device
    /// for more than every device offers.
    pub open spec fn spec_is_filterable(self) -> bool {
        self == TexelFormat::Rgba8Unorm
    }

    /// Bytes one texel occupies in host memory.
    pub fn bytes_per_texel(self) -> (bytes: u32)
        ensures
            bytes == self.spec_bytes_per_texel(),
    {
        match self {
            TexelFormat::Rgba8Unorm => 4,
            TexelFormat::R32Float => 4,
            TexelFormat::Rgba32Float => 16,
        }
    }
}

/// What a texture may be used for. Each flag is one permission.
#[derive(Clone, Copy, Debug, PartialEq, Eq, Structural)]
pub struct TextureUsages {
    /// Source of a copy towards a buffer read by the host.
    pub copy_src: bool,
    /// Destination of an upload from the host.
    pub copy_dst: bool,
    /// Sampled by a shader.
    pub texture_binding: bool,
    /// Written by a compute shader.
    pub storage_binding: bool,
    /// Target of a render pass.
    pub render_attachment: bool,
}

/// What a buffer may be used for.
#[derive(Clone, Copy, Debug, PartialEq, Eq, Structural)]
pub struct BufferUsages {
    /// Mapped for reading by the host.
    pub map_read: bool,
    /// Destination of a copy or of a host write.
    pub copy_dst: bool,
    /// Bound as a uniform block.
    pub uniform: bool,
}

/// Extent of a texture or of a copy.
#[derive(Clone, Copy, Debug, PartialEq, Eq, Structural)]
pub struct Extent3d {
    pub width: u32,
    pub height: u32,
    pub depth_or_array_layers: u32,
}

/// Number of dimensions of a texture.
#[derive(Clone, Copy, Debug, PartialEq, Eq, Structural)]
pub enum TextureDimension {
    D1,
    D2,
    D3,
}

/// Description of a texture to allocate.
#[derive(Clone, Copy, Debug, PartialEq, Eq)]
pub struct TextureDescriptor {
    pub size: Extent3d,
    pub mip_level_count: u32,
    pub sample_count: u32,
    pub dimension: TextureDimension,
    pub format: TexelFormat,
    pub usage: TextureUsages,
    /// The one format views of the texture may take.
    pub view_format: TexelFormat,
}

impl TextureDescriptor {
    /// The description of a two-dimensional texture of one layer, one mip
    /// level and one sample per texel, viewed in its own format.
    pub open spec fn spec_new(size: Size, format: TexelFormat, usage: TextureUsages) -> Self {
        TextureDescriptor {
            size: Extent3d { width: size.width, height: size.height, depth_or_array_layers: 1 },
            mip_level_count: 1,
            sample_count: 1,
            dimension: TextureDimension::D2,
            format,
            usage,
            view_format: format,
        }
    }

    /// Describes a two-dimensional texture of one layer, one mip level and
    /// one sample per texel, viewed in its own format.
    pub fn new(size: Size, format: TexelFormat, usage: TextureUsages) -> (descriptor: Self)
        ensures
            descriptor == Self::spec_new(size, format, usage),
    {
        TextureDescriptor {
            size: Extent3d { width: size.width, height: size.height, depth_or_array_layers: 1 },
            mip_level_count: 1,
            sample_count: 1,
            dimension: TextureDimension::D2,
            format,
            usage,
            view_format: format,
        }
    }
}

/// Which aspect of a texture a view or a copy addresses.
#[derive(Clone, Copy, Debug, PartialEq, Eq, Structural)]
pub enum TextureAspect {
    All,
    StencilOnly,
    DepthOnly,
}

/// Description of a view over a whole texture.
#[derive(Clone, Copy, Debug, PartialEq, Eq)]
pub struct TextureViewDescriptor {
    /// `None` keeps the format of the texture.
    pub format: Option<TexelFormat>,
    pub dimension: Option<TextureDimension>,
    pub aspect: TextureAspect,
    pub base_mip_level: u32,
    /// `None` takes every remaining level.
    pub mip_level_count: Option<u32>,
    pub base_array_layer: u32,
    /// `None` takes every remaining layer.
    pub array_layer_count: Option<u32>,
}

/// How texture coordinates outside the unit square are resolved.
#[derive(Clone, Copy, Debug, PartialEq, Eq, Structural)]
pub enum AddressMode {
    ClampToEdge,
    Repeat,
    MirrorRepeat,
}

/// How texels are combined when sampling.
#[derive(Clone, Copy, Debug, PartialEq, Eq, Structural)]
pub enum FilterMode {
    Nearest,
    Linear,
}

/// Description of a sampler.
#[derive(Clone, Copy, Debug, PartialEq, Eq)]
pub struct SamplerDescriptor {
    pub address_mode_u: AddressMode,
    pub address_mode_v: AddressMode,
    pub address_mode_w: AddressMode,
    pub mag_filter: FilterMode,
    pub min_filter: FilterMode,
    pub mipmap_filter: FilterMode,
}

/// Description of a buffer to allocate.
#[derive(Clone, Copy, Debug, PartialEq, Eq)]
pub struct BufferDescriptor {
    /// Size in bytes.
    pub size: u64,
    pub usage: BufferUsages,
    pub mapped_at_creation: bool,
}

/// Where the rows of an image lie in a host buffer.
#[derive(Clone, Copy, Debug, PartialEq, Eq, Structural)]
pub struct TexelCopyBufferLayout {
    /// Byte offset of the first row.
    pub offset: u64,
    /// Byte distance from one row to the next.
    pub bytes_per_row: Option<u32>,
    /// Rows in one image.
    pub rows_per_image: Option<u32>,
}

} // verus!
