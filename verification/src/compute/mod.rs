//! The resource factory and the pieces every compute stage shares.

use vstd::prelude::*;
use crate::binding::{
    BindGroupEntry, BindGroupLayoutEntry, BindingResource, BindingType, ShaderStages, Stage,
    TextureSlot,
};
use crate::bytes::{cast_words, is_image_of};
use crate::descriptor::{
    AddressMode, Extent3d, FilterMode, SamplerDescriptor, TexelCopyBufferLayout, TexelFormat,
    TextureAspect, TextureDescriptor, TextureDimension, TextureViewDescriptor,
};
use crate::ieee::{single_of_u16, spec_single_of};
use crate::pipeline::{
    spec_uniforms_bindings, spec_uniforms_layout, BindGroupDescriptor, BindGroupLayoutDescriptor,
};
use crate::program::{Image, RawImageData};
use crate::renderer::ComputeShaderData;
use crate::util::{output_size, spec_output_size, Size};

pub mod demosaic;
pub mod downsample;
pub mod fragment;
pub mod processing;

verus! {

/// Edge of the square workgroup every compute stage runs in.
pub const WORKGROUP_SIZE: u32 = 16;

/// A grid of workgroups.
#[derive(Clone, Copy, Debug, PartialEq, Eq, Structural)]
pub struct Workgroups {
    pub x: u32,
    pub y: u32,
    pub z: u32,
}

/// One compute pass: the bundle of a stage and the grid of workgroups to run.
#[derive(Clone, Copy, Debug, PartialEq, Eq, Structural)]
pub struct ComputePass {
    /// The stage whose pipeline and two bind groups the pass uses, the
    /// primary group as group 0 and the uniform group as group 1.
    pub stage: Stage,
    pub workgroups: Workgroups,
}

/// Bytes and placement of a host upload that fills a whole texture, from its
/// origin, at mip level 0.
#[derive(Debug, PartialEq, Eq)]
pub struct TextureWrite {
    pub data: Vec<u8>,
    pub layout: TexelCopyBufferLayout,
    pub size: Extent3d,
}

/// Why an image cannot be uploaded.
#[derive(Clone, Copy, Debug, PartialEq, Eq, Structural)]
pub enum UploadError {
    /// The sensor plane holds floating samples; only whole-number samples are taken.
    UnsupportedRawFormat,
}

impl UploadError {
    /// A sentence that names the error.
    pub fn message(&self) -> (text: &'static str)
        ensures
            text@ == "unsupported raw format: floating-point sensor data"@,
    {
        "unsupported raw format: floating-point sensor data"
    }
}

/// Workgroups needed to cover `extent` texels along one axis: the extent
/// divided by the workgroup size, rounded up.
pub open spec fn spec_dispatch_count(extent: int) -> int {
    (extent + 15) / 16
}

/// Workgroups needed to cover `extent` texels along one axis.
pub fn dispatch_count(extent: u32) -> (count: u32)
    ensures
        count == spec_dispatch_count(extent as int),
        count * 16 >= extent,
        extent > 0 ==> (count - 1) * 16 < extent,
{
    let whole: u32 = extent / WORKGROUP_SIZE;
    if extent % WORKGROUP_SIZE == 0 {
        whole
    } else {
        whole + 1
    }
}

/// The pass that runs the stage of `shader` once per texel of the texture
/// it writes: a grid of as many workgroups as cover the bundle's size, one
/// layer deep.
pub fn enqueue_workload(shader: &ComputeShaderData) -> (pass: ComputePass)
    ensures
        pass.stage == shader.pipeline.stage,
        pass.workgroups == (Workgroups {
            x: spec_dispatch_count(shader.size.width as int) as u32,
            y: spec_dispatch_count(shader.size.height as int) as u32,
            z: 1,
        }),
{
    let dispatch_x = dispatch_count(shader.size.width);
    let dispatch_y = dispatch_count(shader.size.height);
    ComputePass {
        stage: shader.pipeline.stage,
        workgroups: Workgroups { x: dispatch_x, y: dispatch_y, z: 1 },
    }
}

/// The layout of the shared uniform group: the uniform buffer at binding 0,
/// visible to every shader stage.
pub fn uniforms_bind_group_layout() -> (layout: BindGroupLayoutDescriptor)
    ensures
        layout.entries@ == spec_uniforms_layout(),
{
    let entries = vec![
        BindGroupLayoutEntry {
            binding: 0,
            visibility: ShaderStages { vertex: true, fragment: true, compute: true },
            ty: BindingType::UniformBuffer,
        },
    ];
    assert(entries@ =~= spec_uniforms_layout());
    BindGroupLayoutDescriptor { entries }
}

/// The uniform group for the texture set of the given generation: the whole
/// uniform buffer at binding 0 of group 1.
pub fn uniforms_bind_group(generation: u64) -> (group: BindGroupDescriptor)
    ensures
        group.is_uniforms_of(generation),
{
    let entries = vec![BindGroupEntry { binding: 0, resource: BindingResource::UniformBuffer }];
    assert(entries@ =~= spec_uniforms_bindings());
    BindGroupDescriptor { group: 1, entries, generation }
}

/// The source texture of a standard image of the given size: 8-bit RGBA,
/// uploaded into by the host and sampled by the first stage.
pub fn create_texture(size: Size) -> (texture: TextureDescriptor)
    requires
        0 < size.width,
        0 < size.height,
    ensures
        texture == TextureDescriptor::spec_new(
            size,
            TexelFormat::Rgba8Unorm,
            TextureSlot::Full.spec_usage(),
        ),
{
    TextureDescriptor::new(size, TexelFormat::Rgba8Unorm, TextureSlot::Full.usage())
}

/// A full-resolution texture of the given format for `slot`, with exactly
/// the usage that slot needs.
pub fn create_float_texture(size: Size, format: TexelFormat, slot: TextureSlot) -> (texture:
    TextureDescriptor)
    requires
        0 < size.width,
        0 < size.height,
    ensures
        texture == TextureDescriptor::spec_new(size, format, slot.spec_usage()),
{
    TextureDescriptor::new(size, format, slot.usage())
}

/// A working texture for `slot`, of the size of the render target for an
/// image of `image_size` shown in a window of `window_size`, with exactly
/// the usage that slot needs.
pub fn create_window_texture(
    window_size: Size,
    image_size: Size,
    format: TexelFormat,
    slot: TextureSlot,
) -> (texture: TextureDescriptor)
    requires
        0 < spec_output_size(window_size, image_size).width,
        0 < spec_output_size(window_size, image_size).height,
    ensures
        texture == TextureDescriptor::spec_new(
            spec_output_size(window_size, image_size),
            format,
            slot.spec_usage(),
        ),
{
    let size = output_size(window_size, image_size);
    TextureDescriptor::new(size, format, slot.usage())
}

/// The view every binding takes of a texture: the whole of it, as a
/// two-dimensional texture in its own format.
pub open spec fn spec_whole_view() -> TextureViewDescriptor {
    TextureViewDescriptor {
        format: None,
        dimension: Some(TextureDimension::D2),
        aspect: TextureAspect::All,
        base_mip_level: 0,
        mip_level_count: None,
        base_array_layer: 0,
        array_layer_count: None,
    }
}

/// The view every binding takes of a texture: the whole of it.
pub fn to_texture_view() -> (view: TextureViewDescriptor)
    ensures
        view == spec_whole_view(),
{
    TextureViewDescriptor {
        format: None,
        dimension: Some(TextureDimension::D2),
        aspect: TextureAspect::All,
        base_mip_level: 0,
        mip_level_count: None,
        base_array_layer: 0,
        array_layer_count: None,
    }
}

/// The sampler of the composite stage: coordinates clamp to the edge, texels
/// are blended linearly, mip levels are not.
pub open spec fn spec_linear_sampler() -> SamplerDescriptor {
    SamplerDescriptor {
        address_mode_u: AddressMode::ClampToEdge,
        address_mode_v: AddressMode::ClampToEdge,
        address_mode_w: AddressMode::ClampToEdge,
        mag_filter: FilterMode::Linear,
        min_filter: FilterMode::Linear,
        mipmap_filter: FilterMode::Nearest,
    }
}

/// The sampler of the composite stage.
pub fn create_sampler() -> (sampler: SamplerDescriptor)
    ensures
        sampler == spec_linear_sampler(),
{
    SamplerDescriptor {
        address_mode_u: AddressMode::ClampToEdge,
        address_mode_v: AddressMode::ClampToEdge,
        address_mode_w: AddressMode::ClampToEdge,
        mag_filter: FilterMode::Linear,
        min_filter: FilterMode::Linear,
        mipmap_filter: FilterMode::Nearest,
    }
}

/// Rows of `width` texels of four bytes each, one after the other from the
/// start of the buffer, `height` of them. Four bytes is what a texel of a
/// source texture takes, of a standard image and of a sensor plane alike.
pub open spec fn spec_row_layout(width: u32, height: u32) -> TexelCopyBufferLayout {
    TexelCopyBufferLayout {
        offset: 0,
        bytes_per_row: Some((4 * width) as u32),
        rows_per_image: Some(height),
    }
}

/// The samples widened to single precision, one word per sample.
pub open spec fn spec_widened(samples: Seq<u16>) -> Seq<u32> {
    Seq::new(samples.len(), |k: int| spec_single_of(samples[k] as int) as u32)
}

/// Widens every sample to single precision.
fn widen_samples(samples: &Vec<u16>) -> (words: Vec<u32>)
    ensures
        words@ == spec_widened(samples@),
{
    let mut words: Vec<u32> = Vec::new();
    let mut done: usize = 0;
    while done < samples.len()
        invariant
            done <= samples@.len(),
            words@.len() == done,
            forall|k: int| 0 <= k < done ==> words@[k] == spec_single_of(samples@[k] as int),
        decreases samples@.len() - done,
    {
        words.push(single_of_u16(samples[done]));
        done = done + 1;
    }
    assert(words@ =~= spec_widened(samples@));
    words
}

/// True when `write` is the upload that fills the source texture of `image`:
/// rows of four bytes times the width, as many as the image is high, holding
/// the pixels of a standard image as they are, or the whole-number samples
/// of a sensor image widened to single precision, four bytes per sample, as
/// the machine lays them in memory.
pub open spec fn spec_fills(image: &Image, write: &TextureWrite) -> bool {
    &&& write.layout == spec_row_layout(image.spec_width(), image.spec_height())
    &&& write.size == (Extent3d {
        width: image.spec_width(),
        height: image.spec_height(),
        depth_or_array_layers: 1,
    })
    &&& match *image {
        Image::DynamicImage(img) => write.data@ == img.data@,
        Image::RawImage(raw) => {
            &&& raw.data matches RawImageData::Integer(samples)
            &&& is_image_of(write.data@, spec_widened(samples@))
            &&& write.data@.len() == 4 * samples@.len()
        },
    }
}

/// True when `image` cannot be uploaded: a sensor plane of floating samples.
pub open spec fn spec_unsupported(image: &Image) -> bool {
    *image matches Image::RawImage(raw) && raw.data is Float
}

/// What to upload into the source texture for `image`.
///
/// A standard image is uploaded as it is, four bytes per pixel. Of a sensor
/// image with whole-number samples, each sample is widened to one
/// single-precision value, four bytes per sample, in the byte order of the
/// machine. Either way a row of the upload is four bytes times the width.
/// A sensor image with floating samples is refused, and no other image is.
pub fn write_texture(image: &Image) -> (result: Result<TextureWrite, UploadError>)
    requires
        4 * image.spec_width() <= u32::MAX,
    ensures
        match result {
            Ok(write) => {
                &&& spec_fills(image, &write)
                &&& !spec_unsupported(image)
                &&& image.spec_is_complete() ==> write.data@.len() == 4 * image.spec_raw_width()
                    * image.spec_raw_height()
            },
            Err(error) => error == UploadError::UnsupportedRawFormat && spec_unsupported(image),
        },
{
    let (width, height) = image.dimensions();
    proof {
        let full_width = image.spec_raw_width();
        let full_height = image.spec_raw_height();
        assert(4 * (full_width * full_height) == 4 * full_width * full_height)
            by (nonlinear_arith);
    }
    let bytes_per_texel = TextureSlot::Full.format(image.kind()).bytes_per_texel();
    let data: Vec<u8> = match image {
        Image::DynamicImage(img) => img.data.clone(),
        Image::RawImage(raw) => match &raw.data {
            RawImageData::Integer(items) => {
                let words = widen_samples(items);
                cast_words(words.as_slice())
            },
            RawImageData::Float(_) => {
                return Err(UploadError::UnsupportedRawFormat);
            },
        },
    };
    Ok(
        TextureWrite {
            data,
            layout: TexelCopyBufferLayout {
                offset: 0,
                bytes_per_row: Some(bytes_per_texel * width),
                rows_per_image: Some(height),
            },
            size: Extent3d { width, height, depth_or_array_layers: 1 },
        },
    )
}

} // verus!
