//! The pipeline without a display: one compute pass over an uploaded image,
//! whose result is copied to a staging buffer and read back by the host.

use vstd::prelude::*;
use crate::binding::{
    spec_compute_only, BindGroupEntry, BindGroupLayoutEntry, BindingResource, BindingType,
    ShaderStages, TextureSlot,
};
use crate::compute::{
    dispatch_count, spec_dispatch_count, spec_linear_sampler, spec_row_layout, spec_whole_view,
    TextureWrite, Workgroups,
};
use crate::descriptor::{
    BufferDescriptor, BufferUsages, Extent3d, SamplerDescriptor, TexelCopyBufferLayout,
    TexelFormat, TextureDescriptor, TextureUsages, TextureViewDescriptor,
};
use crate::pipeline::{BindGroupDescriptor, BindGroupLayoutDescriptor, PipelineLayoutDescriptor};
use crate::program::DecodedImage;
use crate::readback::{Readback, ReadbackEvent};
use crate::util::Size;

verus! {

/// Width of the result that is read back.
pub const WIDTH: u32 = 1024;

/// Height of the result that is read back.
pub const HEIGHT: u32 = 1024;

/// Makes what a run without a display needs.
#[derive(Debug, Clone, PartialEq, Eq)]
pub struct ComputeShader {}

/// The pipeline of the standalone compute shader.
#[derive(Debug, PartialEq, Eq)]
pub struct StandalonePipelineDescriptor {
    pub layout: PipelineLayoutDescriptor,
    pub entry_point: &'static str,
}

/// A copy of a whole texture, from its origin at mip level 0, into a buffer.
#[derive(Clone, Copy, Debug, PartialEq, Eq, Structural)]
pub struct TextureToBufferCopy {
    pub layout: TexelCopyBufferLayout,
    pub size: Extent3d,
}

/// Everything one run without a display encodes into its command buffer, in order.
#[derive(Debug, PartialEq, Eq)]
pub struct HeadlessRun {
    pub view: TextureViewDescriptor,
    pub bind_group: BindGroupDescriptor,
    pub workgroups: Workgroups,
    pub copy: TextureToBufferCopy,
}

/// The slots of the standalone shader: the sampled input at binding 0 and
/// the written 8-bit RGBA output at binding 1, both seen by the compute stage.
pub open spec fn spec_standalone_layout() -> Seq<BindGroupLayoutEntry> {
    seq![
        BindGroupLayoutEntry {
            binding: 0,
            visibility: spec_compute_only(),
            ty: BindingType::Texture { filterable: false },
        },
        BindGroupLayoutEntry {
            binding: 1,
            visibility: spec_compute_only(),
            ty: BindingType::StorageTexture { format: TexelFormat::Rgba8Unorm },
        },
    ]
}

/// The resources of the standalone shader: the texture read at binding 0
/// and the texture written at binding 1.
pub open spec fn spec_standalone_bindings(input: TextureSlot, output: TextureSlot) -> Seq<
    BindGroupEntry,
> {
    seq![
        BindGroupEntry { binding: 0, resource: BindingResource::TextureView(input) },
        BindGroupEntry { binding: 1, resource: BindingResource::TextureView(output) },
    ]
}

/// Usage of the uploaded image: filled by the host and sampled.
pub open spec fn spec_image_usage() -> TextureUsages {
    TextureUsages {
        copy_src: false,
        copy_dst: true,
        texture_binding: true,
        storage_binding: false,
        render_attachment: false,
    }
}

/// Usage of the output: written by the compute pass and copied out for the host.
pub open spec fn spec_output_usage() -> TextureUsages {
    TextureUsages {
        copy_src: true,
        copy_dst: false,
        texture_binding: false,
        storage_binding: true,
        render_attachment: false,
    }
}

/// The staging buffer: four bytes for each texel of the result, mapped for
/// reading by the host and filled by a copy.
pub open spec fn spec_staging_buffer() -> BufferDescriptor {
    BufferDescriptor {
        size: (HEIGHT * WIDTH * 4) as u64,
        usage: BufferUsages { map_read: true, copy_dst: true, uniform: false },
        mapped_at_creation: false,
    }
}

/// The copy of the result into the staging buffer: rows of `WIDTH` texels of
/// four bytes, `HEIGHT` of them, with no gap between rows.
pub open spec fn spec_readback_copy() -> TextureToBufferCopy {
    TextureToBufferCopy {
        layout: spec_row_layout(WIDTH, HEIGHT),
        size: Extent3d { width: WIDTH, height: HEIGHT, depth_or_array_layers: 1 },
    }
}

impl ComputeShader {
    /// The view taken of the output: the whole of it.
    pub fn create_texture_view() -> (view: TextureViewDescriptor)
        ensures
            view == spec_whole_view(),
    {
        crate::compute::to_texture_view()
    }

    /// The pipeline of the shader, entered at `main`, with its one bind group.
    pub fn compile_shader() -> (pipeline: StandalonePipelineDescriptor)
        ensures
            pipeline.layout.bind_group_layouts@.len() == 1,
            pipeline.layout.bind_group_layouts@[0].entries@ == spec_standalone_layout(),
            pipeline.entry_point@ == "main"@,
    {
        let bind_group_layouts = vec![Self::create_bind_group_layout()];
        StandalonePipelineDescriptor {
            layout: PipelineLayoutDescriptor { bind_group_layouts },
            entry_point: "main",
        }
    }

    /// The slots of the shader's bind group.
    pub fn create_bind_group_layout() -> (layout: BindGroupLayoutDescriptor)
        ensures
            layout.entries@ == spec_standalone_layout(),
    {
        let visibility = ShaderStages { vertex: false, fragment: false, compute: true };
        let entries = vec![
            BindGroupLayoutEntry {
                binding: 0,
                visibility,
                ty: BindingType::Texture { filterable: false },
            },
            BindGroupLayoutEntry {
                binding: 1,
                visibility,
                ty: BindingType::StorageTexture { format: TexelFormat::Rgba8Unorm },
            },
        ];
        assert(entries@ =~= spec_standalone_layout());
        BindGroupLayoutDescriptor { entries }
    }

    /// The shader's bind group: `input` is read at binding 0 and `output`
    /// is written at binding 1.
    pub fn create_bind_group(input: TextureSlot, output: TextureSlot) -> (group:
        BindGroupDescriptor)
        ensures
            group.group == 0,
            group.entries@ == spec_standalone_bindings(input, output),
            group.generation == 0,
    {
        let entries = vec![
            BindGroupEntry { binding: 0, resource: BindingResource::TextureView(input) },
            BindGroupEntry { binding: 1, resource: BindingResource::TextureView(output) },
        ];
        assert(entries@ =~= spec_standalone_bindings(input, output));
        BindGroupDescriptor { group: 0, entries, generation: 0 }
    }

    /// What one run encodes: the view and the bind group, with the uploaded
    /// image read and the output written, a compute pass over the whole
    /// result, and the copy of the result to the staging buffer.
    pub fn execute_gpu_inner() -> (run: HeadlessRun)
        ensures
            run.view == spec_whole_view(),
            run.bind_group.group == 0,
            run.bind_group.entries@ == spec_standalone_bindings(
                TextureSlot::Full,
                TextureSlot::Output,
            ),
            run.workgroups == (Workgroups {
                x: spec_dispatch_count(WIDTH as int) as u32,
                y: spec_dispatch_count(HEIGHT as int) as u32,
                z: 1,
            }),
            run.copy == spec_readback_copy(),
    {
        let view = Self::create_texture_view();
        let bind_group = Self::create_bind_group(TextureSlot::Full, TextureSlot::Output);
        let workgroups = Self::enqueue_workload(WIDTH, HEIGHT);
        let copy = Self::copy_data_to_cpu();
        HeadlessRun { view, bind_group, workgroups, copy }
    }

    /// The texture for `image`, the upload that fills it, and the view taken of it.
    pub fn create_image_texture_view(image: &DecodedImage) -> (created: (
        TextureDescriptor,
        TextureWrite,
        TextureViewDescriptor,
    ))
        requires
            0 < image.width,
            0 < image.height,
            4 * image.width <= u32::MAX,
        ensures
            created.0 == TextureDescriptor::spec_new(
                Size { width: image.width, height: image.height },
                TexelFormat::Rgba8Unorm,
                spec_image_usage(),
            ),
            created.1.data@ == image.data@,
            created.1.layout == spec_row_layout(image.width, image.height),
            created.1.size == created.0.size,
            created.2 == spec_whole_view(),
    {
        let (width, height) = (image.width, image.height);
        let texture = TextureDescriptor::new(
            Size::new(width, height),
            TexelFormat::Rgba8Unorm,
            TextureUsages {
                copy_src: false,
                copy_dst: true,
                texture_binding: true,
                storage_binding: false,
                render_attachment: false,
            },
        );
        let write = TextureWrite {
            data: image.data.clone(),
            layout: TexelCopyBufferLayout {
                offset: 0,
                bytes_per_row: Some(4 * width),
                rows_per_image: Some(height),
            },
            size: Extent3d { width, height, depth_or_array_layers: 1 },
        };
        (texture, write, crate::compute::to_texture_view())
    }

    /// The output texture for an image of `size`, and the view taken of it.
    pub fn create_output_texture_view(size: Size) -> (created: (
        TextureDescriptor,
        TextureViewDescriptor,
    ))
        requires
            0 < size.width,
            0 < size.height,
        ensures
            created.0 == TextureDescriptor::spec_new(
                size,
                TexelFormat::Rgba8Unorm,
                spec_output_usage(),
            ),
            created.1 == spec_whole_view(),
    {
        let texture = TextureDescriptor::new(
            size,
            TexelFormat::Rgba8Unorm,
            TextureUsages {
                copy_src: true,
                copy_dst: false,
                texture_binding: false,
                storage_binding: true,
                render_attachment: false,
            },
        );
        (texture, crate::compute::to_texture_view())
    }

    /// The sampler: linear, clamped to the edge.
    pub fn create_sampler() -> (sampler: SamplerDescriptor)
        ensures
            sampler == spec_linear_sampler(),
    {
        crate::compute::create_sampler()
    }

    /// The staging buffer and the output texture of a run.
    pub fn create_buffers() -> (buffers: (BufferDescriptor, TextureDescriptor))
        ensures
            buffers.0 == spec_staging_buffer(),
            buffers.1 == TextureDescriptor::spec_new(
                Size { width: WIDTH, height: HEIGHT },
                TexelFormat::Rgba8Unorm,
                spec_output_usage(),
            ),
    {
        let size: u32 = HEIGHT * WIDTH * 4;
        let staging_buffer = BufferDescriptor {
            size: size as u64,
            usage: BufferUsages { map_read: true, copy_dst: true, uniform: false },
            mapped_at_creation: false,
        };
        let storage_buffer = TextureDescriptor::new(
            Size::new(WIDTH, HEIGHT),
            TexelFormat::Rgba8Unorm,
            TextureUsages {
                copy_src: true,
                copy_dst: false,
                texture_binding: false,
                storage_binding: true,
                render_attachment: false,
            },
        );
        (staging_buffer, storage_buffer)
    }

    /// The grid of workgroups that covers `width` by `height` texels, one layer deep.
    pub fn enqueue_workload(width: u32, height: u32) -> (workgroups: Workgroups)
        ensures
            workgroups == (Workgroups {
                x: spec_dispatch_count(width as int) as u32,
                y: spec_dispatch_count(height as int) as u32,
                z: 1,
            }),
    {
        Workgroups { x: dispatch_count(width), y: dispatch_count(height), z: 1 }
    }

    /// The copy of the result into the staging buffer.
    pub fn copy_data_to_cpu() -> (copy: TextureToBufferCopy)
        ensures
            copy == spec_readback_copy(),
    {
        TextureToBufferCopy {
            layout: TexelCopyBufferLayout {
                offset: 0,
                bytes_per_row: Some(4 * WIDTH),
                rows_per_image: Some(HEIGHT),
            },
            size: Extent3d { width: WIDTH, height: HEIGHT, depth_or_array_layers: 1 },
        }
    }

    /// The outcome of a readback, given what the device did: whether polling
    /// it succeeded, and the content of the mapped range if the map was
    /// granted. The bridge is taken through every step in turn. The bytes
    /// come back exactly as they were read when both went well; there are
    /// none when either went wrong.
    pub fn poll_queue(polled: bool, mapped: Option<Vec<u8>>) -> (result: Option<Vec<u8>>)
        ensures
            match result {
                Some(bytes) => polled && (mapped matches Some(read) && bytes@ == read@),
                None => !polled || mapped is None,
            },
    {
        let mut bridge = Readback::new();
        bridge.step(ReadbackEvent::Submitted);
        bridge.step(ReadbackEvent::Polled { ok: polled });
        match mapped {
            Some(bytes) => {
                bridge.step(ReadbackEvent::Resolved { ok: true });
                bridge.step(ReadbackEvent::Read { bytes });
                bridge.step(ReadbackEvent::Unmapped);
            },
            None => {
                bridge.step(ReadbackEvent::Resolved { ok: false });
            },
        }
        bridge.finish()
    }
}

/// The staging buffer holds exactly what the copy writes into it: as many
/// bytes as the rows of the copy take, four for each texel of the result.
pub proof fn lemma_staging_holds_the_copy()
    ensures
        spec_readback_copy().layout.bytes_per_row == Some((4 * WIDTH) as u32),
        spec_readback_copy().layout.rows_per_image == Some(HEIGHT),
        spec_staging_buffer().size == 4 * WIDTH * HEIGHT,
        spec_staging_buffer().size == spec_readback_copy().size.width
            * spec_readback_copy().size.height * 4,
        spec_staging_buffer().usage.map_read && spec_staging_buffer().usage.copy_dst,
{
}

} // verus!
