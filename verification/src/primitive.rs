//! One frame's worth of work: the resize policy, the rebuild of resources and
//! the sequence of passes.

use std::sync::Arc;
use vstd::prelude::*;
use crate::binding::{SourceKind, Stage, TextureSlot};
use crate::bytes::is_image_of;
use crate::compute::demosaic::DemosaicShader;
use crate::compute::downsample::DownsampleShader;
use crate::compute::fragment::FragmentShader;
use crate::compute::processing::ProcessingShader;
use crate::compute::{
    create_float_texture, create_texture, create_window_texture, enqueue_workload,
    spec_dispatch_count, spec_fills, spec_unsupported, write_texture, ComputePass, TextureWrite,
    UploadError, Workgroups,
};
use crate::descriptor::{BufferDescriptor, BufferUsages, TextureDescriptor};
use crate::ieee::{single_of_u32, spec_single_of_u32, ONE, ZERO};
use crate::program::Image;
use crate::renderer::{ComputeRenderer, Textures};
use crate::uniforms::{Uniforms, RAW_SIZE};
use crate::util::{
    lemma_margin_covers_the_window, output_size, spec_calculate_image_size, spec_output_size,
    Rectangle, Size, Tof32, Tou32,
};

verus! {

/// What one frame is drawn from.
#[derive(Debug, PartialEq, Eq)]
pub struct Primitive {
    pub uniforms: Uniforms,
    /// Names the image.
    pub image_path: String,
    pub image: Arc<Image>,
}

/// What a render pass does with what its target holds before it draws.
#[derive(Clone, Copy, Debug, PartialEq, Eq, Structural)]
pub enum LoadOp {
    /// Keeps it.
    Load,
    /// Clears it.
    Clear,
}

/// What a render pass does with what it drew.
#[derive(Clone, Copy, Debug, PartialEq, Eq, Structural)]
pub enum StoreOp {
    /// Keeps it.
    Store,
    /// Drops it.
    Discard,
}

/// The render pass of the composite stage.
#[derive(Clone, Copy, Debug, PartialEq, Eq)]
pub struct RenderPass {
    /// The stage whose pipeline and two bind groups the pass uses.
    pub stage: Stage,
    pub load: LoadOp,
    pub store: StoreOp,
    /// Nothing is drawn outside this rectangle.
    pub scissor: Rectangle,
    /// The viewport: x, y, width and height as single-precision bit patterns.
    pub viewport: [u32; 4],
    /// The depth range of the viewport, nearest then farthest, as
    /// single-precision bit patterns.
    pub depth_range: [u32; 2],
    pub first_vertex: u32,
    pub vertex_count: u32,
    pub first_instance: u32,
    pub instance_count: u32,
}

/// The passes of one frame, in the order in which they are encoded into one
/// command buffer and run.
#[derive(Clone, Copy, Debug, PartialEq, Eq)]
pub struct Frame {
    pub compute: [ComputePass; 3],
    pub draw: RenderPass,
}

/// What `prepare` leaves to be written to the device before the frame runs.
#[derive(Debug, PartialEq, Eq)]
pub struct Prepared {
    /// The upload into the new source texture, when resources were rebuilt.
    pub upload: Option<TextureWrite>,
    /// The bytes of the uniform buffer, from offset 0.
    pub uniforms: Vec<u8>,
}

/// The uniform buffer: as large as one device record, written by the host
/// and bound as a uniform block.
pub open spec fn spec_uniforms_buffer() -> BufferDescriptor {
    BufferDescriptor {
        size: RAW_SIZE as u64,
        usage: BufferUsages { map_read: false, copy_dst: true, uniform: true },
        mapped_at_creation: false,
    }
}

/// The uniform buffer all stages read.
pub fn create_uniforms_buffer() -> (buffer: BufferDescriptor)
    ensures
        buffer == spec_uniforms_buffer(),
{
    BufferDescriptor {
        size: RAW_SIZE as u64,
        usage: BufferUsages { map_read: false, copy_dst: true, uniform: true },
        mapped_at_creation: false,
    }
}

/// The resize policy. Resources are rebuilt when the new size exceeds the
/// current one in either dimension, since the working textures are then too
/// small, and when either dimension has shrunk by more than half of the
/// current one; a smaller shrink keeps the textures, oversized.
pub open spec fn spec_should_resize(new_size: Size, current_size: Size) -> bool {
    ||| new_size.width > current_size.width
    ||| new_size.height > current_size.height
    ||| 2 * (current_size.width - new_size.width) > current_size.width
    ||| 2 * (current_size.height - new_size.height) > current_size.height
}

/// Decides whether resources sized for `current_size` must be rebuilt for `new_size`.
pub fn should_resize(new_size: Size, current_size: Size) -> (rebuild: bool)
    ensures
        rebuild == spec_should_resize(new_size, current_size),
{
    if new_size.width > current_size.width || new_size.height > current_size.height {
        return true;
    }
    let width_diff: u32 = current_size.width - new_size.width;
    let height_diff: u32 = current_size.height - new_size.height;
    let width_threshold: u32 = current_size.width / 2;
    let height_threshold: u32 = current_size.height / 2;
    width_diff > width_threshold || height_diff > height_threshold
}

/// The texture set of the given generation for an image of kind `kind` and
/// size `image_size`, drawn into a render target of `output_size`.
pub open spec fn spec_textures(
    kind: SourceKind,
    image_size: Size,
    output_size: Size,
    generation: u64,
) -> Textures {
    Textures {
        full_texture: TextureDescriptor::spec_new(
            image_size,
            TextureSlot::Full.spec_format(kind),
            TextureSlot::Full.spec_usage(),
        ),
        full_output_texture: TextureDescriptor::spec_new(
            image_size,
            TextureSlot::FullOutput.spec_format(kind),
            TextureSlot::FullOutput.spec_usage(),
        ),
        input_texture: TextureDescriptor::spec_new(
            output_size,
            TextureSlot::Input.spec_format(kind),
            TextureSlot::Input.spec_usage(),
        ),
        output_texture: TextureDescriptor::spec_new(
            output_size,
            TextureSlot::Output.spec_format(kind),
            TextureSlot::Output.spec_usage(),
        ),
        image_size,
        output_size,
        generation,
    }
}

/// The generation after `generation`.
pub open spec fn spec_next_generation(generation: u64) -> u64 {
    if generation == u64::MAX {
        0
    } else {
        (generation + 1) as u64
    }
}

impl Primitive {
    /// Size of the image.
    pub open spec fn spec_image_size(&self) -> Size {
        Size { width: self.image.spec_width(), height: self.image.spec_height() }
    }

    /// Size of the render target this primitive asks for: the image fitted
    /// to the window, whose size is rounded to whole texels, with the margin.
    pub open spec fn spec_output_size(&self) -> Size {
        spec_output_size(self.uniforms.window_size.spec_to_u32(), self.spec_image_size())
    }

    /// True when the primitive can be drawn: the image and the render target
    /// have positive dimensions, and a row of the image fits the 32 bits its
    /// length in bytes is held in.
    pub open spec fn spec_wf(&self) -> bool {
        &&& 0 < self.image.spec_width()
        &&& 0 < self.image.spec_height()
        &&& 4 * self.image.spec_width() <= u32::MAX
        &&& 0 < self.spec_output_size().width
        &&& 0 < self.spec_output_size().height
    }

    /// Tells whether the primitive can be drawn.
    pub fn is_wf(&self) -> (wf: bool)
        ensures
            wf == self.spec_wf(),
    {
        let (width, height) = self.image.dimensions();
        if 0 < width && width <= 0x3fff_ffff && 0 < height {
            let target = output_size(self.uniforms.window_size.to_u32(), Size::new(width, height));
            0 < target.width && 0 < target.height
        } else {
            false
        }
    }

    /// True when the upload `write` is what the source texture of this
    /// primitive's image is filled with.
    pub open spec fn spec_uploads(&self, write: &TextureWrite) -> bool {
        spec_fills(&*self.image, write)
    }

    /// True when the image cannot be uploaded: a sensor plane of floating samples.
    pub open spec fn spec_unsupported(&self) -> bool {
        spec_unsupported(&*self.image)
    }

    /// True when a renderer holding `renderer` must rebuild its resources
    /// before this primitive is drawn: the image is another one, or the
    /// resize policy asks for it.
    pub open spec fn spec_needs_rebuild(&self, renderer: &ComputeRenderer) -> bool {
        ||| renderer.image_path@ != self.image_path@
        ||| spec_should_resize(
            self.uniforms.window_size.spec_to_u32(),
            renderer.textures.output_size,
        )
    }

    /// True when `after` is `before` with its resources rebuilt for this
    /// primitive: a new texture set of the next generation, every bind group
    /// assembled against it, and every pipeline and the uniform buffer kept.
    pub open spec fn spec_rebuilt(
        &self,
        before: &ComputeRenderer,
        after: &ComputeRenderer,
    ) -> bool {
        &&& after.textures == spec_textures(
            self.image.spec_kind(),
            self.spec_image_size(),
            self.spec_output_size(),
            spec_next_generation(before.textures.generation),
        )
        &&& after.image_path@ == self.image_path@
        &&& after.uniforms == before.uniforms
        &&& after.fragment_shader.pipeline == before.fragment_shader.pipeline
        &&& after.demosaic_shader.pipeline == before.demosaic_shader.pipeline
        &&& after.downsample_shader.pipeline == before.downsample_shader.pipeline
        &&& after.processing_shader.pipeline == before.processing_shader.pipeline
        &&& after.spec_wf()
    }

    /// Rebuilds the resources of `renderer` if the image has changed or the
    /// resize policy asks for it, and leaves `renderer` as it is otherwise.
    /// Returns the upload for the new source texture when it rebuilt. When the
    /// image cannot be uploaded, nothing is rebuilt and `renderer` is unchanged.
    pub fn check_resize(&self, renderer: &mut ComputeRenderer) -> (result: Result<
        Option<TextureWrite>,
        UploadError,
    >)
        requires
            self.spec_wf(),
            old(renderer).spec_wf(),
        ensures
            match result {
                Ok(None) => !self.spec_needs_rebuild(old(renderer)) && *final(renderer) == *old(
                    renderer,
                ),
                Ok(Some(write)) => {
                    &&& self.spec_needs_rebuild(old(renderer))
                    &&& self.spec_rebuilt(old(renderer), final(renderer))
                    &&& self.spec_uploads(&write)
                },
                Err(error) => {
                    &&& error == UploadError::UnsupportedRawFormat
                    &&& self.spec_needs_rebuild(old(renderer))
                    &&& self.spec_unsupported()
                    &&& *final(renderer) == *old(renderer)
                },
            },
    {
        if renderer.image_path != self.image_path || should_resize(
            self.uniforms.window_size.to_u32(),
            renderer.textures.output_size,
        ) {
            match self.recreate_buffers(renderer) {
                Ok(write) => Ok(Some(write)),
                Err(error) => Err(error),
            }
        } else {
            Ok(None)
        }
    }

    /// Rebuilds the resources of `renderer` for this primitive: builds the
    /// new texture set first and, only if that succeeds, replaces the old set
    /// and reassembles every bind group against the new one.
    pub fn recreate_buffers(&self, renderer: &mut ComputeRenderer) -> (result: Result<
        TextureWrite,
        UploadError,
    >)
        requires
            self.spec_wf(),
            old(renderer).spec_wf(),
        ensures
            match result {
                Ok(write) => self.spec_rebuilt(old(renderer), final(renderer)) && self.spec_uploads(
                    &write,
                ),
                Err(error) => {
                    &&& error == UploadError::UnsupportedRawFormat
                    &&& self.spec_unsupported()
                    &&& *final(renderer) == *old(renderer)
                },
            },
    {
        let generation = renderer.textures.generation.wrapping_add(1);
        let (textures, write) = match self.create_image_textures(&self.image, generation) {
            Ok(built) => built,
            Err(error) => {
                return Err(error);
            },
        };
        renderer.image_path = self.image_path.clone();
        renderer.textures = textures;
        renderer.replace_bind_groups();
        Ok(write)
    }

    /// Describes the four textures for `image` and the upload that fills the
    /// source texture, as the texture set of the given generation.
    pub fn create_image_textures(&self, image: &Image, generation: u64) -> (result: Result<
        (Textures, TextureWrite),
        UploadError,
    >)
        requires
            0 < image.spec_width(),
            0 < image.spec_height(),
            4 * image.spec_width() <= u32::MAX,
            0 < spec_output_size(
                self.uniforms.window_size.spec_to_u32(),
                Size { width: image.spec_width(), height: image.spec_height() },
            ).width,
            0 < spec_output_size(
                self.uniforms.window_size.spec_to_u32(),
                Size { width: image.spec_width(), height: image.spec_height() },
            ).height,
        ensures
            match result {
                Ok((textures, write)) => {
                    &&& textures == spec_textures(
                        image.spec_kind(),
                        Size { width: image.spec_width(), height: image.spec_height() },
                        spec_output_size(
                            self.uniforms.window_size.spec_to_u32(),
                            Size { width: image.spec_width(), height: image.spec_height() },
                        ),
                        generation,
                    )
                    &&& textures.spec_built_for(image.spec_kind())
                    &&& spec_fills(image, &write)
                    &&& write.size == textures.full_texture.size
                },
                Err(error) => error == UploadError::UnsupportedRawFormat && spec_unsupported(image),
            },
    {
        let image_size = Size::new(image.width(), image.height());
        let window_size = self.uniforms.window_size.to_u32();
        let kind = image.kind();
        let full_texture = match image {
            Image::DynamicImage(_) => create_texture(image_size),
            Image::RawImage(_) => create_float_texture(
                image_size,
                TextureSlot::Full.format(kind),
                TextureSlot::Full,
            ),
        };
        let full_output_texture = create_float_texture(
            image_size,
            TextureSlot::FullOutput.format(kind),
            TextureSlot::FullOutput,
        );
        let input_texture = create_window_texture(
            window_size,
            image_size,
            TextureSlot::Input.format(kind),
            TextureSlot::Input,
        );
        let output_texture = create_window_texture(
            window_size,
            image_size,
            TextureSlot::Output.format(kind),
            TextureSlot::Output,
        );
        let output_size = output_size(window_size, image_size);
        let write = match write_texture(image) {
            Ok(write) => write,
            Err(error) => {
                return Err(error);
            },
        };
        let textures = Textures {
            full_texture,
            full_output_texture,
            input_texture,
            output_texture,
            image_size,
            output_size,
            generation,
        };
        Ok((textures, write))
    }

    /// Builds everything a renderer holds for a surface of `format`: the
    /// uniform buffer, the first texture set and the bundle of every stage.
    /// Each pipeline is compiled here and never again.
    pub fn initialize(&self, format: wgpu::TextureFormat) -> (result: Result<
        (ComputeRenderer, TextureWrite),
        UploadError,
    >)
        requires
            self.spec_wf(),
        ensures
            match result {
                Ok((renderer, write)) => {
                    &&& renderer.spec_wf()
                    &&& renderer.textures == spec_textures(
                        self.image.spec_kind(),
                        self.spec_image_size(),
                        self.spec_output_size(),
                        1,
                    )
                    &&& renderer.image_path@ == self.image_path@
                    &&& renderer.fragment_shader.pipeline.target_format == format
                    &&& self.spec_uploads(&write)
                },
                Err(error) => error == UploadError::UnsupportedRawFormat && self.spec_unsupported(),
            },
    {
        let uniforms = create_uniforms_buffer();
        let (textures, write) = match self.create_image_textures(&self.image, 1) {
            Ok(built) => built,
            Err(error) => {
                return Err(error);
            },
        };
        let fragment_shader = FragmentShader::compile(format, &textures);
        let demosaic_shader = DemosaicShader::compile(&textures);
        let downsample_shader = DownsampleShader::compile(&textures);
        let processing_shader = ProcessingShader::compile(&textures);
        let renderer = ComputeRenderer {
            fragment_shader,
            uniforms,
            demosaic_shader,
            downsample_shader,
            processing_shader,
            image_path: self.image_path.clone(),
            textures,
        };
        Ok((renderer, write))
    }

    /// Makes `renderer` ready for this frame: rebuilds its resources if
    /// needed, then packs the parameters for the render target the renderer
    /// now has. The parameters are packed on every frame, rebuilt or not.
    pub fn prepare(&self, renderer: &mut ComputeRenderer) -> (result: Result<Prepared, UploadError>)
        requires
            self.spec_wf(),
            old(renderer).spec_wf(),
        ensures
            match result {
                Ok(prepared) => {
                    &&& match prepared.upload {
                        None => !self.spec_needs_rebuild(old(renderer)) && *final(renderer) == *old(
                            renderer,
                        ),
                        Some(write) => {
                            &&& self.spec_needs_rebuild(old(renderer))
                            &&& self.spec_rebuilt(old(renderer), final(renderer))
                            &&& self.spec_uploads(&write)
                        },
                    }
                    &&& is_image_of(
                        prepared.uniforms@,
                        self.uniforms.spec_to_raw(
                            final(renderer).textures.output_size.spec_to_f32(),
                        ).spec_words(),
                    )
                    &&& prepared.uniforms@.len() == RAW_SIZE
                },
                Err(error) => {
                    &&& error == UploadError::UnsupportedRawFormat
                    &&& self.spec_needs_rebuild(old(renderer))
                    &&& self.spec_unsupported()
                    &&& *final(renderer) == *old(renderer)
                },
            },
            final(renderer).spec_wf(),
    {
        let upload = match self.check_resize(renderer) {
            Ok(upload) => upload,
            Err(error) => {
                return Err(error);
            },
        };
        let uniforms = self.uniforms.to_raw(renderer.textures.output_size.to_f32()).to_bytes();
        Ok(Prepared { upload, uniforms })
    }

    /// The passes of this frame: demosaic over the image, downsample and
    /// processing over the render target, then the composite draw clipped to
    /// `bounds`.
    pub fn render(&self, renderer: &ComputeRenderer, bounds: &Rectangle) -> (frame: Frame)
        requires
            renderer.spec_wf(),
        ensures
            frame.compute[0] == spec_pass(Stage::Demosaic, renderer.textures.image_size),
            frame.compute[1] == spec_pass(Stage::Downsample, renderer.textures.output_size),
            frame.compute[2] == spec_pass(Stage::Processing, renderer.textures.output_size),
            frame.draw == spec_draw(Stage::Composite, *bounds),
    {
        let demosaic = enqueue_workload(&renderer.demosaic_shader);
        let downsample = enqueue_workload(&renderer.downsample_shader);
        let processing = enqueue_workload(&renderer.processing_shader);
        Frame { compute: [demosaic, downsample, processing], draw: enqueue_draw(renderer, bounds) }
    }
}

/// A rebuild settles. Once a renderer has been rebuilt for a primitive whose
/// window has the proportions of its image and measures less than `2^23`
/// texels either way, the same primitive asks for no further rebuild: its
/// image is the one the renderer holds, and the render target, made a fifth
/// larger than the window, is neither too small for it nor more than twice
/// its size.
pub proof fn lemma_rebuild_settles(
    primitive: Primitive,
    before: ComputeRenderer,
    after: ComputeRenderer,
)
    requires
        primitive.spec_rebuilt(&before, &after),
        primitive.uniforms.window_size.spec_to_u32().width < 0x80_0000,
        primitive.uniforms.window_size.spec_to_u32().height < 0x80_0000,
        spec_calculate_image_size(
            primitive.uniforms.window_size.spec_to_u32(),
            primitive.spec_image_size(),
        ) == primitive.uniforms.window_size.spec_to_u32(),
    ensures
        !primitive.spec_needs_rebuild(&after),
{
    lemma_margin_covers_the_window(
        primitive.uniforms.window_size.spec_to_u32(),
        primitive.spec_image_size(),
    );
}

/// The compute pass of `stage` over a texture of `size`.
pub open spec fn spec_pass(stage: Stage, size: Size) -> ComputePass {
    ComputePass {
        stage,
        workgroups: Workgroups {
            x: spec_dispatch_count(size.width as int) as u32,
            y: spec_dispatch_count(size.height as int) as u32,
            z: 1,
        },
    }
}

/// The draw of `stage` clipped to `bounds`: what the target holds is kept and
/// drawn over, both scissor and viewport are `bounds`, the depth range is
/// 0 to 1, and six vertices of one instance are drawn.
pub open spec fn spec_draw(stage: Stage, bounds: Rectangle) -> RenderPass {
    RenderPass {
        stage,
        load: LoadOp::Load,
        store: StoreOp::Store,
        scissor: bounds,
        viewport: [
            spec_single_of_u32(bounds.x as int) as u32,
            spec_single_of_u32(bounds.y as int) as u32,
            spec_single_of_u32(bounds.width as int) as u32,
            spec_single_of_u32(bounds.height as int) as u32,
        ],
        depth_range: [ZERO, ONE],
        first_vertex: 0,
        vertex_count: 6,
        first_instance: 0,
        instance_count: 1,
    }
}

/// The render pass that draws with the render bundle of `renderer` into the
/// target, clipped to `bounds`.
pub fn enqueue_draw(renderer: &ComputeRenderer, bounds: &Rectangle) -> (pass: RenderPass)
    ensures
        pass == spec_draw(renderer.fragment_shader.pipeline.stage, *bounds),
{
    let stage = renderer.fragment_shader.pipeline.stage;
    let pass = RenderPass {
        stage,
        load: LoadOp::Load,
        store: StoreOp::Store,
        scissor: *bounds,
        viewport: [
            single_of_u32(bounds.x),
            single_of_u32(bounds.y),
            single_of_u32(bounds.width),
            single_of_u32(bounds.height),
        ],
        depth_range: [ZERO, ONE],
        first_vertex: 0,
        vertex_count: 6,
        first_instance: 0,
        instance_count: 1,
    };
    assert(pass.viewport =~= spec_draw(stage, *bounds).viewport);
    assert(pass.depth_range =~= spec_draw(stage, *bounds).depth_range);
    pass
}

} // verus!
