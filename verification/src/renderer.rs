//! The resources a renderer holds between frames: the texture set and one
//! shader bundle per stage.

use vstd::prelude::*;
use crate::binding::{BindingResource, BindingType, SourceKind, Stage, TextureSlot};
use crate::compute::demosaic::DemosaicShader;
use crate::compute::downsample::DownsampleShader;
use crate::compute::fragment::FragmentShader;
use crate::compute::processing::ProcessingShader;
use crate::descriptor::{BufferDescriptor, TextureDescriptor};
use crate::pipeline::{BindGroupDescriptor, ComputePipelineDescriptor, RenderPipelineDescriptor};
use crate::util::Size;

verus! {

/// The four textures of the pipeline and the sizes they were made for.
#[derive(Debug, Clone, Copy, PartialEq, Eq)]
pub struct Textures {
    /// Full-resolution source.
    pub full_texture: TextureDescriptor,
    /// Full-resolution linear output of the demosaic stage.
    pub full_output_texture: TextureDescriptor,
    /// Render-target-sized input of the processing stage.
    pub input_texture: TextureDescriptor,
    /// Render-target-sized output of the processing stage.
    pub output_texture: TextureDescriptor,
    /// Size of the loaded image.
    pub image_size: Size,
    /// Size of the render target.
    pub output_size: Size,
    /// How many texture sets have been built up to and including this one.
    pub generation: u64,
}

/// The bundle of a compute stage.
#[derive(Debug, PartialEq, Eq)]
pub struct ComputeShaderData {
    pub pipeline: ComputePipelineDescriptor,
    pub bind_group: BindGroupDescriptor,
    pub uniform_bind_group: BindGroupDescriptor,
    /// Size of the texture the stage writes; one invocation runs per texel of it.
    pub size: Size,
}

/// The bundle of the composite stage.
#[derive(Debug, PartialEq, Eq)]
pub struct RenderShaderData {
    pub pipeline: RenderPipelineDescriptor,
    pub bind_group: BindGroupDescriptor,
    pub uniform_bind_group: BindGroupDescriptor,
}

/// Everything a renderer holds between frames.
#[derive(Debug, PartialEq, Eq)]
pub struct ComputeRenderer {
    pub fragment_shader: RenderShaderData,
    /// The uniform buffer all stages read.
    pub uniforms: BufferDescriptor,
    pub demosaic_shader: ComputeShaderData,
    pub downsample_shader: ComputeShaderData,
    pub processing_shader: ComputeShaderData,
    /// Names the image the textures were built for.
    pub image_path: String,
    pub textures: Textures,
}

impl Textures {
    /// The texture in `slot`.
    pub open spec fn spec_texture(&self, slot: TextureSlot) -> TextureDescriptor {
        match slot {
            TextureSlot::Full => self.full_texture,
            TextureSlot::FullOutput => self.full_output_texture,
            TextureSlot::Input => self.input_texture,
            TextureSlot::Output => self.output_texture,
        }
    }

    /// The size the texture in `slot` must have.
    pub open spec fn spec_size_of(&self, slot: TextureSlot) -> Size {
        if slot.spec_is_full_resolution() {
            self.image_size
        } else {
            self.output_size
        }
    }

    /// True when the set is one built for an image of the given kind: each
    /// texture has the size, the format and exactly the usage its place in
    /// the pipeline asks for.
    pub open spec fn spec_built_for(&self, kind: SourceKind) -> bool {
        forall|slot: TextureSlot| #[trigger]
            self.spec_texture(slot) == TextureDescriptor::spec_new(
                self.spec_size_of(slot),
                slot.spec_format(kind),
                slot.spec_usage(),
            )
    }

    /// True when the set is one built for an image of some kind.
    pub open spec fn spec_wf(&self) -> bool {
        self.spec_built_for(SourceKind::Standard) || self.spec_built_for(SourceKind::Raw)
    }
}

impl ComputeShaderData {
    /// True when the bundle is the one of `stage` over `textures`: the
    /// stage's pipeline, both bind groups assembled against these textures,
    /// and the size of the texture the stage writes.
    pub open spec fn spec_serves(&self, stage: Stage, textures: &Textures) -> bool {
        &&& self.pipeline.is_for(stage)
        &&& self.bind_group.is_primary_of(stage, textures.generation)
        &&& self.uniform_bind_group.is_uniforms_of(textures.generation)
        &&& stage.spec_target() matches Some(target) && self.size == textures.spec_size_of(target)
    }
}

impl RenderShaderData {
    /// True when the bundle is the composite bundle over `textures`.
    pub open spec fn spec_serves(&self, textures: &Textures) -> bool {
        &&& self.pipeline.is_for(self.pipeline.target_format)
        &&& self.bind_group.is_primary_of(Stage::Composite, textures.generation)
        &&& self.uniform_bind_group.is_uniforms_of(textures.generation)
    }
}

impl ComputeRenderer {
    /// True when the renderer is consistent: the texture set is well formed
    /// and every bundle serves its stage over exactly this texture set, so
    /// that no bind group refers to a texture that has been replaced.
    pub open spec fn spec_wf(&self) -> bool {
        &&& self.textures.spec_wf()
        &&& self.uniforms == crate::primitive::spec_uniforms_buffer()
        &&& self.fragment_shader.spec_serves(&self.textures)
        &&& self.demosaic_shader.spec_serves(Stage::Demosaic, &self.textures)
        &&& self.downsample_shader.spec_serves(Stage::Downsample, &self.textures)
        &&& self.processing_shader.spec_serves(Stage::Processing, &self.textures)
    }

    /// Assembles the bind groups of all four stages anew against the current
    /// texture set, and sets the sizes the compute stages run over.
    /// Pipelines are kept as they are: nothing is compiled again.
    pub fn replace_bind_groups(&mut self)
        requires
            old(self).fragment_shader.pipeline.is_for(
                old(self).fragment_shader.pipeline.target_format,
            ),
            old(self).demosaic_shader.pipeline.is_for(Stage::Demosaic),
            old(self).downsample_shader.pipeline.is_for(Stage::Downsample),
            old(self).processing_shader.pipeline.is_for(Stage::Processing),
        ensures
            final(self).fragment_shader.spec_serves(&final(self).textures),
            final(self).demosaic_shader.spec_serves(Stage::Demosaic, &final(self).textures),
            final(self).downsample_shader.spec_serves(Stage::Downsample, &final(self).textures),
            final(self).processing_shader.spec_serves(Stage::Processing, &final(self).textures),
            final(self).fragment_shader.pipeline == old(self).fragment_shader.pipeline,
            final(self).demosaic_shader.pipeline == old(self).demosaic_shader.pipeline,
            final(self).downsample_shader.pipeline == old(self).downsample_shader.pipeline,
            final(self).processing_shader.pipeline == old(self).processing_shader.pipeline,
            final(self).textures == old(self).textures,
            final(self).uniforms == old(self).uniforms,
            final(self).image_path == old(self).image_path,
    {
        let (fragment_bind_group, fragment_uniform_bind_group) = FragmentShader::create_bind_group(
            &self.fragment_shader.pipeline,
            &self.textures,
        );
        let (processing_bind_group, processing_uniform_bind_group) =
            ProcessingShader::create_bind_group(&self.processing_shader.pipeline, &self.textures);
        let (downsample_bind_group, downsample_uniform_bind_group) =
            DownsampleShader::create_bind_group(&self.downsample_shader.pipeline, &self.textures);
        let (demosaic_bind_group, demosaic_uniform_bind_group) = DemosaicShader::create_bind_group(
            &self.demosaic_shader.pipeline,
            &self.textures,
        );
        self.fragment_shader.bind_group = fragment_bind_group;
        self.fragment_shader.uniform_bind_group = fragment_uniform_bind_group;
        self.processing_shader.bind_group = processing_bind_group;
        self.downsample_shader.bind_group = downsample_bind_group;
        self.demosaic_shader.bind_group = demosaic_bind_group;
        self.processing_shader.uniform_bind_group = processing_uniform_bind_group;
        self.downsample_shader.uniform_bind_group = downsample_uniform_bind_group;
        self.demosaic_shader.uniform_bind_group = demosaic_uniform_bind_group;
        self.processing_shader.size = self.textures.output_size;
        self.downsample_shader.size = self.textures.output_size;
        self.demosaic_shader.size = self.textures.image_size;
    }
}

/// In a texture set built for an image of any kind, every texture that a
/// stage binds fits the slot it is bound to: a sampled texture may be sampled,
/// and may be filtered if the slot filters; a written texture may be written
/// as storage and has the very format the slot declares.
pub proof fn lemma_textures_fit_bindings(
    textures: Textures,
    kind: SourceKind,
    stage: Stage,
    index: int,
)
    requires
        textures.spec_built_for(kind),
        0 <= index < 3,
    ensures
        stage.spec_bindings()[index].resource matches BindingResource::TextureView(slot) ==> {
            let texture = textures.spec_texture(slot);
            match stage.spec_layout()[index].ty {
                BindingType::Texture { filterable } => {
                    &&& texture.usage.texture_binding
                    &&& filterable ==> texture.format.spec_is_filterable()
                },
                BindingType::StorageTexture { format } => {
                    &&& texture.usage.storage_binding
                    &&& texture.format == format
                },
                _ => false,
            }
        },
{
    assert(textures.spec_texture(TextureSlot::Full) == TextureDescriptor::spec_new(
        textures.spec_size_of(TextureSlot::Full),
        TextureSlot::Full.spec_format(kind),
        TextureSlot::Full.spec_usage(),
    ));
    assert(textures.spec_texture(TextureSlot::FullOutput) == TextureDescriptor::spec_new(
        textures.spec_size_of(TextureSlot::FullOutput),
        TextureSlot::FullOutput.spec_format(kind),
        TextureSlot::FullOutput.spec_usage(),
    ));
    assert(textures.spec_texture(TextureSlot::Input) == TextureDescriptor::spec_new(
        textures.spec_size_of(TextureSlot::Input),
        TextureSlot::Input.spec_format(kind),
        TextureSlot::Input.spec_usage(),
    ));
    assert(textures.spec_texture(TextureSlot::Output) == TextureDescriptor::spec_new(
        textures.spec_size_of(TextureSlot::Output),
        TextureSlot::Output.spec_format(kind),
        TextureSlot::Output.spec_usage(),
    ));
}

/// In a consistent renderer, each compute stage runs over the size of the
/// texture it writes, and the textures of one resolution have one size: the
/// source and the linear output that of the image, the two working textures
/// that of the render target.
pub proof fn lemma_sizes_agree(renderer: ComputeRenderer)
    requires
        renderer.spec_wf(),
    ensures
        renderer.demosaic_shader.size == renderer.textures.image_size,
        renderer.downsample_shader.size == renderer.textures.output_size,
        renderer.processing_shader.size == renderer.textures.output_size,
        renderer.textures.full_texture.size == renderer.textures.full_output_texture.size,
        renderer.textures.input_texture.size == renderer.textures.output_texture.size,
        renderer.textures.full_texture.size.width == renderer.textures.image_size.width,
        renderer.textures.full_texture.size.height == renderer.textures.image_size.height,
        renderer.textures.output_texture.size.width == renderer.textures.output_size.width,
        renderer.textures.output_texture.size.height == renderer.textures.output_size.height,
{
    let textures = renderer.textures;
    let kind = if textures.spec_built_for(SourceKind::Standard) {
        SourceKind::Standard
    } else {
        SourceKind::Raw
    };
    lemma_textures_fit_bindings(textures, kind, Stage::Demosaic, 0);
    assert(textures.spec_texture(TextureSlot::Full).size == TextureDescriptor::spec_new(
        textures.spec_size_of(TextureSlot::Full),
        TextureSlot::Full.spec_format(kind),
        TextureSlot::Full.spec_usage(),
    ).size);
    assert(textures.spec_texture(TextureSlot::FullOutput).size == TextureDescriptor::spec_new(
        textures.spec_size_of(TextureSlot::FullOutput),
        TextureSlot::FullOutput.spec_format(kind),
        TextureSlot::FullOutput.spec_usage(),
    ).size);
    assert(textures.spec_texture(TextureSlot::Input).size == TextureDescriptor::spec_new(
        textures.spec_size_of(TextureSlot::Input),
        TextureSlot::Input.spec_format(kind),
        TextureSlot::Input.spec_usage(),
    ).size);
    assert(textures.spec_texture(TextureSlot::Output).size == TextureDescriptor::spec_new(
        textures.spec_size_of(TextureSlot::Output),
        TextureSlot::Output.spec_format(kind),
        TextureSlot::Output.spec_usage(),
    ).size);
}

} // verus!
