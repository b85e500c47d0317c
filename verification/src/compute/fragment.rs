//! The composite stage: draws the processed image into the target surface.

use vstd::prelude::*;
use crate::binding::Stage;
use crate::pipeline::{
    pipeline_layout, stage_bind_groups, BindGroupDescriptor, BindGroupLayoutDescriptor, BlendState,
    RenderPipelineDescriptor,
};
use crate::renderer::{RenderShaderData, Textures};

verus! {

/// Makes what the composite stage needs.
pub struct FragmentShader;

impl FragmentShader {
    /// The bundle of the stage over `textures`, for a surface of `format`.
    pub fn compile(format: wgpu::TextureFormat, textures: &Textures) -> (data: RenderShaderData)
        ensures
            data.spec_serves(textures),
            data.pipeline.target_format == format,
    {
        let pipeline = Self::create_pipeline(format);
        let (bind_group, uniform_bind_group) = Self::create_bind_group(&pipeline, textures);
        RenderShaderData { pipeline, bind_group, uniform_bind_group }
    }

    /// The render pipeline of the stage for a surface of `format`: the
    /// vertex shader entered at `vs_main`, the fragment shader at `fs_main`,
    /// blended over the target by alpha.
    pub fn create_pipeline(format: wgpu::TextureFormat) -> (pipeline: RenderPipelineDescriptor)
        ensures
            pipeline.is_for(format),
    {
        let primary = Self::create_bind_group_layout();
        RenderPipelineDescriptor {
            stage: Stage::Composite,
            layout: pipeline_layout(primary),
            vertex_entry_point: "vs_main",
            fragment_entry_point: "fs_main",
            target_format: format,
            blend: BlendState::AlphaBlending,
        }
    }

    /// The primary group of the stage: the uniform buffer at binding 0, the
    /// sampled output texture at binding 1, the filtering sampler at binding 2.
    pub fn create_bind_group_layout() -> (layout: BindGroupLayoutDescriptor)
        ensures
            layout.entries@ == Stage::Composite.spec_layout(),
    {
        BindGroupLayoutDescriptor { entries: Stage::Composite.layout() }
    }

    /// Both bind groups of the stage `pipeline` was compiled for, assembled
    /// anew against `textures`.
    pub fn create_bind_group(pipeline: &RenderPipelineDescriptor, textures: &Textures) -> (groups: (
        BindGroupDescriptor,
        BindGroupDescriptor,
    ))
        ensures
            groups.0.is_primary_of(pipeline.stage, textures.generation),
            groups.1.is_uniforms_of(textures.generation),
    {
        stage_bind_groups(pipeline.stage, textures.generation)
    }
}

} // verus!
