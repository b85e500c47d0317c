//! The processing stage: applies exposure, contrast and colour conversion
//! at the size of the render target.

use vstd::prelude::*;
use crate::binding::Stage;
use crate::pipeline::{
    pipeline_layout, stage_bind_groups, BindGroupDescriptor, BindGroupLayoutDescriptor,
    ComputePipelineDescriptor,
};
use crate::renderer::{ComputeShaderData, Textures};

verus! {

/// Makes what the processing stage needs.
pub struct ProcessingShader;

impl ProcessingShader {
    /// The bundle of the stage over `textures`: the pipeline, both bind
    /// groups and the size of the texture the stage writes.
    pub fn compile(textures: &Textures) -> (data: ComputeShaderData)
        ensures
            data.spec_serves(Stage::Processing, textures),
    {
        let pipeline = Self::create_pipeline();
        let (bind_group, uniform_bind_group) = Self::create_bind_group(&pipeline, textures);
        let size = textures.output_size;
        ComputeShaderData { pipeline, bind_group, uniform_bind_group, size }
    }

    /// The pipeline of the stage: its shader, entered at `main`, compiled
    /// against the stage's primary group and the uniform group.
    pub fn create_pipeline() -> (pipeline: ComputePipelineDescriptor)
        ensures
            pipeline.is_for(Stage::Processing),
    {
        let primary = Self::create_bind_group_layout();
        ComputePipelineDescriptor {
            stage: Stage::Processing,
            layout: pipeline_layout(primary),
            entry_point: "main",
        }
    }

    /// The primary group of the stage: the sampled source at binding 0, the
    /// written target at binding 1, the uniform buffer at binding 2.
    pub fn create_bind_group_layout() -> (layout: BindGroupLayoutDescriptor)
        ensures
            layout.entries@ == Stage::Processing.spec_layout(),
    {
        BindGroupLayoutDescriptor { entries: Stage::Processing.layout() }
    }

    /// Both bind groups of the stage `pipeline` was compiled for, assembled
    /// anew against `textures`.
    pub fn create_bind_group(pipeline: &ComputePipelineDescriptor, textures: &Textures) -> (groups:
        (BindGroupDescriptor, BindGroupDescriptor))
        ensures
            groups.0.is_primary_of(pipeline.stage, textures.generation),
            groups.1.is_uniforms_of(textures.generation),
    {
        stage_bind_groups(pipeline.stage, textures.generation)
    }
}

} // verus!
