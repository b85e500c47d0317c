//! Descriptions of bind groups and of compiled pipelines, one bundle per stage.

use vstd::prelude::*;
use crate::binding::{
    spec_all_stages, BindGroupEntry, BindGroupLayoutEntry, BindingResource, BindingType, Stage,
};

verus! {

/// `wgpu::TextureFormat`, declared so that the format of the target surface
/// can be carried from the windowing layer, which picks it, to the composite
/// pipeline. Nothing is known here of what a value of it holds.
#[verifier::external_type_specification]
#[verifier::external_body]
pub struct ExSurfaceFormat(wgpu::TextureFormat);

/// The slots of one bind group.
#[derive(Debug, PartialEq, Eq)]
pub struct BindGroupLayoutDescriptor {
    pub entries: Vec<BindGroupLayoutEntry>,
}

/// The bind group layouts a pipeline is compiled against, by group number.
#[derive(Debug, PartialEq, Eq)]
pub struct PipelineLayoutDescriptor {
    pub bind_group_layouts: Vec<BindGroupLayoutDescriptor>,
}

/// A bind group: concrete resources for the slots of one group of a pipeline.
#[derive(Debug, PartialEq, Eq)]
pub struct BindGroupDescriptor {
    /// Number of the group within the pipeline whose layout this group follows.
    pub group: u32,
    pub entries: Vec<BindGroupEntry>,
    /// Generation of the texture set the group was assembled against.
    pub generation: u64,
}

/// A compute pipeline: one shader stage compiled against its layouts.
#[derive(Debug, PartialEq, Eq)]
pub struct ComputePipelineDescriptor {
    /// The stage whose shader program the pipeline runs.
    pub stage: Stage,
    pub layout: PipelineLayoutDescriptor,
    pub entry_point: &'static str,
}

/// How the composite output is combined with what the target already holds.
#[derive(Clone, Copy, Debug, PartialEq, Eq, Structural)]
pub enum BlendState {
    /// The source replaces the target.
    Replace,
    /// Source over target, weighted by the source's alpha.
    AlphaBlending,
}

/// The render pipeline of the composite stage.
#[derive(Debug, PartialEq, Eq)]
pub struct RenderPipelineDescriptor {
    pub stage: Stage,
    pub layout: PipelineLayoutDescriptor,
    pub vertex_entry_point: &'static str,
    pub fragment_entry_point: &'static str,
    /// Format of the surface drawn into.
    pub target_format: wgpu::TextureFormat,
    pub blend: BlendState,
}

/// The one slot of the shared uniform group.
pub open spec fn spec_uniforms_layout() -> Seq<BindGroupLayoutEntry> {
    seq![
        BindGroupLayoutEntry {
            binding: 0,
            visibility: spec_all_stages(),
            ty: BindingType::UniformBuffer,
        },
    ]
}

/// The one resource of the shared uniform group.
pub open spec fn spec_uniforms_bindings() -> Seq<BindGroupEntry> {
    seq![BindGroupEntry { binding: 0, resource: BindingResource::UniformBuffer }]
}

impl PipelineLayoutDescriptor {
    /// True when the layout is that of `stage`: the stage's primary group as
    /// group 0 and the shared uniform group as group 1.
    pub open spec fn is_for(&self, stage: Stage) -> bool {
        &&& self.bind_group_layouts@.len() == 2
        &&& self.bind_group_layouts@[0].entries@ == stage.spec_layout()
        &&& self.bind_group_layouts@[1].entries@ == spec_uniforms_layout()
    }
}

impl ComputePipelineDescriptor {
    /// True when the pipeline is the one compiled for the compute stage `stage`.
    pub open spec fn is_for(&self, stage: Stage) -> bool {
        &&& stage.is_compute()
        &&& self.stage == stage
        &&& self.layout.is_for(stage)
        &&& self.entry_point@ == "main"@
    }
}

impl RenderPipelineDescriptor {
    /// True when the pipeline is the composite pipeline for a surface of `format`.
    pub open spec fn is_for(&self, format: wgpu::TextureFormat) -> bool {
        &&& self.stage == Stage::Composite
        &&& self.layout.is_for(Stage::Composite)
        &&& self.vertex_entry_point@ == "vs_main"@
        &&& self.fragment_entry_point@ == "fs_main"@
        &&& self.target_format == format
        &&& self.blend == BlendState::AlphaBlending
    }
}

impl BindGroupDescriptor {
    /// True when the group is the primary group of `stage`, assembled against
    /// the texture set of the given generation.
    pub open spec fn is_primary_of(&self, stage: Stage, generation: u64) -> bool {
        &&& self.group == 0
        &&& self.entries@ == stage.spec_bindings()
        &&& self.generation == generation
    }

    /// True when the group is the uniform group, assembled together with the
    /// primary group of the given generation.
    pub open spec fn is_uniforms_of(&self, generation: u64) -> bool {
        &&& self.group == 1
        &&& self.entries@ == spec_uniforms_bindings()
        &&& self.generation == generation
    }
}

/// The pipeline layout with `primary` as group 0 and the shared uniform group
/// as group 1.
pub fn pipeline_layout(primary: BindGroupLayoutDescriptor) -> (layout: PipelineLayoutDescriptor)
    ensures
        layout.bind_group_layouts@.len() == 2,
        layout.bind_group_layouts@[0] == primary,
        layout.bind_group_layouts@[1].entries@ == spec_uniforms_layout(),
{
    let uniforms = crate::compute::uniforms_bind_group_layout();
    let bind_group_layouts = vec![primary, uniforms];
    PipelineLayoutDescriptor { bind_group_layouts }
}

/// Both bind groups of `stage` for the texture set of the given generation,
/// as a pair, so that neither can be kept while the other is replaced.
pub fn stage_bind_groups(stage: Stage, generation: u64) -> (groups: (
    BindGroupDescriptor,
    BindGroupDescriptor,
))
    ensures
        groups.0.is_primary_of(stage, generation),
        groups.1.is_uniforms_of(generation),
{
    let primary = BindGroupDescriptor { group: 0, entries: stage.bindings(), generation };
    (primary, crate::compute::uniforms_bind_group(generation))
}

} // verus!
