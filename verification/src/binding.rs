//! The binding contract between host code and the shader stages.
//!
//! Each stage reads and writes through numbered binding slots. The numbers are
//! the interface both sides agree on; everything else about a shader may change.

use vstd::prelude::*;
use crate::descriptor::{TexelFormat, TextureUsages};

verus! {

/// The stages of the pipeline, in the order in which a frame runs them.
#[derive(Clone, Copy, Debug, PartialEq, Eq, Structural)]
pub enum Stage {
    /// Rebuilds full colour from the sensor's colour-filter samples.
    Demosaic,
    /// Scales the full-resolution result down to the viewport.
    Downsample,
    /// Applies exposure, contrast and colour conversion.
    Processing,
    /// Draws the processed image into the target surface.
    Composite,
}

/// The four textures of a texture set.
#[derive(Clone, Copy, Debug, PartialEq, Eq, Structural)]
pub enum TextureSlot {
    /// Full-resolution source: decoded pixels or the sensor plane.
    Full,
    /// Full-resolution linear output of the demosaic stage.
    FullOutput,
    /// Viewport-sized input of the processing stage.
    Input,
    /// Viewport-sized output of the processing stage.
    Output,
}

/// The shader stages that can see a binding.
#[derive(Clone, Copy, Debug, PartialEq, Eq, Structural)]
pub struct ShaderStages {
    pub vertex: bool,
    pub fragment: bool,
    pub compute: bool,
}

/// What a binding slot holds.
#[derive(Clone, Copy, Debug, PartialEq, Eq, Structural)]
pub enum BindingType {
    /// A two-dimensional, single-sampled texture read as floating values.
    Texture { filterable: bool },
    /// A two-dimensional texture of the given format, written and never read.
    StorageTexture { format: TexelFormat },
    /// A uniform block at a fixed offset, of no stated minimum size.
    UniformBuffer,
    /// A sampler that filters.
    FilteringSampler,
}

/// One slot of a bind group layout.
#[derive(Clone, Copy, Debug, PartialEq, Eq, Structural)]
pub struct BindGroupLayoutEntry {
    pub binding: u32,
    pub visibility: ShaderStages,
    pub ty: BindingType,
}

/// The resource wired into a slot.
#[derive(Clone, Copy, Debug, PartialEq, Eq, Structural)]
pub enum BindingResource {
    /// A view over the whole of one texture of the set.
    TextureView(TextureSlot),
    /// The whole uniform buffer.
    UniformBuffer,
    /// The linear, edge-clamping sampler.
    Sampler,
}

/// One slot of a bind group.
#[derive(Clone, Copy, Debug, PartialEq, Eq, Structural)]
pub struct BindGroupEntry {
    pub binding: u32,
    pub resource: BindingResource,
}

/// Visibility of the bindings of a compute stage.
pub open spec fn spec_compute_only() -> ShaderStages {
    ShaderStages { vertex: false, fragment: false, compute: true }
}

/// Visibility of the bindings of the composite stage.
pub open spec fn spec_vertex_fragment() -> ShaderStages {
    ShaderStages { vertex: true, fragment: true, compute: false }
}

/// Visibility of the shared uniform group: every stage of every kind.
pub open spec fn spec_all_stages() -> ShaderStages {
    ShaderStages { vertex: true, fragment: true, compute: true }
}

/// True when a resource is of the kind a slot type asks for.
pub open spec fn resource_fits(resource: BindingResource, ty: BindingType) -> bool {
    match ty {
        BindingType::Texture { .. } => resource is TextureView,
        BindingType::StorageTexture { .. } => resource is TextureView,
        BindingType::UniformBuffer => resource is UniformBuffer,
        BindingType::FilteringSampler => resource is Sampler,
    }
}

/// The kind of image a texture set was built for.
#[derive(Clone, Copy, Debug, PartialEq, Eq, Structural)]
pub enum SourceKind {
    /// Decoded red, green, blue and alpha, 8 bits each.
    Standard,
    /// One plane of sensor samples, still to be demosaiced.
    Raw,
}

impl TextureSlot {
    /// True for the two textures that have the size of the image; the other
    /// two have the size of the render target.
    pub open spec fn spec_is_full_resolution(self) -> bool {
        self == TextureSlot::Full || self == TextureSlot::FullOutput
    }

    /// The usage flags the texture needs and no others: sampling for the
    /// texture a stage reads, storage for the texture a stage writes, copy
    /// destination for the texture the host uploads into.
    pub open spec fn spec_usage(self) -> TextureUsages {
        TextureUsages {
            copy_src: false,
            copy_dst: self == TextureSlot::Full,
            texture_binding: true,
            storage_binding: self != TextureSlot::Full,
            render_attachment: false,
        }
    }

    /// The format of the texture, given the kind of the source image.
    pub open spec fn spec_format(self, kind: SourceKind) -> TexelFormat {
        match self {
            TextureSlot::Full => match kind {
                SourceKind::Standard => TexelFormat::Rgba8Unorm,
                SourceKind::Raw => TexelFormat::R32Float,
            },
            TextureSlot::FullOutput => TexelFormat::Rgba32Float,
            TextureSlot::Input => TexelFormat::Rgba8Unorm,
            TextureSlot::Output => TexelFormat::Rgba8Unorm,
        }
    }

    /// The usage flags the texture needs and no others.
    pub fn usage(self) -> (usage: TextureUsages)
        ensures
            usage == self.spec_usage(),
    {
        let is_source = match self {
            TextureSlot::Full => true,
            _ => false,
        };
        TextureUsages {
            copy_src: false,
            copy_dst: is_source,
            texture_binding: true,
            storage_binding: !is_source,
            render_attachment: false,
        }
    }

    /// The format of the texture, given the kind of the source image.
    pub fn format(self, kind: SourceKind) -> (format: TexelFormat)
        ensures
            format == self.spec_format(kind),
    {
        match self {
            TextureSlot::Full => match kind {
                SourceKind::Standard => TexelFormat::Rgba8Unorm,
                SourceKind::Raw => TexelFormat::R32Float,
            },
            TextureSlot::FullOutput => TexelFormat::Rgba32Float,
            TextureSlot::Input => TexelFormat::Rgba8Unorm,
            TextureSlot::Output => TexelFormat::Rgba8Unorm,
        }
    }
}

impl Stage {
    /// True for the three stages that run as compute passes.
    pub open spec fn is_compute(self) -> bool {
        self != Stage::Composite
    }

    /// The texture the stage samples.
    pub open spec fn spec_source(self) -> TextureSlot {
        match self {
            Stage::Demosaic => TextureSlot::Full,
            Stage::Downsample => TextureSlot::FullOutput,
            Stage::Processing => TextureSlot::Input,
            Stage::Composite => TextureSlot::Output,
        }
    }

    /// The texture the stage writes; the composite stage writes the target surface instead.
    pub open spec fn spec_target(self) -> Option<TextureSlot> {
        match self {
            Stage::Demosaic => Some(TextureSlot::FullOutput),
            Stage::Downsample => Some(TextureSlot::Input),
            Stage::Processing => Some(TextureSlot::Output),
            Stage::Composite => None,
        }
    }

    /// Whether the stage's source slot asks for a texture that can be
    /// filtered. Only the composite stage samples through a sampler; the
    /// compute stages load texels as they are.
    pub open spec fn spec_filterable(self) -> bool {
        self == Stage::Composite
    }

    /// The format of the texture a compute stage writes.
    pub open spec fn spec_storage_format(self) -> TexelFormat {
        match self {
            Stage::Demosaic => TexelFormat::Rgba32Float,
            Stage::Downsample => TexelFormat::Rgba8Unorm,
            Stage::Processing => TexelFormat::Rgba8Unorm,
            Stage::Composite => TexelFormat::Rgba8Unorm,
        }
    }

    /// The slots of the stage's primary bind group, by binding number.
    pub open spec fn spec_layout(self) -> Seq<BindGroupLayoutEntry> {
        if self.is_compute() {
            seq![
                BindGroupLayoutEntry {
                    binding: 0,
                    visibility: spec_compute_only(),
                    ty: BindingType::Texture { filterable: self.spec_filterable() },
                },
                BindGroupLayoutEntry {
                    binding: 1,
                    visibility: spec_compute_only(),
                    ty: BindingType::StorageTexture { format: self.spec_storage_format() },
                },
                BindGroupLayoutEntry {
                    binding: 2,
                    visibility: spec_compute_only(),
                    ty: BindingType::UniformBuffer,
                },
            ]
        } else {
            seq![
                BindGroupLayoutEntry {
                    binding: 0,
                    visibility: spec_vertex_fragment(),
                    ty: BindingType::UniformBuffer,
                },
                BindGroupLayoutEntry {
                    binding: 1,
                    visibility: spec_vertex_fragment(),
                    ty: BindingType::Texture { filterable: self.spec_filterable() },
                },
                BindGroupLayoutEntry {
                    binding: 2,
                    visibility: spec_vertex_fragment(),
                    ty: BindingType::FilteringSampler,
                },
            ]
        }
    }

    /// The resources of the stage's primary bind group, by binding number.
    pub open spec fn spec_bindings(self) -> Seq<BindGroupEntry> {
        match self.spec_target() {
            Some(target) => seq![
                BindGroupEntry {
                    binding: 0,
                    resource: BindingResource::TextureView(self.spec_source()),
                },
                BindGroupEntry { binding: 1, resource: BindingResource::TextureView(target) },
                BindGroupEntry { binding: 2, resource: BindingResource::UniformBuffer },
            ],
            None => seq![
                BindGroupEntry { binding: 0, resource: BindingResource::UniformBuffer },
                BindGroupEntry {
                    binding: 1,
                    resource: BindingResource::TextureView(self.spec_source()),
                },
                BindGroupEntry { binding: 2, resource: BindingResource::Sampler },
            ],
        }
    }

    /// The texture the stage samples.
    pub fn source(self) -> (slot: TextureSlot)
        ensures
            slot == self.spec_source(),
    {
        match self {
            Stage::Demosaic => TextureSlot::Full,
            Stage::Downsample => TextureSlot::FullOutput,
            Stage::Processing => TextureSlot::Input,
            Stage::Composite => TextureSlot::Output,
        }
    }

    /// The texture the stage writes, if it writes one of the set.
    pub fn target(self) -> (slot: Option<TextureSlot>)
        ensures
            slot == self.spec_target(),
    {
        match self {
            Stage::Demosaic => Some(TextureSlot::FullOutput),
            Stage::Downsample => Some(TextureSlot::Input),
            Stage::Processing => Some(TextureSlot::Output),
            Stage::Composite => None,
        }
    }

    /// The slots of the stage's primary bind group, in binding order.
    pub fn layout(self) -> (entries: Vec<BindGroupLayoutEntry>)
        ensures
            entries@ == self.spec_layout(),
    {
        let filterable = match self {
            Stage::Composite => true,
            _ => false,
        };
        let entries = match self {
            Stage::Composite => {
                let visibility = ShaderStages { vertex: true, fragment: true, compute: false };
                vec![
                    BindGroupLayoutEntry { binding: 0, visibility, ty: BindingType::UniformBuffer },
                    BindGroupLayoutEntry {
                        binding: 1,
                        visibility,
                        ty: BindingType::Texture { filterable },
                    },
                    BindGroupLayoutEntry {
                        binding: 2,
                        visibility,
                        ty: BindingType::FilteringSampler,
                    },
                ]
            },
            _ => {
                let visibility = ShaderStages { vertex: false, fragment: false, compute: true };
                let format = match self {
                    Stage::Demosaic => TexelFormat::Rgba32Float,
                    _ => TexelFormat::Rgba8Unorm,
                };
                vec![
                    BindGroupLayoutEntry {
                        binding: 0,
                        visibility,
                        ty: BindingType::Texture { filterable },
                    },
                    BindGroupLayoutEntry {
                        binding: 1,
                        visibility,
                        ty: BindingType::StorageTexture { format },
                    },
                    BindGroupLayoutEntry { binding: 2, visibility, ty: BindingType::UniformBuffer },
                ]
            },
        };
        assert(entries@ =~= self.spec_layout());
        entries
    }

    /// The resources of the stage's primary bind group, in binding order.
    pub fn bindings(self) -> (entries: Vec<BindGroupEntry>)
        ensures
            entries@ == self.spec_bindings(),
    {
        let source = BindingResource::TextureView(self.source());
        let entries = match self.target() {
            Some(target) => vec![
                BindGroupEntry { binding: 0, resource: source },
                BindGroupEntry { binding: 1, resource: BindingResource::TextureView(target) },
                BindGroupEntry { binding: 2, resource: BindingResource::UniformBuffer },
            ],
            None => vec![
                BindGroupEntry { binding: 0, resource: BindingResource::UniformBuffer },
                BindGroupEntry { binding: 1, resource: source },
                BindGroupEntry { binding: 2, resource: BindingResource::Sampler },
            ],
        };
        assert(entries@ =~= self.spec_bindings());
        entries
    }
}

/// Every stage wires exactly the slots its layout declares: three of them,
/// numbered 0, 1 and 2 in order, each with a resource of the kind the slot asks for.
pub proof fn lemma_bindings_fit_layout(stage: Stage)
    ensures
        stage.spec_layout().len() == 3,
        stage.spec_bindings().len() == 3,
        forall|i: int|
            0 <= i < 3 ==> {
                &&& (#[trigger] stage.spec_layout()[i]).binding == i
                &&& stage.spec_bindings()[i].binding == i
                &&& resource_fits(stage.spec_bindings()[i].resource, stage.spec_layout()[i].ty)
            },
{
}

/// Each compute stage writes the texture the next stage samples, and the
/// composite stage samples what the last compute stage wrote.
pub proof fn lemma_stages_chain()
    ensures
        Stage::Demosaic.spec_target() == Some(Stage::Downsample.spec_source()),
        Stage::Downsample.spec_target() == Some(Stage::Processing.spec_source()),
        Stage::Processing.spec_target() == Some(Stage::Composite.spec_source()),
{
}

/// No stage samples the texture it writes, and no two stages write the same texture.
pub proof fn lemma_stages_disjoint(a: Stage, b: Stage)
    ensures
        a.spec_target() != Some(a.spec_source()),
        a != b && a.is_compute() ==> a.spec_target() != b.spec_target(),
{
}

/// A texture carries a usage flag exactly when something needs it: it can be
/// sampled exactly when some stage samples it, written as storage exactly when
/// some stage writes it, uploaded into exactly when it is the source texture;
/// no texture of the set is read back by the host or rendered into.
pub proof fn lemma_usage_is_minimal(slot: TextureSlot)
    ensures
        slot.spec_usage().texture_binding <==> exists|stage: Stage| stage.spec_source() == slot,
        slot.spec_usage().storage_binding <==> exists|stage: Stage|
            stage.spec_target() == Some(slot),
        slot.spec_usage().copy_dst <==> slot == TextureSlot::Full,
        !slot.spec_usage().copy_src,
        !slot.spec_usage().render_attachment,
{
    match slot {
        TextureSlot::Full => {
            assert(Stage::Demosaic.spec_source() == slot);
            assert(forall|stage: Stage| stage.spec_target() != Some(slot));
        },
        TextureSlot::FullOutput => {
            assert(Stage::Downsample.spec_source() == slot);
            assert(Stage::Demosaic.spec_target() == Some(slot));
        },
        TextureSlot::Input => {
            assert(Stage::Processing.spec_source() == slot);
            assert(Stage::Downsample.spec_target() == Some(slot));
        },
        TextureSlot::Output => {
            assert(Stage::Composite.spec_source() == slot);
            assert(Stage::Processing.spec_target() == Some(slot));
        },
    }
}

/// Whatever the source image, each texture a stage writes has the format
/// that the stage's storage slot declares.
pub proof fn lemma_written_format_fits(stage: Stage, kind: SourceKind)
    ensures
        stage.spec_target() matches Some(slot) ==> stage.spec_layout()[1].ty
            == (BindingType::StorageTexture { format: slot.spec_format(kind) }),
{
}

/// Whatever the source image, a stage whose source slot asks for a texture
/// that can be filtered is given one: the composite stage samples the 8-bit
/// output, and no stage filters a floating texture.
pub proof fn lemma_sampled_format_fits(stage: Stage, kind: SourceKind)
    ensures
        stage.spec_layout()[if stage.is_compute() { 0int } else { 1int }].ty
            == (BindingType::Texture { filterable: stage.spec_filterable() }),
        stage.spec_filterable() ==> stage.spec_source().spec_format(kind).spec_is_filterable(),
{
}

/// A compute stage and the texture it writes agree on resolution with the
/// next stage's source: the demosaic stage works at the size of the image,
/// the two later compute stages at the size of the render target.
pub proof fn lemma_target_resolution(stage: Stage)
    ensures
        stage.spec_target() matches Some(slot) ==> (slot.spec_is_full_resolution() <==> stage
            == Stage::Demosaic),
{
}

} // verus!
