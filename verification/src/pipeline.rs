//! The graphics pipeline of the forward renderer, described in plain values.

use crate::api::{ApiCall, DepthFormat, Gpu, GraphicsApi, PipelineId};
use crate::surface::ColorFormat;
use vstd::prelude::*;

verus! {

/// One vertex attribute: a run of 32-bit floating-point components.
#[derive(Clone, Copy, Debug, PartialEq, Eq, Structural)]
pub struct VertexAttribute {
    /// Shader input location.
    pub location: u32,
    /// Offset of the first component from the start of the vertex, in bytes.
    pub offset: u32,
    /// Number of components, one to four.
    pub components: u32,
}

/// How vertices are assembled into primitives.
#[derive(Clone, Copy, Debug, PartialEq, Eq, Structural)]
pub enum Topology {
    TriangleList,
}

/// How polygons are rasterized.
#[derive(Clone, Copy, Debug, PartialEq, Eq, Structural)]
pub enum PolygonMode {
    Fill,
}

/// Which faces are discarded.
#[derive(Clone, Copy, Debug, PartialEq, Eq, Structural)]
pub enum CullMode {
    /// No face is discarded.
    Off,
    Front,
    Back,
}

/// The winding of a front face.
#[derive(Clone, Copy, Debug, PartialEq, Eq, Structural)]
pub enum FrontFace {
    CounterClockwise,
    Clockwise,
}

/// The comparison of the depth test.
#[derive(Clone, Copy, Debug, PartialEq, Eq, Structural)]
pub enum CompareOp {
    Less,
    LessOrEqual,
}

/// Depth target and depth test of a pipeline.
#[derive(Clone, Copy, Debug, PartialEq, Eq, Structural)]
pub struct DepthState {
    /// Format of the depth target.
    pub format: DepthFormat,
    pub compare: CompareOp,
    /// Fragments that pass write their depth.
    pub write: bool,
}

/// Kind of resource bound at a descriptor binding.
#[derive(Clone, Copy, Debug, PartialEq, Eq, Structural)]
pub enum DescriptorKind {
    UniformBuffer,
    CombinedImageSampler,
}

/// One binding of the descriptor set layout.
#[derive(Clone, Copy, Debug, PartialEq, Eq, Structural)]
pub struct DescriptorBinding {
    pub binding: u32,
    pub kind: DescriptorKind,
    /// Visible to the vertex stage.
    pub vertex_stage: bool,
    /// Visible to the fragment stage.
    pub fragment_stage: bool,
}

/// Everything that fixes a pipeline but its shaders.
#[derive(Clone, Debug, PartialEq, Eq)]
pub struct PipelineDescription {
    /// Format of the colour target the pipeline renders to.
    pub color_format: ColorFormat,
    /// Distance between two vertices in the vertex buffer, in bytes.
    pub vertex_stride: u32,
    /// Attributes of a vertex, by location.
    pub attributes: Vec<VertexAttribute>,
    pub topology: Topology,
    pub polygon_mode: PolygonMode,
    pub cull_mode: CullMode,
    pub front_face: FrontFace,
    /// Colours are blended with what the target holds.
    pub blending: bool,
    /// Depth test, where the pipeline has a depth target.
    pub depth: Option<DepthState>,
    /// Descriptor set layout, by binding.
    pub bindings: Vec<DescriptorBinding>,
    /// The viewport is set while recording instead of being part of the
    /// pipeline, so that a resize needs no new pipeline.
    pub dynamic_viewport: bool,
}

/// A pipeline description as plain values.
pub struct DescriptionView {
    pub color_format: ColorFormat,
    pub vertex_stride: u32,
    pub attributes: Seq<VertexAttribute>,
    pub topology: Topology,
    pub polygon_mode: PolygonMode,
    pub cull_mode: CullMode,
    pub front_face: FrontFace,
    pub blending: bool,
    pub depth: Option<DepthState>,
    pub bindings: Seq<DescriptorBinding>,
    pub dynamic_viewport: bool,
}

impl View for PipelineDescription {
    type V = DescriptionView;

    open spec fn view(&self) -> DescriptionView {
        DescriptionView {
            color_format: self.color_format,
            vertex_stride: self.vertex_stride,
            attributes: self.attributes@,
            topology: self.topology,
            polygon_mode: self.polygon_mode,
            cull_mode: self.cull_mode,
            front_face: self.front_face,
            blending: self.blending,
            depth: self.depth,
            bindings: self.bindings@,
            dynamic_viewport: self.dynamic_viewport,
        }
    }
}

/// Size of a 32-bit component in bytes.
pub const COMPONENT_BYTES: u32 = 4;

/// Number of components of the attributes of a vertex: position, colour,
/// texture coordinate.
pub open spec fn vertex_components() -> Seq<u32> {
    seq![3u32, 3u32, 2u32]
}

/// Number of components of the first `count` attributes together.
pub open spec fn components_before(components: Seq<u32>, count: int) -> int
    decreases count,
{
    if count <= 0 {
        0
    } else {
        components_before(components, count - 1) + components[count - 1]
    }
}

/// The attributes follow each other without gaps, in the order of their
/// locations, and the stride is the size of all of them.
pub open spec fn tightly_packed(
    attributes: Seq<VertexAttribute>,
    stride: int,
    components: Seq<u32>,
) -> bool {
    &&& attributes.len() == components.len()
    &&& forall|i: int|
        0 <= i < attributes.len() ==> {
            &&& (#[trigger] attributes[i]).location == i
            &&& attributes[i].components == components[i]
            &&& attributes[i].offset == 4 * components_before(components, i)
        }
    &&& stride == 4 * components_before(components, components.len() as int)
}

/// Lays out attributes of the given numbers of components one after the
/// other. `None` where the vertex would not fit in 32 bits of bytes.
pub fn pack_attributes(components: &Vec<u32>) -> (r: Option<(Vec<VertexAttribute>, u32)>)
    ensures
        match r {
            Some((attributes, stride)) => tightly_packed(attributes@, stride as int, components@),
            None => 4 * components_before(components@, components.len() as int) > u32::MAX
                || components.len() > u32::MAX,
        },
{
    let mut attributes: Vec<VertexAttribute> = Vec::new();
    let mut offset: u32 = 0;
    let mut i: usize = 0;
    while i < components.len()
        invariant
            i <= components.len(),
            attributes.len() == i,
            offset == 4 * components_before(components@, i as int),
            forall|k: int|
                0 <= k < i ==> {
                    &&& (#[trigger] attributes@[k]).location == k
                    &&& attributes@[k].components == components@[k]
                    &&& attributes@[k].offset == 4 * components_before(components@, k)
                },
        decreases components.len() - i,
    {
        if i > u32::MAX as usize {
            return None;
        }
        let size: u64 = components[i] as u64 * 4;
        if offset as u64 + size > u32::MAX as u64 {
            proof {
                lemma_components_monotonic(components@, i + 1, components.len() as int);
            }
            return None;
        }
        attributes.push(
            VertexAttribute { location: i as u32, offset, components: components[i] },
        );
        offset = offset + size as u32;
        i += 1;
    }
    Some((attributes, offset))
}

/// The components of more attributes are no fewer.
pub proof fn lemma_components_monotonic(components: Seq<u32>, fewer: int, more: int)
    requires
        fewer <= more,
    ensures
        components_before(components, fewer) <= components_before(components, more),
    decreases more - fewer,
{
    if fewer < more {
        lemma_components_monotonic(components, fewer, more - 1);
        if more <= 0 {
        }
    }
}

impl PipelineDescription {
    /// The pipeline of the forward renderer.
    ///
    /// Vertices are position, colour and texture coordinate, tightly packed.
    /// Triangles are listed, filled, culled where they face away, and face
    /// forward where they wind counter-clockwise. Colours overwrite the
    /// target. With a depth target, fragments pass where they are no farther
    /// than what is there and write their depth. The uniform block is bound
    /// at binding zero, a texture with its sampler at binding one where the
    /// pipeline is textured. The viewport is dynamic.
    pub open spec fn is_forward(
        self,
        color_format: ColorFormat,
        depth: Option<DepthFormat>,
        textured: bool,
    ) -> bool {
        &&& self.color_format == color_format
        &&& tightly_packed(self.attributes@, self.vertex_stride as int, vertex_components())
        &&& self.topology == Topology::TriangleList
        &&& self.polygon_mode == PolygonMode::Fill
        &&& self.cull_mode == CullMode::Back
        &&& self.front_face == FrontFace::CounterClockwise
        &&& !self.blending
        &&& self.depth == forward_depth(depth)
        &&& self.bindings@ == forward_bindings(textured)
        &&& self.dynamic_viewport
    }

    /// The pipeline of the forward renderer for a colour target of the given
    /// format, value by value.
    pub open spec fn spec_forward(
        color_format: ColorFormat,
        depth: Option<DepthFormat>,
        textured: bool,
    ) -> DescriptionView {
        DescriptionView {
            color_format,
            vertex_stride: 32,
            attributes: seq![
                VertexAttribute { location: 0, offset: 0, components: 3 },
                VertexAttribute { location: 1, offset: 12, components: 3 },
                VertexAttribute { location: 2, offset: 24, components: 2 },
            ],
            topology: Topology::TriangleList,
            polygon_mode: PolygonMode::Fill,
            cull_mode: CullMode::Back,
            front_face: FrontFace::CounterClockwise,
            blending: false,
            depth: forward_depth(depth),
            bindings: forward_bindings(textured),
            dynamic_viewport: true,
        }
    }

    /// Describes the pipeline of the forward renderer for a colour target of
    /// the given format, with a depth target of the given format where
    /// there is one, and with or without texture.
    pub fn forward(color_format: ColorFormat, depth: Option<DepthFormat>, textured: bool) -> (r:
        PipelineDescription)
        ensures
            r@ == PipelineDescription::spec_forward(color_format, depth, textured),
            r.is_forward(color_format, depth, textured),
    {
        let mut attributes: Vec<VertexAttribute> = Vec::new();
        attributes.push(VertexAttribute { location: 0, offset: 0, components: 3 });
        attributes.push(VertexAttribute { location: 1, offset: 12, components: 3 });
        attributes.push(VertexAttribute { location: 2, offset: 24, components: 2 });
        let mut bindings: Vec<DescriptorBinding> = Vec::new();
        bindings.push(
            DescriptorBinding {
                binding: 0,
                kind: DescriptorKind::UniformBuffer,
                vertex_stage: true,
                fragment_stage: true,
            },
        );
        if textured {
            bindings.push(
                DescriptorBinding {
                    binding: 1,
                    kind: DescriptorKind::CombinedImageSampler,
                    vertex_stage: false,
                    fragment_stage: true,
                },
            );
        }
        proof {
            reveal_with_fuel(components_before, 4);
            assert(bindings@ =~= forward_bindings(textured));
            assert(attributes@ =~= PipelineDescription::spec_forward(
                color_format,
                depth,
                textured,
            ).attributes);
        }
        PipelineDescription {
            color_format,
            vertex_stride: 32,
            attributes,
            topology: Topology::TriangleList,
            polygon_mode: PolygonMode::Fill,
            cull_mode: CullMode::Back,
            front_face: FrontFace::CounterClockwise,
            blending: false,
            depth: match depth {
                Some(format) => Some(
                    DepthState { format, compare: CompareOp::LessOrEqual, write: true },
                ),
                None => None,
            },
            bindings,
            dynamic_viewport: true,
        }
    }

    /// A description with the same values.
    pub fn duplicate(&self) -> (copy: PipelineDescription)
        ensures
            copy@ == self@,
    {
        let mut attributes: Vec<VertexAttribute> = Vec::new();
        let mut i: usize = 0;
        while i < self.attributes.len()
            invariant
                i <= self.attributes.len(),
                attributes@ == self.attributes@.take(i as int),
            decreases self.attributes.len() - i,
        {
            attributes.push(self.attributes[i]);
            i += 1;
            assert(attributes@ =~= self.attributes@.take(i as int));
        }
        assert(attributes@ =~= self.attributes@);
        let mut bindings: Vec<DescriptorBinding> = Vec::new();
        let mut k: usize = 0;
        while k < self.bindings.len()
            invariant
                k <= self.bindings.len(),
                bindings@ == self.bindings@.take(k as int),
            decreases self.bindings.len() - k,
        {
            bindings.push(self.bindings[k]);
            k += 1;
            assert(bindings@ =~= self.bindings@.take(k as int));
        }
        assert(bindings@ =~= self.bindings@);
        PipelineDescription {
            color_format: self.color_format,
            vertex_stride: self.vertex_stride,
            attributes,
            topology: self.topology,
            polygon_mode: self.polygon_mode,
            cull_mode: self.cull_mode,
            front_face: self.front_face,
            blending: self.blending,
            depth: self.depth,
            bindings,
            dynamic_viewport: self.dynamic_viewport,
        }
    }
}

/// The depth test of the forward renderer on a depth target of the given
/// format: fragments pass where they are no farther than what is there, and
/// write their depth.
pub open spec fn forward_depth(depth: Option<DepthFormat>) -> Option<DepthState> {
    match depth {
        Some(format) => Some(DepthState { format, compare: CompareOp::LessOrEqual, write: true }),
        None => None,
    }
}

/// The descriptor set layout of the forward renderer.
pub open spec fn forward_bindings(textured: bool) -> Seq<DescriptorBinding> {
    let uniforms = DescriptorBinding {
        binding: 0,
        kind: DescriptorKind::UniformBuffer,
        vertex_stage: true,
        fragment_stage: true,
    };
    let texture = DescriptorBinding {
        binding: 1,
        kind: DescriptorKind::CombinedImageSampler,
        vertex_stage: false,
        fragment_stage: true,
    };
    if textured {
        seq![uniforms, texture]
    } else {
        seq![uniforms]
    }
}

/// The pipeline of the forward renderer on the device.
#[derive(Debug)]
pub struct VulkanPipeline {
    pipeline: PipelineId,
    description: PipelineDescription,
}

/// A pipeline as plain values.
pub struct PipelineView {
    /// The pipeline on the device.
    pub pipeline: PipelineId,
    /// Format of the colour target it renders to.
    pub color_format: ColorFormat,
    /// Format of its depth target, where it has one.
    pub depth: Option<DepthFormat>,
    /// It binds a texture.
    pub textured: bool,
}

impl View for VulkanPipeline {
    type V = PipelineView;

    closed spec fn view(&self) -> PipelineView {
        PipelineView {
            pipeline: self.pipeline,
            color_format: self.description.color_format,
            depth: match self.description.depth {
                Some(depth) => Some(depth.format),
                None => None,
            },
            textured: self.description.bindings.len() > 1,
        }
    }
}

impl VulkanPipeline {
    /// Builds the pipeline of the forward renderer for a colour target of
    /// the given format and, where there is one, a depth target of the given
    /// format. `None` where the device fails to build it.
    pub fn new<G: GraphicsApi>(
        api: &mut Gpu<G>,
        color_format: ColorFormat,
        depth: Option<DepthFormat>,
        textured: bool,
    ) -> (r: Option<VulkanPipeline>)
        ensures
            final(api).calls() == old(api).calls().push(
                ApiCall::CreatePipeline {
                    description: PipelineDescription::spec_forward(color_format, depth, textured),
                    id: match r {
                        Some(pipeline) => Some(pipeline@.pipeline),
                        None => None,
                    },
                },
            ),
            r matches Some(pipeline) ==> pipeline@ == (PipelineView {
                pipeline: pipeline@.pipeline,
                color_format,
                depth,
                textured,
            }) && pipeline.spec_description().is_forward(color_format, depth, textured),
    {
        let description = PipelineDescription::forward(color_format, depth, textured);
        match api.create_pipeline(&description) {
            Some(pipeline) => Some(VulkanPipeline { pipeline, description }),
            None => None,
        }
    }

    /// The pipeline on the device.
    pub fn pipeline(&self) -> (id: PipelineId)
        ensures
            id == self@.pipeline,
    {
        self.pipeline
    }

    /// Whether the pipeline has a depth target.
    pub fn has_depth(&self) -> (depth: bool)
        ensures
            depth == self@.depth.is_some(),
    {
        self.description.depth.is_some()
    }

    /// Format of the depth target, where the pipeline has one.
    pub fn depth_format(&self) -> (depth: Option<DepthFormat>)
        ensures
            depth == self@.depth,
    {
        match self.description.depth {
            Some(depth) => Some(depth.format),
            None => None,
        }
    }

    /// What the pipeline was built from.
    pub closed spec fn spec_description(&self) -> PipelineDescription {
        self.description
    }

    /// What the pipeline was built from.
    pub fn description(&self) -> (description: &PipelineDescription)
        ensures
            *description == self.spec_description(),
    {
        &self.description
    }
}

} // verus!
