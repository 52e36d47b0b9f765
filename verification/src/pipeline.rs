//! The two render pipelines and what each is built from.

use vstd::prelude::*;
use crate::buffer::{IndexFormat, Vertex, VertexBufferLayout, RECT_INDICES};
use crate::component::{lemma_triangles_cover_quad, quad, triangle_area2, Point};

verus! {

/// Which of the two precompiled pipelines.
#[derive(Clone, Copy, Debug, PartialEq, Eq, Structural)]
pub enum PipelineKind {
    /// Draws vertex buffers of [`Vertex`].
    Primary,
    /// Takes no vertex buffer and makes its geometry from the vertex index.
    Secondary,
}

/// How vertices are assembled into primitives.
#[derive(Clone, Copy, Debug, PartialEq, Eq, Structural)]
pub enum PrimitiveTopology {
    PointList,
    LineList,
    LineStrip,
    TriangleList,
    TriangleStrip,
}

/// The winding of a triangle that shows its front.
#[derive(Clone, Copy, Debug, PartialEq, Eq, Structural)]
pub enum FrontFace {
    /// Counter-clockwise.
    Ccw,
    /// Clockwise.
    Cw,
}

/// A side of a triangle.
#[derive(Clone, Copy, Debug, PartialEq, Eq, Structural)]
pub enum Face {
    Front,
    Back,
}

/// How a polygon is rasterized.
#[derive(Clone, Copy, Debug, PartialEq, Eq, Structural)]
pub enum PolygonMode {
    Fill,
    Line,
    Point,
}

/// How primitives are assembled and rasterized.
#[derive(Clone, Copy, Debug, PartialEq, Eq, Structural)]
pub struct PrimitiveState {
    pub topology: PrimitiveTopology,
    pub strip_index_format: Option<IndexFormat>,
    pub front_face: FrontFace,
    /// The side that is not drawn, if any.
    pub cull_mode: Option<Face>,
    pub unclipped_depth: bool,
    pub polygon_mode: PolygonMode,
    pub conservative: bool,
}

/// How many samples a pixel has and which of them are written.
#[derive(Clone, Copy, Debug, PartialEq, Eq, Structural)]
pub struct MultisampleState {
    pub count: u32,
    pub mask: u64,
    pub alpha_to_coverage_enabled: bool,
}

/// How a fragment is combined with what the target holds.
#[derive(Clone, Copy, Debug, PartialEq, Eq, Structural)]
pub enum BlendState {
    /// The fragment takes the place of what was there.
    Replace,
    /// The fragment is laid over what was there by its alpha.
    AlphaBlending,
}

/// What reaches the colour target. The target's format is that of the
/// surface.
#[derive(Clone, Copy, Debug, PartialEq, Eq, Structural)]
pub struct ColorTargetState {
    pub blend: Option<BlendState>,
    /// Whether all four channels are written.
    pub write_all: bool,
}

/// Everything a render pipeline is built from, but the shader module and
/// the format of the surface.
#[derive(Clone, Copy, Debug, PartialEq, Eq)]
pub struct RenderPipelineDescriptor {
    pub label: &'static str,
    pub vertex_entry_point: &'static str,
    /// The layout of the one vertex buffer, if the pipeline reads one.
    pub buffers: Option<VertexBufferLayout>,
    pub primitive: PrimitiveState,
    pub multisample: MultisampleState,
    pub fragment_entry_point: &'static str,
    pub target: ColorTargetState,
}

/// The mathematical value of a [`RenderPipelineDescriptor`].
pub struct RenderPipelineView {
    pub label: Seq<char>,
    pub vertex_entry_point: Seq<char>,
    pub buffers: Option<VertexBufferLayout>,
    pub primitive: PrimitiveState,
    pub multisample: MultisampleState,
    pub fragment_entry_point: Seq<char>,
    pub target: ColorTargetState,
}

impl View for RenderPipelineDescriptor {
    type V = RenderPipelineView;

    open spec fn view(&self) -> RenderPipelineView {
        RenderPipelineView {
            label: self.label@,
            vertex_entry_point: self.vertex_entry_point@,
            buffers: self.buffers,
            primitive: self.primitive,
            multisample: self.multisample,
            fragment_entry_point: self.fragment_entry_point@,
            target: self.target,
        }
    }
}

/// Filled triangle lists, counter-clockwise in front, backs culled.
pub open spec fn primitive_state() -> PrimitiveState {
    PrimitiveState {
        topology: PrimitiveTopology::TriangleList,
        strip_index_format: None,
        front_face: FrontFace::Ccw,
        cull_mode: Some(Face::Back),
        unclipped_depth: false,
        polygon_mode: PolygonMode::Fill,
        conservative: false,
    }
}

/// One sample per pixel, all samples written.
pub open spec fn multisample_state() -> MultisampleState {
    MultisampleState { count: 1, mask: u64::MAX, alpha_to_coverage_enabled: false }
}

/// Fragments replace the target in all channels.
pub open spec fn color_target() -> ColorTargetState {
    ColorTargetState { blend: Some(BlendState::Replace), write_all: true }
}

impl PipelineKind {
    /// What the pipeline of this kind is built from. The two differ in
    /// their entry points and in that only the primary reads a vertex
    /// buffer.
    pub open spec fn descriptor_spec(self) -> RenderPipelineView {
        match self {
            PipelineKind::Primary => RenderPipelineView {
                label: "Render Pipeline"@,
                vertex_entry_point: "vs_main"@,
                buffers: Some(Vertex::layout()),
                primitive: primitive_state(),
                multisample: multisample_state(),
                fragment_entry_point: "fs_main"@,
                target: color_target(),
            },
            PipelineKind::Secondary => RenderPipelineView {
                label: "Challenge Render Pipeline"@,
                vertex_entry_point: "vs_challenge"@,
                buffers: None,
                primitive: primitive_state(),
                multisample: multisample_state(),
                fragment_entry_point: "fs_challenge"@,
                target: color_target(),
            },
        }
    }

    /// The pipeline that a toggle switches to.
    pub open spec fn other(self) -> PipelineKind {
        match self {
            PipelineKind::Primary => PipelineKind::Secondary,
            PipelineKind::Secondary => PipelineKind::Primary,
        }
    }

    /// Describes the pipeline of this kind.
    pub fn descriptor(self) -> (desc: RenderPipelineDescriptor)
        ensures
            desc@ == self.descriptor_spec(),
    {
        let primitive = PrimitiveState {
            topology: PrimitiveTopology::TriangleList,
            strip_index_format: None,
            front_face: FrontFace::Ccw,
            cull_mode: Some(Face::Back),
            unclipped_depth: false,
            polygon_mode: PolygonMode::Fill,
            conservative: false,
        };
        let multisample = MultisampleState {
            count: 1,
            mask: !0u64,
            alpha_to_coverage_enabled: false,
        };
        assert(!0u64 == u64::MAX) by (bit_vector);
        let target = ColorTargetState { blend: Some(BlendState::Replace), write_all: true };
        match self {
            PipelineKind::Primary => RenderPipelineDescriptor {
                label: "Render Pipeline",
                vertex_entry_point: "vs_main",
                buffers: Some(Vertex::desc()),
                primitive,
                multisample,
                fragment_entry_point: "fs_main",
                target,
            },
            PipelineKind::Secondary => RenderPipelineDescriptor {
                label: "Challenge Render Pipeline",
                vertex_entry_point: "vs_challenge",
                buffers: None,
                primitive,
                multisample,
                fragment_entry_point: "fs_challenge",
                target,
            },
        }
    }

    /// Switches to the other pipeline.
    pub fn toggled(self) -> (kind: PipelineKind)
        ensures
            kind == self.other(),
    {
        match self {
            PipelineKind::Primary => PipelineKind::Secondary,
            PipelineKind::Secondary => PipelineKind::Primary,
        }
    }
}

/// Under either pipeline both triangles of a rectangle with an area show
/// their front: the pipelines take counter-clockwise triangles of a list
/// for the front and cull only backs, and the triangles run
/// counter-clockwise.
pub proof fn lemma_rectangle_faces_front(
    kind: PipelineKind,
    origin: Point,
    width: u32,
    height: u32,
)
    requires
        width > 0,
        height > 0,
    ensures
        kind.descriptor_spec().primitive.topology == PrimitiveTopology::TriangleList,
        kind.descriptor_spec().primitive.front_face == FrontFace::Ccw,
        kind.descriptor_spec().primitive.cull_mode == Some(Face::Back),
        triangle_area2(quad(origin, width, height), RECT_INDICES@, 0) > 0,
        triangle_area2(quad(origin, width, height), RECT_INDICES@, 1) > 0,
{
    lemma_triangles_cover_quad(origin, width, height);
    assert(width * height > 0) by (nonlinear_arith)
        requires
            width > 0,
            height > 0,
    ;
}

/// Toggling twice gives the pipeline that one started with.
pub proof fn lemma_toggle_twice(kind: PipelineKind)
    ensures
        kind.other() != kind,
        kind.other().other() == kind,
{
}

} // verus!
