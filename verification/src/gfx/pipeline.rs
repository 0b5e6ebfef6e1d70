//! The render pipeline that one shader source gives rise to.
//!
//! A [`Pipeline`] is the complete description of a GPU program: the shader
//! text, the target format, the bind group slots and the fixed-function
//! settings. The shell hands it to the device as it stands; nothing about a
//! pipeline is decided outside this module.

use vstd::prelude::*;

verus! {

/// How vertices are assembled into primitives.
#[derive(Clone, Copy, Debug, PartialEq, Eq)]
pub enum PrimitiveTopology {
    PointList,
    LineList,
    LineStrip,
    TriangleList,
    TriangleStrip,
}

/// Winding order of a front-facing triangle.
#[derive(Clone, Copy, Debug, PartialEq, Eq)]
pub enum FrontFace {
    Ccw,
    Cw,
}

/// A side of a triangle.
#[derive(Clone, Copy, Debug, PartialEq, Eq)]
pub enum Face {
    Front,
    Back,
}

/// How polygons are rasterised.
#[derive(Clone, Copy, Debug, PartialEq, Eq)]
pub enum PolygonMode {
    Fill,
    Line,
    Point,
}

/// How a fragment's colour is combined with what the target already holds.
#[derive(Clone, Copy, Debug, PartialEq, Eq)]
pub enum BlendState {
    Replace,
    AlphaBlending,
    PremultipliedAlphaBlending,
}

/// The colour channels that a pipeline writes.
#[derive(Clone, Copy, Debug, PartialEq, Eq)]
pub struct ColorWrites {
    pub red: bool,
    pub green: bool,
    pub blue: bool,
    pub alpha: bool,
}

/// Primitive assembly and rasterisation.
#[derive(Clone, Copy, Debug, PartialEq, Eq)]
pub struct PrimitiveState {
    pub topology: PrimitiveTopology,
    pub front_face: FrontFace,
    pub cull_mode: Option<Face>,
    pub polygon_mode: PolygonMode,
    pub unclipped_depth: bool,
    pub conservative: bool,
}

/// Multisampling.
#[derive(Clone, Copy, Debug, PartialEq, Eq)]
pub struct MultisampleState {
    pub count: u32,
    pub mask: u64,
    pub alpha_to_coverage_enabled: bool,
}

/// The one colour target of a pipeline.
#[derive(Clone, Copy, Debug, PartialEq, Eq)]
pub struct ColorTargetState {
    /// Position of the surface's format in the list of formats that the
    /// surface supports.
    pub format: usize,
    pub blend: Option<BlendState>,
    pub write_mask: ColorWrites,
}

/// What a pipeline is built from.
#[derive(Debug)]
pub struct PipelineCreateDesc<'a> {
    /// Position of the surface's format in the list of formats that the
    /// surface supports.
    pub format: usize,
    pub shader_source: &'a str,
    /// Binding slot of each bind group layout, in group order.
    pub bind_group_layouts: &'a Vec<u32>,
}

/// A render pipeline: one shader source together with everything the device
/// needs to know to build it.
#[derive(Clone, Debug, PartialEq, Eq)]
pub struct Pipeline {
    pub shader_source: String,
    pub bind_group_layouts: Vec<u32>,
    pub vertex_entry_point: &'static str,
    pub fragment_entry_point: &'static str,
    /// Number of vertex buffers that the vertex stage reads.
    pub vertex_buffers: u32,
    pub target: ColorTargetState,
    pub primitive: PrimitiveState,
    pub depth_stencil: bool,
    pub multisample: MultisampleState,
}

/// The mathematical content of a [`Pipeline`].
pub struct PipelineView {
    pub shader_source: Seq<char>,
    pub bind_group_layouts: Seq<u32>,
    pub vertex_entry_point: Seq<char>,
    pub fragment_entry_point: Seq<char>,
    pub vertex_buffers: u32,
    pub target: ColorTargetState,
    pub primitive: PrimitiveState,
    pub depth_stencil: bool,
    pub multisample: MultisampleState,
}

impl View for Pipeline {
    type V = PipelineView;

    open spec fn view(&self) -> PipelineView {
        PipelineView {
            shader_source: self.shader_source@,
            bind_group_layouts: self.bind_group_layouts@,
            vertex_entry_point: self.vertex_entry_point@,
            fragment_entry_point: self.fragment_entry_point@,
            vertex_buffers: self.vertex_buffers,
            target: self.target,
            primitive: self.primitive,
            depth_stencil: self.depth_stencil,
            multisample: self.multisample,
        }
    }
}

/// Triangle lists, counter-clockwise front faces, back faces culled, filled.
pub open spec fn fixed_primitive() -> PrimitiveState {
    PrimitiveState {
        topology: PrimitiveTopology::TriangleList,
        front_face: FrontFace::Ccw,
        cull_mode: Some(Face::Back),
        polygon_mode: PolygonMode::Fill,
        unclipped_depth: false,
        conservative: false,
    }
}

/// One sample per pixel, every sample enabled.
pub open spec fn fixed_multisample() -> MultisampleState {
    MultisampleState { count: 1, mask: u64::MAX, alpha_to_coverage_enabled: false }
}

/// A target of the given format that fragments overwrite in all channels.
pub open spec fn replace_target(format: usize) -> ColorTargetState {
    ColorTargetState {
        format,
        blend: Some(BlendState::Replace),
        write_mask: ColorWrites { red: true, green: true, blue: true, alpha: true },
    }
}

impl PipelineView {
    /// The pipeline that `shader_source` gives on a target of `format`, with
    /// the bind groups `bind_group_layouts`: geometry comes from the vertex
    /// stage alone, there is no depth or stencil test, and the entry points
    /// are `vs_main` and `fs_main`.
    pub open spec fn build(
        format: usize,
        shader_source: Seq<char>,
        bind_group_layouts: Seq<u32>,
    ) -> PipelineView {
        PipelineView {
            shader_source,
            bind_group_layouts,
            vertex_entry_point: "vs_main"@,
            fragment_entry_point: "fs_main"@,
            vertex_buffers: 0,
            target: replace_target(format),
            primitive: fixed_primitive(),
            depth_stencil: false,
            multisample: fixed_multisample(),
        }
    }
}

impl Pipeline {
    /// Describes the pipeline for `create_desc.shader_source`.
    ///
    /// The result depends on the three inputs alone; two calls with equal
    /// inputs describe the same pipeline.
    pub fn new(create_desc: &PipelineCreateDesc) -> (pipeline: Pipeline)
        ensures
            pipeline@ == PipelineView::build(
                create_desc.format,
                create_desc.shader_source@,
                create_desc.bind_group_layouts@,
            ),
    {
        Pipeline {
            shader_source: create_desc.shader_source.to_owned(),
            bind_group_layouts: create_desc.bind_group_layouts.clone(),
            vertex_entry_point: "vs_main",
            fragment_entry_point: "fs_main",
            vertex_buffers: 0,
            target: ColorTargetState {
                format: create_desc.format,
                blend: Some(BlendState::Replace),
                write_mask: ColorWrites { red: true, green: true, blue: true, alpha: true },
            },
            primitive: PrimitiveState {
                topology: PrimitiveTopology::TriangleList,
                front_face: FrontFace::Ccw,
                cull_mode: Some(Face::Back),
                polygon_mode: PolygonMode::Fill,
                unclipped_depth: false,
                conservative: false,
            },
            depth_stencil: false,
            multisample: MultisampleState {
                count: 1,
                mask: u64::MAX,
                alpha_to_coverage_enabled: false,
            },
        }
    }
}

} // verus!
