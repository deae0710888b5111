//! The fixed-function state of a render pipeline, as plain values.

use vstd::prelude::*;

verus! {

/// Winding order of the vertices of a front-facing triangle.
#[derive(Clone, Copy, Debug, PartialEq, Eq, Structural)]
pub enum FrontFace {
    /// Counter-clockwise.
    Ccw,
    /// Clockwise.
    Cw,
}

/// A face of a triangle.
#[derive(Clone, Copy, Debug, PartialEq, Eq, Structural)]
pub enum Face {
    Front,
    Back,
}

/// How vertices are assembled into primitives.
#[derive(Clone, Copy, Debug, PartialEq, Eq, Structural)]
pub enum PrimitiveTopology {
    PointList,
    LineList,
    LineStrip,
    TriangleList,
    TriangleStrip,
}

/// Width of the indices of an index buffer.
#[derive(Clone, Copy, Debug, PartialEq, Eq, Structural)]
pub enum IndexFormat {
    Uint16,
    Uint32,
}

/// How polygons are rasterized.
#[derive(Clone, Copy, Debug, PartialEq, Eq, Structural)]
pub enum PolygonMode {
    Fill,
    Line,
    Point,
}

/// Comparison used by the depth and stencil tests.
#[derive(Clone, Copy, Debug, PartialEq, Eq, Structural)]
pub enum CompareFunction {
    Never,
    Less,
    Equal,
    LessEqual,
    Greater,
    NotEqual,
    GreaterEqual,
    Always,
}

/// What happens to a stencil value.
#[derive(Clone, Copy, Debug, PartialEq, Eq, Structural)]
pub enum StencilOperation {
    Keep,
    Zero,
    Replace,
    Invert,
    IncrementClamp,
    DecrementClamp,
    IncrementWrap,
    DecrementWrap,
}

/// Stencil behaviour for one face.
#[derive(Clone, Copy, Debug, PartialEq, Eq, Structural)]
pub struct StencilFaceState {
    pub compare: CompareFunction,
    pub fail_op: StencilOperation,
    pub depth_fail_op: StencilOperation,
    pub pass_op: StencilOperation,
}

/// Stencil behaviour of a pipeline.
#[derive(Clone, Copy, Debug, PartialEq, Eq, Structural)]
pub struct StencilState {
    pub front: StencilFaceState,
    pub back: StencilFaceState,
    pub read_mask: u32,
    pub write_mask: u32,
}

/// Depth bias of a pipeline. The two scale factors are kept as the bit
/// patterns of single-precision numbers.
#[derive(Clone, Copy, Debug, PartialEq, Eq, Structural)]
pub struct DepthBiasState {
    pub constant: i32,
    pub slope_scale_bits: u32,
    pub clamp_bits: u32,
}

/// Depth and stencil behaviour of a pipeline.
#[derive(Clone, Copy, Debug, PartialEq, Eq)]
pub struct DepthStencilState {
    pub format: wgpu::TextureFormat,
    pub depth_write_enabled: bool,
    pub depth_compare: CompareFunction,
    pub stencil: StencilState,
    pub bias: DepthBiasState,
}

/// Mask that enables writes to the red, green, blue and alpha channels.
pub const COLOR_WRITES_ALL: u32 = 15;

/// One colour output of the fragment stage.
#[derive(Clone, Copy, Debug, PartialEq)]
pub struct ColorTargetState {
    pub format: wgpu::TextureFormat,
    pub blend: Option<wgpu::BlendState>,
    pub write_mask: u32,
}

/// Primitive assembly and rasterization state.
#[derive(Clone, Copy, Debug, PartialEq, Eq, Structural)]
pub struct PrimitiveState {
    pub topology: PrimitiveTopology,
    pub strip_index_format: Option<IndexFormat>,
    pub front_face: FrontFace,
    pub cull_mode: Option<Face>,
    pub unclipped_depth: bool,
    pub polygon_mode: PolygonMode,
    pub conservative: bool,
}

/// Multisampling state.
#[derive(Clone, Copy, Debug, PartialEq, Eq, Structural)]
pub struct MultisampleState {
    pub count: u32,
    pub mask: u64,
    pub alpha_to_coverage_enabled: bool,
}

impl StencilFaceState {
    /// The face state that leaves the stencil buffer alone: the test always
    /// passes and every operation keeps the stored value.
    pub open spec fn ignore_spec() -> StencilFaceState {
        StencilFaceState {
            compare: CompareFunction::Always,
            fail_op: StencilOperation::Keep,
            depth_fail_op: StencilOperation::Keep,
            pass_op: StencilOperation::Keep,
        }
    }

    /// The face state that leaves the stencil buffer alone.
    pub fn ignore() -> (state: StencilFaceState)
        ensures
            state == Self::ignore_spec(),
    {
        StencilFaceState {
            compare: CompareFunction::Always,
            fail_op: StencilOperation::Keep,
            depth_fail_op: StencilOperation::Keep,
            pass_op: StencilOperation::Keep,
        }
    }
}

impl StencilState {
    /// The stencil state of a pipeline without a stencil test: both faces
    /// ignored, both masks zero.
    pub open spec fn disabled_spec() -> StencilState {
        StencilState {
            front: StencilFaceState::ignore_spec(),
            back: StencilFaceState::ignore_spec(),
            read_mask: 0,
            write_mask: 0,
        }
    }

    /// The stencil state of a pipeline without a stencil test.
    pub fn disabled() -> (state: StencilState)
        ensures
            state == Self::disabled_spec(),
    {
        StencilState {
            front: StencilFaceState::ignore(),
            back: StencilFaceState::ignore(),
            read_mask: 0,
            write_mask: 0,
        }
    }
}

impl DepthBiasState {
    /// No depth bias: every component zero.
    pub open spec fn zero_spec() -> DepthBiasState {
        DepthBiasState { constant: 0, slope_scale_bits: 0, clamp_bits: 0 }
    }

    /// No depth bias.
    pub fn zero() -> (bias: DepthBiasState)
        ensures
            bias == Self::zero_spec(),
    {
        DepthBiasState { constant: 0, slope_scale_bits: 0, clamp_bits: 0 }
    }
}

impl DepthStencilState {
    /// Depth testing without a stencil test and without depth bias.
    pub open spec fn depth_only_spec(
        format: wgpu::TextureFormat,
        depth_write_enabled: bool,
        depth_compare: CompareFunction,
    ) -> DepthStencilState {
        DepthStencilState {
            format,
            depth_write_enabled,
            depth_compare,
            stencil: StencilState::disabled_spec(),
            bias: DepthBiasState::zero_spec(),
        }
    }

    /// Depth testing without a stencil test and without depth bias.
    pub fn depth_only(
        format: wgpu::TextureFormat,
        depth_write_enabled: bool,
        depth_compare: CompareFunction,
    ) -> (state: DepthStencilState)
        ensures
            state == Self::depth_only_spec(format, depth_write_enabled, depth_compare),
    {
        DepthStencilState {
            format,
            depth_write_enabled,
            depth_compare,
            stencil: StencilState::disabled(),
            bias: DepthBiasState::zero(),
        }
    }
}

impl ColorTargetState {
    /// A target of the given format that is not blended and writes every
    /// channel.
    pub open spec fn solid_spec(format: wgpu::TextureFormat) -> ColorTargetState {
        ColorTargetState { format, blend: None, write_mask: COLOR_WRITES_ALL }
    }

    /// A target of the given format that is not blended and writes every
    /// channel.
    pub fn solid(format: wgpu::TextureFormat) -> (target: ColorTargetState)
        ensures
            target == Self::solid_spec(format),
    {
        ColorTargetState { format, blend: None, write_mask: COLOR_WRITES_ALL }
    }
}

} // verus!
