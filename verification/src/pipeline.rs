//! Building a render pipeline description step by step.
//!
//! A [`RenderPipelineBuilder`] collects the parts of a pipeline in any order.
//! Building then proceeds in three steps, each of which hands the caller the
//! next piece of work for the device: [`RenderPipelineBuilder::build`] checks
//! the draft and yields the vertex shader source to compile,
//! [`VertexStage::compiled`] takes the compiled vertex module and yields the
//! fragment shader source, and [`FragmentStage::compiled`] takes the compiled
//! fragment module and yields the finished description.

use vstd::prelude::*;
use crate::state::{
    ColorTargetState, CompareFunction, DepthBiasState, DepthStencilState, Face, FrontFace,
    IndexFormat, MultisampleState, PolygonMode, PrimitiveState, PrimitiveTopology,
    StencilFaceState, StencilOperation, StencilState, COLOR_WRITES_ALL,
};

verus! {

/// Why a pipeline could not be built.
#[derive(Clone, Copy, Debug, PartialEq, Eq, Structural)]
pub enum BuildError {
    /// No pipeline layout was set.
    MissingLayout,
    /// No vertex shader was set.
    MissingVertexShader,
    /// No fragment shader was set.
    MissingFragmentShader,
    /// No shader was set on a draft that takes one shader for both stages.
    MissingShader,
    /// The draft has already been built from.
    DraftConsumed,
}

impl BuildError {
    /// The text that describes the error.
    pub open spec fn message_spec(self) -> Seq<char> {
        match self {
            BuildError::MissingLayout => "No pipeline layout supplied!"@,
            BuildError::MissingVertexShader => "No vertex shader supplied!"@,
            BuildError::MissingFragmentShader => "Please include a fragment shader"@,
            BuildError::MissingShader => "No shader supplied!"@,
            BuildError::DraftConsumed => "The pipeline draft was already built"@,
        }
    }

    /// The text that describes the error.
    pub fn message(&self) -> (text: &'static str)
        ensures
            text@ == self.message_spec(),
    {
        match self {
            BuildError::MissingLayout => "No pipeline layout supplied!",
            BuildError::MissingVertexShader => "No vertex shader supplied!",
            BuildError::MissingFragmentShader => "Please include a fragment shader",
            BuildError::MissingShader => "No shader supplied!",
            BuildError::DraftConsumed => "The pipeline draft was already built",
        }
    }
}

/// Everything a draft holds besides its layout and its shader sources.
pub struct PipelineSettings<'a> {
    pub front_face: FrontFace,
    pub cull_mode: Option<Face>,
    pub depth_bias: i32,
    pub depth_bias_slope_scale: u32,
    pub depth_bias_clamp: u32,
    pub primitive_topology: PrimitiveTopology,
    pub color_states: Vec<Option<ColorTargetState>>,
    pub depth_stencil: Option<DepthStencilState>,
    pub index_format: IndexFormat,
    pub vertex_buffers: Vec<wgpu::VertexBufferLayout<'a>>,
    pub sample_count: u32,
    pub sample_mask: u64,
    pub alpha_to_coverage_enabled: bool,
    pub multiview: Option<u32>,
}

/// The settings of a draft as a mathematical value. The position of a colour
/// target is its fragment output slot, the position of a vertex buffer layout
/// its vertex input slot.
pub struct Settings<'a> {
    pub front_face: FrontFace,
    pub cull_mode: Option<Face>,
    pub depth_bias: i32,
    pub depth_bias_slope_scale: u32,
    pub depth_bias_clamp: u32,
    pub primitive_topology: PrimitiveTopology,
    pub color_states: Seq<Option<ColorTargetState>>,
    pub depth_stencil: Option<DepthStencilState>,
    pub index_format: IndexFormat,
    pub vertex_buffers: Seq<wgpu::VertexBufferLayout<'a>>,
    pub sample_count: u32,
    pub sample_mask: u64,
    pub alpha_to_coverage_enabled: bool,
    pub multiview: Option<u32>,
}

impl<'a> Settings<'a> {
    /// The settings of a fresh draft.
    pub open spec fn initial() -> Settings<'a> {
        Settings {
            front_face: FrontFace::Ccw,
            cull_mode: None,
            depth_bias: 0,
            depth_bias_slope_scale: 0,
            depth_bias_clamp: 0,
            primitive_topology: PrimitiveTopology::TriangleList,
            color_states: Seq::empty(),
            depth_stencil: None,
            index_format: IndexFormat::Uint32,
            vertex_buffers: Seq::empty(),
            sample_count: 1,
            sample_mask: u64::MAX,
            alpha_to_coverage_enabled: false,
            multiview: None,
        }
    }

    /// The primitive state of the pipeline: the chosen topology, winding and
    /// culling, filled polygons, and neither unclipped depth nor conservative
    /// rasterization.
    pub open spec fn primitive(self) -> PrimitiveState {
        PrimitiveState {
            topology: self.primitive_topology,
            strip_index_format: None,
            front_face: self.front_face,
            cull_mode: self.cull_mode,
            unclipped_depth: false,
            polygon_mode: PolygonMode::Fill,
            conservative: false,
        }
    }

    /// The multisample state of the pipeline.
    pub open spec fn multisample(self) -> MultisampleState {
        MultisampleState {
            count: self.sample_count,
            mask: self.sample_mask,
            alpha_to_coverage_enabled: self.alpha_to_coverage_enabled,
        }
    }
}

impl<'a> View for PipelineSettings<'a> {
    type V = Settings<'a>;

    open spec fn view(&self) -> Settings<'a> {
        Settings {
            front_face: self.front_face,
            cull_mode: self.cull_mode,
            depth_bias: self.depth_bias,
            depth_bias_slope_scale: self.depth_bias_slope_scale,
            depth_bias_clamp: self.depth_bias_clamp,
            primitive_topology: self.primitive_topology,
            color_states: self.color_states@,
            depth_stencil: self.depth_stencil,
            index_format: self.index_format,
            vertex_buffers: self.vertex_buffers@,
            sample_count: self.sample_count,
            sample_mask: self.sample_mask,
            alpha_to_coverage_enabled: self.alpha_to_coverage_enabled,
            multiview: self.multiview,
        }
    }
}

impl<'a> PipelineSettings<'a> {
    /// The settings of a fresh draft.
    pub fn new() -> (settings: Self)
        ensures
            settings@ == Settings::initial(),
    {
        PipelineSettings {
            front_face: FrontFace::Ccw,
            cull_mode: None,
            depth_bias: 0,
            depth_bias_slope_scale: 0,
            depth_bias_clamp: 0,
            primitive_topology: PrimitiveTopology::TriangleList,
            color_states: Vec::new(),
            depth_stencil: None,
            index_format: IndexFormat::Uint32,
            vertex_buffers: Vec::new(),
            sample_count: 1,
            sample_mask: u64::MAX,
            alpha_to_coverage_enabled: false,
            multiview: None,
        }
    }
}

/// A pipeline draft: the parts collected so far. `L` is the handle of a
/// pipeline layout.
pub struct RenderPipelineBuilder<'a, L> {
    pub layout: Option<L>,
    pub vertex_shader: Option<wgpu::ShaderModuleDescriptor<'a>>,
    pub fragment_shader: Option<wgpu::ShaderModuleDescriptor<'a>>,
    pub settings: PipelineSettings<'a>,
    pub consumed: bool,
}

/// A draft as a mathematical value.
pub struct Draft<'a, L> {
    pub layout: Option<L>,
    pub vertex_shader: Option<wgpu::ShaderModuleDescriptor<'a>>,
    pub fragment_shader: Option<wgpu::ShaderModuleDescriptor<'a>>,
    pub settings: Settings<'a>,
    pub consumed: bool,
}

impl<'a, L> Draft<'a, L> {
    /// A fresh draft: nothing set, every setting at its default.
    pub open spec fn initial() -> Draft<'a, L> {
        Draft {
            layout: None,
            vertex_shader: None,
            fragment_shader: None,
            settings: Settings::initial(),
            consumed: false,
        }
    }

    /// What is left of a draft once it has been built from.
    pub open spec fn spent() -> Draft<'a, L> {
        Draft { consumed: true, ..Self::initial() }
    }

    /// The draft with one more colour target, in the next free slot.
    pub open spec fn with_color_state(self, target: ColorTargetState) -> Draft<'a, L> {
        Draft {
            settings: Settings {
                color_states: self.settings.color_states.push(Some(target)),
                ..self.settings
            },
            ..self
        }
    }

    /// The draft with its depth and stencil state replaced.
    pub open spec fn with_depth_stencil(self, state: DepthStencilState) -> Draft<'a, L> {
        Draft { settings: Settings { depth_stencil: Some(state), ..self.settings }, ..self }
    }

    /// The draft with one more vertex buffer layout, in the next free slot.
    pub open spec fn with_vertex_buffer(self, layout: wgpu::VertexBufferLayout<'a>) -> Draft<'a, L> {
        Draft {
            settings: Settings {
                vertex_buffers: self.settings.vertex_buffers.push(layout),
                ..self.settings
            },
            ..self
        }
    }

    /// The error that stops a build before anything is compiled, if any: a
    /// spent draft, then a missing layout, then a missing vertex shader.
    pub open spec fn refusal(self) -> Option<BuildError> {
        if self.consumed {
            Some(BuildError::DraftConsumed)
        } else if self.layout is None {
            Some(BuildError::MissingLayout)
        } else if self.vertex_shader is None {
            Some(BuildError::MissingVertexShader)
        } else {
            None
        }
    }
}

impl<'a, L> View for RenderPipelineBuilder<'a, L> {
    type V = Draft<'a, L>;

    open spec fn view(&self) -> Draft<'a, L> {
        Draft {
            layout: self.layout,
            vertex_shader: self.vertex_shader,
            fragment_shader: self.fragment_shader,
            settings: self.settings@,
            consumed: self.consumed,
        }
    }
}

/// A build that has passed its first checks. The vertex shader source is to
/// be compiled next.
pub struct VertexStage<'a, L> {
    /// The vertex shader source to compile.
    pub source: wgpu::ShaderModuleDescriptor<'a>,
    pub layout: L,
    pub fragment_shader: Option<wgpu::ShaderModuleDescriptor<'a>>,
    pub settings: PipelineSettings<'a>,
}

/// A build whose vertex shader is compiled. The fragment shader source is to
/// be compiled next. `M` is the handle of a compiled shader module.
pub struct FragmentStage<'a, L, M> {
    /// The fragment shader source to compile.
    pub source: wgpu::ShaderModuleDescriptor<'a>,
    pub layout: L,
    pub vertex_module: M,
    pub settings: PipelineSettings<'a>,
}

/// The vertex stage of a finished description.
pub struct VertexState<'a, M> {
    pub module: M,
    pub entry_point: &'static str,
    pub buffers: Vec<wgpu::VertexBufferLayout<'a>>,
}

/// The fragment stage of a finished description.
pub struct FragmentState<M> {
    pub module: M,
    pub entry_point: &'static str,
    pub targets: Vec<Option<ColorTargetState>>,
}

/// A finished pipeline description, ready to be handed to the device.
pub struct RenderPipelineDescriptor<'a, L, M> {
    pub layout: L,
    pub vertex: VertexState<'a, M>,
    pub fragment: FragmentState<M>,
    pub primitive: PrimitiveState,
    pub depth_stencil: Option<DepthStencilState>,
    pub multisample: MultisampleState,
    pub multiview: Option<u32>,
}

/// The error that stops a build once the vertex shader is compiled, if any:
/// a missing fragment shader.
pub open spec fn fragment_refusal<'a>(
    fragment_shader: Option<wgpu::ShaderModuleDescriptor<'a>>,
) -> Option<BuildError> {
    if fragment_shader is None {
        Some(BuildError::MissingFragmentShader)
    } else {
        None
    }
}

/// The multiview count that is stored for a requested one: a count of zero
/// stands for no multiview.
pub open spec fn multiview_count(value: Option<u32>) -> Option<u32> {
    if value == Some(0u32) {
        None
    } else {
        value
    }
}

impl<'a, L> RenderPipelineBuilder<'a, L> {
    /// A fresh draft: counter-clockwise front faces, no culling, triangle
    /// lists, 32-bit indices, one sample with every mask bit set, and nothing
    /// else set.
    pub fn new() -> (draft: Self)
        ensures
            draft@ == Draft::<L>::initial(),
    {
        RenderPipelineBuilder {
            layout: None,
            vertex_shader: None,
            fragment_shader: None,
            settings: PipelineSettings::new(),
            consumed: false,
        }
    }

    /// Sets the pipeline layout.
    pub fn layout(&mut self, layout: L) -> (draft: &mut Self)
        ensures
            draft@ == (Draft { layout: Some(layout), ..old(self)@ }),
            *final(self) == *final(draft),
    {
        self.layout = Some(layout);
        self
    }

    /// Sets the vertex shader source.
    pub fn vertex_shader(&mut self, src: wgpu::ShaderModuleDescriptor<'a>) -> (draft: &mut Self)
        ensures
            draft@ == (Draft { vertex_shader: Some(src), ..old(self)@ }),
            *final(self) == *final(draft),
    {
        self.vertex_shader = Some(src);
        self
    }

    /// Sets the fragment shader source.
    pub fn fragment_shader(&mut self, src: wgpu::ShaderModuleDescriptor<'a>) -> (draft: &mut Self)
        ensures
            draft@ == (Draft { fragment_shader: Some(src), ..old(self)@ }),
            *final(self) == *final(draft),
    {
        self.fragment_shader = Some(src);
        self
    }

    /// Sets the winding order of front faces.
    pub fn front_face(&mut self, ff: FrontFace) -> (draft: &mut Self)
        ensures
            draft@ == (Draft {
                settings: Settings { front_face: ff, ..old(self)@.settings },
                ..old(self)@
            }),
            *final(self) == *final(draft),
    {
        self.settings.front_face = ff;
        self
    }

    /// Sets which face is culled, if any.
    pub fn cull_mode(&mut self, cm: Option<Face>) -> (draft: &mut Self)
        ensures
            draft@ == (Draft {
                settings: Settings { cull_mode: cm, ..old(self)@.settings },
                ..old(self)@
            }),
            *final(self) == *final(draft),
    {
        self.settings.cull_mode = cm;
        self
    }

    /// Sets the constant depth bias.
    pub fn depth_bias(&mut self, db: i32) -> (draft: &mut Self)
        ensures
            draft@ == (Draft {
                settings: Settings { depth_bias: db, ..old(self)@.settings },
                ..old(self)@
            }),
            *final(self) == *final(draft),
    {
        self.settings.depth_bias = db;
        self
    }

    /// Sets the slope scale of the depth bias, given as the bit pattern of a
    /// single-precision number.
    pub fn depth_bias_slope_scale(&mut self, dbss: u32) -> (draft: &mut Self)
        ensures
            draft@ == (Draft {
                settings: Settings { depth_bias_slope_scale: dbss, ..old(self)@.settings },
                ..old(self)@
            }),
            *final(self) == *final(draft),
    {
        self.settings.depth_bias_slope_scale = dbss;
        self
    }

    /// Sets the clamp of the depth bias, given as the bit pattern of a
    /// single-precision number.
    pub fn depth_bias_clamp(&mut self, dbc: u32) -> (draft: &mut Self)
        ensures
            draft@ == (Draft {
                settings: Settings { depth_bias_clamp: dbc, ..old(self)@.settings },
                ..old(self)@
            }),
            *final(self) == *final(draft),
    {
        self.settings.depth_bias_clamp = dbc;
        self
    }

    /// Sets the primitive topology.
    pub fn primitive_topology(&mut self, pt: PrimitiveTopology) -> (draft: &mut Self)
        ensures
            draft@ == (Draft {
                settings: Settings { primitive_topology: pt, ..old(self)@.settings },
                ..old(self)@
            }),
            *final(self) == *final(draft),
    {
        self.settings.primitive_topology = pt;
        self
    }

    /// Adds a colour target. Targets keep the order in which they are added.
    pub fn color_states(&mut self, cs: ColorTargetState) -> (draft: &mut Self)
        ensures
            draft@ == old(self)@.with_color_state(cs),
            *final(self) == *final(draft),
    {
        self.settings.color_states.push(Some(cs));
        self
    }

    /// Adds a colour target of the given format that is not blended and
    /// writes every channel.
    pub fn color_solid(&mut self, format: wgpu::TextureFormat) -> (draft: &mut Self)
        ensures
            draft@ == old(self)@.with_color_state(ColorTargetState::solid_spec(format)),
            *final(self) == *final(draft),
    {
        self.color_states(ColorTargetState::solid(format))
    }

    /// Sets the depth and stencil state.
    pub fn depth_stencil(&mut self, dss: DepthStencilState) -> (draft: &mut Self)
        ensures
            draft@ == old(self)@.with_depth_stencil(dss),
            *final(self) == *final(draft),
    {
        self.settings.depth_stencil = Some(dss);
        self
    }

    /// Sets depth testing without a stencil test and without depth bias.
    pub fn depth_no_stencil(
        &mut self,
        format: wgpu::TextureFormat,
        depth_write_enabled: bool,
        depth_compare: CompareFunction,
    ) -> (draft: &mut Self)
        ensures
            draft@ == old(self)@.with_depth_stencil(
                DepthStencilState::depth_only_spec(format, depth_write_enabled, depth_compare),
            ),
            *final(self) == *final(draft),
    {
        self.depth_stencil(DepthStencilState::depth_only(format, depth_write_enabled, depth_compare))
    }

    /// Sets depth testing that writes depth and passes nearer fragments.
    pub fn depth_format(&mut self, format: wgpu::TextureFormat) -> (draft: &mut Self)
        ensures
            draft@ == old(self)@.with_depth_stencil(
                DepthStencilState::depth_only_spec(format, true, CompareFunction::Less),
            ),
            *final(self) == *final(draft),
    {
        self.depth_no_stencil(format, true, CompareFunction::Less)
    }

    /// Sets the index format.
    pub fn index_format(&mut self, ifmt: IndexFormat) -> (draft: &mut Self)
        ensures
            draft@ == (Draft {
                settings: Settings { index_format: ifmt, ..old(self)@.settings },
                ..old(self)@
            }),
            *final(self) == *final(draft),
    {
        self.settings.index_format = ifmt;
        self
    }

    /// Leaves the draft as it is.
    pub fn vertex_buffer(&mut self)
        ensures
            *final(self) == *old(self),
    {
    }

    /// Adds a vertex buffer layout. Layouts keep the order in which they are
    /// added.
    pub fn vertex_buffer_desc(&mut self, vb: wgpu::VertexBufferLayout<'a>) -> (draft: &mut Self)
        ensures
            draft@ == old(self)@.with_vertex_buffer(vb),
            *final(self) == *final(draft),
    {
        self.settings.vertex_buffers.push(vb);
        self
    }

    /// Sets the number of samples per pixel.
    pub fn sample_count(&mut self, sc: u32) -> (draft: &mut Self)
        ensures
            draft@ == (Draft {
                settings: Settings { sample_count: sc, ..old(self)@.settings },
                ..old(self)@
            }),
            *final(self) == *final(draft),
    {
        self.settings.sample_count = sc;
        self
    }

    /// Sets the sample mask.
    pub fn sample_mask(&mut self, sm: u64) -> (draft: &mut Self)
        ensures
            draft@ == (Draft {
                settings: Settings { sample_mask: sm, ..old(self)@.settings },
                ..old(self)@
            }),
            *final(self) == *final(draft),
    {
        self.settings.sample_mask = sm;
        self
    }

    /// Switches alpha-to-coverage on or off.
    pub fn alpha_to_coverage_enabled(&mut self, atce: bool) -> (draft: &mut Self)
        ensures
            draft@ == (Draft {
                settings: Settings { alpha_to_coverage_enabled: atce, ..old(self)@.settings },
                ..old(self)@
            }),
            *final(self) == *final(draft),
    {
        self.settings.alpha_to_coverage_enabled = atce;
        self
    }

    /// Sets the multiview count. A count of zero stands for no multiview.
    pub fn multiveiw(&mut self, value: Option<u32>) -> (draft: &mut Self)
        ensures
            draft@ == (Draft {
                settings: Settings { multiview: multiview_count(value), ..old(self)@.settings },
                ..old(self)@
            }),
            *final(self) == *final(draft),
    {
        self.settings.multiview = match value {
            Some(count) => if count == 0 {
                None
            } else {
                Some(count)
            },
            None => None,
        };
        self
    }

    /// Starts a build. A spent draft, a draft without a layout and a draft
    /// without a vertex shader are refused, in this order, and left as they
    /// are: nothing is handed out for compilation. Any other draft is spent,
    /// and its content moves into the stage that is returned.
    pub fn build(&mut self) -> (outcome: Result<VertexStage<'a, L>, BuildError>)
        ensures
            (match old(self)@.refusal() {
                Some(error) => outcome is Err && outcome->Err_0 == error && *final(self) == *old(
                    self,
                ),
                None => outcome is Ok && final(self)@ == Draft::<L>::spent() && {
                    let stage = outcome->Ok_0;
                    &&& Some(stage.source) == old(self)@.vertex_shader
                    &&& Some(stage.layout) == old(self)@.layout
                    &&& stage.fragment_shader == old(self)@.fragment_shader
                    &&& stage.settings@ == old(self)@.settings
                },
            }),
    {
        if self.consumed {
            return Err(BuildError::DraftConsumed);
        }
        if self.layout.is_none() {
            return Err(BuildError::MissingLayout);
        }
        if self.vertex_shader.is_none() {
            return Err(BuildError::MissingVertexShader);
        }
        let layout = self.layout.take().unwrap();
        let source = self.vertex_shader.take().unwrap();
        let fragment_shader = self.fragment_shader.take();
        let mut settings = PipelineSettings::new();
        core::mem::swap(&mut self.settings, &mut settings);
        self.consumed = true;
        Ok(VertexStage { source, layout, fragment_shader, settings })
    }
}

impl<'a, L> VertexStage<'a, L> {
    /// Takes the compiled vertex module. Fails when the draft held no
    /// fragment shader; else yields the fragment shader source to compile.
    pub fn compiled<M>(self, vertex_module: M) -> (outcome: Result<
        FragmentStage<'a, L, M>,
        BuildError,
    >)
        ensures
            (match fragment_refusal(self.fragment_shader) {
                Some(error) => outcome is Err && outcome->Err_0 == error,
                None => outcome is Ok && {
                    let stage = outcome->Ok_0;
                    &&& Some(stage.source) == self.fragment_shader
                    &&& stage.layout == self.layout
                    &&& stage.vertex_module == vertex_module
                    &&& stage.settings == self.settings
                },
            }),
    {
        match self.fragment_shader {
            None => Err(BuildError::MissingFragmentShader),
            Some(source) => Ok(
                FragmentStage {
                    source,
                    layout: self.layout,
                    vertex_module,
                    settings: self.settings,
                },
            ),
        }
    }
}

impl<'a, L, M> FragmentStage<'a, L, M> {
    /// Takes the compiled fragment module and assembles the description.
    /// Vertex buffer layouts and colour targets keep their order; both
    /// stages are entered at `main`.
    pub fn compiled(self, fragment_module: M) -> (descriptor: RenderPipelineDescriptor<'a, L, M>)
        ensures
            descriptor.layout == self.layout,
            descriptor.vertex.module == self.vertex_module,
            descriptor.vertex.entry_point@ == "main"@,
            descriptor.vertex.buffers@ == self.settings@.vertex_buffers,
            descriptor.fragment.module == fragment_module,
            descriptor.fragment.entry_point@ == "main"@,
            descriptor.fragment.targets@ == self.settings@.color_states,
            descriptor.primitive == self.settings@.primitive(),
            descriptor.depth_stencil == self.settings@.depth_stencil,
            descriptor.multisample == self.settings@.multisample(),
            descriptor.multiview == self.settings@.multiview,
    {
        let settings = self.settings;
        RenderPipelineDescriptor {
            layout: self.layout,
            vertex: VertexState {
                module: self.vertex_module,
                entry_point: "main",
                buffers: settings.vertex_buffers,
            },
            fragment: FragmentState {
                module: fragment_module,
                entry_point: "main",
                targets: settings.color_states,
            },
            primitive: PrimitiveState {
                topology: settings.primitive_topology,
                strip_index_format: None,
                front_face: settings.front_face,
                cull_mode: settings.cull_mode,
                unclipped_depth: false,
                polygon_mode: PolygonMode::Fill,
                conservative: false,
            },
            depth_stencil: settings.depth_stencil,
            multisample: MultisampleState {
                count: settings.sample_count,
                mask: settings.sample_mask,
                alpha_to_coverage_enabled: settings.alpha_to_coverage_enabled,
            },
            multiview: settings.multiview,
        }
    }
}

/// The shorthand for a solid colour target adds the same target as the full
/// call with that format, no blending and every channel written.
pub proof fn solid_target_is_plain_target<'a, L>(draft: Draft<'a, L>, format: wgpu::TextureFormat)
    ensures
        draft.with_color_state(ColorTargetState::solid_spec(format)) == draft.with_color_state(
            ColorTargetState { format, blend: None, write_mask: COLOR_WRITES_ALL },
        ),
{
}

/// The shorthand for depth without stencil sets the same state as the full
/// call with both stencil faces ignored, zero stencil masks and zero bias.
pub proof fn depth_only_is_plain_depth_stencil<'a, L>(
    draft: Draft<'a, L>,
    format: wgpu::TextureFormat,
    depth_write_enabled: bool,
    depth_compare: CompareFunction,
)
    ensures
        draft.with_depth_stencil(
            DepthStencilState::depth_only_spec(format, depth_write_enabled, depth_compare),
        ) == draft.with_depth_stencil(
            DepthStencilState {
                format,
                depth_write_enabled,
                depth_compare,
                stencil: StencilState {
                    front: StencilFaceState {
                        compare: CompareFunction::Always,
                        fail_op: StencilOperation::Keep,
                        depth_fail_op: StencilOperation::Keep,
                        pass_op: StencilOperation::Keep,
                    },
                    back: StencilFaceState {
                        compare: CompareFunction::Always,
                        fail_op: StencilOperation::Keep,
                        depth_fail_op: StencilOperation::Keep,
                        pass_op: StencilOperation::Keep,
                    },
                    read_mask: 0,
                    write_mask: 0,
                },
                bias: DepthBiasState { constant: 0, slope_scale_bits: 0, clamp_bits: 0 },
            },
        ),
{
}

/// Colour targets take their slots in call order: two targets added one
/// after the other follow the targets that were there, the first before the
/// second, and nothing that was there moves.
pub proof fn color_targets_keep_call_order<'a, L>(
    draft: Draft<'a, L>,
    first: ColorTargetState,
    second: ColorTargetState,
)
    ensures
        ({
            let before = draft.settings.color_states;
            let after = draft.with_color_state(first).with_color_state(second).settings.color_states;
            &&& after.len() == before.len() + 2
            &&& after[before.len() as int] == Some(first)
            &&& after[before.len() as int + 1] == Some(second)
            &&& forall|slot: int| 0 <= slot < before.len() ==> after[slot] == before[slot]
        }),
{
}

/// A draft without a layout is refused for its missing layout, whatever
/// else it holds, before any shader source is handed out.
pub proof fn missing_layout_is_refused_first<'a, L>(draft: Draft<'a, L>)
    requires
        !draft.consumed,
        draft.layout is None,
    ensures
        draft.refusal() == Some(BuildError::MissingLayout),
{
}

/// A draft with a layout and a vertex shader but no fragment shader passes
/// the first checks, so that its vertex shader is compiled, and is refused
/// for its missing fragment shader only after that.
pub proof fn missing_fragment_shader_is_found_last<'a, L>(draft: Draft<'a, L>)
    requires
        !draft.consumed,
        draft.layout is Some,
        draft.vertex_shader is Some,
        draft.fragment_shader is None,
    ensures
        draft.refusal() is None,
        fragment_refusal(draft.fragment_shader) == Some(BuildError::MissingFragmentShader),
{
}

} // verus!
