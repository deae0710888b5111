//! Building a render pipeline whose two stages share one shader module and
//! whose layout is created as part of the build.
//!
//! A [`Pipeline`] collects bind group layouts, push constant ranges, one
//! shader source and the same settings as a
//! [`RenderPipelineBuilder`](crate::pipeline::RenderPipelineBuilder).
//! Building hands the caller the work for the device in the order in which it
//! is done: [`Pipeline::build`] yields what the pipeline layout is created
//! from, [`LayoutStage::created`] takes the layout and yields the shader
//! source to compile, and [`ShaderStage::compiled`] takes the module and
//! yields the finished description.

use vstd::prelude::*;
use crate::pipeline::{
    BuildError, FragmentState, PipelineSettings, RenderPipelineDescriptor, Settings, VertexState,
    multiview_count,
};
use crate::state::{
    ColorTargetState, CompareFunction, DepthStencilState, Face, FrontFace, IndexFormat,
    MultisampleState, PolygonMode, PrimitiveState, PrimitiveTopology,
};

verus! {

/// A pipeline draft with one shader for both stages. `B` is the handle of a
/// bind group layout.
pub struct Pipeline<'a, B> {
    pub push_constant_ranges: Vec<wgpu::PushConstantRange>,
    pub bind_group_layouts: Vec<B>,
    pub shader: Option<wgpu::ShaderModuleDescriptor<'a>>,
    pub settings: PipelineSettings<'a>,
    pub consumed: bool,
}

/// Such a draft as a mathematical value. Bind group layouts and push constant
/// ranges keep the order in which they were added.
pub struct SharedDraft<'a, B> {
    pub push_constant_ranges: Seq<wgpu::PushConstantRange>,
    pub bind_group_layouts: Seq<B>,
    pub shader: Option<wgpu::ShaderModuleDescriptor<'a>>,
    pub settings: Settings<'a>,
    pub consumed: bool,
}

impl<'a, B> SharedDraft<'a, B> {
    /// A fresh draft: nothing set, every setting at its default.
    pub open spec fn initial() -> SharedDraft<'a, B> {
        SharedDraft {
            push_constant_ranges: Seq::empty(),
            bind_group_layouts: Seq::empty(),
            shader: None,
            settings: Settings::initial(),
            consumed: false,
        }
    }

    /// What is left of a draft once it has been built from.
    pub open spec fn spent() -> SharedDraft<'a, B> {
        SharedDraft { consumed: true, ..Self::initial() }
    }

    /// The draft with other settings.
    pub open spec fn with_settings(self, settings: Settings<'a>) -> SharedDraft<'a, B> {
        SharedDraft { settings, ..self }
    }

    /// The draft with one more colour target, in the next free slot.
    pub open spec fn with_color_state(self, target: ColorTargetState) -> SharedDraft<'a, B> {
        self.with_settings(
            Settings {
                color_states: self.settings.color_states.push(Some(target)),
                ..self.settings
            },
        )
    }

    /// The draft with its depth and stencil state replaced.
    pub open spec fn with_depth_stencil(self, state: DepthStencilState) -> SharedDraft<'a, B> {
        self.with_settings(Settings { depth_stencil: Some(state), ..self.settings })
    }
}

impl<'a, B> View for Pipeline<'a, B> {
    type V = SharedDraft<'a, B>;

    open spec fn view(&self) -> SharedDraft<'a, B> {
        SharedDraft {
            push_constant_ranges: self.push_constant_ranges@,
            bind_group_layouts: self.bind_group_layouts@,
            shader: self.shader,
            settings: self.settings@,
            consumed: self.consumed,
        }
    }
}

/// A build that has started. The pipeline layout is to be created next, from
/// the bind group layouts and push constant ranges held here.
pub struct LayoutStage<'a, B> {
    pub bind_group_layouts: Vec<B>,
    pub push_constant_ranges: Vec<wgpu::PushConstantRange>,
    pub shader: Option<wgpu::ShaderModuleDescriptor<'a>>,
    pub settings: PipelineSettings<'a>,
}

/// A build whose layout is created. The shader source is to be compiled
/// next. `L` is the handle of a pipeline layout.
pub struct ShaderStage<'a, L> {
    /// The shader source to compile.
    pub source: wgpu::ShaderModuleDescriptor<'a>,
    pub layout: L,
    pub settings: PipelineSettings<'a>,
}

impl<'a, B> Pipeline<'a, B> {
    /// A fresh draft, with the same defaults as a draft with two shaders.
    pub fn new() -> (draft: Self)
        ensures
            draft@ == SharedDraft::<B>::initial(),
    {
        Pipeline {
            push_constant_ranges: Vec::new(),
            bind_group_layouts: Vec::new(),
            shader: None,
            settings: PipelineSettings::new(),
            consumed: false,
        }
    }

    /// Adds a bind group layout. Layouts keep the order in which they are
    /// added.
    pub fn bind_group_layouts(&mut self, bgl: B) -> (draft: &mut Self)
        ensures
            draft@ == (SharedDraft {
                bind_group_layouts: old(self)@.bind_group_layouts.push(bgl),
                ..old(self)@
            }),
            *final(self) == *final(draft),
    {
        self.bind_group_layouts.push(bgl);
        self
    }

    /// Adds a push constant range. Ranges keep the order in which they are
    /// added.
    pub fn push_constant_ranges(&mut self, pcr: wgpu::PushConstantRange) -> (draft: &mut Self)
        ensures
            draft@ == (SharedDraft {
                push_constant_ranges: old(self)@.push_constant_ranges.push(pcr),
                ..old(self)@
            }),
            *final(self) == *final(draft),
    {
        self.push_constant_ranges.push(pcr);
        self
    }

    /// Sets the shader source of both stages.
    pub fn shader(&mut self, src: wgpu::ShaderModuleDescriptor<'a>) -> (draft: &mut Self)
        ensures
            draft@ == (SharedDraft { shader: Some(src), ..old(self)@ }),
            *final(self) == *final(draft),
    {
        self.shader = Some(src);
        self
    }

    /// Sets the winding order of front faces.
    pub fn front_face(&mut self, ff: FrontFace) -> (draft: &mut Self)
        ensures
            draft@ == old(self)@.with_settings(Settings { front_face: ff, ..old(self)@.settings }),
            *final(self) == *final(draft),
    {
        self.settings.front_face = ff;
        self
    }

    /// Sets which face is culled, if any.
    pub fn cull_mode(&mut self, cm: Option<Face>) -> (draft: &mut Self)
        ensures
            draft@ == old(self)@.with_settings(Settings { cull_mode: cm, ..old(self)@.settings }),
            *final(self) == *final(draft),
    {
        self.settings.cull_mode = cm;
        self
    }

    /// Sets the primitive topology.
    pub fn primitive_topology(&mut self, pt: PrimitiveTopology) -> (draft: &mut Self)
        ensures
            draft@ == old(self)@.with_settings(
                Settings { primitive_topology: pt, ..old(self)@.settings },
            ),
            *final(self) == *final(draft),
    {
        self.settings.primitive_topology = pt;
        self
    }

    /// Adds a colour target. Targets keep the order in which they are added.
    pub fn color_states(&mut self, cs: ColorTargetState) -> (draft: &mut Self)
        ensures
            draft@ == old(self)@.with_color_state(cs),
            *final(self) == *final(draft),
    {
        self.settings.color_states.push(Some(cs));
        self
    }

    /// Adds a colour target of the given format that is not blended and
    /// writes every channel.
    pub fn color_solid(&mut self, format: wgpu::TextureFormat) -> (draft: &mut Self)
        ensures
            draft@ == old(self)@.with_color_state(ColorTargetState::solid_spec(format)),
            *final(self) == *final(draft),
    {
        self.color_states(ColorTargetState::solid(format))
    }

    /// Sets the depth and stencil state.
    pub fn depth_stencil(&mut self, dss: DepthStencilState) -> (draft: &mut Self)
        ensures
            draft@ == old(self)@.with_depth_stencil(dss),
            *final(self) == *final(draft),
    {
        self.settings.depth_stencil = Some(dss);
        self
    }

    /// Sets depth testing without a stencil test and without depth bias.
    pub fn depth_no_stencil(
        &mut self,
        format: wgpu::TextureFormat,
        depth_write_enabled: bool,
        depth_compare: CompareFunction,
    ) -> (draft: &mut Self)
        ensures
            draft@ == old(self)@.with_depth_stencil(
                DepthStencilState::depth_only_spec(format, depth_write_enabled, depth_compare),
            ),
            *final(self) == *final(draft),
    {
        self.depth_stencil(DepthStencilState::depth_only(format, depth_write_enabled, depth_compare))
    }

    /// Sets depth testing that writes depth and passes nearer fragments.
    pub fn depth_format(&mut self, format: wgpu::TextureFormat) -> (draft: &mut Self)
        ensures
            draft@ == old(self)@.with_depth_stencil(
                DepthStencilState::depth_only_spec(format, true, CompareFunction::Less),
            ),
            *final(self) == *final(draft),
    {
        self.depth_no_stencil(format, true, CompareFunction::Less)
    }

    /// Sets the index format.
    pub fn index_format(&mut self, ifmt: IndexFormat) -> (draft: &mut Self)
        ensures
            draft@ == old(self)@.with_settings(
                Settings { index_format: ifmt, ..old(self)@.settings },
            ),
            *final(self) == *final(draft),
    {
        self.settings.index_format = ifmt;
        self
    }

    /// Adds a vertex buffer layout. Layouts keep the order in which they are
    /// added.
    pub fn vertex_buffer_desc(&mut self, vb: wgpu::VertexBufferLayout<'a>) -> (draft: &mut Self)
        ensures
            draft@ == old(self)@.with_settings(
                Settings {
                    vertex_buffers: old(self)@.settings.vertex_buffers.push(vb),
                    ..old(self)@.settings
                },
            ),
            *final(self) == *final(draft),
    {
        self.settings.vertex_buffers.push(vb);
        self
    }

    /// Sets the number of samples per pixel.
    pub fn sample_count(&mut self, sc: u32) -> (draft: &mut Self)
        ensures
            draft@ == old(self)@.with_settings(Settings { sample_count: sc, ..old(self)@.settings }),
            *final(self) == *final(draft),
    {
        self.settings.sample_count = sc;
        self
    }

    /// Sets the sample mask.
    pub fn sample_mask(&mut self, sm: u64) -> (draft: &mut Self)
        ensures
            draft@ == old(self)@.with_settings(Settings { sample_mask: sm, ..old(self)@.settings }),
            *final(self) == *final(draft),
    {
        self.settings.sample_mask = sm;
        self
    }

    /// Switches alpha-to-coverage on or off.
    pub fn alpha_to_coverage_enabled(&mut self, atce: bool) -> (draft: &mut Self)
        ensures
            draft@ == old(self)@.with_settings(
                Settings { alpha_to_coverage_enabled: atce, ..old(self)@.settings },
            ),
            *final(self) == *final(draft),
    {
        self.settings.alpha_to_coverage_enabled = atce;
        self
    }

    /// Sets the multiview count. A count of zero stands for no multiview.
    pub fn multiveiw(&mut self, value: Option<u32>) -> (draft: &mut Self)
        ensures
            draft@ == old(self)@.with_settings(
                Settings { multiview: multiview_count(value), ..old(self)@.settings },
            ),
            *final(self) == *final(draft),
    {
        self.settings.multiview = match value {
            Some(count) => if count == 0 {
                None
            } else {
                Some(count)
            },
            None => None,
        };
        self
    }

    /// Starts a build. A spent draft is refused and left as it is. Any other
    /// draft is spent, whether or not it holds a shader: its content moves
    /// into the stage that is returned, from which the pipeline layout is
    /// created first.
    pub fn build(&mut self) -> (outcome: Result<LayoutStage<'a, B>, BuildError>)
        ensures
            old(self)@.consumed ==> outcome is Err && outcome->Err_0 == BuildError::DraftConsumed
                && *final(self) == *old(self),
            !old(self)@.consumed ==> outcome is Ok && final(self)@ == SharedDraft::<B>::spent() && ({
                let stage = outcome->Ok_0;
                &&& stage.bind_group_layouts@ == old(self)@.bind_group_layouts
                &&& stage.push_constant_ranges@ == old(self)@.push_constant_ranges
                &&& stage.shader == old(self)@.shader
                &&& stage.settings@ == old(self)@.settings
            }),
    {
        if self.consumed {
            return Err(BuildError::DraftConsumed);
        }
        let mut bind_group_layouts: Vec<B> = Vec::new();
        core::mem::swap(&mut self.bind_group_layouts, &mut bind_group_layouts);
        let mut push_constant_ranges: Vec<wgpu::PushConstantRange> = Vec::new();
        core::mem::swap(&mut self.push_constant_ranges, &mut push_constant_ranges);
        let shader = self.shader.take();
        let mut settings = PipelineSettings::new();
        core::mem::swap(&mut self.settings, &mut settings);
        self.consumed = true;
        Ok(LayoutStage { bind_group_layouts, push_constant_ranges, shader, settings })
    }
}

impl<'a, B> LayoutStage<'a, B> {
    /// Takes the created pipeline layout. Fails when the draft held no
    /// shader; else yields the shader source to compile.
    pub fn created<L>(self, layout: L) -> (outcome: Result<ShaderStage<'a, L>, BuildError>)
        ensures
            self.shader is None ==> outcome is Err && outcome->Err_0 == BuildError::MissingShader,
            self.shader is Some ==> outcome is Ok && ({
                let stage = outcome->Ok_0;
                &&& Some(stage.source) == self.shader
                &&& stage.layout == layout
                &&& stage.settings == self.settings
            }),
    {
        match self.shader {
            None => Err(BuildError::MissingShader),
            Some(source) => Ok(ShaderStage { source, layout, settings: self.settings }),
        }
    }
}

impl<'a, L> ShaderStage<'a, L> {
    /// Takes the compiled shader module and assembles the description. Both
    /// stages use the module; the vertex stage is entered at `vs_main`, the
    /// fragment stage at `fs_main`. Vertex buffer layouts and colour targets
    /// keep their order.
    pub fn compiled<M: Copy>(self, module: M) -> (descriptor: RenderPipelineDescriptor<'a, L, M>)
        ensures
            descriptor.layout == self.layout,
            descriptor.vertex.module == module,
            descriptor.vertex.entry_point@ == "vs_main"@,
            descriptor.vertex.buffers@ == self.settings@.vertex_buffers,
            descriptor.fragment.module == module,
            descriptor.fragment.entry_point@ == "fs_main"@,
            descriptor.fragment.targets@ == self.settings@.color_states,
            descriptor.primitive == self.settings@.primitive(),
            descriptor.depth_stencil == self.settings@.depth_stencil,
            descriptor.multisample == self.settings@.multisample(),
            descriptor.multiview == self.settings@.multiview,
    {
        let settings = self.settings;
        RenderPipelineDescriptor {
            layout: self.layout,
            vertex: VertexState {
                module,
                entry_point: "vs_main",
                buffers: settings.vertex_buffers,
            },
            fragment: FragmentState {
                module,
                entry_point: "fs_main",
                targets: settings.color_states,
            },
            primitive: PrimitiveState {
                topology: settings.primitive_topology,
                strip_index_format: None,
                front_face: settings.front_face,
                cull_mode: settings.cull_mode,
                unclipped_depth: false,
                polygon_mode: PolygonMode::Fill,
                conservative: false,
            },
            depth_stencil: settings.depth_stencil,
            multisample: MultisampleState {
                count: settings.sample_count,
                mask: settings.sample_mask,
                alpha_to_coverage_enabled: settings.alpha_to_coverage_enabled,
            },
            multiview: settings.multiview,
        }
    }
}

} // verus!
