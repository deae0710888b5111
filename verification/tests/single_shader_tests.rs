use eatcoffee::pipeline::BuildError;
use eatcoffee::single_shader::Pipeline;
use eatcoffee::state::{
    ColorTargetState, CompareFunction, DepthStencilState, Face, FrontFace, IndexFormat,
    MultisampleState, PolygonMode, PrimitiveState, PrimitiveTopology,
};
use wgpu::{
    PushConstantRange, ShaderModuleDescriptor, ShaderSource, ShaderStages, TextureFormat,
    VertexBufferLayout, VertexStepMode,
};

fn source(text: &'static str) -> ShaderModuleDescriptor<'static> {
    ShaderModuleDescriptor { label: None, source: ShaderSource::Wgsl(text.into()) }
}

fn wgsl(descriptor: &ShaderModuleDescriptor<'_>) -> String {
    match &descriptor.source {
        ShaderSource::Wgsl(text) => text.to_string(),
        _ => panic!("not a WGSL source"),
    }
}

fn instances(stride: u64) -> VertexBufferLayout<'static> {
    VertexBufferLayout { array_stride: stride, step_mode: VertexStepMode::Instance, attributes: &[] }
}

fn range(stages: ShaderStages, end: u32) -> PushConstantRange {
    PushConstantRange { stages, range: 0..end }
}

#[test]
fn new_shared_draft_is_empty_with_defaults() {
    let draft: Pipeline<u8> = Pipeline::new();
    assert!(draft.bind_group_layouts.is_empty());
    assert!(draft.push_constant_ranges.is_empty());
    assert!(draft.shader.is_none());
    assert!(!draft.consumed);
    assert_eq!(draft.settings.front_face, FrontFace::Ccw);
    assert_eq!(draft.settings.cull_mode, None);
    assert_eq!(draft.settings.primitive_topology, PrimitiveTopology::TriangleList);
    assert_eq!(draft.settings.index_format, IndexFormat::Uint32);
    assert_eq!(draft.settings.sample_count, 1);
    assert_eq!(draft.settings.sample_mask, u64::MAX);
    assert!(!draft.settings.alpha_to_coverage_enabled);
    assert_eq!(draft.settings.multiview, None);
    assert_eq!(draft.settings.depth_stencil, None);
}

#[test]
fn bind_group_layouts_and_ranges_append_in_order() {
    let mut draft: Pipeline<u8> = Pipeline::new();
    draft
        .bind_group_layouts(3)
        .bind_group_layouts(1)
        .push_constant_ranges(range(ShaderStages::VERTEX, 16))
        .bind_group_layouts(2)
        .push_constant_ranges(range(ShaderStages::FRAGMENT, 32));
    assert_eq!(draft.bind_group_layouts, vec![3, 1, 2]);
    assert_eq!(
        draft.push_constant_ranges,
        vec![range(ShaderStages::VERTEX, 16), range(ShaderStages::FRAGMENT, 32)]
    );
}

#[test]
fn shared_draft_setters_overwrite() {
    let mut draft: Pipeline<u8> = Pipeline::new();
    draft
        .shader(source("one"))
        .shader(source("two"))
        .front_face(FrontFace::Cw)
        .cull_mode(Some(Face::Front))
        .primitive_topology(PrimitiveTopology::PointList)
        .index_format(IndexFormat::Uint16)
        .sample_count(8)
        .sample_mask(1)
        .alpha_to_coverage_enabled(true)
        .multiveiw(Some(0))
        .depth_format(TextureFormat::Depth32Float)
        .depth_no_stencil(TextureFormat::Depth24Plus, false, CompareFunction::Always);
    assert_eq!(wgsl(draft.shader.as_ref().unwrap()), "two");
    assert_eq!(draft.settings.front_face, FrontFace::Cw);
    assert_eq!(draft.settings.cull_mode, Some(Face::Front));
    assert_eq!(draft.settings.primitive_topology, PrimitiveTopology::PointList);
    assert_eq!(draft.settings.index_format, IndexFormat::Uint16);
    assert_eq!(draft.settings.sample_count, 8);
    assert_eq!(draft.settings.sample_mask, 1);
    assert!(draft.settings.alpha_to_coverage_enabled);
    assert_eq!(draft.settings.multiview, None);
    assert_eq!(
        draft.settings.depth_stencil,
        Some(DepthStencilState::depth_only(
            TextureFormat::Depth24Plus,
            false,
            CompareFunction::Always
        ))
    );
}

#[test]
fn shared_draft_color_solid_equals_full_call() {
    let mut short: Pipeline<u8> = Pipeline::new();
    short.color_solid(TextureFormat::Rgba8Unorm);
    let mut full: Pipeline<u8> = Pipeline::new();
    full.color_states(ColorTargetState {
        format: TextureFormat::Rgba8Unorm,
        blend: None,
        write_mask: 15,
    });
    assert_eq!(short.settings.color_states, full.settings.color_states);
}

#[test]
fn shared_build_without_shader_fails_after_layout_stage() {
    let mut draft: Pipeline<u8> = Pipeline::new();
    draft.bind_group_layouts(4);
    let stage = draft.build().ok().expect("a layout stage");
    assert_eq!(stage.bind_group_layouts, vec![4]);
    assert!(stage.shader.is_none());
    assert_eq!(stage.created("layout").err(), Some(BuildError::MissingShader));
    assert!(draft.consumed);
}

#[test]
fn shared_build_twice_is_refused() {
    let mut draft: Pipeline<u8> = Pipeline::new();
    draft.shader(source("code"));
    assert!(draft.build().is_ok());
    assert_eq!(draft.build().err(), Some(BuildError::DraftConsumed));
    assert!(draft.shader.is_none());
}

#[test]
fn shared_build_uses_one_module_for_both_stages() {
    let target = ColorTargetState::solid(TextureFormat::Bgra8UnormSrgb);
    let mut draft: Pipeline<u8> = Pipeline::new();
    draft
        .bind_group_layouts(1)
        .bind_group_layouts(2)
        .push_constant_ranges(range(ShaderStages::VERTEX, 8))
        .shader(source("code"))
        .color_states(target)
        .vertex_buffer_desc(instances(4))
        .vertex_buffer_desc(instances(12))
        .cull_mode(Some(Face::Back))
        .sample_count(4);
    let layout_stage = draft.build().ok().expect("a layout stage");
    assert_eq!(layout_stage.bind_group_layouts, vec![1, 2]);
    assert_eq!(layout_stage.push_constant_ranges, vec![range(ShaderStages::VERTEX, 8)]);
    let shader_stage = layout_stage.created("layout").ok().expect("a shader stage");
    assert_eq!(wgsl(&shader_stage.source), "code");
    assert_eq!(shader_stage.layout, "layout");
    let descriptor = shader_stage.compiled(77u16);
    assert_eq!(descriptor.layout, "layout");
    assert_eq!(descriptor.vertex.module, 77);
    assert_eq!(descriptor.fragment.module, 77);
    assert_eq!(descriptor.vertex.entry_point, "vs_main");
    assert_eq!(descriptor.fragment.entry_point, "fs_main");
    assert_eq!(descriptor.vertex.buffers, vec![instances(4), instances(12)]);
    assert_eq!(descriptor.fragment.targets, vec![Some(target)]);
    assert_eq!(
        descriptor.primitive,
        PrimitiveState {
            topology: PrimitiveTopology::TriangleList,
            strip_index_format: None,
            front_face: FrontFace::Ccw,
            cull_mode: Some(Face::Back),
            unclipped_depth: false,
            polygon_mode: PolygonMode::Fill,
            conservative: false,
        }
    );
    assert_eq!(
        descriptor.multisample,
        MultisampleState { count: 4, mask: u64::MAX, alpha_to_coverage_enabled: false }
    );
    assert_eq!(descriptor.depth_stencil, None);
    assert_eq!(descriptor.multiview, None);
}
