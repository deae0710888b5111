use eatcoffee::negotiate::{
    negotiate, AdapterReport, DeviceRequest, Limits, NegotiationError, Requirements, ShaderModel,
};

fn from_wgpu(limits: wgpu::Limits) -> Limits {
    Limits {
        max_texture_dimension_1d: limits.max_texture_dimension_1d,
        max_texture_dimension_2d: limits.max_texture_dimension_2d,
        max_texture_dimension_3d: limits.max_texture_dimension_3d,
        max_texture_array_layers: limits.max_texture_array_layers,
        max_bind_groups: limits.max_bind_groups,
        max_bindings_per_bind_group: limits.max_bindings_per_bind_group,
        max_dynamic_uniform_buffers_per_pipeline_layout: limits.max_dynamic_uniform_buffers_per_pipeline_layout,
        max_dynamic_storage_buffers_per_pipeline_layout: limits.max_dynamic_storage_buffers_per_pipeline_layout,
        max_sampled_textures_per_shader_stage: limits.max_sampled_textures_per_shader_stage,
        max_samplers_per_shader_stage: limits.max_samplers_per_shader_stage,
        max_storage_buffers_per_shader_stage: limits.max_storage_buffers_per_shader_stage,
        max_storage_textures_per_shader_stage: limits.max_storage_textures_per_shader_stage,
        max_uniform_buffers_per_shader_stage: limits.max_uniform_buffers_per_shader_stage,
        max_uniform_buffer_binding_size: limits.max_uniform_buffer_binding_size,
        max_storage_buffer_binding_size: limits.max_storage_buffer_binding_size,
        max_vertex_buffers: limits.max_vertex_buffers,
        max_buffer_size: limits.max_buffer_size,
        max_vertex_attributes: limits.max_vertex_attributes,
        max_vertex_buffer_array_stride: limits.max_vertex_buffer_array_stride,
        min_uniform_buffer_offset_alignment: limits.min_uniform_buffer_offset_alignment,
        min_storage_buffer_offset_alignment: limits.min_storage_buffer_offset_alignment,
        max_inter_stage_shader_components: limits.max_inter_stage_shader_components,
        max_compute_workgroup_storage_size: limits.max_compute_workgroup_storage_size,
        max_compute_invocations_per_workgroup: limits.max_compute_invocations_per_workgroup,
        max_compute_workgroup_size_x: limits.max_compute_workgroup_size_x,
        max_compute_workgroup_size_y: limits.max_compute_workgroup_size_y,
        max_compute_workgroup_size_z: limits.max_compute_workgroup_size_z,
        max_compute_workgroups_per_dimension: limits.max_compute_workgroups_per_dimension,
        max_push_constant_size: limits.max_push_constant_size,
    }
}

fn default_limits() -> Limits {
    from_wgpu(wgpu::Limits::default())
}

fn webgl2_limits() -> Limits {
    from_wgpu(wgpu::Limits::downlevel_webgl2_defaults())
}

fn adapter(features: u64) -> AdapterReport {
    AdapterReport {
        features,
        shader_model: ShaderModel::Sm5,
        downlevel_flags: 0b1111,
        limits: default_limits(),
    }
}

fn requirements(required: u64, optional: u64) -> Requirements {
    Requirements {
        required_features: required,
        optional_features: optional,
        shader_model: ShaderModel::Sm5,
        downlevel_flags: 0,
        limits: webgl2_limits(),
    }
}

#[test]
fn baseline_requirements_ask_for_nothing() {
    let requirements = Requirements::new(webgl2_limits());
    assert_eq!(requirements.required_features, 0);
    assert_eq!(requirements.optional_features, 0);
    assert_eq!(requirements.shader_model, ShaderModel::Sm5);
    assert_eq!(requirements.downlevel_flags, 0);
    assert_eq!(requirements.limits, webgl2_limits());
}

#[test]
fn shader_models_are_ordered() {
    assert!(ShaderModel::Sm5.at_least(ShaderModel::Sm5));
    assert!(ShaderModel::Sm5.at_least(ShaderModel::Sm4));
    assert!(ShaderModel::Sm5.at_least(ShaderModel::Sm2));
    assert!(ShaderModel::Sm4.at_least(ShaderModel::Sm4));
    assert!(ShaderModel::Sm4.at_least(ShaderModel::Sm2));
    assert!(ShaderModel::Sm2.at_least(ShaderModel::Sm2));
    assert!(!ShaderModel::Sm4.at_least(ShaderModel::Sm5));
    assert!(!ShaderModel::Sm2.at_least(ShaderModel::Sm4));
    assert!(!ShaderModel::Sm2.at_least(ShaderModel::Sm5));
}

#[test]
fn granted_features_are_required_plus_available_optional() {
    let request = negotiate(requirements(0b0011, 0b1100), adapter(0b0111)).unwrap();
    assert_eq!(request.features, 0b0111);
    let request = negotiate(requirements(0, 0b1000), adapter(0b0111)).unwrap();
    assert_eq!(request.features, 0);
    let request = negotiate(requirements(1 << 63, u64::MAX), adapter(1 << 63 | 1)).unwrap();
    assert_eq!(request.features, 1 << 63 | 1);
}

#[test]
fn missing_required_feature_fails_with_the_missing_bits() {
    assert_eq!(
        negotiate(requirements(0b1011, 0), adapter(0b0110)),
        Err(NegotiationError::MissingFeatures(0b1001))
    );
}

#[test]
fn low_shader_model_fails() {
    let mut report = adapter(0);
    report.shader_model = ShaderModel::Sm4;
    assert_eq!(
        negotiate(requirements(0, 0), report),
        Err(NegotiationError::ShaderModelTooLow(ShaderModel::Sm5))
    );
}

#[test]
fn missing_downlevel_flag_fails_with_the_missing_bits() {
    let mut needs = requirements(0, 0);
    needs.downlevel_flags = 0b1_0101;
    assert_eq!(
        negotiate(needs, adapter(0)),
        Err(NegotiationError::MissingDownlevelFlags(0b1_0000))
    );
}

#[test]
fn checks_run_in_order_features_model_flags() {
    let needs = || {
        let mut needs = requirements(0b1, 0);
        needs.downlevel_flags = 0b1_0000;
        needs
    };
    let report = |features: u64, shader_model: ShaderModel| {
        let mut report = adapter(features);
        report.shader_model = shader_model;
        report
    };
    assert_eq!(
        negotiate(needs(), report(0, ShaderModel::Sm2)),
        Err(NegotiationError::MissingFeatures(0b1))
    );
    assert_eq!(
        negotiate(needs(), report(0b1, ShaderModel::Sm2)),
        Err(NegotiationError::ShaderModelTooLow(ShaderModel::Sm5))
    );
    assert_eq!(
        negotiate(needs(), report(0b1, ShaderModel::Sm5)),
        Err(NegotiationError::MissingDownlevelFlags(0b1_0000))
    );
}

#[test]
fn limits_keep_the_floor_at_the_adapter_resolution() {
    let floor = webgl2_limits();
    let mut reported = default_limits();
    reported.max_texture_dimension_1d = 16384;
    reported.max_texture_dimension_2d = 16384;
    reported.max_texture_dimension_3d = 2048;
    let mut report = adapter(0);
    report.limits = reported;
    let request: DeviceRequest = negotiate(requirements(0, 0), report).unwrap();
    assert_eq!(request.limits.max_texture_dimension_1d, 16384);
    assert_eq!(request.limits.max_texture_dimension_2d, 16384);
    assert_eq!(request.limits.max_texture_dimension_3d, 2048);
    assert_eq!(request.limits.max_bind_groups, floor.max_bind_groups);
    assert_eq!(
        request.limits.max_storage_buffers_per_shader_stage,
        floor.max_storage_buffers_per_shader_stage
    );
    assert_eq!(request.limits.max_buffer_size, floor.max_buffer_size);
    assert_ne!(request.limits, floor);
    assert_ne!(request.limits, reported);
    let mut expected = floor;
    expected.max_texture_dimension_1d = 16384;
    expected.max_texture_dimension_2d = 16384;
    expected.max_texture_dimension_3d = 2048;
    assert_eq!(request.limits, expected);
}

#[test]
fn using_resolution_agrees_with_wgpu() {
    let ours = webgl2_limits().using_resolution(default_limits());
    let theirs = wgpu::Limits::downlevel_webgl2_defaults().using_resolution(wgpu::Limits::default());
    assert_eq!(ours, from_wgpu(theirs));
    let ours = default_limits().using_resolution(webgl2_limits());
    let theirs = wgpu::Limits::default().using_resolution(wgpu::Limits::downlevel_webgl2_defaults());
    assert_eq!(ours, from_wgpu(theirs));
}
