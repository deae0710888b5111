//! Deciding what to request from an adapter: which features to enable and
//! which limits to ask for, or why the adapter will not do.

use vstd::prelude::*;

verus! {

/// Shader capability level of an adapter, lowest first.
#[derive(Clone, Copy, Debug, PartialEq, Eq, Structural)]
pub enum ShaderModel {
    Sm2,
    Sm4,
    Sm5,
}

impl ShaderModel {
    /// Position of the level in the order of levels.
    pub open spec fn rank(self) -> int {
        match self {
            ShaderModel::Sm2 => 0,
            ShaderModel::Sm4 => 1,
            ShaderModel::Sm5 => 2,
        }
    }

    /// Whether an adapter at this level serves a caller that needs `needed`.
    pub fn at_least(self, needed: ShaderModel) -> (enough: bool)
        ensures
            enough == (self.rank() >= needed.rank()),
    {
        match (self, needed) {
            (_, ShaderModel::Sm2) => true,
            (ShaderModel::Sm2, _) => false,
            (_, ShaderModel::Sm4) => true,
            (ShaderModel::Sm4, ShaderModel::Sm5) => false,
            (ShaderModel::Sm5, ShaderModel::Sm5) => true,
        }
    }
}

/// The limits of a device, field for field as `wgpu::Limits` has them.
#[derive(Clone, Copy, Debug, PartialEq, Eq, Structural)]
pub struct Limits {
    pub max_texture_dimension_1d: u32,
    pub max_texture_dimension_2d: u32,
    pub max_texture_dimension_3d: u32,
    pub max_texture_array_layers: u32,
    pub max_bind_groups: u32,
    pub max_bindings_per_bind_group: u32,
    pub max_dynamic_uniform_buffers_per_pipeline_layout: u32,
    pub max_dynamic_storage_buffers_per_pipeline_layout: u32,
    pub max_sampled_textures_per_shader_stage: u32,
    pub max_samplers_per_shader_stage: u32,
    pub max_storage_buffers_per_shader_stage: u32,
    pub max_storage_textures_per_shader_stage: u32,
    pub max_uniform_buffers_per_shader_stage: u32,
    pub max_uniform_buffer_binding_size: u32,
    pub max_storage_buffer_binding_size: u32,
    pub max_vertex_buffers: u32,
    pub max_buffer_size: u64,
    pub max_vertex_attributes: u32,
    pub max_vertex_buffer_array_stride: u32,
    pub min_uniform_buffer_offset_alignment: u32,
    pub min_storage_buffer_offset_alignment: u32,
    pub max_inter_stage_shader_components: u32,
    pub max_compute_workgroup_storage_size: u32,
    pub max_compute_invocations_per_workgroup: u32,
    pub max_compute_workgroup_size_x: u32,
    pub max_compute_workgroup_size_y: u32,
    pub max_compute_workgroup_size_z: u32,
    pub max_compute_workgroups_per_dimension: u32,
    pub max_push_constant_size: u32,
}

impl Limits {
    /// These limits at the resolution of `other`: the three texture
    /// dimension limits of `other`, and every other limit as it is here.
    pub open spec fn using_resolution_spec(self, other: Limits) -> Limits {
        Limits {
            max_texture_dimension_1d: other.max_texture_dimension_1d,
            max_texture_dimension_2d: other.max_texture_dimension_2d,
            max_texture_dimension_3d: other.max_texture_dimension_3d,
            ..self
        }
    }

    /// These limits at the resolution of `other`, as
    /// `wgpu::Limits::using_resolution` computes them.
    pub fn using_resolution(self, other: Limits) -> (limits: Limits)
        ensures
            limits == self.using_resolution_spec(other),
    {
        Limits {
            max_texture_dimension_1d: other.max_texture_dimension_1d,
            max_texture_dimension_2d: other.max_texture_dimension_2d,
            max_texture_dimension_3d: other.max_texture_dimension_3d,
            ..self
        }
    }
}

/// What a caller asks of an adapter. Feature sets and downlevel flags are
/// bit sets.
#[derive(Clone, Copy, Debug, PartialEq, Eq, Structural)]
pub struct Requirements {
    /// Features the device must have.
    pub required_features: u64,
    /// Features to enable where the adapter has them.
    pub optional_features: u64,
    /// Lowest shader model the caller can work with.
    pub shader_model: ShaderModel,
    /// Downlevel flags the adapter must have.
    pub downlevel_flags: u32,
    /// Limits the caller needs at least.
    pub limits: Limits,
}

/// What an adapter reports about itself.
#[derive(Clone, Copy, Debug, PartialEq, Eq, Structural)]
pub struct AdapterReport {
    pub features: u64,
    pub shader_model: ShaderModel,
    pub downlevel_flags: u32,
    pub limits: Limits,
}

/// What to request from the adapter.
#[derive(Clone, Copy, Debug, PartialEq, Eq, Structural)]
pub struct DeviceRequest {
    pub features: u64,
    pub limits: Limits,
}

/// Why an adapter will not do.
#[derive(Clone, Copy, Debug, PartialEq, Eq, Structural)]
pub enum NegotiationError {
    /// The adapter lacks these required features.
    MissingFeatures(u64),
    /// The adapter is below this required shader model.
    ShaderModelTooLow(ShaderModel),
    /// The adapter lacks these required downlevel flags.
    MissingDownlevelFlags(u32),
}

/// The features to enable: every required one, and each optional one that
/// the adapter has.
pub open spec fn granted_features(required: u64, optional: u64, adapter: u64) -> u64 {
    (optional & adapter) | required
}

/// The outcome of a negotiation: the first failed check of required
/// features, shader model and downlevel flags, else the request.
pub open spec fn negotiated(requirements: Requirements, adapter: AdapterReport) -> Result<
    DeviceRequest,
    NegotiationError,
> {
    if adapter.features & requirements.required_features != requirements.required_features {
        Err(NegotiationError::MissingFeatures(requirements.required_features & !adapter.features))
    } else if adapter.shader_model.rank() < requirements.shader_model.rank() {
        Err(NegotiationError::ShaderModelTooLow(requirements.shader_model))
    } else if adapter.downlevel_flags & requirements.downlevel_flags
        != requirements.downlevel_flags {
        Err(
            NegotiationError::MissingDownlevelFlags(
                requirements.downlevel_flags & !adapter.downlevel_flags,
            ),
        )
    } else {
        Ok(
            DeviceRequest {
                features: granted_features(
                    requirements.required_features,
                    requirements.optional_features,
                    adapter.features,
                ),
                limits: requirements.limits.using_resolution_spec(adapter.limits),
            },
        )
    }
}

impl Requirements {
    /// Requirements that every adapter with these limits meets: no feature,
    /// no downlevel flag, the highest shader model.
    pub fn new(limits: Limits) -> (requirements: Requirements)
        ensures
            requirements == (Requirements {
                required_features: 0,
                optional_features: 0,
                shader_model: ShaderModel::Sm5,
                downlevel_flags: 0,
                limits,
            }),
    {
        Requirements {
            required_features: 0,
            optional_features: 0,
            shader_model: ShaderModel::Sm5,
            downlevel_flags: 0,
            limits,
        }
    }
}

/// Decides what to request from an adapter. Fails when the adapter lacks a
/// required feature, is below the required shader model, or lacks a required
/// downlevel flag. Else asks for the required features, the optional ones
/// the adapter has, and the caller's limits at the adapter's resolution.
pub fn negotiate(requirements: Requirements, adapter: AdapterReport) -> (outcome: Result<
    DeviceRequest,
    NegotiationError,
>)
    ensures
        outcome == negotiated(requirements, adapter),
{
    let required = requirements.required_features;
    if adapter.features & required != required {
        return Err(NegotiationError::MissingFeatures(required & !adapter.features));
    }
    if !adapter.shader_model.at_least(requirements.shader_model) {
        return Err(NegotiationError::ShaderModelTooLow(requirements.shader_model));
    }
    let flags = requirements.downlevel_flags;
    if adapter.downlevel_flags & flags != flags {
        return Err(NegotiationError::MissingDownlevelFlags(flags & !adapter.downlevel_flags));
    }
    let features = (requirements.optional_features & adapter.features) | required;
    let limits = requirements.limits.using_resolution(adapter.limits);
    Ok(DeviceRequest { features, limits })
}

/// Whenever the adapter has every required feature, the features that are
/// requested include each required one, hold nothing the adapter lacks, and
/// beyond the required ones hold exactly the optional ones the adapter has.
pub proof fn granted_features_are_sound(required: u64, optional: u64, adapter: u64)
    requires
        adapter & required == required,
    ensures
        granted_features(required, optional, adapter) & required == required,
        adapter & granted_features(required, optional, adapter) == granted_features(
            required,
            optional,
            adapter,
        ),
        granted_features(required, optional, adapter) & !required == optional & adapter
            & !required,
{
    assert(((optional & adapter) | required) & required == required) by (bit_vector);
    assert(adapter & ((optional & adapter) | required) == ((optional & adapter) | required))
        by (bit_vector)
        requires
            adapter & required == required,
    ;
    assert(((optional & adapter) | required) & !required == optional & adapter & !required)
        by (bit_vector);
}

/// A negotiation fails exactly when something required is missing, and the
/// features it reports as missing are required ones that the adapter lacks.
pub proof fn missing_features_are_reported(requirements: Requirements, adapter: AdapterReport)
    ensures
        negotiated(requirements, adapter) is Ok <==> ({
            &&& adapter.features & requirements.required_features
                == requirements.required_features
            &&& adapter.shader_model.rank() >= requirements.shader_model.rank()
            &&& adapter.downlevel_flags & requirements.downlevel_flags
                == requirements.downlevel_flags
        }),
        negotiated(requirements, adapter) matches Err(NegotiationError::MissingFeatures(missing))
            ==> missing != 0 && missing & adapter.features == 0 && missing
            & requirements.required_features == missing,
{
    let a = adapter.features;
    let r = requirements.required_features;
    assert(a & r != r ==> (r & !a) != 0 && (r & !a) & a == 0 && (r & !a) & r == (r & !a))
        by (bit_vector);
}

/// The limits that are requested never exceed the adapter's resolution and
/// never fall below the caller's floor: the texture dimension limits are the
/// adapter's, every other limit is the caller's.
pub proof fn requested_limits_keep_the_floor(requirements: Requirements, adapter: AdapterReport)
    requires
        negotiated(requirements, adapter) is Ok,
    ensures
        ({
            let limits = negotiated(requirements, adapter)->Ok_0.limits;
            &&& limits.max_texture_dimension_1d == adapter.limits.max_texture_dimension_1d
            &&& limits.max_texture_dimension_2d == adapter.limits.max_texture_dimension_2d
            &&& limits.max_texture_dimension_3d == adapter.limits.max_texture_dimension_3d
            &&& limits == (Limits {
                max_texture_dimension_1d: limits.max_texture_dimension_1d,
                max_texture_dimension_2d: limits.max_texture_dimension_2d,
                max_texture_dimension_3d: limits.max_texture_dimension_3d,
                ..requirements.limits
            })
        }),
{
}

} // verus!
