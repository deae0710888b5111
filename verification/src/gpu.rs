//! The `wgpu` values that travel through this crate, and the calls made on them.

use vstd::prelude::*;

verus! {

/// `wgpu::TextureFormat`, carried as an opaque value.
#[verifier::external_type_specification]
#[verifier::external_body]
pub struct ExTextureFormat(wgpu::TextureFormat);

/// `wgpu::PresentMode`, carried as an opaque value.
#[verifier::external_type_specification]
#[verifier::external_body]
pub struct ExPresentMode(wgpu::PresentMode);

/// `wgpu::CompositeAlphaMode`, carried as an opaque value.
#[verifier::external_type_specification]
#[verifier::external_body]
pub struct ExCompositeAlphaMode(wgpu::CompositeAlphaMode);

/// `wgpu::BlendState`, carried as an opaque value.
#[verifier::external_type_specification]
#[verifier::external_body]
pub struct ExBlendState(wgpu::BlendState);

/// `wgpu::ShaderModuleDescriptor`, a shader source, carried as an opaque value.
#[verifier::external_type_specification]
#[verifier::external_body]
pub struct ExShaderModuleDescriptor<'a>(wgpu::ShaderModuleDescriptor<'a>);

/// `wgpu::VertexBufferLayout`, carried as an opaque value.
#[verifier::external_type_specification]
#[verifier::external_body]
pub struct ExVertexBufferLayout<'a>(wgpu::VertexBufferLayout<'a>);

/// `wgpu::PushConstantRange`, carried as an opaque value.
#[verifier::external_type_specification]
#[verifier::external_body]
pub struct ExPushConstantRange(wgpu::PushConstantRange);

/// Whether `wgpu` describes the format as sRGB encoded: the `srgb` field of
/// what `wgpu::TextureFormat::describe` returns for it.
pub uninterp spec fn srgb_encoded(format: wgpu::TextureFormat) -> bool;

/// Calls `wgpu::TextureFormat::describe` and reads the `srgb` field of the
/// result. The contract only names that flag; nothing is claimed about which
/// formats carry it.
#[verifier::external_body]
pub(crate) fn format_is_srgb(format: &wgpu::TextureFormat) -> (flag: bool)
    ensures
        flag == srgb_encoded(*format),
{
    format.describe().srgb
}

} // verus!
