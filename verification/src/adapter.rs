//! Holding an adapter to what the application requires, and settling what is
//! asked of the device.
//!
//! Feature sets and downlevel flags are bit sets, one bit a feature, with the
//! bit values of the graphics library.

use vstd::prelude::*;

verus! {

/// The graphics library's table of limits, carried as it is.
#[verifier::external_type_specification]
#[verifier::external_body]
pub struct ExLimits(wgpu::Limits);

/// What `wgpu::Limits::using_resolution` returns for the required limits and
/// those of the adapter.
pub uninterp spec fn resolution_limits(
    required: wgpu::Limits,
    adapter: wgpu::Limits,
) -> wgpu::Limits;

/// Calls `wgpu::Limits::using_resolution`, a pure function of the two tables:
/// the required limits with the texture dimensions of the adapter. The table
/// that comes back is named `resolution_limits`.
#[verifier::external_body]
fn using_resolution(required: wgpu::Limits, adapter: wgpu::Limits) -> (limits: wgpu::Limits)
    ensures
        limits == resolution_limits(required, adapter),
{
    required.using_resolution(adapter)
}

/// The collections of shader features, from the most limited up.
#[derive(Copy, Clone, Debug, PartialEq, Eq)]
pub enum ShaderModel {
    Sm2,
    Sm4,
    Sm5,
}

impl ShaderModel {
    /// The place of a shader model in their order.
    pub open spec fn rank(self) -> int {
        match self {
            ShaderModel::Sm2 => 0,
            ShaderModel::Sm4 => 1,
            ShaderModel::Sm5 => 2,
        }
    }

    /// Whether this shader model offers all that `required` does.
    pub fn at_least(self, required: ShaderModel) -> (enough: bool)
        ensures
            enough == (self.rank() >= required.rank()),
    {
        match (self, required) {
            (_, ShaderModel::Sm2) => true,
            (ShaderModel::Sm2, _) => false,
            (_, ShaderModel::Sm4) => true,
            (ShaderModel::Sm4, _) => false,
            (ShaderModel::Sm5, ShaderModel::Sm5) => true,
        }
    }
}

/// What an application asks of the adapter it runs on.
#[derive(Copy, Clone, Debug, PartialEq, Eq)]
pub struct Requirements {
    /// Features that are used where the adapter has them.
    pub optional_features: u64,
    /// Features that the adapter must have.
    pub required_features: u64,
    /// Downlevel flags that the adapter must have.
    pub downlevel_flags: u32,
    /// The least shader model that the adapter must offer.
    pub shader_model: ShaderModel,
}

impl Default for Requirements {
    /// No features, no downlevel flags, and shader model 5.
    fn default() -> (requirements: Requirements)
        ensures
            requirements == (Requirements {
                optional_features: 0,
                required_features: 0,
                downlevel_flags: 0,
                shader_model: ShaderModel::Sm5,
            }),
    {
        Requirements {
            optional_features: 0,
            required_features: 0,
            downlevel_flags: 0,
            shader_model: ShaderModel::Sm5,
        }
    }
}

/// What an adapter offers.
#[derive(Copy, Clone, Debug, PartialEq, Eq)]
pub struct AdapterCapabilities {
    pub features: u64,
    pub downlevel_flags: u32,
    pub shader_model: ShaderModel,
}

/// Why an adapter will not do.
#[derive(Copy, Clone, Debug, PartialEq, Eq)]
pub enum AdapterRejection {
    /// Required features that the adapter lacks.
    MissingFeatures { features: u64 },
    /// The adapter's shader model is below the required one.
    ShaderModelTooLow { required: ShaderModel },
    /// Required downlevel flags that the adapter lacks.
    MissingDownlevelFlags { flags: u32 },
}

/// What is asked of the device. It has no label.
#[derive(Debug, PartialEq, Eq)]
pub struct DeviceDescriptor {
    pub features: u64,
    pub limits: wgpu::Limits,
}

/// Every feature of `subset` is in `set`.
pub open spec fn spec_contains(set: u64, subset: u64) -> bool {
    set & subset == subset
}

/// The features of `set` that are not in `without`.
pub open spec fn spec_difference(set: u64, without: u64) -> u64 {
    set & !without
}

/// The features to switch on: the optional ones that the adapter has, and all
/// the required ones.
pub open spec fn spec_device_features(requirements: Requirements, adapter_features: u64) -> u64 {
    (requirements.optional_features & adapter_features) | requirements.required_features
}

/// Why the adapter will not do, if it will not: the required features it
/// lacks; else its shader model, where that is too low; else the required
/// downlevel flags it lacks.
pub open spec fn spec_adapter_rejection(
    requirements: Requirements,
    adapter: AdapterCapabilities,
) -> Option<AdapterRejection> {
    if !spec_contains(adapter.features, requirements.required_features) {
        Some(
            AdapterRejection::MissingFeatures {
                features: spec_difference(requirements.required_features, adapter.features),
            },
        )
    } else if adapter.shader_model.rank() < requirements.shader_model.rank() {
        Some(AdapterRejection::ShaderModelTooLow { required: requirements.shader_model })
    } else if adapter.downlevel_flags & requirements.downlevel_flags
        != requirements.downlevel_flags {
        Some(
            AdapterRejection::MissingDownlevelFlags {
                flags: requirements.downlevel_flags & !adapter.downlevel_flags,
            },
        )
    } else {
        None
    }
}

/// Whether every feature of `subset` is in `set`.
#[verifier::when_used_as_spec(spec_contains)]
pub fn contains(set: u64, subset: u64) -> (all: bool)
    ensures
        all == spec_contains(set, subset),
{
    set & subset == subset
}

/// The features of `set` that are not in `without`.
#[verifier::when_used_as_spec(spec_difference)]
pub fn difference(set: u64, without: u64) -> (rest: u64)
    ensures
        rest == spec_difference(set, without),
{
    set & !without
}

/// A set contains another exactly when nothing of the other is left without it.
pub proof fn lemma_contains_iff_nothing_missing(set: u64, subset: u64)
    ensures
        spec_contains(set, subset) <==> spec_difference(subset, set) == 0,
{
    assert((set & subset == subset) <==> (subset & !set == 0)) by (bit_vector);
}

/// The features switched on include every required one and nothing beyond the
/// required and the optional ones; on an adapter that has the required
/// features, the adapter has them all.
pub proof fn lemma_device_features_bounds(requirements: Requirements, adapter_features: u64)
    ensures
        spec_contains(
            spec_device_features(requirements, adapter_features),
            requirements.required_features,
        ),
        spec_contains(
            requirements.optional_features | requirements.required_features,
            spec_device_features(requirements, adapter_features),
        ),
        spec_contains(adapter_features, requirements.required_features) ==> spec_contains(
            adapter_features,
            spec_device_features(requirements, adapter_features),
        ),
{
    let o = requirements.optional_features;
    let r = requirements.required_features;
    let a = adapter_features;
    assert((((o & a) | r) & r) == r) by (bit_vector);
    assert(((o | r) & ((o & a) | r)) == ((o & a) | r)) by (bit_vector);
    assert((a & r == r) ==> (a & ((o & a) | r)) == ((o & a) | r)) by (bit_vector);
}

/// Holds the adapter to the requirements, features first, then the shader
/// model, then the downlevel flags.
pub fn adapter_rejection(requirements: &Requirements, adapter: &AdapterCapabilities) -> (rejection:
    Option<AdapterRejection>)
    ensures
        rejection == spec_adapter_rejection(*requirements, *adapter),
{
    if !contains(adapter.features, requirements.required_features) {
        return Some(
            AdapterRejection::MissingFeatures {
                features: difference(requirements.required_features, adapter.features),
            },
        );
    }
    if !adapter.shader_model.at_least(requirements.shader_model) {
        return Some(AdapterRejection::ShaderModelTooLow { required: requirements.shader_model });
    }
    let offered = adapter.downlevel_flags;
    let required = requirements.downlevel_flags;
    if offered & required != required {
        return Some(AdapterRejection::MissingDownlevelFlags { flags: required & !offered });
    }
    None
}

/// Settles what is asked of the device: the optional features that the
/// adapter has together with the required ones, and the required limits at
/// the adapter's texture resolution.
pub fn device_descriptor(
    requirements: &Requirements,
    required_limits: wgpu::Limits,
    adapter: &AdapterCapabilities,
    adapter_limits: wgpu::Limits,
) -> (descriptor: DeviceDescriptor)
    ensures
        descriptor.features == spec_device_features(*requirements, adapter.features),
        descriptor.limits == resolution_limits(required_limits, adapter_limits),
{
    DeviceDescriptor {
        features: (requirements.optional_features & adapter.features)
            | requirements.required_features,
        limits: using_resolution(required_limits, adapter_limits),
    }
}

} // verus!
