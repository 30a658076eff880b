use render_assembly::adapter::{
    adapter_rejection, contains, device_descriptor, difference, AdapterCapabilities,
    AdapterRejection, Requirements, ShaderModel,
};

fn adapter(features: u64, downlevel_flags: u32, shader_model: ShaderModel) -> AdapterCapabilities {
    AdapterCapabilities { features, downlevel_flags, shader_model }
}

#[test]
fn default_requirements_ask_for_shader_model_five_only() {
    assert_eq!(
        Requirements::default(),
        Requirements {
            optional_features: 0,
            required_features: 0,
            downlevel_flags: 0,
            shader_model: ShaderModel::Sm5,
        }
    );
}

#[test]
fn contains_and_difference_work_bit_by_bit() {
    assert!(contains(0b1110, 0b0110));
    assert!(contains(0b1110, 0));
    assert!(!contains(0b1110, 0b0111));
    assert_eq!(difference(0b0111, 0b1110), 0b0001);
    assert_eq!(difference(0b0110, 0b1110), 0);
    assert_eq!(difference(u64::MAX, 1 << 63), u64::MAX >> 1);
}

#[test]
fn shader_models_are_ordered() {
    let all = [ShaderModel::Sm2, ShaderModel::Sm4, ShaderModel::Sm5];
    for (i, a) in all.iter().enumerate() {
        for (j, b) in all.iter().enumerate() {
            assert_eq!(a.at_least(*b), i >= j);
        }
    }
}

#[test]
fn adapter_that_meets_everything_is_accepted() {
    let requirements = Requirements {
        optional_features: 0b1000,
        required_features: 0b0011,
        downlevel_flags: 0b01,
        shader_model: ShaderModel::Sm4,
    };
    assert_eq!(adapter_rejection(&requirements, &adapter(0b0111, 0b11, ShaderModel::Sm5)), None);
    assert_eq!(adapter_rejection(&requirements, &adapter(0b0011, 0b01, ShaderModel::Sm4)), None);
    assert_eq!(
        adapter_rejection(&Requirements::default(), &adapter(0, 0, ShaderModel::Sm5)),
        None
    );
}

#[test]
fn missing_features_are_named() {
    let requirements = Requirements { required_features: 0b1011, ..Requirements::default() };
    assert_eq!(
        adapter_rejection(&requirements, &adapter(0b0110, u32::MAX, ShaderModel::Sm5)),
        Some(AdapterRejection::MissingFeatures { features: 0b1001 })
    );
}

#[test]
fn low_shader_model_is_rejected_with_the_required_one() {
    assert_eq!(
        adapter_rejection(&Requirements::default(), &adapter(0, 0, ShaderModel::Sm4)),
        Some(AdapterRejection::ShaderModelTooLow { required: ShaderModel::Sm5 })
    );
    let requirements = Requirements { shader_model: ShaderModel::Sm4, ..Requirements::default() };
    assert_eq!(
        adapter_rejection(&requirements, &adapter(0, 0, ShaderModel::Sm2)),
        Some(AdapterRejection::ShaderModelTooLow { required: ShaderModel::Sm4 })
    );
}

#[test]
fn missing_downlevel_flags_are_named() {
    let requirements = Requirements {
        downlevel_flags: 0b0111,
        shader_model: ShaderModel::Sm2,
        ..Requirements::default()
    };
    assert_eq!(
        adapter_rejection(&requirements, &adapter(0, 0b1010, ShaderModel::Sm2)),
        Some(AdapterRejection::MissingDownlevelFlags { flags: 0b0101 })
    );
}

#[test]
fn features_are_checked_before_shader_model_before_flags() {
    let requirements = Requirements {
        optional_features: 0,
        required_features: 1,
        downlevel_flags: 1,
        shader_model: ShaderModel::Sm5,
    };
    assert_eq!(
        adapter_rejection(&requirements, &adapter(0, 0, ShaderModel::Sm2)),
        Some(AdapterRejection::MissingFeatures { features: 1 })
    );
    assert_eq!(
        adapter_rejection(&requirements, &adapter(1, 0, ShaderModel::Sm2)),
        Some(AdapterRejection::ShaderModelTooLow { required: ShaderModel::Sm5 })
    );
    assert_eq!(
        adapter_rejection(&requirements, &adapter(1, 0, ShaderModel::Sm5)),
        Some(AdapterRejection::MissingDownlevelFlags { flags: 1 })
    );
}

#[test]
fn device_gets_required_and_offered_optional_features() {
    let requirements = Requirements {
        optional_features: 0b1100,
        required_features: 0b0011,
        ..Requirements::default()
    };
    let descriptor = device_descriptor(
        &requirements,
        wgpu::Limits::default(),
        &adapter(0b0111, 0, ShaderModel::Sm5),
        wgpu::Limits::default(),
    );
    assert_eq!(descriptor.features, 0b0111);
    let descriptor = device_descriptor(
        &requirements,
        wgpu::Limits::default(),
        &adapter(0, 0, ShaderModel::Sm5),
        wgpu::Limits::default(),
    );
    assert_eq!(descriptor.features, 0b0011);
}

#[test]
fn device_limits_take_the_adapter_resolution() {
    let required = wgpu::Limits::downlevel_defaults();
    let offered = wgpu::Limits {
        max_texture_dimension_1d: 16384,
        max_texture_dimension_2d: 16384,
        max_texture_dimension_3d: 4096,
        max_bind_groups: 8,
        ..wgpu::Limits::default()
    };
    let descriptor = device_descriptor(
        &Requirements::default(),
        required.clone(),
        &adapter(0, 0, ShaderModel::Sm5),
        offered,
    );
    assert_ne!(descriptor.limits, required);
    assert_eq!(
        descriptor.limits,
        wgpu::Limits {
            max_texture_dimension_1d: 16384,
            max_texture_dimension_2d: 16384,
            max_texture_dimension_3d: 4096,
            ..required
        }
    );
}
