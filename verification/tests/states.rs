use vulkano::device::{Device, DeviceExtensions, Features, Properties, Version};
use vulkano::pipeline::{
    DynamicState, PartialStateMode, PipelineBindPoint, PipelineCreateFlags, StateMode,
};
use vulkano::shader::{ShaderStage, ShaderStages};
use vulkano::validation::ValidationError;

fn device_with(api_version: Version, enabled_extensions: DeviceExtensions) -> Device {
    Device {
        api_version,
        enabled_extensions,
        enabled_features: Features::empty(),
        properties: Properties {
            max_compute_work_group_invocations: 128,
            max_compute_work_group_size: [128, 128, 64],
            max_compute_workgroup_subgroups: None,
            max_mesh_work_group_invocations: None,
            max_mesh_work_group_size: None,
            max_subgroup_size: None,
            max_task_work_group_invocations: None,
            max_task_work_group_size: None,
            min_subgroup_size: None,
            required_subgroup_size_stages: None,
        },
    }
}

#[test]
fn core_dynamic_states_always_supported() {
    let device = device_with(Version { major: 1, minor: 0 }, DeviceExtensions::empty());
    assert_eq!(DynamicState::Viewport.validate_device(&device), Ok(()));
    assert_eq!(DynamicState::Scissor.validate_device(&device), Ok(()));
    assert_eq!(DynamicState::LineWidth.validate_device(&device), Ok(()));
    assert_eq!(DynamicState::BlendConstants.validate_device(&device), Ok(()));
    assert_eq!(DynamicState::StencilReference.validate_device(&device), Ok(()));
}

#[test]
fn extended_dynamic_state_needs_version_or_extension() {
    let old = device_with(Version { major: 1, minor: 2 }, DeviceExtensions::empty());
    assert_eq!(
        DynamicState::CullMode.validate_device(&old),
        Err(Box::new(ValidationError::DynamicStateNotSupported {
            dynamic_state: DynamicState::CullMode,
        })),
    );

    let new = device_with(Version { major: 1, minor: 3 }, DeviceExtensions::empty());
    assert_eq!(DynamicState::CullMode.validate_device(&new), Ok(()));
    assert_eq!(DynamicState::StencilOp.validate_device(&new), Ok(()));

    let extended = device_with(
        Version { major: 1, minor: 0 },
        DeviceExtensions {
            ext_extended_dynamic_state: true,
            ..DeviceExtensions::empty()
        },
    );
    assert_eq!(DynamicState::FrontFace.validate_device(&extended), Ok(()));
}

#[test]
fn patch_control_points_needs_the_extension_even_on_new_versions() {
    // Unlike the second extended dynamic state group, this state is only
    // introduced by the extension, not by a core version.
    let new = device_with(Version { major: 1, minor: 3 }, DeviceExtensions::empty());
    assert_eq!(DynamicState::RasterizerDiscardEnable.validate_device(&new), Ok(()));
    assert_eq!(
        DynamicState::PatchControlPoints.validate_device(&new),
        Err(Box::new(ValidationError::DynamicStateNotSupported {
            dynamic_state: DynamicState::PatchControlPoints,
        })),
    );
    let extended = device_with(
        Version { major: 1, minor: 0 },
        DeviceExtensions {
            ext_extended_dynamic_state2: true,
            ..DeviceExtensions::empty()
        },
    );
    assert_eq!(DynamicState::PatchControlPoints.validate_device(&extended), Ok(()));
    assert_eq!(DynamicState::LogicOp.validate_device(&extended), Ok(()));
}

#[test]
fn third_extension_group_needs_its_extension() {
    let new = device_with(Version { major: 1, minor: 3 }, DeviceExtensions::empty());
    assert_eq!(
        DynamicState::TessellationDomainOrigin.validate_device(&new),
        Err(Box::new(ValidationError::DynamicStateNotSupported {
            dynamic_state: DynamicState::TessellationDomainOrigin,
        })),
    );
    let extended = device_with(
        Version { major: 1, minor: 0 },
        DeviceExtensions {
            ext_extended_dynamic_state3: true,
            ..DeviceExtensions::empty()
        },
    );
    assert_eq!(DynamicState::TessellationDomainOrigin.validate_device(&extended), Ok(()));
    assert_eq!(DynamicState::CoverageReductionMode.validate_device(&extended), Ok(()));
    assert_eq!(DynamicState::ColorWriteMask.validate_device(&extended), Ok(()));
}

#[test]
fn vendor_dynamic_states_need_their_extensions() {
    let plain = device_with(Version { major: 1, minor: 3 }, DeviceExtensions::empty());
    for state in [
        DynamicState::ViewportWScaling,
        DynamicState::DiscardRectangle,
        DynamicState::SampleLocations,
        DynamicState::RayTracingPipelineStackSize,
        DynamicState::ViewportShadingRatePalette,
        DynamicState::ExclusiveScissor,
        DynamicState::FragmentShadingRate,
        DynamicState::LineStipple,
        DynamicState::VertexInput,
        DynamicState::ColorWriteEnable,
    ] {
        assert_eq!(
            state.validate_device(&plain),
            Err(Box::new(ValidationError::DynamicStateNotSupported { dynamic_state: state })),
        );
    }

    let extended = device_with(
        Version { major: 1, minor: 0 },
        DeviceExtensions {
            ext_discard_rectangles: true,
            khr_ray_tracing_pipeline: true,
            nv_shading_rate_image: true,
            ..DeviceExtensions::empty()
        },
    );
    assert_eq!(DynamicState::DiscardRectangle.validate_device(&extended), Ok(()));
    assert_eq!(DynamicState::RayTracingPipelineStackSize.validate_device(&extended), Ok(()));
    assert_eq!(DynamicState::ViewportCoarseSampleOrder.validate_device(&extended), Ok(()));
}

#[test]
fn state_mode_from_option_round_trip() {
    let fixed: StateMode<u32> = StateMode::from(Some(7));
    assert_eq!(fixed, StateMode::Fixed(7));
    assert_eq!(Option::from(fixed), Some(7));

    let dynamic: StateMode<u32> = StateMode::from(None);
    assert_eq!(dynamic, StateMode::Dynamic);
    assert_eq!(Option::<u32>::from(dynamic), None);
}

#[test]
fn partial_state_mode_holds_either_side() {
    let fixed: PartialStateMode<u32, bool> = PartialStateMode::Fixed(3);
    let dynamic: PartialStateMode<u32, bool> = PartialStateMode::Dynamic(true);
    assert_eq!(fixed, PartialStateMode::Fixed(3));
    assert_ne!(fixed, PartialStateMode::Fixed(4));
    assert_eq!(dynamic, PartialStateMode::Dynamic(true));
}

#[test]
fn pipeline_bind_points_are_distinct() {
    assert_ne!(PipelineBindPoint::Compute, PipelineBindPoint::Graphics);
}

#[test]
fn pipeline_create_flags_set_operations() {
    let empty = PipelineCreateFlags::empty();
    assert!(empty.is_empty());

    let derivative = PipelineCreateFlags {
        derivative: true,
        ..PipelineCreateFlags::empty()
    };
    let optimization = PipelineCreateFlags {
        disable_optimization: true,
        ..PipelineCreateFlags::empty()
    };
    assert!(!derivative.is_empty());
    assert!(derivative.contains(&empty));
    assert!(derivative.contains(&derivative));
    assert!(!derivative.contains(&optimization));
    assert!(!derivative.intersects(&optimization));

    let both = derivative.union(&optimization);
    assert!(both.contains(&derivative));
    assert!(both.contains(&optimization));
    assert!(both.intersects(&derivative));
    assert!(!both.allow_derivatives);
}

#[test]
fn shader_stages_contains_the_marked_stages() {
    let stages = ShaderStages {
        compute: true,
        fragment: true,
        ..ShaderStages::empty()
    };
    assert!(stages.contains_enum(ShaderStage::Compute));
    assert!(stages.contains_enum(ShaderStage::Fragment));
    assert!(!stages.contains_enum(ShaderStage::Vertex));
    assert!(!ShaderStages::empty().contains_enum(ShaderStage::Compute));
}

#[test]
fn version_ordering() {
    let v1_3 = Version { major: 1, minor: 3 };
    assert!(Version { major: 1, minor: 3 }.at_least(&v1_3));
    assert!(Version { major: 1, minor: 4 }.at_least(&v1_3));
    assert!(Version { major: 2, minor: 0 }.at_least(&v1_3));
    assert!(!Version { major: 1, minor: 2 }.at_least(&v1_3));
    assert!(!Version { major: 0, minor: 9 }.at_least(&v1_3));
}
