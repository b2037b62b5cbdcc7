//! Describes a processing operation that will execute on the device, and the
//! validation of its shader stage configuration.

use vstd::prelude::*;

use crate::device::{Device, Properties, Version};
use crate::shader::{EntryPoint, ShaderStage};
use crate::validation::ValidationError;

verus! {

/// The type of a pipeline.
///
/// When binding a pipeline or descriptor sets in a command buffer, the state
/// for each bind point is independent from the others: binding a graphics
/// pipeline does not disturb a bound compute pipeline, and the other way
/// round.
#[derive(Clone, Copy, Debug, PartialEq, Eq, Structural)]
pub enum PipelineBindPoint {
    Compute,
    Graphics,
}

/// Flags specifying additional properties of a pipeline. A field is `true`
/// when the flag is in the set.
#[derive(Clone, Copy, Debug, PartialEq, Eq, Structural)]
pub struct PipelineCreateFlags {
    /// The pipeline will not be optimized.
    pub disable_optimization: bool,
    /// Derivative pipelines can be created using this pipeline as a base.
    pub allow_derivatives: bool,
    /// Create the pipeline by deriving from a base pipeline.
    pub derivative: bool,
}

impl PipelineCreateFlags {
    /// The set with no flag in it.
    pub open spec fn spec_empty() -> PipelineCreateFlags {
        PipelineCreateFlags {
            disable_optimization: false,
            allow_derivatives: false,
            derivative: false,
        }
    }

    /// Returns the set with no flag in it.
    pub fn empty() -> (r: PipelineCreateFlags)
        ensures
            r == PipelineCreateFlags::spec_empty(),
    {
        PipelineCreateFlags {
            disable_optimization: false,
            allow_derivatives: false,
            derivative: false,
        }
    }

    /// Whether the set has no flag in it.
    pub open spec fn spec_is_empty(self) -> bool {
        !self.disable_optimization && !self.allow_derivatives && !self.derivative
    }

    /// Returns whether the set has no flag in it.
    pub fn is_empty(&self) -> (r: bool)
        ensures
            r == self.spec_is_empty(),
    {
        !self.disable_optimization && !self.allow_derivatives && !self.derivative
    }

    /// Whether every flag of `other` is also in `self`.
    pub open spec fn spec_contains(self, other: PipelineCreateFlags) -> bool {
        &&& other.disable_optimization ==> self.disable_optimization
        &&& other.allow_derivatives ==> self.allow_derivatives
        &&& other.derivative ==> self.derivative
    }

    /// Returns whether every flag of `other` is also in `self`.
    pub fn contains(&self, other: &PipelineCreateFlags) -> (r: bool)
        ensures
            r == self.spec_contains(*other),
    {
        (!other.disable_optimization || self.disable_optimization)
            && (!other.allow_derivatives || self.allow_derivatives)
            && (!other.derivative || self.derivative)
    }

    /// Whether some flag is in both `self` and `other`.
    pub open spec fn spec_intersects(self, other: PipelineCreateFlags) -> bool {
        ||| self.disable_optimization && other.disable_optimization
        ||| self.allow_derivatives && other.allow_derivatives
        ||| self.derivative && other.derivative
    }

    /// Returns whether some flag is in both `self` and `other`.
    pub fn intersects(&self, other: &PipelineCreateFlags) -> (r: bool)
        ensures
            r == self.spec_intersects(*other),
    {
        (self.disable_optimization && other.disable_optimization)
            || (self.allow_derivatives && other.allow_derivatives)
            || (self.derivative && other.derivative)
    }

    /// Returns the set of the flags that are in `self`, in `other`, or in
    /// both.
    pub fn union(&self, other: &PipelineCreateFlags) -> (r: PipelineCreateFlags)
        ensures
            r.disable_optimization == (self.disable_optimization || other.disable_optimization),
            r.allow_derivatives == (self.allow_derivatives || other.allow_derivatives),
            r.derivative == (self.derivative || other.derivative),
    {
        PipelineCreateFlags {
            disable_optimization: self.disable_optimization || other.disable_optimization,
            allow_derivatives: self.allow_derivatives || other.allow_derivatives,
            derivative: self.derivative || other.derivative,
        }
    }
}

/// Flags specifying additional properties of a pipeline shader stage.
///
/// No flags are currently defined, so the empty set is the only value.
#[derive(Clone, Copy, Debug, PartialEq, Eq, Structural)]
pub struct PipelineShaderStageCreateFlags;

impl PipelineShaderStageCreateFlags {
    /// Returns the set with no flag in it.
    pub fn empty() -> (r: PipelineShaderStageCreateFlags)
        ensures
            r == PipelineShaderStageCreateFlags,
    {
        PipelineShaderStageCreateFlags
    }

    /// Checks that the device supports every flag in the set. No flags are
    /// defined, so the check always succeeds.
    pub fn validate_device(&self, _device: &Device) -> (r: Result<(), Box<ValidationError>>)
        ensures
            r is Ok,
    {
        Ok(())
    }
}

/// A particular state value within a graphics pipeline that can be
/// dynamically set by a command buffer.
#[derive(Clone, Copy, Debug, PartialEq, Eq, Hash, Structural)]
pub enum DynamicState {
    Viewport,
    Scissor,
    LineWidth,
    DepthBias,
    BlendConstants,
    DepthBounds,
    StencilCompareMask,
    StencilWriteMask,
    StencilReference,
    CullMode,
    FrontFace,
    PrimitiveTopology,
    ViewportWithCount,
    ScissorWithCount,
    VertexInputBindingStride,
    DepthTestEnable,
    DepthWriteEnable,
    DepthCompareOp,
    DepthBoundsTestEnable,
    StencilTestEnable,
    StencilOp,
    RasterizerDiscardEnable,
    DepthBiasEnable,
    PrimitiveRestartEnable,
    ViewportWScaling,
    DiscardRectangle,
    SampleLocations,
    RayTracingPipelineStackSize,
    ViewportShadingRatePalette,
    ViewportCoarseSampleOrder,
    ExclusiveScissor,
    FragmentShadingRate,
    LineStipple,
    VertexInput,
    PatchControlPoints,
    LogicOp,
    ColorWriteEnable,
    TessellationDomainOrigin,
    DepthClampEnable,
    PolygonMode,
    RasterizationSamples,
    SampleMask,
    AlphaToCoverageEnable,
    AlphaToOneEnable,
    LogicOpEnable,
    ColorBlendEnable,
    ColorBlendEquation,
    ColorWriteMask,
    RasterizationStream,
    ConservativeRasterizationMode,
    ExtraPrimitiveOverestimationSize,
    DepthClipEnable,
    SampleLocationsEnable,
    ColorBlendAdvanced,
    ProvokingVertexMode,
    LineRasterizationMode,
    LineStippleEnable,
    DepthClipNegativeOneToOne,
    ViewportWScalingEnable,
    ViewportSwizzle,
    CoverageToColorEnable,
    CoverageToColorLocation,
    CoverageModulationMode,
    CoverageModulationTableEnable,
    CoverageModulationTable,
    ShadingRateImageEnable,
    RepresentativeFragmentTestEnable,
    CoverageReductionMode,
}

impl DynamicState {
    /// Whether the device supports setting this state dynamically: the states
    /// of the core specification are always supported, the others need the
    /// API version or one of the extensions that introduce them.
    pub open spec fn spec_supported_by(self, device: Device) -> bool {
        let api_1_3 = device.api_version.spec_at_least(Version { major: 1, minor: 3 });
        match self {
            DynamicState::Viewport
            | DynamicState::Scissor
            | DynamicState::LineWidth
            | DynamicState::DepthBias
            | DynamicState::BlendConstants
            | DynamicState::DepthBounds
            | DynamicState::StencilCompareMask
            | DynamicState::StencilWriteMask
            | DynamicState::StencilReference => true,
            DynamicState::CullMode
            | DynamicState::FrontFace
            | DynamicState::PrimitiveTopology
            | DynamicState::ViewportWithCount
            | DynamicState::ScissorWithCount
            | DynamicState::VertexInputBindingStride
            | DynamicState::DepthTestEnable
            | DynamicState::DepthWriteEnable
            | DynamicState::DepthCompareOp
            | DynamicState::DepthBoundsTestEnable
            | DynamicState::StencilTestEnable
            | DynamicState::StencilOp => {
                api_1_3 || device.enabled_extensions.ext_extended_dynamic_state
            },
            DynamicState::RasterizerDiscardEnable
            | DynamicState::DepthBiasEnable
            | DynamicState::PrimitiveRestartEnable => {
                api_1_3 || device.enabled_extensions.ext_extended_dynamic_state2
            },
            DynamicState::ViewportWScaling => device.enabled_extensions.nv_clip_space_w_scaling,
            DynamicState::DiscardRectangle => device.enabled_extensions.ext_discard_rectangles,
            DynamicState::SampleLocations => device.enabled_extensions.ext_sample_locations,
            DynamicState::RayTracingPipelineStackSize => {
                device.enabled_extensions.khr_ray_tracing_pipeline
            },
            DynamicState::ViewportShadingRatePalette
            | DynamicState::ViewportCoarseSampleOrder => {
                device.enabled_extensions.nv_shading_rate_image
            },
            DynamicState::ExclusiveScissor => device.enabled_extensions.nv_scissor_exclusive,
            DynamicState::FragmentShadingRate => {
                device.enabled_extensions.khr_fragment_shading_rate
            },
            DynamicState::LineStipple => device.enabled_extensions.ext_line_rasterization,
            DynamicState::VertexInput => {
                device.enabled_extensions.ext_vertex_input_dynamic_state
            },
            DynamicState::PatchControlPoints
            | DynamicState::LogicOp => device.enabled_extensions.ext_extended_dynamic_state2,
            DynamicState::ColorWriteEnable => device.enabled_extensions.ext_color_write_enable,
            _ => device.enabled_extensions.ext_extended_dynamic_state3,
        }
    }

    /// Checks that the device supports setting this state dynamically.
    pub fn validate_device(self, device: &Device) -> (r: Result<(), Box<ValidationError>>)
        ensures
            r is Ok <==> self.spec_supported_by(*device),
            r matches Err(e) ==> *e == (ValidationError::DynamicStateNotSupported {
                dynamic_state: self,
            }),
    {
        let api_1_3 = device.api_version.at_least(&Version { major: 1, minor: 3 });
        let supported = match self {
            DynamicState::Viewport
            | DynamicState::Scissor
            | DynamicState::LineWidth
            | DynamicState::DepthBias
            | DynamicState::BlendConstants
            | DynamicState::DepthBounds
            | DynamicState::StencilCompareMask
            | DynamicState::StencilWriteMask
            | DynamicState::StencilReference => true,
            DynamicState::CullMode
            | DynamicState::FrontFace
            | DynamicState::PrimitiveTopology
            | DynamicState::ViewportWithCount
            | DynamicState::ScissorWithCount
            | DynamicState::VertexInputBindingStride
            | DynamicState::DepthTestEnable
            | DynamicState::DepthWriteEnable
            | DynamicState::DepthCompareOp
            | DynamicState::DepthBoundsTestEnable
            | DynamicState::StencilTestEnable
            | DynamicState::StencilOp => {
                api_1_3 || device.enabled_extensions.ext_extended_dynamic_state
            },
            DynamicState::RasterizerDiscardEnable
            | DynamicState::DepthBiasEnable
            | DynamicState::PrimitiveRestartEnable => {
                api_1_3 || device.enabled_extensions.ext_extended_dynamic_state2
            },
            DynamicState::ViewportWScaling => device.enabled_extensions.nv_clip_space_w_scaling,
            DynamicState::DiscardRectangle => device.enabled_extensions.ext_discard_rectangles,
            DynamicState::SampleLocations => device.enabled_extensions.ext_sample_locations,
            DynamicState::RayTracingPipelineStackSize => {
                device.enabled_extensions.khr_ray_tracing_pipeline
            },
            DynamicState::ViewportShadingRatePalette
            | DynamicState::ViewportCoarseSampleOrder => {
                device.enabled_extensions.nv_shading_rate_image
            },
            DynamicState::ExclusiveScissor => device.enabled_extensions.nv_scissor_exclusive,
            DynamicState::FragmentShadingRate => {
                device.enabled_extensions.khr_fragment_shading_rate
            },
            DynamicState::LineStipple => device.enabled_extensions.ext_line_rasterization,
            DynamicState::VertexInput => {
                device.enabled_extensions.ext_vertex_input_dynamic_state
            },
            DynamicState::PatchControlPoints
            | DynamicState::LogicOp => device.enabled_extensions.ext_extended_dynamic_state2,
            DynamicState::ColorWriteEnable => device.enabled_extensions.ext_color_write_enable,
            _ => device.enabled_extensions.ext_extended_dynamic_state3,
        };
        if supported {
            Ok(())
        } else {
            Err(Box::new(ValidationError::DynamicStateNotSupported { dynamic_state: self }))
        }
    }
}

/// Whether `n` is a power of two.
pub open spec fn spec_is_power_of_two(n: u32) -> bool {
    exists|k: u32| k < 32 && n == (1u32 << k)
}

/// Returns whether `n` is a power of two.
fn is_power_of_two(n: u32) -> (r: bool)
    ensures
        r == spec_is_power_of_two(n),
{
    let mut k: u32 = 0;
    while k < 32
        invariant
            k <= 32,
            forall|j: u32| j < k ==> n != (1u32 << j),
        decreases 32 - k,
    {
        if n == (1u32 << k) {
            return true;
        }
        k = k + 1;
    }
    false
}

/// The work group size limit of the device for the given stage along the
/// given axis. Only the stages that declare a local size have such a limit;
/// a limit that the device does not report is zero.
pub open spec fn spec_max_work_group_size_axis(
    properties: Properties,
    stage: ShaderStage,
    axis: int,
) -> u32 {
    match stage {
        ShaderStage::Compute => properties.max_compute_work_group_size[axis],
        ShaderStage::Task => match properties.max_task_work_group_size {
            Some(size) => size[axis],
            None => 0,
        },
        ShaderStage::Mesh => match properties.max_mesh_work_group_size {
            Some(size) => size[axis],
            None => 0,
        },
        _ => 0,
    }
}

/// The work group invocations limit of the device for the given stage. Only
/// the stages that declare a local size have such a limit; a limit that the
/// device does not report is zero.
pub open spec fn spec_max_work_group_invocations(properties: Properties, stage: ShaderStage) -> u32 {
    match stage {
        ShaderStage::Compute => properties.max_compute_work_group_invocations,
        ShaderStage::Task => match properties.max_task_work_group_invocations {
            Some(n) => n,
            None => 0,
        },
        ShaderStage::Mesh => match properties.max_mesh_work_group_invocations {
            Some(n) => n,
            None => 0,
        },
        _ => 0,
    }
}

/// The first rule about a declared local size that the given stage breaks on
/// a device with the given limits, if any: the size along each axis must stay
/// within the size limit of the stage, and the product of the sizes must stay
/// within its invocations limit. The product is accumulated in machine
/// integers from the first axis to the last, so a product whose first two
/// factors overflow is rejected even when a later factor is zero.
pub open spec fn spec_work_group_size_violation(
    stage: ShaderStage,
    local_size: [u32; 3],
    properties: Properties,
) -> Option<ValidationError> {
    if local_size[0] > spec_max_work_group_size_axis(properties, stage, 0) {
        Some(ValidationError::LocalSizeExceedsDeviceLimit { stage, axis: 0 })
    } else if local_size[1] > spec_max_work_group_size_axis(properties, stage, 1) {
        Some(ValidationError::LocalSizeExceedsDeviceLimit { stage, axis: 1 })
    } else if local_size[2] > spec_max_work_group_size_axis(properties, stage, 2) {
        Some(ValidationError::LocalSizeExceedsDeviceLimit { stage, axis: 2 })
    } else if local_size[0] * local_size[1] > u32::MAX || local_size[0] * local_size[1]
        * local_size[2] > spec_max_work_group_invocations(properties, stage) {
        Some(ValidationError::WorkGroupInvocationsExceedDeviceLimit { stage })
    } else {
        None
    }
}

/// Returns the work group size limit of the device for the given stage.
fn max_work_group_size(stage: ShaderStage, properties: &Properties) -> (r: [u32; 3])
    ensures
        r[0] == spec_max_work_group_size_axis(*properties, stage, 0),
        r[1] == spec_max_work_group_size_axis(*properties, stage, 1),
        r[2] == spec_max_work_group_size_axis(*properties, stage, 2),
{
    match stage {
        ShaderStage::Compute => properties.max_compute_work_group_size,
        ShaderStage::Task => match properties.max_task_work_group_size {
            Some(size) => size,
            None => [0u32, 0u32, 0u32],
        },
        ShaderStage::Mesh => match properties.max_mesh_work_group_size {
            Some(size) => size,
            None => [0u32, 0u32, 0u32],
        },
        _ => [0u32, 0u32, 0u32],
    }
}

/// Returns the work group invocations limit of the device for the given
/// stage.
fn max_work_group_invocations(stage: ShaderStage, properties: &Properties) -> (r: u32)
    ensures
        r == spec_max_work_group_invocations(*properties, stage),
{
    match stage {
        ShaderStage::Compute => properties.max_compute_work_group_invocations,
        ShaderStage::Task => match properties.max_task_work_group_invocations {
            Some(n) => n,
            None => 0,
        },
        ShaderStage::Mesh => match properties.max_mesh_work_group_invocations {
            Some(n) => n,
            None => 0,
        },
        _ => 0,
    }
}

/// Checks a declared local size against the limits of its stage and returns
/// the number of invocations of a work group, the product of the sizes.
fn check_work_group_size(
    stage: ShaderStage,
    local_size: [u32; 3],
    properties: &Properties,
) -> (r: Result<u32, Box<ValidationError>>)
    ensures
        match r {
            Ok(size) => spec_work_group_size_violation(stage, local_size, *properties) is None
                && size == local_size[0] * local_size[1] * local_size[2],
            Err(e) => Some(*e) == spec_work_group_size_violation(stage, local_size, *properties),
        },
{
    let max_size = max_work_group_size(stage, properties);
    if local_size[0] > max_size[0] {
        return Err(Box::new(ValidationError::LocalSizeExceedsDeviceLimit { stage, axis: 0 }));
    }
    if local_size[1] > max_size[1] {
        return Err(Box::new(ValidationError::LocalSizeExceedsDeviceLimit { stage, axis: 1 }));
    }
    if local_size[2] > max_size[2] {
        return Err(Box::new(ValidationError::LocalSizeExceedsDeviceLimit { stage, axis: 2 }));
    }
    let max_invocations = max_work_group_invocations(stage, properties);
    let partial = match local_size[0].checked_mul(local_size[1]) {
        Some(p) => p,
        None => {
            return Err(
                Box::new(ValidationError::WorkGroupInvocationsExceedDeviceLimit { stage }),
            );
        },
    };
    let product = match partial.checked_mul(local_size[2]) {
        Some(p) => p,
        None => {
            return Err(
                Box::new(ValidationError::WorkGroupInvocationsExceedDeviceLimit { stage }),
            );
        },
    };
    if product > max_invocations {
        return Err(Box::new(ValidationError::WorkGroupInvocationsExceedDeviceLimit { stage }));
    }
    Ok(product)
}

/// Specifies a single shader stage when creating a pipeline.
#[derive(Clone, Debug)]
pub struct PipelineShaderStageCreateInfo {
    /// Additional properties of the shader stage.
    ///
    /// The default value is empty.
    pub flags: PipelineShaderStageCreateFlags,

    /// The shader entry point for the stage.
    ///
    /// There is no default value.
    pub entry_point: EntryPoint,

    /// The required subgroup size.
    ///
    /// Requires the `subgroup_size_control` feature. The shader stage must be
    /// included in the `required_subgroup_size_stages` device property, and
    /// the size must be a power of two within the `min_subgroup_size` and
    /// `max_subgroup_size` device limits.
    ///
    /// For compute shaders, `max_compute_workgroup_subgroups *
    /// required_subgroup_size` must be greater than or equal to
    /// `workgroup_size.x * workgroup_size.y * workgroup_size.z`.
    ///
    /// The default value is None.
    pub required_subgroup_size: Option<u32>,

    pub _ne: crate::NonExhaustive,
}

impl PipelineShaderStageCreateInfo {
    /// The stage that the configured entry point executes in.
    pub open spec fn spec_stage(self) -> ShaderStage {
        self.entry_point.spec_info().execution.spec_stage()
    }

    /// The local size that the configured entry point declares, for the
    /// stages that declare one.
    pub open spec fn spec_local_size(self) -> Option<[u32; 3]> {
        self.entry_point.spec_info().execution.spec_local_size()
    }

    /// The first rule about the stage itself that the configuration breaks on
    /// the given device, if any: the device must support the stage, and the
    /// feature that the stage depends on must be enabled.
    pub open spec fn spec_stage_violation(self, device: Device) -> Option<ValidationError> {
        let stage = self.spec_stage();
        if !stage.spec_supported_by(device) {
            Some(ValidationError::ShaderStageNotSupported { stage })
        } else if (stage is TessellationControl || stage is TessellationEvaluation)
            && !device.enabled_features.tessellation_shader {
            Some(ValidationError::TessellationShaderFeatureNotEnabled)
        } else if stage is Geometry && !device.enabled_features.geometry_shader {
            Some(ValidationError::GeometryShaderFeatureNotEnabled)
        } else if stage is Task && !device.enabled_features.task_shader {
            Some(ValidationError::TaskShaderFeatureNotEnabled)
        } else if stage is Mesh && !device.enabled_features.mesh_shader {
            Some(ValidationError::MeshShaderFeatureNotEnabled)
        } else {
            None
        }
    }

    /// The first rule about the declared local size that the configuration
    /// breaks on the given device, if any.
    pub open spec fn spec_work_group_violation(self, device: Device) -> Option<ValidationError> {
        match self.spec_local_size() {
            Some(local_size) => spec_work_group_size_violation(
                self.spec_stage(),
                local_size,
                device.properties,
            ),
            None => None,
        }
    }

    /// The first rule about the required subgroup size that the configuration
    /// breaks on the given device, if any.
    pub open spec fn spec_subgroup_violation(self, device: Device) -> Option<ValidationError> {
        let stage = self.spec_stage();
        match self.required_subgroup_size {
            None => None,
            Some(required_subgroup_size) => {
                if !device.enabled_features.subgroup_size_control {
                    Some(ValidationError::SubgroupSizeControlFeatureNotEnabled)
                } else if !(match device.properties.required_subgroup_size_stages {
                    Some(stages) => stages.spec_contains_enum(stage),
                    None => false,
                }) {
                    Some(ValidationError::RequiredSubgroupSizeStagesMissingStage { stage })
                } else if !spec_is_power_of_two(required_subgroup_size) {
                    Some(ValidationError::RequiredSubgroupSizeNotPowerOfTwo)
                } else if required_subgroup_size < (match device.properties.min_subgroup_size {
                    Some(n) => n,
                    None => 1u32,
                }) {
                    Some(ValidationError::RequiredSubgroupSizeBelowMinimum)
                } else if required_subgroup_size > (match device.properties.max_subgroup_size {
                    Some(n) => n,
                    None => 128u32,
                }) {
                    Some(ValidationError::RequiredSubgroupSizeAboveMaximum)
                } else if stage is Compute && (match self.spec_local_size() {
                    Some(local_size) => local_size[0] * local_size[1] * local_size[2]
                        > required_subgroup_size * (
                        match device.properties.max_compute_workgroup_subgroups {
                            Some(n) => n,
                            None => 0u32,
                        }),
                    None => false,
                }) {
                    Some(ValidationError::WorkGroupSizeExceedsSubgroupCapacity)
                } else {
                    None
                }
            },
        }
    }

    /// The first validation rule that the configuration breaks on the given
    /// device, if any.
    pub open spec fn spec_violation(self, device: Device) -> Option<ValidationError> {
        match self.spec_stage_violation(device) {
            Some(e) => Some(e),
            None => match self.spec_work_group_violation(device) {
                Some(e) => Some(e),
                None => self.spec_subgroup_violation(device),
            },
        }
    }

    /// Whether the configuration satisfies every validation rule on the given
    /// device, stated as one conjunction over the rules.
    pub open spec fn spec_is_valid(self, device: Device) -> bool {
        let stage = self.spec_stage();
        &&& stage.spec_supported_by(device)
        &&& (stage is TessellationControl || stage is TessellationEvaluation)
            ==> device.enabled_features.tessellation_shader
        &&& stage is Geometry ==> device.enabled_features.geometry_shader
        &&& stage is Task ==> device.enabled_features.task_shader
        &&& stage is Mesh ==> device.enabled_features.mesh_shader
        &&& (match self.spec_local_size() {
            Some(local_size) => {
                &&& local_size[0] <= spec_max_work_group_size_axis(device.properties, stage, 0)
                &&& local_size[1] <= spec_max_work_group_size_axis(device.properties, stage, 1)
                &&& local_size[2] <= spec_max_work_group_size_axis(device.properties, stage, 2)
                &&& local_size[0] * local_size[1] <= u32::MAX
                &&& local_size[0] * local_size[1] * local_size[2] <= spec_max_work_group_invocations(
                    device.properties,
                    stage,
                )
            },
            None => true,
        })
        &&& (match self.required_subgroup_size {
            Some(required_subgroup_size) => {
                &&& device.enabled_features.subgroup_size_control
                &&& (match device.properties.required_subgroup_size_stages {
                    Some(stages) => stages.spec_contains_enum(stage),
                    None => false,
                })
                &&& spec_is_power_of_two(required_subgroup_size)
                &&& required_subgroup_size >= (match device.properties.min_subgroup_size {
                    Some(n) => n,
                    None => 1u32,
                })
                &&& required_subgroup_size <= (match device.properties.max_subgroup_size {
                    Some(n) => n,
                    None => 128u32,
                })
                &&& (stage is Compute ==> (match self.spec_local_size() {
                    Some(local_size) => local_size[0] * local_size[1] * local_size[2]
                        <= required_subgroup_size * (
                        match device.properties.max_compute_workgroup_subgroups {
                            Some(n) => n,
                            None => 0u32,
                        }),
                    None => true,
                }))
            },
            None => true,
        })
    }

    /// Returns a `PipelineShaderStageCreateInfo` with the specified
    /// `entry_point`.
    pub fn new(entry_point: EntryPoint) -> (r: Self)
        ensures
            r.flags == PipelineShaderStageCreateFlags,
            r.entry_point == entry_point,
            r.required_subgroup_size is None,
    {
        Self {
            flags: PipelineShaderStageCreateFlags::empty(),
            entry_point,
            required_subgroup_size: None,
            _ne: crate::NonExhaustive(()),
        }
    }

    /// Checks the configuration against every validation rule: the result is
    /// `Ok` exactly when the configuration is valid for the device, and
    /// otherwise reports the first rule that it breaks.
    pub fn validate(&self, device: &Device) -> (r: Result<(), Box<ValidationError>>)
        ensures
            match r {
                Ok(_) => self.spec_violation(*device) is None,
                Err(e) => Some(*e) == self.spec_violation(*device),
            },
            r is Ok <==> self.spec_is_valid(*device),
    {
        let entry_point_info = self.entry_point.info();
        let stage_enum = ShaderStage::from(&entry_point_info.execution);

        match self.flags.validate_device(device) {
            Ok(()) => {},
            Err(e) => return Err(e),
        }

        match stage_enum.validate_device(device) {
            Ok(()) => {},
            Err(e) => return Err(e),
        }

        match stage_enum {
            ShaderStage::TessellationControl | ShaderStage::TessellationEvaluation => {
                if !device.enabled_features.tessellation_shader {
                    return Err(Box::new(ValidationError::TessellationShaderFeatureNotEnabled));
                }
            },
            ShaderStage::Geometry => {
                if !device.enabled_features.geometry_shader {
                    return Err(Box::new(ValidationError::GeometryShaderFeatureNotEnabled));
                }
            },
            ShaderStage::Task => {
                if !device.enabled_features.task_shader {
                    return Err(Box::new(ValidationError::TaskShaderFeatureNotEnabled));
                }
            },
            ShaderStage::Mesh => {
                if !device.enabled_features.mesh_shader {
                    return Err(Box::new(ValidationError::MeshShaderFeatureNotEnabled));
                }
            },
            _ => {},
        }

        let workgroup_size: Option<u32> = match entry_point_info.execution.local_size() {
            Some(local_size) => {
                match check_work_group_size(stage_enum, local_size, &device.properties) {
                    Ok(size) => Some(size),
                    Err(e) => return Err(e),
                }
            },
            None => None,
        };

        if let Some(required_subgroup_size) = self.required_subgroup_size {
            if !device.enabled_features.subgroup_size_control {
                return Err(Box::new(ValidationError::SubgroupSizeControlFeatureNotEnabled));
            }

            let in_stages = match device.properties.required_subgroup_size_stages {
                Some(stages) => stages.contains_enum(stage_enum),
                None => false,
            };
            if !in_stages {
                return Err(
                    Box::new(ValidationError::RequiredSubgroupSizeStagesMissingStage {
                        stage: stage_enum,
                    }),
                );
            }

            if !is_power_of_two(required_subgroup_size) {
                return Err(Box::new(ValidationError::RequiredSubgroupSizeNotPowerOfTwo));
            }

            let min_subgroup_size = device.properties.min_subgroup_size.unwrap_or(1);
            if required_subgroup_size < min_subgroup_size {
                return Err(Box::new(ValidationError::RequiredSubgroupSizeBelowMinimum));
            }

            let max_subgroup_size = device.properties.max_subgroup_size.unwrap_or(128);
            if required_subgroup_size > max_subgroup_size {
                return Err(Box::new(ValidationError::RequiredSubgroupSizeAboveMaximum));
            }

            if let Some(workgroup_size) = workgroup_size {
                if stage_enum == ShaderStage::Compute {
                    let capacity = required_subgroup_size.checked_mul(
                        device.properties.max_compute_workgroup_subgroups.unwrap_or(0),
                    ).unwrap_or(u32::MAX);
                    if workgroup_size > capacity {
                        return Err(
                            Box::new(ValidationError::WorkGroupSizeExceedsSubgroupCapacity),
                        );
                    }
                }
            }
        }

        Ok(())
    }
}

/// Validation finds no broken rule exactly when the configuration satisfies
/// every rule: a configuration passes [`PipelineShaderStageCreateInfo::validate`]
/// on a device if and only if
/// [`PipelineShaderStageCreateInfo::spec_is_valid`] holds of the two.
pub proof fn lemma_validate_complete(info: PipelineShaderStageCreateInfo, device: Device)
    ensures
        info.spec_violation(device) is None <==> info.spec_is_valid(device),
{
}

/// Specifies how a dynamic state is handled by a graphics pipeline.
#[derive(Clone, Copy, Debug, PartialEq, Eq)]
pub enum StateMode<F> {
    /// The pipeline has a fixed value for this state. Previously set dynamic
    /// state will be lost when binding it, and will have to be re-set after
    /// binding a pipeline that uses it.
    Fixed(F),
    /// The pipeline expects a dynamic value to be set by a command buffer.
    /// Previously set dynamic state is not disturbed when binding it.
    Dynamic,
}

impl<T> StateMode<T> {
    /// The mode that an optional fixed value converts to: a present value
    /// becomes a fixed state, an absent one a dynamic state.
    pub open spec fn spec_from_option(val: Option<T>) -> StateMode<T> {
        match val {
            Some(x) => StateMode::Fixed(x),
            None => StateMode::Dynamic,
        }
    }

    /// The optional fixed value that this mode converts to.
    pub open spec fn spec_into_option(self) -> Option<T> {
        match self {
            StateMode::Fixed(x) => Some(x),
            StateMode::Dynamic => None,
        }
    }
}

impl<T> From<Option<T>> for StateMode<T> {
    fn from(val: Option<T>) -> Self {
        match val {
            Some(x) => StateMode::Fixed(x),
            None => StateMode::Dynamic,
        }
    }
}

impl<T> vstd::std_specs::convert::FromSpecImpl<Option<T>> for StateMode<T> {
    open spec fn obeys_from_spec() -> bool {
        true
    }

    open spec fn from_spec(val: Option<T>) -> Self {
        StateMode::spec_from_option(val)
    }
}

impl<T> From<StateMode<T>> for Option<T> {
    fn from(val: StateMode<T>) -> Self {
        match val {
            StateMode::Fixed(x) => Some(x),
            StateMode::Dynamic => None,
        }
    }
}

impl<T> vstd::std_specs::convert::FromSpecImpl<StateMode<T>> for Option<T> {
    open spec fn obeys_from_spec() -> bool {
        true
    }

    open spec fn from_spec(val: StateMode<T>) -> Self {
        val.spec_into_option()
    }
}

/// An optional fixed value turned into a `StateMode` and back is the value it
/// started from.
pub proof fn lemma_state_mode_round_trip<T>(val: Option<T>)
    ensures
        StateMode::spec_from_option(val).spec_into_option() == val,
{
}

/// A `StateMode` turned into an optional fixed value and back is the mode it
/// started from.
pub proof fn lemma_option_round_trip<T>(mode: StateMode<T>)
    ensures
        StateMode::spec_from_option(mode.spec_into_option()) == mode,
{
}

/// A variant of `StateMode` that is used for cases where some value is still
/// needed when the state is dynamic.
#[derive(Clone, Copy, Debug, PartialEq, Eq)]
pub enum PartialStateMode<F, D> {
    Fixed(F),
    Dynamic(D),
}

} // verus!
