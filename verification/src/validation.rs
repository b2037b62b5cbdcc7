//! The errors that validation reports.
//!
//! Each variant of [`ValidationError`] names one rule of the specification
//! that the configuration broke. Where the specification gives the rule a
//! usage identifier, [`ValidationError::vuid`] returns it.

use vstd::prelude::*;

use crate::pipeline::DynamicState;
use crate::shader::ShaderStage;

verus! {

/// A broken validation rule.
#[derive(Clone, Copy, Debug, PartialEq, Eq, Structural)]
pub enum ValidationError {
    /// The entry point executes in a stage that the device does not support.
    ShaderStageNotSupported { stage: ShaderStage },
    /// A tessellation stage was given, but the `tessellation_shader` feature
    /// is not enabled.
    TessellationShaderFeatureNotEnabled,
    /// A geometry stage was given, but the `geometry_shader` feature is not
    /// enabled.
    GeometryShaderFeatureNotEnabled,
    /// A task stage was given, but the `task_shader` feature is not enabled.
    TaskShaderFeatureNotEnabled,
    /// A mesh stage was given, but the `mesh_shader` feature is not enabled.
    MeshShaderFeatureNotEnabled,
    /// The local size of the entry point is greater, along the given axis,
    /// than the work group size limit of the stage.
    LocalSizeExceedsDeviceLimit { stage: ShaderStage, axis: u32 },
    /// The product of the local sizes of the entry point is greater than the
    /// work group invocations limit of the stage.
    WorkGroupInvocationsExceedDeviceLimit { stage: ShaderStage },
    /// A required subgroup size was given, but the `subgroup_size_control`
    /// feature is not enabled.
    SubgroupSizeControlFeatureNotEnabled,
    /// A required subgroup size was given, but the
    /// `required_subgroup_size_stages` device property does not contain the
    /// stage of the entry point.
    RequiredSubgroupSizeStagesMissingStage { stage: ShaderStage },
    /// The required subgroup size is not a power of two.
    RequiredSubgroupSizeNotPowerOfTwo,
    /// The required subgroup size is less than the `min_subgroup_size` device
    /// limit.
    RequiredSubgroupSizeBelowMinimum,
    /// The required subgroup size is greater than the `max_subgroup_size`
    /// device limit.
    RequiredSubgroupSizeAboveMaximum,
    /// The product of the local sizes of the entry point is greater than the
    /// product of the required subgroup size and the
    /// `max_compute_workgroup_subgroups` device limit.
    WorkGroupSizeExceedsSubgroupCapacity,
    /// A dynamic state was given that the device does not support.
    DynamicStateNotSupported { dynamic_state: DynamicState },
}

impl ValidationError {
    /// The usage identifier of the broken rule, where the specification gives
    /// one.
    pub open spec fn spec_vuid(self) -> Option<Seq<char>> {
        match self {
            ValidationError::ShaderStageNotSupported { .. } => Some(
                "VUID-VkPipelineShaderStageCreateInfo-stage-parameter"@,
            ),
            ValidationError::TessellationShaderFeatureNotEnabled => Some(
                "VUID-VkPipelineShaderStageCreateInfo-stage-00705"@,
            ),
            ValidationError::GeometryShaderFeatureNotEnabled => Some(
                "VUID-VkPipelineShaderStageCreateInfo-stage-00704"@,
            ),
            ValidationError::TaskShaderFeatureNotEnabled => Some(
                "VUID-VkPipelineShaderStageCreateInfo-stage-02092"@,
            ),
            ValidationError::MeshShaderFeatureNotEnabled => Some(
                "VUID-VkPipelineShaderStageCreateInfo-stage-02091"@,
            ),
            ValidationError::LocalSizeExceedsDeviceLimit { stage, axis } => Self::spec_local_size_vuid(
                stage,
                axis,
            ),
            ValidationError::WorkGroupInvocationsExceedDeviceLimit { stage } => Self::spec_invocations_vuid(
                stage,
            ),
            ValidationError::SubgroupSizeControlFeatureNotEnabled => Some(
                "VUID-VkPipelineShaderStageCreateInfo-pNext-02755"@,
            ),
            ValidationError::RequiredSubgroupSizeStagesMissingStage { .. } => Some(
                "VUID-VkPipelineShaderStageCreateInfo-pNext-02755"@,
            ),
            ValidationError::RequiredSubgroupSizeNotPowerOfTwo => Some(
                "VUID-VkPipelineShaderStageRequiredSubgroupSizeCreateInfo-requiredSubgroupSize-02760"@,
            ),
            ValidationError::RequiredSubgroupSizeBelowMinimum => Some(
                "VUID-VkPipelineShaderStageRequiredSubgroupSizeCreateInfo-requiredSubgroupSize-02761"@,
            ),
            ValidationError::RequiredSubgroupSizeAboveMaximum => Some(
                "VUID-VkPipelineShaderStageRequiredSubgroupSizeCreateInfo-requiredSubgroupSize-02762"@,
            ),
            ValidationError::WorkGroupSizeExceedsSubgroupCapacity => Some(
                "VUID-VkPipelineShaderStageCreateInfo-pNext-02756"@,
            ),
            ValidationError::DynamicStateNotSupported { .. } => None,
        }
    }

    /// The usage identifier for a local size that is over the limit of the
    /// given stage along the given axis.
    pub open spec fn spec_local_size_vuid(stage: ShaderStage, axis: u32) -> Option<Seq<char>> {
        if stage is Compute {
            if axis == 0 {
                Some("VUID-RuntimeSpirv-x-06429"@)
            } else if axis == 1 {
                Some("VUID-RuntimeSpirv-x-06430"@)
            } else if axis == 2 {
                Some("VUID-RuntimeSpirv-x-06431"@)
            } else {
                None
            }
        } else if stage is Task {
            if axis == 0 {
                Some("VUID-RuntimeSpirv-TaskEXT-07291"@)
            } else if axis == 1 {
                Some("VUID-RuntimeSpirv-TaskEXT-07292"@)
            } else if axis == 2 {
                Some("VUID-RuntimeSpirv-TaskEXT-07293"@)
            } else {
                None
            }
        } else if stage is Mesh {
            if axis == 0 {
                Some("VUID-RuntimeSpirv-MeshEXT-07295"@)
            } else if axis == 1 {
                Some("VUID-RuntimeSpirv-MeshEXT-07296"@)
            } else if axis == 2 {
                Some("VUID-RuntimeSpirv-MeshEXT-07297"@)
            } else {
                None
            }
        } else {
            None
        }
    }

    /// The usage identifier for a work group invocation count that is over
    /// the limit of the given stage.
    pub open spec fn spec_invocations_vuid(stage: ShaderStage) -> Option<Seq<char>> {
        if stage is Compute {
            Some("VUID-RuntimeSpirv-x-06432"@)
        } else if stage is Task {
            Some("VUID-RuntimeSpirv-TaskEXT-07294"@)
        } else if stage is Mesh {
            Some("VUID-RuntimeSpirv-MeshEXT-07298"@)
        } else {
            None
        }
    }

    /// Returns the usage identifier of the broken rule, where the
    /// specification gives one.
    pub fn vuid(&self) -> (r: Option<&'static str>)
        ensures
            match r {
                Some(s) => self.spec_vuid() == Some(s@),
                None => self.spec_vuid() is None,
            },
    {
        match self {
            ValidationError::ShaderStageNotSupported { .. } => Some(
                "VUID-VkPipelineShaderStageCreateInfo-stage-parameter",
            ),
            ValidationError::TessellationShaderFeatureNotEnabled => Some(
                "VUID-VkPipelineShaderStageCreateInfo-stage-00705",
            ),
            ValidationError::GeometryShaderFeatureNotEnabled => Some(
                "VUID-VkPipelineShaderStageCreateInfo-stage-00704",
            ),
            ValidationError::TaskShaderFeatureNotEnabled => Some(
                "VUID-VkPipelineShaderStageCreateInfo-stage-02092",
            ),
            ValidationError::MeshShaderFeatureNotEnabled => Some(
                "VUID-VkPipelineShaderStageCreateInfo-stage-02091",
            ),
            ValidationError::LocalSizeExceedsDeviceLimit { stage, axis } => {
                match stage {
                    ShaderStage::Compute => {
                        if *axis == 0 {
                            Some("VUID-RuntimeSpirv-x-06429")
                        } else if *axis == 1 {
                            Some("VUID-RuntimeSpirv-x-06430")
                        } else if *axis == 2 {
                            Some("VUID-RuntimeSpirv-x-06431")
                        } else {
                            None
                        }
                    },
                    ShaderStage::Task => {
                        if *axis == 0 {
                            Some("VUID-RuntimeSpirv-TaskEXT-07291")
                        } else if *axis == 1 {
                            Some("VUID-RuntimeSpirv-TaskEXT-07292")
                        } else if *axis == 2 {
                            Some("VUID-RuntimeSpirv-TaskEXT-07293")
                        } else {
                            None
                        }
                    },
                    ShaderStage::Mesh => {
                        if *axis == 0 {
                            Some("VUID-RuntimeSpirv-MeshEXT-07295")
                        } else if *axis == 1 {
                            Some("VUID-RuntimeSpirv-MeshEXT-07296")
                        } else if *axis == 2 {
                            Some("VUID-RuntimeSpirv-MeshEXT-07297")
                        } else {
                            None
                        }
                    },
                    _ => None,
                }
            },
            ValidationError::WorkGroupInvocationsExceedDeviceLimit { stage } => {
                match stage {
                    ShaderStage::Compute => Some("VUID-RuntimeSpirv-x-06432"),
                    ShaderStage::Task => Some("VUID-RuntimeSpirv-TaskEXT-07294"),
                    ShaderStage::Mesh => Some("VUID-RuntimeSpirv-MeshEXT-07298"),
                    _ => None,
                }
            },
            ValidationError::SubgroupSizeControlFeatureNotEnabled => Some(
                "VUID-VkPipelineShaderStageCreateInfo-pNext-02755",
            ),
            ValidationError::RequiredSubgroupSizeStagesMissingStage { .. } => Some(
                "VUID-VkPipelineShaderStageCreateInfo-pNext-02755",
            ),
            ValidationError::RequiredSubgroupSizeNotPowerOfTwo => Some(
                "VUID-VkPipelineShaderStageRequiredSubgroupSizeCreateInfo-requiredSubgroupSize-02760",
            ),
            ValidationError::RequiredSubgroupSizeBelowMinimum => Some(
                "VUID-VkPipelineShaderStageRequiredSubgroupSizeCreateInfo-requiredSubgroupSize-02761",
            ),
            ValidationError::RequiredSubgroupSizeAboveMaximum => Some(
                "VUID-VkPipelineShaderStageRequiredSubgroupSizeCreateInfo-requiredSubgroupSize-02762",
            ),
            ValidationError::WorkGroupSizeExceedsSubgroupCapacity => Some(
                "VUID-VkPipelineShaderStageCreateInfo-pNext-02756",
            ),
            ValidationError::DynamicStateNotSupported { .. } => None,
        }
    }
}

} // verus!
