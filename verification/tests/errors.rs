use vulkano::pipeline::DynamicState;
use vulkano::shader::ShaderStage;
use vulkano::validation::ValidationError;

#[test]
fn stage_errors_cite_their_rules() {
    assert_eq!(
        ValidationError::ShaderStageNotSupported { stage: ShaderStage::Raygen }.vuid(),
        Some("VUID-VkPipelineShaderStageCreateInfo-stage-parameter"),
    );
    assert_eq!(
        ValidationError::TessellationShaderFeatureNotEnabled.vuid(),
        Some("VUID-VkPipelineShaderStageCreateInfo-stage-00705"),
    );
    assert_eq!(
        ValidationError::GeometryShaderFeatureNotEnabled.vuid(),
        Some("VUID-VkPipelineShaderStageCreateInfo-stage-00704"),
    );
    assert_eq!(
        ValidationError::TaskShaderFeatureNotEnabled.vuid(),
        Some("VUID-VkPipelineShaderStageCreateInfo-stage-02092"),
    );
    assert_eq!(
        ValidationError::MeshShaderFeatureNotEnabled.vuid(),
        Some("VUID-VkPipelineShaderStageCreateInfo-stage-02091"),
    );
}

#[test]
fn local_size_errors_cite_stage_and_axis() {
    assert_eq!(
        ValidationError::LocalSizeExceedsDeviceLimit { stage: ShaderStage::Compute, axis: 0 }
            .vuid(),
        Some("VUID-RuntimeSpirv-x-06429"),
    );
    assert_eq!(
        ValidationError::LocalSizeExceedsDeviceLimit { stage: ShaderStage::Compute, axis: 1 }
            .vuid(),
        Some("VUID-RuntimeSpirv-x-06430"),
    );
    assert_eq!(
        ValidationError::LocalSizeExceedsDeviceLimit { stage: ShaderStage::Compute, axis: 2 }
            .vuid(),
        Some("VUID-RuntimeSpirv-x-06431"),
    );
    assert_eq!(
        ValidationError::LocalSizeExceedsDeviceLimit { stage: ShaderStage::Task, axis: 0 }.vuid(),
        Some("VUID-RuntimeSpirv-TaskEXT-07291"),
    );
    assert_eq!(
        ValidationError::LocalSizeExceedsDeviceLimit { stage: ShaderStage::Task, axis: 1 }.vuid(),
        Some("VUID-RuntimeSpirv-TaskEXT-07292"),
    );
    assert_eq!(
        ValidationError::LocalSizeExceedsDeviceLimit { stage: ShaderStage::Task, axis: 2 }.vuid(),
        Some("VUID-RuntimeSpirv-TaskEXT-07293"),
    );
    assert_eq!(
        ValidationError::LocalSizeExceedsDeviceLimit { stage: ShaderStage::Mesh, axis: 0 }.vuid(),
        Some("VUID-RuntimeSpirv-MeshEXT-07295"),
    );
    assert_eq!(
        ValidationError::LocalSizeExceedsDeviceLimit { stage: ShaderStage::Mesh, axis: 1 }.vuid(),
        Some("VUID-RuntimeSpirv-MeshEXT-07296"),
    );
    assert_eq!(
        ValidationError::LocalSizeExceedsDeviceLimit { stage: ShaderStage::Mesh, axis: 2 }.vuid(),
        Some("VUID-RuntimeSpirv-MeshEXT-07297"),
    );
    // No rule exists for other stages or axes.
    assert_eq!(
        ValidationError::LocalSizeExceedsDeviceLimit { stage: ShaderStage::Vertex, axis: 0 }
            .vuid(),
        None,
    );
    assert_eq!(
        ValidationError::LocalSizeExceedsDeviceLimit { stage: ShaderStage::Compute, axis: 3 }
            .vuid(),
        None,
    );
}

#[test]
fn invocation_errors_cite_stage() {
    assert_eq!(
        ValidationError::WorkGroupInvocationsExceedDeviceLimit { stage: ShaderStage::Compute }
            .vuid(),
        Some("VUID-RuntimeSpirv-x-06432"),
    );
    assert_eq!(
        ValidationError::WorkGroupInvocationsExceedDeviceLimit { stage: ShaderStage::Task }
            .vuid(),
        Some("VUID-RuntimeSpirv-TaskEXT-07294"),
    );
    assert_eq!(
        ValidationError::WorkGroupInvocationsExceedDeviceLimit { stage: ShaderStage::Mesh }
            .vuid(),
        Some("VUID-RuntimeSpirv-MeshEXT-07298"),
    );
}

#[test]
fn subgroup_errors_cite_their_rules() {
    assert_eq!(
        ValidationError::SubgroupSizeControlFeatureNotEnabled.vuid(),
        Some("VUID-VkPipelineShaderStageCreateInfo-pNext-02755"),
    );
    assert_eq!(
        ValidationError::RequiredSubgroupSizeStagesMissingStage { stage: ShaderStage::Compute }
            .vuid(),
        Some("VUID-VkPipelineShaderStageCreateInfo-pNext-02755"),
    );
    assert_eq!(
        ValidationError::RequiredSubgroupSizeNotPowerOfTwo.vuid(),
        Some(
            "VUID-VkPipelineShaderStageRequiredSubgroupSizeCreateInfo-requiredSubgroupSize-02760",
        ),
    );
    assert_eq!(
        ValidationError::RequiredSubgroupSizeBelowMinimum.vuid(),
        Some(
            "VUID-VkPipelineShaderStageRequiredSubgroupSizeCreateInfo-requiredSubgroupSize-02761",
        ),
    );
    assert_eq!(
        ValidationError::RequiredSubgroupSizeAboveMaximum.vuid(),
        Some(
            "VUID-VkPipelineShaderStageRequiredSubgroupSizeCreateInfo-requiredSubgroupSize-02762",
        ),
    );
    assert_eq!(
        ValidationError::WorkGroupSizeExceedsSubgroupCapacity.vuid(),
        Some("VUID-VkPipelineShaderStageCreateInfo-pNext-02756"),
    );
}

#[test]
fn dynamic_state_error_has_no_citation() {
    assert_eq!(
        ValidationError::DynamicStateNotSupported { dynamic_state: DynamicState::CullMode }
            .vuid(),
        None,
    );
}
