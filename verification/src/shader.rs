//! Shader stages and the per-stage information that an entry point carries.

use vstd::prelude::*;

use crate::device::Device;
use crate::validation::ValidationError;

verus! {

/// A stage of the pipeline that a shader entry point executes in.
#[derive(Clone, Copy, Debug, PartialEq, Eq, Structural)]
pub enum ShaderStage {
    Vertex,
    TessellationControl,
    TessellationEvaluation,
    Geometry,
    Fragment,
    Compute,
    Raygen,
    AnyHit,
    ClosestHit,
    Miss,
    Intersection,
    Callable,
    Task,
    Mesh,
    SubpassShading,
}

impl ShaderStage {
    /// Whether the device supports entry points of this stage: the stages of
    /// the core specification are always supported, the others need one of
    /// the extensions that introduce them.
    pub open spec fn spec_supported_by(self, device: Device) -> bool {
        match self {
            ShaderStage::Raygen
            | ShaderStage::AnyHit
            | ShaderStage::ClosestHit
            | ShaderStage::Miss
            | ShaderStage::Intersection
            | ShaderStage::Callable => {
                device.enabled_extensions.khr_ray_tracing_pipeline
                    || device.enabled_extensions.nv_ray_tracing
            },
            ShaderStage::Task | ShaderStage::Mesh => {
                device.enabled_extensions.ext_mesh_shader
                    || device.enabled_extensions.nv_mesh_shader
            },
            ShaderStage::SubpassShading => device.enabled_extensions.huawei_subpass_shading,
            _ => true,
        }
    }

    /// Checks that the device supports entry points of this stage.
    pub fn validate_device(self, device: &Device) -> (r: Result<(), Box<ValidationError>>)
        ensures
            r is Ok <==> self.spec_supported_by(*device),
            r matches Err(e) ==> *e == (ValidationError::ShaderStageNotSupported { stage: self }),
    {
        let supported = match self {
            ShaderStage::Raygen
            | ShaderStage::AnyHit
            | ShaderStage::ClosestHit
            | ShaderStage::Miss
            | ShaderStage::Intersection
            | ShaderStage::Callable => {
                device.enabled_extensions.khr_ray_tracing_pipeline
                    || device.enabled_extensions.nv_ray_tracing
            },
            ShaderStage::Task | ShaderStage::Mesh => {
                device.enabled_extensions.ext_mesh_shader
                    || device.enabled_extensions.nv_mesh_shader
            },
            ShaderStage::SubpassShading => device.enabled_extensions.huawei_subpass_shading,
            _ => true,
        };
        if supported {
            Ok(())
        } else {
            Err(Box::new(ValidationError::ShaderStageNotSupported { stage: self }))
        }
    }
}

/// A set of shader stages.
#[derive(Clone, Copy, Debug, PartialEq, Eq, Structural)]
pub struct ShaderStages {
    pub vertex: bool,
    pub tessellation_control: bool,
    pub tessellation_evaluation: bool,
    pub geometry: bool,
    pub fragment: bool,
    pub compute: bool,
    pub raygen: bool,
    pub any_hit: bool,
    pub closest_hit: bool,
    pub miss: bool,
    pub intersection: bool,
    pub callable: bool,
    pub task: bool,
    pub mesh: bool,
    pub subpass_shading: bool,
}

impl ShaderStages {
    /// Whether `stage` is in the set.
    pub open spec fn spec_contains_enum(self, stage: ShaderStage) -> bool {
        match stage {
            ShaderStage::Vertex => self.vertex,
            ShaderStage::TessellationControl => self.tessellation_control,
            ShaderStage::TessellationEvaluation => self.tessellation_evaluation,
            ShaderStage::Geometry => self.geometry,
            ShaderStage::Fragment => self.fragment,
            ShaderStage::Compute => self.compute,
            ShaderStage::Raygen => self.raygen,
            ShaderStage::AnyHit => self.any_hit,
            ShaderStage::ClosestHit => self.closest_hit,
            ShaderStage::Miss => self.miss,
            ShaderStage::Intersection => self.intersection,
            ShaderStage::Callable => self.callable,
            ShaderStage::Task => self.task,
            ShaderStage::Mesh => self.mesh,
            ShaderStage::SubpassShading => self.subpass_shading,
        }
    }

    /// Returns whether `stage` is in the set.
    pub fn contains_enum(&self, stage: ShaderStage) -> (r: bool)
        ensures
            r == self.spec_contains_enum(stage),
    {
        match stage {
            ShaderStage::Vertex => self.vertex,
            ShaderStage::TessellationControl => self.tessellation_control,
            ShaderStage::TessellationEvaluation => self.tessellation_evaluation,
            ShaderStage::Geometry => self.geometry,
            ShaderStage::Fragment => self.fragment,
            ShaderStage::Compute => self.compute,
            ShaderStage::Raygen => self.raygen,
            ShaderStage::AnyHit => self.any_hit,
            ShaderStage::ClosestHit => self.closest_hit,
            ShaderStage::Miss => self.miss,
            ShaderStage::Intersection => self.intersection,
            ShaderStage::Callable => self.callable,
            ShaderStage::Task => self.task,
            ShaderStage::Mesh => self.mesh,
            ShaderStage::SubpassShading => self.subpass_shading,
        }
    }

    /// The set with no stage in it.
    pub open spec fn spec_empty() -> ShaderStages {
        ShaderStages {
            vertex: false,
            tessellation_control: false,
            tessellation_evaluation: false,
            geometry: false,
            fragment: false,
            compute: false,
            raygen: false,
            any_hit: false,
            closest_hit: false,
            miss: false,
            intersection: false,
            callable: false,
            task: false,
            mesh: false,
            subpass_shading: false,
        }
    }

    /// Returns the set with no stage in it.
    pub fn empty() -> (r: ShaderStages)
        ensures
            r == ShaderStages::spec_empty(),
    {
        ShaderStages {
            vertex: false,
            tessellation_control: false,
            tessellation_evaluation: false,
            geometry: false,
            fragment: false,
            compute: false,
            raygen: false,
            any_hit: false,
            closest_hit: false,
            miss: false,
            intersection: false,
            callable: false,
            task: false,
            mesh: false,
            subpass_shading: false,
        }
    }
}

/// The local size that an entry point of a compute-like stage declares: the
/// number of invocations of a work group along each of the three axes.
#[derive(Clone, Copy, Debug)]
pub struct ComputeShaderExecution {
    pub local_size: [u32; 3],
}

/// How an entry point is executed, together with the information that is
/// particular to its stage.
#[derive(Clone, Copy, Debug)]
pub enum ShaderExecution {
    Vertex,
    TessellationControl,
    TessellationEvaluation,
    Geometry,
    Fragment,
    Compute(ComputeShaderExecution),
    Raygen,
    AnyHit,
    ClosestHit,
    Miss,
    Intersection,
    Callable,
    Task(ComputeShaderExecution),
    Mesh(ComputeShaderExecution),
    SubpassShading,
}

impl ShaderExecution {
    /// The stage that this execution belongs to.
    pub open spec fn spec_stage(self) -> ShaderStage {
        match self {
            ShaderExecution::Vertex => ShaderStage::Vertex,
            ShaderExecution::TessellationControl => ShaderStage::TessellationControl,
            ShaderExecution::TessellationEvaluation => ShaderStage::TessellationEvaluation,
            ShaderExecution::Geometry => ShaderStage::Geometry,
            ShaderExecution::Fragment => ShaderStage::Fragment,
            ShaderExecution::Compute(..) => ShaderStage::Compute,
            ShaderExecution::Raygen => ShaderStage::Raygen,
            ShaderExecution::AnyHit => ShaderStage::AnyHit,
            ShaderExecution::ClosestHit => ShaderStage::ClosestHit,
            ShaderExecution::Miss => ShaderStage::Miss,
            ShaderExecution::Intersection => ShaderStage::Intersection,
            ShaderExecution::Callable => ShaderStage::Callable,
            ShaderExecution::Task(..) => ShaderStage::Task,
            ShaderExecution::Mesh(..) => ShaderStage::Mesh,
            ShaderExecution::SubpassShading => ShaderStage::SubpassShading,
        }
    }

    /// The local size that the entry point declares, for the stages that
    /// declare one.
    pub open spec fn spec_local_size(self) -> Option<[u32; 3]> {
        match self {
            ShaderExecution::Compute(execution) => Some(execution.local_size),
            ShaderExecution::Task(execution) => Some(execution.local_size),
            ShaderExecution::Mesh(execution) => Some(execution.local_size),
            _ => None,
        }
    }

    /// Returns the local size that the entry point declares, for the stages
    /// that declare one.
    pub fn local_size(&self) -> (r: Option<[u32; 3]>)
        ensures
            r == self.spec_local_size(),
    {
        match self {
            ShaderExecution::Compute(execution) => Some(execution.local_size),
            ShaderExecution::Task(execution) => Some(execution.local_size),
            ShaderExecution::Mesh(execution) => Some(execution.local_size),
            _ => None,
        }
    }
}

impl From<&ShaderExecution> for ShaderStage {
    fn from(val: &ShaderExecution) -> Self {
        match val {
            ShaderExecution::Vertex => ShaderStage::Vertex,
            ShaderExecution::TessellationControl => ShaderStage::TessellationControl,
            ShaderExecution::TessellationEvaluation => ShaderStage::TessellationEvaluation,
            ShaderExecution::Geometry => ShaderStage::Geometry,
            ShaderExecution::Fragment => ShaderStage::Fragment,
            ShaderExecution::Compute(..) => ShaderStage::Compute,
            ShaderExecution::Raygen => ShaderStage::Raygen,
            ShaderExecution::AnyHit => ShaderStage::AnyHit,
            ShaderExecution::ClosestHit => ShaderStage::ClosestHit,
            ShaderExecution::Miss => ShaderStage::Miss,
            ShaderExecution::Intersection => ShaderStage::Intersection,
            ShaderExecution::Callable => ShaderStage::Callable,
            ShaderExecution::Task(..) => ShaderStage::Task,
            ShaderExecution::Mesh(..) => ShaderStage::Mesh,
            ShaderExecution::SubpassShading => ShaderStage::SubpassShading,
        }
    }
}

impl vstd::std_specs::convert::FromSpecImpl<&ShaderExecution> for ShaderStage {
    open spec fn obeys_from_spec() -> bool {
        true
    }

    open spec fn from_spec(val: &ShaderExecution) -> Self {
        val.spec_stage()
    }
}

/// The information about an entry point that the validation rules read: its
/// name and how it is executed.
#[derive(Clone, Debug)]
pub struct EntryPointInfo {
    pub name: String,
    pub execution: ShaderExecution,
}

/// An entry point of a loaded shader module.
#[derive(Clone, Debug)]
pub struct EntryPoint {
    info: EntryPointInfo,
}

impl EntryPoint {
    /// The information about this entry point.
    pub closed spec fn spec_info(self) -> EntryPointInfo {
        self.info
    }

    /// Returns an entry point that carries the given information.
    pub fn new(info: EntryPointInfo) -> (r: EntryPoint)
        ensures
            r.spec_info() == info,
    {
        EntryPoint { info }
    }

    /// Returns the information about this entry point.
    pub fn info(&self) -> (r: &EntryPointInfo)
        ensures
            *r == self.spec_info(),
    {
        &self.info
    }
}

} // verus!

