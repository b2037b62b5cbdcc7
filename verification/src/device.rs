//! A model of the device that configuration is validated against: its API
//! version, the extensions and features that were enabled when it was opened,
//! and the limits that it reports.

use vstd::prelude::*;

use crate::shader::ShaderStages;

verus! {

/// An API version, given as a major and a minor number.
#[derive(Clone, Copy, Debug, PartialEq, Eq, Structural)]
pub struct Version {
    pub major: u32,
    pub minor: u32,
}

impl Version {
    /// Whether this version is `other` or a later one.
    pub open spec fn spec_at_least(self, other: Version) -> bool {
        self.major > other.major || (self.major == other.major && self.minor >= other.minor)
    }

    /// Returns whether this version is `other` or a later one.
    pub fn at_least(&self, other: &Version) -> (r: bool)
        ensures
            r == self.spec_at_least(*other),
    {
        self.major > other.major || (self.major == other.major && self.minor >= other.minor)
    }
}

/// The device extensions that the validation rules depend on. A field is
/// `true` when the extension was enabled on the device.
#[derive(Clone, Copy, Debug, PartialEq, Eq, Structural)]
pub struct DeviceExtensions {
    pub ext_color_write_enable: bool,
    pub ext_discard_rectangles: bool,
    pub ext_extended_dynamic_state: bool,
    pub ext_extended_dynamic_state2: bool,
    pub ext_extended_dynamic_state3: bool,
    pub ext_line_rasterization: bool,
    pub ext_mesh_shader: bool,
    pub ext_sample_locations: bool,
    pub ext_vertex_input_dynamic_state: bool,
    pub huawei_subpass_shading: bool,
    pub khr_fragment_shading_rate: bool,
    pub khr_ray_tracing_pipeline: bool,
    pub nv_clip_space_w_scaling: bool,
    pub nv_mesh_shader: bool,
    pub nv_ray_tracing: bool,
    pub nv_scissor_exclusive: bool,
    pub nv_shading_rate_image: bool,
}

impl DeviceExtensions {
    /// The set with no extension enabled.
    pub open spec fn spec_empty() -> DeviceExtensions {
        DeviceExtensions {
            ext_color_write_enable: false,
            ext_discard_rectangles: false,
            ext_extended_dynamic_state: false,
            ext_extended_dynamic_state2: false,
            ext_extended_dynamic_state3: false,
            ext_line_rasterization: false,
            ext_mesh_shader: false,
            ext_sample_locations: false,
            ext_vertex_input_dynamic_state: false,
            huawei_subpass_shading: false,
            khr_fragment_shading_rate: false,
            khr_ray_tracing_pipeline: false,
            nv_clip_space_w_scaling: false,
            nv_mesh_shader: false,
            nv_ray_tracing: false,
            nv_scissor_exclusive: false,
            nv_shading_rate_image: false,
        }
    }

    /// Returns the set with no extension enabled.
    pub fn empty() -> (r: DeviceExtensions)
        ensures
            r == DeviceExtensions::spec_empty(),
    {
        DeviceExtensions {
            ext_color_write_enable: false,
            ext_discard_rectangles: false,
            ext_extended_dynamic_state: false,
            ext_extended_dynamic_state2: false,
            ext_extended_dynamic_state3: false,
            ext_line_rasterization: false,
            ext_mesh_shader: false,
            ext_sample_locations: false,
            ext_vertex_input_dynamic_state: false,
            huawei_subpass_shading: false,
            khr_fragment_shading_rate: false,
            khr_ray_tracing_pipeline: false,
            nv_clip_space_w_scaling: false,
            nv_mesh_shader: false,
            nv_ray_tracing: false,
            nv_scissor_exclusive: false,
            nv_shading_rate_image: false,
        }
    }
}

/// The device features that the validation rules depend on. A field is `true`
/// when the feature was enabled on the device.
#[derive(Clone, Copy, Debug, PartialEq, Eq, Structural)]
pub struct Features {
    pub geometry_shader: bool,
    pub mesh_shader: bool,
    pub subgroup_size_control: bool,
    pub task_shader: bool,
    pub tessellation_shader: bool,
}

impl Features {
    /// The set with no feature enabled.
    pub open spec fn spec_empty() -> Features {
        Features {
            geometry_shader: false,
            mesh_shader: false,
            subgroup_size_control: false,
            task_shader: false,
            tessellation_shader: false,
        }
    }

    /// Returns the set with no feature enabled.
    pub fn empty() -> (r: Features)
        ensures
            r == Features::spec_empty(),
    {
        Features {
            geometry_shader: false,
            mesh_shader: false,
            subgroup_size_control: false,
            task_shader: false,
            tessellation_shader: false,
        }
    }
}

/// The limits that the device reports and that the validation rules read.
///
/// A limit of `Option` type is reported only when the extension or feature it
/// belongs to is present; the rules that read an absent limit fall back to the
/// default that the rule prescribes.
#[derive(Clone, Copy, Debug)]
pub struct Properties {
    pub max_compute_work_group_invocations: u32,
    pub max_compute_work_group_size: [u32; 3],
    pub max_compute_workgroup_subgroups: Option<u32>,
    pub max_mesh_work_group_invocations: Option<u32>,
    pub max_mesh_work_group_size: Option<[u32; 3]>,
    pub max_subgroup_size: Option<u32>,
    pub max_task_work_group_invocations: Option<u32>,
    pub max_task_work_group_size: Option<[u32; 3]>,
    pub min_subgroup_size: Option<u32>,
    pub required_subgroup_size_stages: Option<ShaderStages>,
}

/// A device, reduced to what the validation rules read: the API version it was
/// opened with, the extensions and features enabled on it, and the limits that
/// its physical device reports.
#[derive(Clone, Copy, Debug)]
pub struct Device {
    pub api_version: Version,
    pub enabled_extensions: DeviceExtensions,
    pub enabled_features: Features,
    pub properties: Properties,
}

} // verus!
