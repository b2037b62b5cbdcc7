//! Validation of pipeline shader stage configuration against the limits and
//! capabilities that a device reports.
//!
//! Before work is handed to a device, the configuration of each programmable
//! stage has to satisfy a set of rules: the stage itself must be available on
//! the device, optional features that the stage depends on must be enabled,
//! and the workgroup and subgroup sizes must stay within the device's reported
//! limits. The heart of this crate is
//! [`pipeline::PipelineShaderStageCreateInfo::validate`], which checks those
//! rules and, on failure, reports which rule was broken.

use vstd::prelude::*;

pub mod device;
pub mod pipeline;
pub mod shader;
pub mod validation;

verus! {

/// A marker held by configuration structs so that they can only be built
/// through their constructors, leaving room to add fields later.
#[derive(Clone, Copy, Debug)]
pub struct NonExhaustive(pub(crate) ());

} // verus!
