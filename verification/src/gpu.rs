//! Declarations of the device-layer types this library carries through.
//!
//! Every type here is opaque to the verifier: the library never inspects a
//! value of one, it only stores such values and hands them to the trusted
//! device calls in [`crate::kernel`] and [`crate::bindings`].

use vstd::prelude::*;

verus! {

/// Declares `wgpu::Device`, the handle used to compile layouts and
/// pipelines and to create bind groups and command encoders.
#[verifier::external_type_specification]
#[verifier::external_body]
pub struct ExDevice(wgpu::Device);

/// Declares `wgpu::Queue`, the handle recorded command buffers are
/// submitted to.
#[verifier::external_type_specification]
#[verifier::external_body]
pub struct ExQueue(wgpu::Queue);

/// Declares `wgpu::ShaderModule`, a compiled shader exposing named entry
/// points.
#[verifier::external_type_specification]
#[verifier::external_body]
pub struct ExShaderModule(wgpu::ShaderModule);

/// Declares `wgpu::BindGroupLayout`, the compiled device-level binding
/// contract a kernel stores.
#[verifier::external_type_specification]
#[verifier::external_body]
pub struct ExBindGroupLayout(wgpu::BindGroupLayout);

/// Declares `wgpu::PipelineLayout`, the pipeline-wide layout wrapping one
/// bind group layout.
#[verifier::external_type_specification]
#[verifier::external_body]
pub struct ExPipelineLayout(wgpu::PipelineLayout);

/// Declares `wgpu::ComputePipeline`, the compiled shader-plus-layout
/// program a kernel dispatches.
#[verifier::external_type_specification]
#[verifier::external_body]
pub struct ExComputePipeline(wgpu::ComputePipeline);

/// Declares `wgpu::BindGroup`, the per-dispatch pairing of a bind group
/// layout with concrete resources.
#[verifier::external_type_specification]
#[verifier::external_body]
pub struct ExBindGroup(wgpu::BindGroup);

/// Declares `wgpu::BindingResource`, a non-owning view of a device
/// resource usable as a binding target.
#[verifier::external_type_specification]
#[verifier::external_body]
pub struct ExBindingResource<'a>(wgpu::BindingResource<'a>);

/// Declares `wgpu::BindGroupLayoutEntry`, the device-level descriptor of
/// one binding slot.
#[verifier::external_type_specification]
#[verifier::external_body]
pub struct ExBindGroupLayoutEntry(wgpu::BindGroupLayoutEntry);

/// The execution context: a device for compiling pipeline state and the
/// queue work is submitted to. Shared by every construction and dispatch
/// call; the caller initializes it once and threads it through explicitly.
pub struct Framework {
    /// The device handle.
    pub device: wgpu::Device,
    /// The submission queue of `device`.
    pub queue: wgpu::Queue,
}

/// A compiled shader module, as handed over by the shader-compilation
/// collaborator.
pub struct Shader(pub wgpu::ShaderModule);

} // verus!
