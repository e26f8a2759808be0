//! Compilation of a layout and shader into a dispatchable kernel, and the
//! validated dispatch call itself.
//!
//! A [`Kernel`] is immutable after construction and reusable across many
//! dispatches; it keeps its own copy of the layout's tag sequence together
//! with the compiled bind group layout, so the layout value itself is
//! consumed and not retained. Every [`Kernel::run`] call first validates
//! the supplied bindings against the stored tags; only an exact match
//! reaches the device.

use vstd::prelude::*;

use crate::bindings::{mismatch_reported, tags_of, BindingArg, BindingError, SetBindings};
use crate::entry_type::EntryType;
use crate::gpu::{Framework, Shader};
use crate::layout::{GpuBufferUsage, PixelFormat, SetLayout, SlotDescriptor};

verus! {

/// Relies on the `wgpu::BindGroupLayoutEntry` struct literal: describes a
/// storage buffer slot at `binding`, read-only exactly for
/// [`GpuBufferUsage::ReadOnly`], visible to compute. Nothing is claimed of
/// the opaque result.
#[verifier::external_body]
fn buffer_layout_entry(binding: u32, usage: GpuBufferUsage) -> wgpu::BindGroupLayoutEntry {
    wgpu::BindGroupLayoutEntry {
        binding,
        visibility: wgpu::ShaderStages::COMPUTE,
        ty: wgpu::BindingType::Buffer {
            has_dynamic_offset: false,
            min_binding_size: None,
            ty: wgpu::BufferBindingType::Storage {
                read_only: matches!(usage, GpuBufferUsage::ReadOnly),
            },
        },
        count: None,
    }
}

/// Relies on the `wgpu::BindGroupLayoutEntry` struct literal: describes a
/// uniform buffer slot at `binding`, visible to compute. Nothing is
/// claimed of the opaque result.
#[verifier::external_body]
fn uniform_layout_entry(binding: u32) -> wgpu::BindGroupLayoutEntry {
    wgpu::BindGroupLayoutEntry {
        binding,
        visibility: wgpu::ShaderStages::COMPUTE,
        ty: wgpu::BindingType::Buffer {
            has_dynamic_offset: false,
            min_binding_size: None,
            ty: wgpu::BufferBindingType::Uniform,
        },
        count: None,
    }
}

/// Relies on the `wgpu::BindGroupLayoutEntry` struct literal: describes a
/// write-only 2D storage texture slot at `binding` with the device format
/// of `format`, visible to compute. Nothing is claimed of the opaque
/// result.
#[verifier::external_body]
fn image_layout_entry(binding: u32, format: PixelFormat) -> wgpu::BindGroupLayoutEntry {
    wgpu::BindGroupLayoutEntry {
        binding,
        visibility: wgpu::ShaderStages::COMPUTE,
        ty: wgpu::BindingType::StorageTexture {
            access: wgpu::StorageTextureAccess::WriteOnly,
            format: match format {
                PixelFormat::Rgba8Uint => wgpu::TextureFormat::Rgba8Uint,
                PixelFormat::Rgba8Unorm => wgpu::TextureFormat::Rgba8Unorm,
                PixelFormat::Rgba8UnormSrgb => wgpu::TextureFormat::Rgba8UnormSrgb,
            },
            view_dimension: wgpu::TextureViewDimension::D2,
        },
        count: None,
    }
}

/// Relies on the `wgpu::BindGroupLayoutEntry` struct literal: describes a
/// non-multisampled 2D sampled texture slot at `binding` with the sample
/// type of `format`, visible to compute. Nothing is claimed of the opaque
/// result.
#[verifier::external_body]
fn const_image_layout_entry(binding: u32, format: PixelFormat) -> wgpu::BindGroupLayoutEntry {
    wgpu::BindGroupLayoutEntry {
        binding,
        visibility: wgpu::ShaderStages::COMPUTE,
        ty: wgpu::BindingType::Texture {
            sample_type: match format {
                PixelFormat::Rgba8Uint => wgpu::TextureSampleType::Uint,
                PixelFormat::Rgba8Unorm => wgpu::TextureSampleType::Float { filterable: true },
                PixelFormat::Rgba8UnormSrgb => wgpu::TextureSampleType::Float { filterable: true },
            },
            multisampled: false,
            view_dimension: wgpu::TextureViewDimension::D2,
        },
        count: None,
    }
}

/// Relies on `wgpu::Device::create_bind_group_layout`: compiles the
/// device-level binding contract from the given slot entries. A rejection
/// by the device is propagated as the device reports it. Nothing is
/// claimed of the opaque result.
#[verifier::external_body]
fn create_bind_group_layout(
    fw: &Framework,
    entries: &Vec<wgpu::BindGroupLayoutEntry>,
) -> wgpu::BindGroupLayout {
    fw.device.create_bind_group_layout(
        &wgpu::BindGroupLayoutDescriptor { label: None, entries },
    )
}

/// Relies on `wgpu::Device::create_pipeline_layout`: wraps the single bind
/// group layout, with no push-constant ranges. A rejection by the device
/// is propagated as the device reports it. Nothing is claimed of the
/// opaque result.
#[verifier::external_body]
fn create_pipeline_layout(
    fw: &Framework,
    layout: &wgpu::BindGroupLayout,
) -> wgpu::PipelineLayout {
    fw.device.create_pipeline_layout(
        &wgpu::PipelineLayoutDescriptor {
            label: None,
            bind_group_layouts: &[layout],
            push_constant_ranges: &[],
        },
    )
}

/// Relies on `wgpu::Device::create_compute_pipeline`: compiles the named
/// entry point of the shader module against the pipeline layout. A
/// rejection of the entry point or of pipeline assembly is propagated as
/// the device reports it. Nothing is claimed of the opaque result.
#[verifier::external_body]
fn create_compute_pipeline(
    fw: &Framework,
    shader: &Shader,
    entry_point: &str,
    layout: &wgpu::PipelineLayout,
) -> wgpu::ComputePipeline {
    fw.device.create_compute_pipeline(
        &wgpu::ComputePipelineDescriptor {
            label: None,
            layout: Some(layout),
            module: &shader.0,
            entry_point,
            compilation_options: Default::default(),
            cache: None,
        },
    )
}

/// Relies on `wgpu::Device::create_command_encoder`,
/// `wgpu::CommandEncoder::begin_compute_pass` and `finish`,
/// `wgpu::ComputePass::set_pipeline`, `set_bind_group` and
/// `dispatch_workgroups`, and `wgpu::Queue::submit`: records one compute
/// pass that runs `pipeline` with `bind_group` at index 0 and `x`, `y`,
/// `z` workgroups per axis, then submits it to the queue. The counts are
/// passed through unchanged: no padding or rounding to the shader's
/// workgroup size is applied. Returns once submitted, without waiting for
/// execution.
#[verifier::external_body]
fn submit_compute(
    fw: &Framework,
    pipeline: &wgpu::ComputePipeline,
    bind_group: &wgpu::BindGroup,
    x: u32,
    y: u32,
    z: u32,
) {
    let mut encoder = fw.device.create_command_encoder(
        &wgpu::CommandEncoderDescriptor { label: Some("Kernel::enqueue") },
    );
    {
        let mut cpass = encoder.begin_compute_pass(
            &wgpu::ComputePassDescriptor { label: Some("Kernel::enqueue"), timestamp_writes: None },
        );
        cpass.set_pipeline(pipeline);
        cpass.set_bind_group(0, bind_group, &[]);
        cpass.dispatch_workgroups(x, y, z);
    }
    fw.queue.submit(Some(encoder.finish()));
}

/// Compiles the device-level slot entries from the declared descriptors,
/// assigning the i-th descriptor the binding index i.
fn layout_entries(slots: &Vec<SlotDescriptor>) -> (entries: Vec<wgpu::BindGroupLayoutEntry>)
    requires
        slots@.len() <= 0xffff_ffff,
    ensures
        entries@.len() == slots@.len(),
{
    let mut entries: Vec<wgpu::BindGroupLayoutEntry> = Vec::new();
    let n = slots.len();
    for i in 0..n
        invariant
            n == slots@.len(),
            n <= 0xffff_ffff,
            entries@.len() == i,
    {
        let binding = i as u32;
        let entry = match slots[i] {
            SlotDescriptor::Buffer { usage } => buffer_layout_entry(binding, usage),
            SlotDescriptor::Uniform => uniform_layout_entry(binding),
            SlotDescriptor::Image { format } => image_layout_entry(binding, format),
            SlotDescriptor::ConstImage { format } => const_image_layout_entry(binding, format),
        };
        entries.push(entry);
    }
    entries
}

/// A compiled compute pipeline together with an immutable copy of its
/// layout's tag sequence. Enqueues the execution of one shader entry point
/// with the bindings supplied per dispatch.
pub struct Kernel {
    pipeline: wgpu::ComputePipeline,
    entry_types: Vec<EntryType>,
    layout: wgpu::BindGroupLayout,
}

impl Kernel {
    /// The tag sequence this kernel validates every dispatch against; a
    /// copy of the tag sequence of the layout it was built from.
    pub closed spec fn tags(&self) -> Seq<EntryType> {
        self.entry_types@
    }

    /// Compiles a kernel from a shader module's named entry point and a
    /// layout. The layout's descriptors are compiled into a device binding
    /// contract, that contract into a pipeline layout, and the pair of
    /// shader and pipeline layout into a compute pipeline; the layout's
    /// tag sequence is copied and the layout value is consumed. A
    /// rejection of the entry point, the descriptors, or pipeline assembly
    /// by the device is propagated, not recovered locally.
    pub fn new(
        fw: &Framework,
        shader: &Shader,
        function_name: &str,
        layout: SetLayout,
    ) -> (k: Kernel)
        requires
            layout@.len() <= 0xffff_ffff,  // binding indices are u32
        ensures
            k.tags() == layout.tags(),
    {
        let entry_types = layout.entry_types();
        let entries = layout_entries(layout.slots());
        let bind_group_layout = create_bind_group_layout(fw, &entries);
        let pipeline_layout = create_pipeline_layout(fw, &bind_group_layout);
        let pipeline = create_compute_pipeline(fw, shader, function_name, &pipeline_layout);
        Kernel { pipeline, entry_types, layout: bind_group_layout }
    }

    /// The tag sequence as a vector, in slot order.
    pub fn entry_types(&self) -> (tags: &Vec<EntryType>)
        ensures
            tags@ == self.tags(),
    {
        &self.entry_types
    }

    /// Dispatches this kernel once over `x`, `y` and `z` workgroups per
    /// axis against the given arguments, bound in order at slot ids
    /// 0, 1, 2, ...
    ///
    /// Succeeds exactly when the arguments' tag sequence equals the
    /// kernel's element-wise; then one fresh bind group is instantiated
    /// and the dispatch is recorded and submitted, returning once the
    /// commands are handed to the queue, without waiting for completion.
    /// Otherwise the first mismatch is reported and nothing is submitted
    /// to the device. The workgroup counts are passed through unchanged:
    /// if the problem size is not an exact multiple of the shader's
    /// workgroup size, covering the remainder is the caller's
    /// responsibility.
    pub fn run<'res>(
        &self,
        fw: &Framework,
        arguments: Vec<BindingArg<wgpu::BindingResource<'res>>>,
        x: u32,
        y: u32,
        z: u32,
    ) -> (r: Result<(), BindingError>)
        ensures
            r is Ok <==> tags_of(arguments@) == self.tags(),
            match r {
                Ok(()) => tags_of(arguments@) == self.tags(),
                Err(e) => mismatch_reported(tags_of(arguments@), self.tags(), e),
            },
    {
        let binding = SetBindings::new(arguments);
        match binding.to_bind_group(fw, &self.layout, &self.entry_types) {
            Ok(bind_group) => {
                submit_compute(fw, &self.pipeline, &bind_group, x, y, z);
                Ok(())
            },
            Err(e) => Err(e),
        }
    }
}

} // verus!
