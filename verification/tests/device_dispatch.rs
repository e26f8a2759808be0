//! End-to-end dispatch against a real device. These tests run the full
//! pipeline-compilation and submission path only where the machine offers
//! a GPU adapter; without one they return without failing.

use gpgpu::{
    BindingArg, BindingError, EntryType, Framework, GpuBufferUsage, Kernel, SetLayout, Shader,
};

const ADD_SRC: &str = "
struct Params { n: u32 }
@group(0) @binding(0) var<uniform> params: Params;
@group(0) @binding(1) var<storage, read> a: array<u32>;
@group(0) @binding(2) var<storage, read> b: array<u32>;
@group(0) @binding(3) var<storage, read_write> c: array<u32>;
@compute @workgroup_size(32, 1, 1)
fn main(@builtin(global_invocation_id) gid: vec3<u32>) {
    if (gid.x < params.n) {
        c[gid.x] = a[gid.x] + b[gid.x];
    }
}
";

fn try_framework() -> Option<Framework> {
    let instance = wgpu::Instance::default();
    let adapter = pollster::block_on(
        instance.request_adapter(&wgpu::RequestAdapterOptions::default()),
    )?;
    let (device, queue) = pollster::block_on(
        adapter.request_device(&wgpu::DeviceDescriptor::default(), None),
    )
    .ok()?;
    Some(Framework { device, queue })
}

fn storage_buffer(fw: &Framework, bytes: u64) -> wgpu::Buffer {
    fw.device.create_buffer(&wgpu::BufferDescriptor {
        label: None,
        size: bytes,
        usage: wgpu::BufferUsages::STORAGE,
        mapped_at_creation: false,
    })
}

#[test]
fn dispatch_on_device_when_available() {
    let Some(fw) = try_framework() else {
        return;
    };
    let shader = Shader(fw.device.create_shader_module(wgpu::ShaderModuleDescriptor {
        label: None,
        source: wgpu::ShaderSource::Wgsl(ADD_SRC.into()),
    }));

    let mut layout = SetLayout::new();
    layout.add_uniform_buffer();
    layout.add_buffer(GpuBufferUsage::ReadOnly);
    layout.add_buffer(GpuBufferUsage::ReadOnly);
    layout.add_buffer(GpuBufferUsage::ReadWrite);
    let kernel = Kernel::new(&fw, &shader, "main", layout);

    let uniform = fw.device.create_buffer(&wgpu::BufferDescriptor {
        label: None,
        size: 16,
        usage: wgpu::BufferUsages::UNIFORM,
        mapped_at_creation: false,
    });
    let buf_a = storage_buffer(&fw, 256);
    let buf_b = storage_buffer(&fw, 256);
    let buf_c = storage_buffer(&fw, 256);

    // Bindings supplied in matching order: the dispatch is submitted.
    let ok = kernel.run(
        &fw,
        vec![
            BindingArg { resource: uniform.as_entire_binding(), kind: EntryType::Uniform },
            BindingArg { resource: buf_a.as_entire_binding(), kind: EntryType::Buffer },
            BindingArg { resource: buf_b.as_entire_binding(), kind: EntryType::Buffer },
            BindingArg { resource: buf_c.as_entire_binding(), kind: EntryType::Buffer },
        ],
        2,
        1,
        1,
    );
    assert_eq!(ok, Ok(()));

    // Kind swapped at position 0: rejected before anything is submitted.
    let swapped = kernel.run(
        &fw,
        vec![
            BindingArg { resource: buf_a.as_entire_binding(), kind: EntryType::Buffer },
            BindingArg { resource: uniform.as_entire_binding(), kind: EntryType::Uniform },
            BindingArg { resource: buf_b.as_entire_binding(), kind: EntryType::Buffer },
            BindingArg { resource: buf_c.as_entire_binding(), kind: EntryType::Buffer },
        ],
        2,
        1,
        1,
    );
    assert_eq!(
        swapped,
        Err(BindingError::KindMismatch {
            index: 0,
            expected: EntryType::Uniform,
            actual: EntryType::Buffer,
        })
    );

    // One binding short: rejected as a length mismatch.
    let short = kernel.run(
        &fw,
        vec![
            BindingArg { resource: uniform.as_entire_binding(), kind: EntryType::Uniform },
            BindingArg { resource: buf_a.as_entire_binding(), kind: EntryType::Buffer },
            BindingArg { resource: buf_b.as_entire_binding(), kind: EntryType::Buffer },
        ],
        2,
        1,
        1,
    );
    assert_eq!(
        short,
        Err(BindingError::LengthMismatch { expected: 4, actual: 3 })
    );
}
