//! A typed resource-binding layer for GPU compute dispatch.
//!
//! A [`SetLayout`] declares the ordered shape of arguments a compute kernel
//! expects; a [`Kernel`] compiles that shape together with a shader into a
//! pipeline; a [`SetBindings`] supplies concrete resources for one dispatch,
//! which the kernel validates against its stored shape before any work is
//! submitted to the device queue.

pub mod bindings;
pub mod entry_type;
pub mod gpu;
pub mod kernel;
pub mod layout;

pub use bindings::{BindingArg, BindingError, SetBindings};
pub use entry_type::EntryType;
pub use gpu::{Framework, Shader};
pub use kernel::Kernel;
pub use layout::{GpuBufferUsage, PixelFormat, SetLayout, SlotDescriptor};
