//! The closed set of resource kinds used for binding validation.

use vstd::prelude::*;

verus! {

/// The kind of a single binding slot. Validation of bindings against a
/// kernel's layout compares these tags for equality, position by position.
#[derive(Clone, Copy, PartialEq, Eq, Structural, Debug)]
pub enum EntryType {
    /// A storage buffer (read-only or read-write).
    Buffer,
    /// A uniform buffer.
    Uniform,
    /// A sampled texture the shader can only read.
    ConstImage,
    /// A storage texture the shader can write.
    Image,
}

} // verus!
