//! Dispatch-time validation of bindings against a layout's tag sequence,
//! exercised without a device: the comparison a kernel performs before
//! anything is submitted is the public `SetBindings::validate`, run here
//! against the tag vector a kernel would store from the layout.

use gpgpu::{BindingError, EntryType, GpuBufferUsage, SetBindings, SetLayout};

fn scenario_layout() -> SetLayout {
    let mut l = SetLayout::new();
    l.add_uniform_buffer();
    l.add_buffer(GpuBufferUsage::ReadOnly);
    l.add_buffer(GpuBufferUsage::ReadOnly);
    l.add_buffer(GpuBufferUsage::ReadWrite);
    l
}

#[test]
fn matching_bindings_validate_ok() {
    let tags = scenario_layout().entry_types();
    let mut b = SetBindings::<&str>::empty();
    b.add_uniform_buffer("uniform");
    b.add_buffer("bufA");
    b.add_buffer("bufB");
    b.add_buffer("bufC");
    assert_eq!(b.validate(&tags), Ok(()));
}

#[test]
fn swapped_kind_is_reported_at_index_zero() {
    let tags = scenario_layout().entry_types();
    let mut b = SetBindings::<&str>::empty();
    b.add_buffer("bufA");
    b.add_uniform_buffer("uniform");
    b.add_buffer("bufB");
    b.add_buffer("bufC");
    assert_eq!(
        b.validate(&tags),
        Err(BindingError::KindMismatch {
            index: 0,
            expected: EntryType::Uniform,
            actual: EntryType::Buffer,
        })
    );
}

#[test]
fn missing_binding_is_reported_as_length_mismatch() {
    let tags = scenario_layout().entry_types();
    let mut b = SetBindings::<&str>::empty();
    b.add_uniform_buffer("uniform");
    b.add_buffer("bufA");
    b.add_buffer("bufB");
    assert_eq!(
        b.validate(&tags),
        Err(BindingError::LengthMismatch { expected: 4, actual: 3 })
    );
}

#[test]
fn extra_binding_is_reported_as_length_mismatch() {
    let tags = scenario_layout().entry_types();
    let mut b = SetBindings::<&str>::empty();
    b.add_uniform_buffer("uniform");
    b.add_buffer("bufA");
    b.add_buffer("bufB");
    b.add_buffer("bufC");
    b.add_buffer("bufD");
    assert_eq!(
        b.validate(&tags),
        Err(BindingError::LengthMismatch { expected: 4, actual: 5 })
    );
}

#[test]
fn first_of_several_mismatches_is_reported() {
    let tags = scenario_layout().entry_types();
    let mut b = SetBindings::<u8>::empty();
    b.add_uniform_buffer(0);
    b.add_image(1);
    b.add_const_image(2);
    b.add_buffer(3);
    assert_eq!(
        b.validate(&tags),
        Err(BindingError::KindMismatch {
            index: 1,
            expected: EntryType::Buffer,
            actual: EntryType::Image,
        })
    );
}

#[test]
fn empty_against_empty_validates_ok() {
    let tags = SetLayout::new().entry_types();
    let b = SetBindings::<u8>::empty();
    assert_eq!(b.validate(&tags), Ok(()));
}

#[test]
fn same_kinds_in_swapped_order_are_not_detected() {
    // Two same-kind resources supplied in swapped order validate cleanly:
    // kind-only validation cannot tell them apart. Keeping the call order
    // aligned with the layout is the caller's responsibility.
    let tags = scenario_layout().entry_types();
    let mut b = SetBindings::<&str>::empty();
    b.add_uniform_buffer("uniform");
    b.add_buffer("bufB");
    b.add_buffer("bufA");
    b.add_buffer("bufC");
    assert_eq!(b.validate(&tags), Ok(()));
}
