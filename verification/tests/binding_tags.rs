use gpgpu::{BindingArg, EntryType, SetBindings};

#[test]
fn empty_bindings_have_no_tags() {
    let b = SetBindings::<u32>::empty();
    assert_eq!(b.len(), 0);
    assert_eq!(b.entry_types().len(), 0);
}

#[test]
fn binding_tags_follow_append_order() {
    let mut b = SetBindings::<u32>::empty();
    b.add_buffer(10);
    b.add_uniform_buffer(11);
    b.add_image(12);
    b.add_const_image(13);
    assert_eq!(b.len(), 4);
    let tags = b.entry_types();
    assert_eq!(tags.len(), 4);
    assert_eq!(tags[0], EntryType::Buffer);
    assert_eq!(tags[1], EntryType::Uniform);
    assert_eq!(tags[2], EntryType::Image);
    assert_eq!(tags[3], EntryType::ConstImage);
}

#[test]
fn batch_constructor_keeps_order() {
    let b = SetBindings::new(vec![
        BindingArg { resource: "uniform", kind: EntryType::Uniform },
        BindingArg { resource: "image", kind: EntryType::Image },
        BindingArg { resource: "buffer", kind: EntryType::Buffer },
    ]);
    assert_eq!(b.len(), 3);
    let tags = b.entry_types();
    assert_eq!(tags[0], EntryType::Uniform);
    assert_eq!(tags[1], EntryType::Image);
    assert_eq!(tags[2], EntryType::Buffer);
}

#[test]
fn add_arg_records_the_given_kind() {
    let mut b = SetBindings::<i64>::default();
    b.add_arg(BindingArg { resource: -1, kind: EntryType::ConstImage });
    b.add_arg(BindingArg { resource: -2, kind: EntryType::Uniform });
    let tags = b.entry_types();
    assert_eq!(tags, vec![EntryType::ConstImage, EntryType::Uniform]);
}
