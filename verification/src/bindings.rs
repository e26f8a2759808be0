//! Per-dispatch capture of concrete resources and their entry-kind tags.
//!
//! A [`SetBindings`] is an append-only sequence of [`BindingArg`]s, built
//! fresh for each dispatch. The slot id of the i-th appended argument is i,
//! assigned from append order independently of any layout's numbering;
//! correctness depends on the caller keeping the two orders aligned. No
//! validation happens while appending: it is deferred to dispatch, where
//! [`SetBindings::validate`] compares the tag sequence against the kernel's.
//!
//! The resource payload is an arbitrary type parameter: the validation
//! logic reads only the tags and carries the resources through untouched.

use vstd::prelude::*;

use crate::entry_type::EntryType;
use crate::gpu::Framework;

verus! {

/// One captured dispatch argument: an opaque resource payload together
/// with the entry-kind tag it is bound under.
pub struct BindingArg<R> {
    /// The captured resource (for a real dispatch, a device binding view).
    pub resource: R,
    /// The kind this resource is bound as.
    pub kind: EntryType,
}

/// The tag projection of an argument sequence: the tag at position i is
/// the kind of the argument at position i.
pub open spec fn tags_of<R>(args: Seq<BindingArg<R>>) -> Seq<EntryType> {
    args.map_values(|a: BindingArg<R>| a.kind)
}

/// Why a bindings value was rejected against a kernel's tag sequence.
#[derive(Clone, Copy, PartialEq, Eq, Structural, Debug)]
pub enum BindingError {
    /// The bindings hold a different number of entries than the layout
    /// declared.
    LengthMismatch {
        /// The number of slots the layout declared.
        expected: usize,
        /// The number of arguments actually bound.
        actual: usize,
    },
    /// The binding at `index` is of a different kind than the layout
    /// declared there; `index` is the first such position.
    KindMismatch {
        /// The first offending position.
        index: usize,
        /// The kind the layout declared at that position.
        expected: EntryType,
        /// The kind actually bound there.
        actual: EntryType,
    },
}

/// What a [`BindingError`] reports of the bound tag sequence against the
/// declared one: a length mismatch carries both lengths, and a kind
/// mismatch carries the first differing position with the two kinds there.
pub open spec fn mismatch_reported(
    bound: Seq<EntryType>,
    declared: Seq<EntryType>,
    e: BindingError,
) -> bool {
    match e {
        BindingError::LengthMismatch { expected, actual } => {
            &&& bound.len() != declared.len()
            &&& expected == declared.len()
            &&& actual == bound.len()
        },
        BindingError::KindMismatch { index, expected, actual } => {
            &&& bound.len() == declared.len()
            &&& index < declared.len()
            &&& expected == declared[index as int]
            &&& actual == bound[index as int]
            &&& expected != actual
            &&& forall|j: int| 0 <= j < index ==> bound[j] == declared[j]
        },
    }
}

/// Binds concrete resources, in order, for one dispatch.
pub struct SetBindings<R> {
    args: Vec<BindingArg<R>>,
}

impl<R> View for SetBindings<R> {
    type V = Seq<BindingArg<R>>;

    closed spec fn view(&self) -> Seq<BindingArg<R>> {
        self.args@
    }
}

impl<R> SetBindings<R> {
    /// The bindings' entry-kind tag sequence, in append order.
    pub open spec fn tags(&self) -> Seq<EntryType> {
        tags_of(self@)
    }

    /// An empty bindings value.
    pub fn empty() -> (b: SetBindings<R>)
        ensures
            b@ == Seq::<BindingArg<R>>::empty(),
    {
        SetBindings { args: Vec::new() }
    }

    /// The batch constructor: appends every argument of `args` in order.
    pub fn new(args: Vec<BindingArg<R>>) -> (b: SetBindings<R>)
        ensures
            b@ == args@,
    {
        SetBindings { args }
    }

    /// The number of bound arguments.
    pub fn len(&self) -> (n: usize)
        ensures
            n == self@.len(),
    {
        self.args.len()
    }

    /// Appends one argument; its slot id is the previous length.
    pub fn add_arg(&mut self, arg: BindingArg<R>)
        ensures
            final(self)@ == old(self)@.push(arg),
            final(self).tags() == old(self).tags().push(arg.kind),
    {
        self.args.push(arg);
        proof {
            assert(final(self).tags() =~= old(self).tags().push(arg.kind));
        }
    }

    /// Appends a resource bound as a storage buffer.
    pub fn add_buffer(&mut self, resource: R)
        ensures
            final(self)@ == old(self)@.push(
                (BindingArg { resource, kind: EntryType::Buffer }),
            ),
            final(self).tags() == old(self).tags().push(EntryType::Buffer),
    {
        self.add_arg(BindingArg { resource, kind: EntryType::Buffer });
    }

    /// Appends a resource bound as a uniform buffer.
    pub fn add_uniform_buffer(&mut self, resource: R)
        ensures
            final(self)@ == old(self)@.push(
                (BindingArg { resource, kind: EntryType::Uniform }),
            ),
            final(self).tags() == old(self).tags().push(EntryType::Uniform),
    {
        self.add_arg(BindingArg { resource, kind: EntryType::Uniform });
    }

    /// Appends a resource bound as a writable storage texture.
    pub fn add_image(&mut self, resource: R)
        ensures
            final(self)@ == old(self)@.push(
                (BindingArg { resource, kind: EntryType::Image }),
            ),
            final(self).tags() == old(self).tags().push(EntryType::Image),
    {
        self.add_arg(BindingArg { resource, kind: EntryType::Image });
    }

    /// Appends a resource bound as a read-only sampled texture.
    pub fn add_const_image(&mut self, resource: R)
        ensures
            final(self)@ == old(self)@.push(
                (BindingArg { resource, kind: EntryType::ConstImage }),
            ),
            final(self).tags() == old(self).tags().push(EntryType::ConstImage),
    {
        self.add_arg(BindingArg { resource, kind: EntryType::ConstImage });
    }

    /// Computes the tag sequence as a vector, in append order.
    pub fn entry_types(&self) -> (tags: Vec<EntryType>)
        ensures
            tags@ == self.tags(),
    {
        let mut tags: Vec<EntryType> = Vec::new();
        let n = self.args.len();
        for i in 0..n
            invariant
                n == self@.len(),
                tags@ == tags_of(self@.take(i as int)),
        {
            tags.push(self.args[i].kind);
            proof {
                assert(self@.take(i + 1).drop_last() =~= self@.take(i as int));
                assert(tags@ =~= tags_of(self@.take(i + 1)));
            }
        }
        proof {
            assert(self@.take(n as int) =~= self@);
        }
        tags
    }

    /// Validates these bindings against a layout's tag sequence.
    ///
    /// Succeeds exactly when the two tag sequences are equal element-wise.
    /// Otherwise it reports a length mismatch, or the first position whose
    /// kinds differ together with the two kinds.
    pub fn validate(&self, entry_types: &Vec<EntryType>) -> (r: Result<(), BindingError>)
        ensures
            r is Ok <==> self.tags() == entry_types@,
            match r {
                Ok(()) => self.tags() == entry_types@,
                Err(e) => mismatch_reported(self.tags(), entry_types@, e),
            },
    {
        let n = self.args.len();
        if n != entry_types.len() {
            return Err(
                BindingError::LengthMismatch { expected: entry_types.len(), actual: n },
            );
        }
        for i in 0..n
            invariant
                n == self@.len(),
                n == entry_types@.len(),
                forall|j: int| 0 <= j < i ==> self.tags()[j] == entry_types@[j],
        {
            let bound = self.args[i].kind;
            let declared = entry_types[i];
            if bound != declared {
                return Err(
                    BindingError::KindMismatch { index: i, expected: declared, actual: bound },
                );
            }
        }
        proof {
            assert(self.tags() =~= entry_types@);
        }
        Ok(())
    }
}

/// Relies on `wgpu::Device::create_bind_group`: instantiates one fresh
/// bind group pairing `layout` with the captured resource views, the i-th
/// argument at slot id i. Nothing is claimed of the opaque result.
#[verifier::external_body]
fn create_bind_group<'res>(
    fw: &Framework,
    layout: &wgpu::BindGroupLayout,
    args: &Vec<BindingArg<wgpu::BindingResource<'res>>>,
) -> wgpu::BindGroup {
    let entries: Vec<wgpu::BindGroupEntry> = args.iter().enumerate().map(
        |(i, a)| wgpu::BindGroupEntry { binding: i as u32, resource: a.resource.clone() },
    ).collect();
    fw.device.create_bind_group(
        &wgpu::BindGroupDescriptor { label: None, layout, entries: &entries },
    )
}

impl<'res> SetBindings<wgpu::BindingResource<'res>> {
    /// Validates these bindings against the tag sequence `entry_types` that
    /// a kernel stored from its layout and, exactly when they match, pairs
    /// the kernel's compiled bind group layout with the captured resources
    /// in one fresh device bind group. On a mismatch nothing reaches the
    /// device and the first offense is reported.
    pub fn to_bind_group(
        &self,
        fw: &Framework,
        layout: &wgpu::BindGroupLayout,
        entry_types: &Vec<EntryType>,
    ) -> (r: Result<wgpu::BindGroup, BindingError>)
        ensures
            r is Ok <==> self.tags() == entry_types@,
            match r {
                Ok(_) => self.tags() == entry_types@,
                Err(e) => mismatch_reported(self.tags(), entry_types@, e),
            },
    {
        match self.validate(entry_types) {
            Ok(()) => Ok(create_bind_group(fw, layout, &self.args)),
            Err(e) => Err(e),
        }
    }
}

impl<R> Default for SetBindings<R> {
    /// An empty bindings value.
    fn default() -> (b: SetBindings<R>)
        ensures
            b@ == Seq::<BindingArg<R>>::empty(),
    {
        SetBindings::empty()
    }
}

/// The tag sequence of a bindings value is exactly the kind projection of
/// its argument sequence: both have the same length, and the tag at each
/// position is the kind the argument there was appended with.
pub proof fn lemma_bindings_tags<R>(b: SetBindings<R>)
    ensures
        b.tags().len() == b@.len(),
        forall|i: int| 0 <= i < b@.len() ==> b.tags()[i] == b@[i].kind,
{
}

} // verus!
