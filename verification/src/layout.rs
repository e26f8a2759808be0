//! Declaration of the ordered shape of arguments a kernel expects.
//!
//! A [`SetLayout`] is an append-only sequence of [`SlotDescriptor`]s. The
//! slot id of the i-th declared entry is i; reordering declarations changes
//! the slot ids, which is documented, accepted behavior. The entry-kind tag
//! sequence is the kind projection of the descriptor sequence, so the two
//! can never fall out of step.

use vstd::prelude::*;

use crate::entry_type::EntryType;

verus! {

/// How a storage buffer slot may be accessed by the shader.
#[derive(Clone, Copy, PartialEq, Eq, Structural, Debug)]
pub enum GpuBufferUsage {
    /// The shader only reads the buffer.
    ReadOnly,
    /// The shader may read and write the buffer.
    ReadWrite,
}

/// The pixel format of an image slot.
#[derive(Clone, Copy, PartialEq, Eq, Structural, Debug)]
pub enum PixelFormat {
    /// Four 8-bit unsigned integer channels.
    Rgba8Uint,
    /// Four 8-bit normalized channels.
    Rgba8Unorm,
    /// Four 8-bit normalized channels in the sRGB color space.
    Rgba8UnormSrgb,
}

/// The kind-specific metadata of one binding slot.
#[derive(Clone, Copy, PartialEq, Eq, Structural, Debug)]
pub enum SlotDescriptor {
    /// A storage buffer with the given access mode.
    Buffer { usage: GpuBufferUsage },
    /// A uniform buffer.
    Uniform,
    /// A storage texture the shader can write.
    Image { format: PixelFormat },
    /// A sampled texture the shader can only read.
    ConstImage { format: PixelFormat },
}

impl SlotDescriptor {
    /// The entry-kind tag of this descriptor, used for binding validation.
    pub open spec fn kind(self) -> EntryType {
        match self {
            SlotDescriptor::Buffer { .. } => EntryType::Buffer,
            SlotDescriptor::Uniform => EntryType::Uniform,
            SlotDescriptor::Image { .. } => EntryType::Image,
            SlotDescriptor::ConstImage { .. } => EntryType::ConstImage,
        }
    }

    /// Executable counterpart of [`Self::kind`].
    pub fn entry_type(&self) -> (t: EntryType)
        ensures
            t == self.kind(),
    {
        match self {
            SlotDescriptor::Buffer { .. } => EntryType::Buffer,
            SlotDescriptor::Uniform => EntryType::Uniform,
            SlotDescriptor::Image { .. } => EntryType::Image,
            SlotDescriptor::ConstImage { .. } => EntryType::ConstImage,
        }
    }
}

/// The kind projection of a descriptor sequence: the tag at position i is
/// the kind of the descriptor at position i.
pub open spec fn kinds_of(slots: Seq<SlotDescriptor>) -> Seq<EntryType> {
    slots.map_values(|d: SlotDescriptor| d.kind())
}

/// An ordered, append-only sequence of slot descriptors, consumed by kernel
/// construction. Built either through the four typed append operations or
/// all at once through [`SetLayout::from_slots`].
#[derive(Clone)]
pub struct SetLayout {
    slots: Vec<SlotDescriptor>,
}

impl View for SetLayout {
    type V = Seq<SlotDescriptor>;

    closed spec fn view(&self) -> Seq<SlotDescriptor> {
        self.slots@
    }
}

impl SetLayout {
    /// The layout's entry-kind tag sequence, index-for-index with its
    /// descriptors.
    pub open spec fn tags(&self) -> Seq<EntryType> {
        kinds_of(self@)
    }

    /// An empty layout.
    pub fn new() -> (l: SetLayout)
        ensures
            l@ == Seq::<SlotDescriptor>::empty(),
    {
        SetLayout { slots: Vec::new() }
    }

    /// Builds a layout from an ordered list of slot declarations, appending
    /// each in order; the slot id of `slots[i]` is i.
    pub fn from_slots(slots: Vec<SlotDescriptor>) -> (l: SetLayout)
        ensures
            l@ == slots@,
    {
        SetLayout { slots }
    }

    /// The declared slot descriptors, in declaration order; the slot id of
    /// the i-th is i.
    pub fn slots(&self) -> (s: &Vec<SlotDescriptor>)
        ensures
            s@ == self@,
    {
        &self.slots
    }

    /// The number of declared slots.
    pub fn len(&self) -> (n: usize)
        ensures
            n == self@.len(),
    {
        self.slots.len()
    }

    /// Appends a storage buffer slot with the given access mode.
    pub fn add_buffer(&mut self, usage: GpuBufferUsage)
        ensures
            final(self)@ == old(self)@.push(SlotDescriptor::Buffer { usage }),
            final(self).tags() == old(self).tags().push(EntryType::Buffer),
    {
        self.slots.push(SlotDescriptor::Buffer { usage });
        proof {
            assert(final(self).tags() =~= old(self).tags().push(EntryType::Buffer));
        }
    }

    /// Appends a uniform buffer slot.
    pub fn add_uniform_buffer(&mut self)
        ensures
            final(self)@ == old(self)@.push(SlotDescriptor::Uniform),
            final(self).tags() == old(self).tags().push(EntryType::Uniform),
    {
        self.slots.push(SlotDescriptor::Uniform);
        proof {
            assert(final(self).tags() =~= old(self).tags().push(EntryType::Uniform));
        }
    }

    /// Appends a writable storage texture slot with the given pixel format.
    pub fn add_image(&mut self, format: PixelFormat)
        ensures
            final(self)@ == old(self)@.push(SlotDescriptor::Image { format }),
            final(self).tags() == old(self).tags().push(EntryType::Image),
    {
        self.slots.push(SlotDescriptor::Image { format });
        proof {
            assert(final(self).tags() =~= old(self).tags().push(EntryType::Image));
        }
    }

    /// Appends a read-only sampled texture slot with the given pixel format.
    pub fn add_const_image(&mut self, format: PixelFormat)
        ensures
            final(self)@ == old(self)@.push(SlotDescriptor::ConstImage { format }),
            final(self).tags() == old(self).tags().push(EntryType::ConstImage),
    {
        self.slots.push(SlotDescriptor::ConstImage { format });
        proof {
            assert(final(self).tags() =~= old(self).tags().push(EntryType::ConstImage));
        }
    }

    /// Computes the tag sequence as a vector, in declaration order.
    pub fn entry_types(&self) -> (tags: Vec<EntryType>)
        ensures
            tags@ == self.tags(),
    {
        let mut tags: Vec<EntryType> = Vec::new();
        let n = self.slots.len();
        for i in 0..n
            invariant
                n == self@.len(),
                tags@ == kinds_of(self@.take(i as int)),
        {
            tags.push(self.slots[i].entry_type());
            proof {
                assert(self@.take(i + 1).drop_last() =~= self@.take(i as int));
                assert(tags@ =~= kinds_of(self@.take(i + 1)));
            }
        }
        proof {
            assert(self@.take(n as int) =~= self@);
        }
        tags
    }
}

impl Default for SetLayout {
    /// An empty layout.
    fn default() -> (l: SetLayout)
        ensures
            l@ == Seq::<SlotDescriptor>::empty(),
    {
        SetLayout::new()
    }
}

/// The tag sequence of a layout is exactly the kind projection of its
/// descriptor sequence: both have the same length, and the tag at each
/// position is the kind of the descriptor declared there.
pub proof fn lemma_layout_tags(l: SetLayout)
    ensures
        l.tags().len() == l@.len(),
        forall|i: int| 0 <= i < l@.len() ==> l.tags()[i] == l@[i].kind(),
{
}

} // verus!
