//! Size and alignment of a value, told from the metadata of a reference to
//! it alone.

use crate::pointer::NoMeta;
use crate::ptr_ext::PtrExt;
use crate::shape::{Plain, Referent, Sequence, Text};
use vstd::layout::{align_of, size_of, spec_align_of_val, spec_size_of_val};
use vstd::prelude::*;

verus! {

/// A shape whose metadata alone tells how many bytes a value takes and how
/// it must be aligned, whatever the address.
///
/// The shapes of interface values are not among them: their size and
/// alignment stand in the dispatch table, which only the machine reads.
pub trait Layout: Referent {
    /// The size in bytes of a value that `meta` describes.
    spec fn size_for(meta: Self::Meta) -> nat;

    /// The alignment in bytes of a value that `meta` describes.
    spec fn align_for(meta: Self::Meta) -> nat;

    /// Whether the size of a value that `meta` describes is one that a
    /// `usize` can hold.
    spec fn measurable(meta: Self::Meta) -> bool;

    /// The size in bytes of a value that `meta` describes.
    fn size_of_val(meta: Self::Meta) -> (size: usize)
        requires
            Self::measurable(meta),
        ensures
            size == Self::size_for(meta),
    ;

    /// The alignment in bytes of a value that `meta` describes.
    fn align_of_val(meta: Self::Meta) -> (align: usize)
        ensures
            align == Self::align_for(meta),
    ;
}

impl<T> Layout for Plain<T> {
    open spec fn size_for(meta: NoMeta) -> nat {
        size_of::<T>()
    }

    open spec fn align_for(meta: NoMeta) -> nat {
        align_of::<T>()
    }

    open spec fn measurable(meta: NoMeta) -> bool {
        true
    }

    fn size_of_val(meta: NoMeta) -> (size: usize) {
        core::mem::size_of::<T>()
    }

    fn align_of_val(meta: NoMeta) -> (align: usize) {
        core::mem::align_of::<T>()
    }
}

impl<T> Layout for Sequence<T> {
    open spec fn size_for(meta: usize) -> nat {
        meta as nat * size_of::<T>()
    }

    open spec fn align_for(meta: usize) -> nat {
        align_of::<T>()
    }

    open spec fn measurable(meta: usize) -> bool {
        meta as nat * size_of::<T>() <= usize::MAX
    }

    fn size_of_val(meta: usize) -> (size: usize) {
        let each: usize = core::mem::size_of::<T>();
        meta * each
    }

    fn align_of_val(meta: usize) -> (align: usize) {
        core::mem::align_of::<T>()
    }
}

impl Layout for Text {
    open spec fn size_for(meta: usize) -> nat {
        meta as nat
    }

    open spec fn align_for(meta: usize) -> nat {
        1
    }

    open spec fn measurable(meta: usize) -> bool {
        true
    }

    fn size_of_val(meta: usize) -> (size: usize) {
        meta
    }

    fn align_of_val(meta: usize) -> (align: usize) {
        1
    }
}

/// Text is laid out as the run of its bytes.
pub proof fn lemma_text_layout_is_byte_layout(meta: usize)
    ensures
        Text::size_for(meta) == Sequence::<u8>::size_for(meta),
        Text::align_for(meta) == Sequence::<u8>::align_for(meta),
{
    broadcast use {vstd::layout::layout_of_primitives, vstd::layout::align_of_u8};

}

/// The size and alignment told from the metadata of a borrowed slice are
/// those of the slice itself.
pub proof fn lemma_layout_of_borrowed_slice<T>(slice: &[T])
    requires
        slice@.len() <= usize::MAX,
    ensures
        Sequence::<T>::size_for(slice.meta_of()) == spec_size_of_val::<[T]>(slice),
        Sequence::<T>::align_for(slice.meta_of()) == spec_align_of_val::<[T]>(slice),
{
    vstd::layout::layout_of_slices(slice);
}

/// The alignment told from the metadata of a borrowed text is that of the
/// text itself.
pub proof fn lemma_align_of_borrowed_text(text: &str)
    ensures
        Text::align_for(text.meta_of()) == spec_align_of_val::<str>(text),
{
    broadcast use vstd::layout::align_of_u8;

    vstd::layout::layout_of_str(text);
}

} // verus!
