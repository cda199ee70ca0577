//! The metadata of a reference, whatever form the reference comes in.

use crate::pointer::{ConstPtr, MutPtr, NoMeta};
use crate::shape::{Plain, Referent, Sequence, Text};
use vstd::prelude::*;
use vstd::string::StringSliceAdditionalSpecFns;

verus! {

/// A form of reference from which the metadata can be read: a pointer,
/// read-only or mutable, or a borrow, shared or exclusive.
pub trait PtrExt: Sized {
    /// The shape of what is referred to.
    type Referred: Referent;

    /// The metadata that the reference carries.
    spec fn meta_of(self) -> <Self::Referred as Referent>::Meta;

    /// Reads the metadata off the reference: the reference is taken as a
    /// read-only pointer and split, and the data pointer is dropped.
    fn meta(self) -> (meta: <Self::Referred as Referent>::Meta)
        ensures
            meta == self.meta_of(),
    ;
}

impl<S: Referent> PtrExt for ConstPtr<S> {
    type Referred = S;

    open spec fn meta_of(self) -> S::Meta {
        S::disassembled(self).1
    }

    fn meta(self) -> (meta: S::Meta) {
        let (_, meta) = S::disassemble(self);
        meta
    }
}

impl<S: Referent> PtrExt for MutPtr<S> {
    type Referred = S;

    open spec fn meta_of(self) -> S::Meta {
        self.as_const().meta_of()
    }

    fn meta(self) -> (meta: S::Meta) {
        self.cast_const().meta()
    }
}

impl<'a, T> PtrExt for &'a T {
    type Referred = Plain<T>;

    open spec fn meta_of(self) -> NoMeta {
        NoMeta
    }

    fn meta(self) -> (meta: NoMeta) {
        ConstPtr::<Plain<T>>::from_ref(self).meta()
    }
}

impl<'a, T> PtrExt for &'a mut T {
    type Referred = Plain<T>;

    open spec fn meta_of(self) -> NoMeta {
        NoMeta
    }

    fn meta(self) -> (meta: NoMeta) {
        MutPtr::<Plain<T>>::from_mut(self).meta()
    }
}

impl<'a, T> PtrExt for &'a [T] {
    type Referred = Sequence<T>;

    open spec fn meta_of(self) -> usize {
        self@.len() as usize
    }

    fn meta(self) -> (meta: usize) {
        ConstPtr::<Sequence<T>>::from_ref(self).meta()
    }
}

impl<'a, T> PtrExt for &'a mut [T] {
    type Referred = Sequence<T>;

    open spec fn meta_of(self) -> usize {
        self@.len() as usize
    }

    fn meta(self) -> (meta: usize) {
        MutPtr::<Sequence<T>>::from_mut(self).meta()
    }
}

impl<'a> PtrExt for &'a str {
    type Referred = Text;

    open spec fn meta_of(self) -> usize {
        self.spec_bytes().len() as usize
    }

    fn meta(self) -> (meta: usize) {
        ConstPtr::<Text>::from_ref(self).meta()
    }
}

impl<'a> PtrExt for &'a mut str {
    type Referred = Text;

    open spec fn meta_of(self) -> usize {
        self.spec_bytes().len() as usize
    }

    fn meta(self) -> (meta: usize) {
        MutPtr::<Text>::from_mut(self).meta()
    }
}

/// The metadata read off a pointer is the metadata that the pointer carries,
/// whatever the shape.
pub proof fn lemma_meta_of_ptr<S: Referent>(ptr: ConstPtr<S>)
    ensures
        ptr.meta_of() == ptr.meta,
        ptr.as_mut().meta_of() == ptr.meta,
{
    S::lemma_disassembled_parts(ptr);
    crate::pointer::lemma_cast_mut_then_const(ptr);
}

/// A reference made of a data pointer and a metadata value gives that value
/// back as its metadata, read-only or mutable, whatever the shape.
pub proof fn lemma_meta_of_assembled<S: Referent>(data: ConstPtr<Plain<S::Data>>, meta: S::Meta)
    ensures
        S::assembled(data, meta).meta_of() == meta,
        S::assembled(data, meta).as_mut().meta_of() == meta,
{
    S::lemma_assembled_parts(data, meta);
    lemma_meta_of_ptr(S::assembled(data, meta));
}

} // verus!
