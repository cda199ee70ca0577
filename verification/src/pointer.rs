//! Pointers as data: an address and the metadata of the shape pointed at.

use crate::shape::{Plain, Referent};
use vstd::prelude::*;

verus! {

/// The metadata of a shape that needs none: the address alone is the whole
/// reference.
#[derive(Clone, Copy, PartialEq, Eq, Debug)]
pub struct NoMeta;

/// A read-only pointer to a value of shape `S`.
pub struct ConstPtr<S: Referent> {
    /// Where the data starts.
    pub addr: usize,
    /// What completes the address into a reference to an `S`.
    pub meta: S::Meta,
}

/// A pointer to a value of shape `S` through which the value may be changed.
pub struct MutPtr<S: Referent> {
    /// Where the data starts.
    pub addr: usize,
    /// What completes the address into a reference to an `S`.
    pub meta: S::Meta,
}

impl<S: Referent> Clone for ConstPtr<S> {
    fn clone(&self) -> (copy: Self)
        ensures
            copy == *self,
    {
        ConstPtr { addr: self.addr, meta: self.meta }
    }
}

impl<S: Referent> Copy for ConstPtr<S> {

}

impl<S: Referent> Clone for MutPtr<S> {
    fn clone(&self) -> (copy: Self)
        ensures
            copy == *self,
    {
        MutPtr { addr: self.addr, meta: self.meta }
    }
}

impl<S: Referent> Copy for MutPtr<S> {

}

impl<S: Referent> ConstPtr<S> {
    /// The same pointer, with leave to write.
    pub open spec fn as_mut(self) -> MutPtr<S> {
        MutPtr { addr: self.addr, meta: self.meta }
    }

    /// Recasts the pointer as a mutable one. Address and metadata stay.
    pub fn cast_mut(self) -> (ptr: MutPtr<S>)
        ensures
            ptr == self.as_mut(),
    {
        MutPtr { addr: self.addr, meta: self.meta }
    }
}

impl<S: Referent> MutPtr<S> {
    /// The same pointer, read-only.
    pub open spec fn as_const(self) -> ConstPtr<S> {
        ConstPtr { addr: self.addr, meta: self.meta }
    }

    /// Recasts the pointer as a read-only one. Address and metadata stay.
    pub fn cast_const(self) -> (ptr: ConstPtr<S>)
        ensures
            ptr == self.as_const(),
    {
        ConstPtr { addr: self.addr, meta: self.meta }
    }
}

impl<T> ConstPtr<Plain<T>> {
    /// The read-only pointer to a sized value that holds `addr`: an address
    /// is all that such a pointer is made of.
    pub fn from_addr(addr: usize) -> (ptr: Self)
        ensures
            ptr == (ConstPtr::<Plain<T>> { addr, meta: NoMeta }),
    {
        ConstPtr { addr, meta: NoMeta }
    }
}

impl<T> MutPtr<Plain<T>> {
    /// The mutable pointer to a sized value that holds `addr`: an address is
    /// all that such a pointer is made of.
    pub fn from_addr(addr: usize) -> (ptr: Self)
        ensures
            ptr == (MutPtr::<Plain<T>> { addr, meta: NoMeta }),
    {
        MutPtr { addr, meta: NoMeta }
    }
}

/// Recasting a read-only pointer as mutable and back changes nothing.
pub proof fn lemma_cast_mut_then_const<S: Referent>(ptr: ConstPtr<S>)
    ensures
        ptr.as_mut().as_const() == ptr,
{
}

/// Recasting a mutable pointer as read-only and back changes nothing.
pub proof fn lemma_cast_const_then_mut<S: Referent>(ptr: MutPtr<S>)
    ensures
        ptr.as_const().as_mut() == ptr,
{
}

} // verus!
