//! Pointers made from borrowed values.
//!
//! A borrow of a value is a reference that the language vouches for. Turned
//! into a pointer it keeps its metadata, which the value itself tells; its
//! address is wherever the value happens to lie.

use crate::pointer::{ConstPtr, MutPtr, NoMeta};
use crate::ptr_ext::PtrExt;
use crate::shape::{Plain, Sequence, Text};
use vstd::prelude::*;
use vstd::string::StringSliceAdditionalSpecFns;

verus! {

/// The address at which a borrowed value lies, from `core::ptr::from_ref`.
/// Where a value lies is for the machine to choose, so nothing is claimed of
/// the number.
#[verifier::external_body]
fn address_of<T>(value: &T) -> (addr: usize) {
    core::ptr::from_ref(value) as usize
}

/// The address at which the first item of a slice lies, from the slice's
/// `as_ptr`. Nothing is claimed of the number.
#[verifier::external_body]
fn address_of_slice<T>(slice: &[T]) -> (addr: usize) {
    slice.as_ptr() as usize
}

/// The address at which the first byte of a text lies, from `str::as_ptr`.
/// Nothing is claimed of the number.
#[verifier::external_body]
fn address_of_str(text: &str) -> (addr: usize) {
    text.as_ptr() as usize
}

impl<T> ConstPtr<Plain<T>> {
    /// The pointer that a borrow of a sized value turns into: the pointer
    /// that holds the address at which the value lies, whichever that is.
    pub fn from_ref(value: &T) -> (ptr: Self)
        ensures
            ptr.meta == NoMeta,
            ptr.meta_of() == value.meta_of(),
    {
        ConstPtr::from_addr(address_of(value))
    }
}

impl<T> ConstPtr<Sequence<T>> {
    /// The pointer that a borrow of a slice turns into: its metadata is the
    /// number of items.
    pub fn from_ref(slice: &[T]) -> (ptr: Self)
        ensures
            ptr.meta == slice@.len(),
            ptr.meta_of() == slice.meta_of(),
    {
        ConstPtr { addr: address_of_slice(slice), meta: slice.len() }
    }
}

impl ConstPtr<Text> {
    /// The pointer that a borrow of a text turns into: its metadata is the
    /// number of bytes of the encoded text.
    pub fn from_ref(text: &str) -> (ptr: Self)
        ensures
            ptr.meta == text.spec_bytes().len() as usize,
            ptr.meta_of() == text.meta_of(),
    {
        ConstPtr { addr: address_of_str(text), meta: text.len() }
    }
}

impl<T> MutPtr<Plain<T>> {
    /// The pointer that an exclusive borrow of a sized value turns into: the
    /// pointer that holds the address at which the value lies, whichever
    /// that is. The value is left as it is.
    pub fn from_mut(value: &mut T) -> (ptr: Self)
        ensures
            ptr.meta == NoMeta,
            ptr.meta_of() == old(value).meta_of(),
            *final(value) == *old(value),
    {
        MutPtr::from_addr(address_of(&*value))
    }
}

impl<T> MutPtr<Sequence<T>> {
    /// The pointer that an exclusive borrow of a slice turns into: its
    /// metadata is the number of items. The slice is left as it is.
    pub fn from_mut(slice: &mut [T]) -> (ptr: Self)
        ensures
            ptr.meta == old(slice)@.len(),
            ptr.meta_of() == old(slice).meta_of(),
            final(slice)@ == old(slice)@,
    {
        MutPtr { addr: address_of_slice(&*slice), meta: slice.len() }
    }
}

impl MutPtr<Text> {
    /// The pointer that an exclusive borrow of a text turns into: its
    /// metadata is the number of bytes of the encoded text. The text is left
    /// as it is.
    pub fn from_mut(text: &mut str) -> (ptr: Self)
        ensures
            ptr.meta == old(text).spec_bytes().len() as usize,
            ptr.meta_of() == old(text).meta_of(),
            final(text)@ == old(text)@,
    {
        MutPtr { addr: address_of_str(&*text), meta: text.len() }
    }
}

} // verus!
