//! The shapes a reference can have, and how each is split and rebuilt.

use crate::pointer::{ConstPtr, MutPtr, NoMeta};
use core::marker::PhantomData;
use vstd::prelude::*;

verus! {

/// A shape of reference: what its data pointer points at, what metadata
/// completes that pointer, and how the two are combined and separated.
///
/// A shape says in `assembled` and `disassembled` what its two operations
/// give, and proves that neither adds to the parts nor loses any of them.
/// That the two are each other's inverse follows for every shape at once:
/// see [`lemma_disassemble_assemble`] and [`lemma_assemble_disassemble`].
pub trait Referent: Sized {
    /// What the data pointer points at.
    type Data;

    /// What completes a data pointer into a reference of this shape.
    type Meta: Copy;

    /// The reference that `data` and `meta` make up.
    spec fn assembled(data: ConstPtr<Plain<Self::Data>>, meta: Self::Meta) -> ConstPtr<Self>;

    /// The data pointer and the metadata that `fatp` is made of.
    spec fn disassembled(fatp: ConstPtr<Self>) -> (ConstPtr<Plain<Self::Data>>, Self::Meta);

    /// A reference has the address of its data pointer and the metadata it
    /// was made with.
    proof fn lemma_assembled_parts(data: ConstPtr<Plain<Self::Data>>, meta: Self::Meta)
        ensures
            Self::assembled(data, meta).addr == data.addr,
            Self::assembled(data, meta).meta == meta,
    ;

    /// The data pointer of a reference has its address, and its metadata is
    /// the one it carries.
    proof fn lemma_disassembled_parts(fatp: ConstPtr<Self>)
        ensures
            Self::disassembled(fatp).0.addr == fatp.addr,
            Self::disassembled(fatp).1 == fatp.meta,
    ;

    /// Makes a reference from its constituent parts.
    ///
    /// Nothing is checked: that `meta` describes what lies at `data` is for
    /// the caller to know.
    fn assemble(data: ConstPtr<Plain<Self::Data>>, meta: Self::Meta) -> (fatp: ConstPtr<Self>)
        ensures
            fatp == Self::assembled(data, meta),
    ;

    /// Makes a mutable reference from its constituent parts: `assemble` on
    /// the read-only data pointer, recast as mutable.
    fn assemble_mut(data: MutPtr<Plain<Self::Data>>, meta: Self::Meta) -> (fatp: MutPtr<Self>)
        ensures
            ({
                let built = Self::assembled(ConstPtr { addr: data.addr, meta: data.meta }, meta);
                fatp == (MutPtr::<Self> { addr: built.addr, meta: built.meta })
            }),
    {
        let fatp = Self::assemble(ConstPtr { addr: data.addr, meta: data.meta }, meta);
        MutPtr { addr: fatp.addr, meta: fatp.meta }
    }

    /// Breaks a reference down into its constituent parts.
    fn disassemble(fatp: ConstPtr<Self>) -> (parts: (ConstPtr<Plain<Self::Data>>, Self::Meta))
        ensures
            parts == Self::disassembled(fatp),
    ;

    /// Breaks a mutable reference down into its constituent parts:
    /// `disassemble` on the read-only pointer, the data pointer recast as
    /// mutable.
    fn disassemble_mut(fatp: MutPtr<Self>) -> (parts: (MutPtr<Plain<Self::Data>>, Self::Meta))
        ensures
            ({
                let split = Self::disassembled(ConstPtr { addr: fatp.addr, meta: fatp.meta });
                parts == (
                    (MutPtr::<Plain<Self::Data>> { addr: split.0.addr, meta: split.0.meta }),
                    split.1,
                )
            }),
    {
        let (data, meta) = Self::disassemble(ConstPtr { addr: fatp.addr, meta: fatp.meta });
        (MutPtr { addr: data.addr, meta: data.meta }, meta)
    }
}

/// Taking apart what was put together gives the parts back, whatever the
/// shape.
pub proof fn lemma_disassemble_assemble<S: Referent>(data: ConstPtr<Plain<S::Data>>, meta: S::Meta)
    ensures
        S::disassembled(S::assembled(data, meta)) == (data, meta),
{
    let fatp = S::assembled(data, meta);
    S::lemma_assembled_parts(data, meta);
    S::lemma_disassembled_parts(fatp);
    assert(S::disassembled(fatp).0.meta == data.meta);
    assert(S::disassembled(fatp).0 == data);
}

/// Putting together what was taken apart gives the reference back, whatever
/// the shape.
pub proof fn lemma_assemble_disassemble<S: Referent>(fatp: ConstPtr<S>)
    ensures
        S::assembled(S::disassembled(fatp).0, S::disassembled(fatp).1) == fatp,
{
    let parts = S::disassembled(fatp);
    S::lemma_disassembled_parts(fatp);
    S::lemma_assembled_parts(parts.0, parts.1);
}

/// The shape of a reference to a value of a sized type `T`: the address is
/// all there is.
pub struct Plain<T> {
    marker: PhantomData<T>,
}

impl<T> Referent for Plain<T> {
    type Data = T;

    type Meta = NoMeta;

    open spec fn assembled(data: ConstPtr<Plain<T>>, meta: NoMeta) -> ConstPtr<Plain<T>> {
        data
    }

    open spec fn disassembled(fatp: ConstPtr<Plain<T>>) -> (ConstPtr<Plain<T>>, NoMeta) {
        (fatp, NoMeta)
    }

    proof fn lemma_assembled_parts(data: ConstPtr<Plain<T>>, meta: NoMeta) {
    }

    proof fn lemma_disassembled_parts(fatp: ConstPtr<Plain<T>>) {
    }

    fn assemble(data: ConstPtr<Plain<T>>, meta: NoMeta) -> (fatp: ConstPtr<Plain<T>>) {
        data
    }

    fn disassemble(fatp: ConstPtr<Plain<T>>) -> (parts: (ConstPtr<Plain<T>>, NoMeta)) {
        (fatp, NoMeta)
    }
}

/// The shape of a reference to a run of values of type `T`, one after the
/// other: the metadata counts them.
pub struct Sequence<T> {
    marker: PhantomData<T>,
}

impl<T> Referent for Sequence<T> {
    type Data = T;

    type Meta = usize;

    open spec fn assembled(data: ConstPtr<Plain<T>>, meta: usize) -> ConstPtr<Sequence<T>> {
        ConstPtr { addr: data.addr, meta }
    }

    open spec fn disassembled(fatp: ConstPtr<Sequence<T>>) -> (ConstPtr<Plain<T>>, usize) {
        (ConstPtr { addr: fatp.addr, meta: NoMeta }, fatp.meta)
    }

    proof fn lemma_assembled_parts(data: ConstPtr<Plain<T>>, meta: usize) {
    }

    proof fn lemma_disassembled_parts(fatp: ConstPtr<Sequence<T>>) {
    }

    fn assemble(data: ConstPtr<Plain<T>>, meta: usize) -> (fatp: ConstPtr<Sequence<T>>) {
        ConstPtr { addr: data.addr, meta }
    }

    fn disassemble(fatp: ConstPtr<Sequence<T>>) -> (parts: (ConstPtr<Plain<T>>, usize)) {
        (ConstPtr { addr: fatp.addr, meta: NoMeta }, fatp.meta)
    }
}

/// The shape of a reference to text: a run of bytes taken as encoded text,
/// the metadata being its length in bytes. The encoding is not looked at.
pub struct Text;

impl ConstPtr<Text> {
    /// The same reference, taken as one to the bytes of the text.
    pub open spec fn as_bytes(self) -> ConstPtr<Sequence<u8>> {
        ConstPtr { addr: self.addr, meta: self.meta }
    }
}

impl ConstPtr<Sequence<u8>> {
    /// The same reference, its bytes taken as text.
    pub open spec fn as_text(self) -> ConstPtr<Text> {
        ConstPtr { addr: self.addr, meta: self.meta }
    }
}

impl Referent for Text {
    type Data = u8;

    type Meta = usize;

    open spec fn assembled(data: ConstPtr<Plain<u8>>, meta: usize) -> ConstPtr<Text> {
        Sequence::<u8>::assembled(data, meta).as_text()
    }

    open spec fn disassembled(fatp: ConstPtr<Text>) -> (ConstPtr<Plain<u8>>, usize) {
        Sequence::<u8>::disassembled(fatp.as_bytes())
    }

    proof fn lemma_assembled_parts(data: ConstPtr<Plain<u8>>, meta: usize) {
    }

    proof fn lemma_disassembled_parts(fatp: ConstPtr<Text>) {
    }

    fn assemble(data: ConstPtr<Plain<u8>>, meta: usize) -> (fatp: ConstPtr<Text>) {
        let bytes = Sequence::<u8>::assemble(data, meta);
        ConstPtr { addr: bytes.addr, meta: bytes.meta }
    }

    fn disassemble(fatp: ConstPtr<Text>) -> (parts: (ConstPtr<Plain<u8>>, usize)) {
        Sequence::<u8>::disassemble(ConstPtr { addr: fatp.addr, meta: fatp.meta })
    }
}

} // verus!
