//! References to interface values: a data address and the handle of a
//! dispatch table, held as the two machine words of such a reference.

use crate::pointer::{ConstPtr, MutPtr, NoMeta};
use crate::shape::{Plain, Referent};
use core::marker::PhantomData;
use vstd::prelude::*;

verus! {

/// The handle of a dispatch table: the word that tells which implementation
/// stands behind an interface value. It is carried, never looked into.
#[derive(Clone, Copy, PartialEq, Eq, Debug)]
pub struct Meta(usize);

impl View for Meta {
    type V = usize;

    /// The word that the handle holds.
    closed spec fn view(&self) -> usize {
        self.0
    }
}

/// A reference to an interface value as its two words: first the address of
/// the data, then the dispatch table's.
#[derive(Clone, Copy)]
pub struct TraitObject {
    data: usize,
    vtable: usize,
}

impl View for TraitObject {
    type V = (usize, usize);

    /// The data word and the table word, in this order.
    closed spec fn view(&self) -> (usize, usize) {
        (self.data, self.vtable)
    }
}

/// A handle is nothing but its word.
pub proof fn lemma_meta_by_view(a: Meta, b: Meta)
    ensures
        a@ == b@ <==> a == b,
{
}

/// A reference to an interface value is nothing but its two words.
pub proof fn lemma_trait_object_by_view(a: TraitObject, b: TraitObject)
    ensures
        a@ == b@ <==> a == b,
{
}

impl TraitObject {
    /// The two-word reference with `data` for its data word and what `meta`
    /// holds for its table word.
    pub fn construct(data: MutPtr<Plain<()>>, meta: Meta) -> (object: TraitObject)
        ensures
            object@ == (data.addr, meta@),
    {
        TraitObject { data: data.addr, vtable: meta.0 }
    }

    /// The data word, as a pointer to nothing in particular.
    pub fn data(self) -> (data: MutPtr<Plain<()>>)
        ensures
            data == (MutPtr::<Plain<()>> { addr: self@.0, meta: NoMeta }),
    {
        MutPtr { addr: self.data, meta: NoMeta }
    }

    /// The table word, as a handle.
    pub fn meta(self) -> (meta: Meta)
        ensures
            meta@ == self@.1,
    {
        Meta(self.vtable)
    }

    /// Takes the two words of a reference to an interface value as they lie
    /// in memory.
    pub fn from_words(words: [usize; 2]) -> (object: TraitObject)
        ensures
            object@ == (words@[0], words@[1]),
    {
        TraitObject { data: words[0], vtable: words[1] }
    }

    /// The two words as they lie in memory.
    pub fn into_words(self) -> (words: [usize; 2])
        ensures
            words@ == seq![self@.0, self@.1],
    {
        [self.data, self.vtable]
    }

    /// Reads a reference to a value behind the interface `I` as its two
    /// words.
    pub fn from_ptr<I: ?Sized>(fatp: ConstPtr<Interface<I>>) -> (object: TraitObject)
        ensures
            object@ == (fatp.addr, fatp.meta@),
    {
        TraitObject { data: fatp.addr, vtable: fatp.meta.0 }
    }

    /// Reads the two words as a reference to a value behind the interface
    /// `I`.
    pub fn into_ptr<I: ?Sized>(self) -> (fatp: ConstPtr<Interface<I>>)
        ensures
            fatp.addr == self@.0,
            fatp.meta@ == self@.1,
    {
        ConstPtr { addr: self.data, meta: Meta(self.vtable) }
    }
}

/// The shape of a reference to a value known only by the interface `I` that
/// it implements: the metadata is the handle of its dispatch table.
pub struct Interface<I: ?Sized> {
    marker: PhantomData<I>,
}

impl<I: ?Sized> Referent for Interface<I> {
    type Data = ();

    type Meta = Meta;

    open spec fn assembled(data: ConstPtr<Plain<()>>, meta: Meta) -> ConstPtr<Interface<I>> {
        ConstPtr { addr: data.addr, meta }
    }

    open spec fn disassembled(fatp: ConstPtr<Interface<I>>) -> (ConstPtr<Plain<()>>, Meta) {
        (ConstPtr { addr: fatp.addr, meta: NoMeta }, fatp.meta)
    }

    proof fn lemma_assembled_parts(data: ConstPtr<Plain<()>>, meta: Meta) {
    }

    proof fn lemma_disassembled_parts(fatp: ConstPtr<Interface<I>>) {
    }

    fn assemble(data: ConstPtr<Plain<()>>, meta: Meta) -> (fatp: ConstPtr<Interface<I>>) {
        let fatp = TraitObject::construct(data.cast_mut(), meta).into_ptr::<I>();
        proof {
            lemma_meta_by_view(fatp.meta, meta);
        }
        fatp
    }

    fn disassemble(fatp: ConstPtr<Interface<I>>) -> (parts: (ConstPtr<Plain<()>>, Meta)) {
        let object = TraitObject::from_ptr(fatp);
        let meta = object.meta();
        proof {
            lemma_meta_by_view(meta, fatp.meta);
        }
        (object.data().cast_const(), meta)
    }
}

} // verus!
