use referent::{ConstPtr, Interface, MutPtr, NoMeta, Plain, PtrExt, Referent, Sequence, Text, TraitObject};

trait Foo {}

struct Bar;

impl Foo for Bar {}

#[test]
fn test_ptr_ext() {
    let ptr = &mut [1, 2, 3];
    let (_, meta) = Referent::disassemble_mut(MutPtr::<Plain<[i32; 3]>>::from_mut(ptr));
    assert_eq!(meta, ptr.meta());

    let bar = Bar;
    let addr = std::ptr::from_ref(&bar) as usize;
    let ptr = TraitObject::from_words([addr, 0x4000]).into_ptr::<dyn Foo>();
    let (_, meta) = Referent::disassemble(ptr);
    assert_eq!(meta, ptr.meta());
}

#[test]
fn every_form_of_a_slice_reference_gives_its_length() {
    let mut items = [10u16, 20, 30, 40, 50];

    let shared: &[u16] = &items;
    let (_, from_split) = Referent::disassemble(ConstPtr::<Sequence<u16>>::from_ref(shared));
    assert_eq!(from_split, 5);
    assert_eq!(shared.meta(), from_split);
    assert_eq!(ConstPtr::<Sequence<u16>>::from_ref(shared).meta(), from_split);

    let exclusive: &mut [u16] = &mut items;
    let raw = MutPtr::<Sequence<u16>>::from_mut(exclusive);
    let (_, from_split_mut) = Referent::disassemble_mut(raw);
    assert_eq!(from_split_mut, 5);
    assert_eq!(raw.meta(), from_split_mut);
    assert_eq!(raw.cast_const().meta(), from_split_mut);
    assert_eq!(exclusive.meta(), from_split_mut);
    assert_eq!(items, [10, 20, 30, 40, 50]);
}

#[test]
fn every_form_of_a_text_reference_gives_its_byte_length() {
    let mut owned = String::from("gr\u{fc}\u{df}e");

    let shared: &str = &owned;
    let (_, from_split) = Referent::disassemble(ConstPtr::<Text>::from_ref(shared));
    assert_eq!(from_split, 7);
    assert_eq!(shared.meta(), 7);
    assert_eq!(ConstPtr::<Text>::from_ref(shared).meta(), 7);

    let exclusive: &mut str = owned.as_mut_str();
    let raw = MutPtr::<Text>::from_mut(exclusive);
    let (_, from_split_mut) = Referent::disassemble_mut(raw);
    assert_eq!(from_split_mut, 7);
    assert_eq!(raw.meta(), 7);
    assert_eq!(exclusive.meta(), 7);
    assert_eq!(owned, "gr\u{fc}\u{df}e");
}

#[test]
fn every_form_of_a_plain_reference_gives_no_metadata() {
    let mut v = 9u8;
    assert_eq!((&v).meta(), NoMeta);
    let raw = ConstPtr::<Plain<u8>>::from_ref(&v);
    let (_, from_split) = Referent::disassemble(raw);
    assert_eq!(raw.meta(), from_split);
    assert_eq!(raw.cast_mut().meta(), from_split);
    assert_eq!((&mut v).meta(), from_split);
    assert_eq!(v, 9);
}

#[test]
fn pointer_forms_of_an_interface_reference_give_its_handle() {
    let handle = TraitObject::from_words([0, 0x8000]).meta();
    let ptr = TraitObject::from_words([0x100, 0x8000]).into_ptr::<dyn Foo>();
    assert_eq!(ptr.meta(), handle);
    assert_eq!(ptr.cast_mut().meta(), handle);
    let (_, from_split) = <Interface<dyn Foo> as Referent>::disassemble_mut(ptr.cast_mut());
    assert_eq!(from_split, handle);
}

#[test]
fn metadata_does_not_depend_on_the_address() {
    for addr in [0usize, 0x10, usize::MAX] {
        let p: ConstPtr<Sequence<u64>> = ConstPtr { addr, meta: 12 };
        assert_eq!(p.meta(), 12);
        let q: MutPtr<Text> = MutPtr { addr, meta: 0 };
        assert_eq!(q.meta(), 0);
    }
}
