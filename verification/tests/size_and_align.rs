use referent::{Layout, NoMeta, Plain, PtrExt, Sequence, Text};
use std::mem;

fn check<'a, T: ?Sized>(r: &'a T)
where
    &'a T: PtrExt,
    <&'a T as PtrExt>::Referred: Layout,
{
    assert_eq!(<<&'a T as PtrExt>::Referred as Layout>::size_of_val(r.meta()), mem::size_of_val(r));

    assert_eq!(<<&'a T as PtrExt>::Referred as Layout>::align_of_val(r.meta()), mem::align_of_val(r));
}

#[test]
fn test_same_size_and_align() {
    check("foo");
    check(&"foo");
    check(&[1, 2, 3]);
    check(&String::from("yolo"));
    check(&1);
}

#[test]
fn slices_and_texts_measure_as_the_machine_measures_them() {
    check(&[1u8, 2, 3][..]);
    check(&[1u64, 2, 3, 4, 5][..]);
    check(&[(1u8, 2u32); 7][..]);
    check::<[u32]>(&[]);
    check::<[()]>(&[(), (), ()]);
    check("");
    check("h\u{e9}llo \u{4e16}\u{754c}");
    check(String::from("owned").as_str());
    check(vec![1i16; 33].as_slice());
}

#[test]
fn plain_sizes() {
    assert_eq!(<Plain<u8> as Layout>::size_of_val(NoMeta), 1);
    assert_eq!(<Plain<u8> as Layout>::align_of_val(NoMeta), 1);
    assert_eq!(<Plain<u32> as Layout>::size_of_val(NoMeta), 4);
    assert_eq!(<Plain<u64> as Layout>::size_of_val(NoMeta), 8);
    assert_eq!(<Plain<[u16; 5]> as Layout>::size_of_val(NoMeta), 10);
    assert_eq!(<Plain<[u16; 5]> as Layout>::align_of_val(NoMeta), 2);
    assert_eq!(<Plain<()> as Layout>::size_of_val(NoMeta), 0);
    assert_eq!(<Plain<()> as Layout>::align_of_val(NoMeta), 1);
    assert_eq!(<Plain<usize> as Layout>::size_of_val(NoMeta), mem::size_of::<usize>());
}

#[test]
fn sequence_size_is_count_times_item_size() {
    assert_eq!(<Sequence<u32> as Layout>::size_of_val(5), 20);
    assert_eq!(<Sequence<u32> as Layout>::align_of_val(5), 4);
    assert_eq!(<Sequence<u32> as Layout>::size_of_val(0), 0);
    assert_eq!(<Sequence<u32> as Layout>::align_of_val(0), 4);
    assert_eq!(<Sequence<u8> as Layout>::size_of_val(usize::MAX), usize::MAX);
    assert_eq!(<Sequence<()> as Layout>::size_of_val(usize::MAX), 0);
    assert_eq!(<Sequence<[u8; 3]> as Layout>::size_of_val(7), 21);
    assert_eq!(<Sequence<[u8; 3]> as Layout>::align_of_val(7), 1);
    assert_eq!(<Sequence<u16> as Layout>::size_of_val(usize::MAX / 2), usize::MAX - 1);
}

#[test]
fn text_size_is_its_byte_length() {
    assert_eq!(<Text as Layout>::size_of_val(7), 7);
    assert_eq!(<Text as Layout>::align_of_val(7), 1);
    assert_eq!(<Text as Layout>::size_of_val(0), 0);
    assert_eq!(<Text as Layout>::align_of_val(0), 1);
    assert_eq!(<Text as Layout>::size_of_val(usize::MAX), usize::MAX);
    assert_eq!(<Text as Layout>::size_of_val(13), <Sequence<u8> as Layout>::size_of_val(13));
    assert_eq!(<Text as Layout>::align_of_val(13), <Sequence<u8> as Layout>::align_of_val(13));
}

#[test]
fn size_and_alignment_do_not_depend_on_the_address() {
    let a = [1u32, 2, 3];
    let b = vec![7u32, 8, 9];
    let from_a = <Sequence<u32> as Layout>::size_of_val(a[..].meta());
    let from_b = <Sequence<u32> as Layout>::size_of_val(b.as_slice().meta());
    assert_eq!(from_a, 12);
    assert_eq!(from_a, from_b);
}
