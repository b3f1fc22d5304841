use lean_base::{box_scalar, unbox_scalar, Obj, MAX_CTOR_TAG, STRING_TAG};

#[test]
fn box_small_numbers() {
    assert_eq!(box_scalar(0), 1);
    assert_eq!(box_scalar(5), 11);
    assert_eq!(unbox_scalar(11), 5);
    for n in [0usize, 1, 5, 658948, 1 << (usize::BITS - 2), usize::MAX >> 1] {
        assert_eq!(unbox_scalar(box_scalar(n)), n);
        assert_eq!(box_scalar(n) & 1, 1);
    }
}

#[test]
fn box_loses_top_bit() {
    assert_eq!(unbox_scalar(box_scalar(usize::MAX)), usize::MAX >> 1);
    assert_ne!(unbox_scalar(box_scalar(usize::MAX)), usize::MAX);
}

#[test]
fn scalars_from_numbers_and_booleans() {
    assert_eq!(Obj::from_usize(7), Obj::Scalar(15));
    assert_eq!(Obj::from_bool(true), Obj::Scalar(3));
    assert_eq!(Obj::from_bool(false), Obj::Scalar(1));
    assert_eq!(Obj::nil(), Obj::Scalar(1));
    assert_eq!(Obj::from_usize(7).ctor_tag(), 7);
    assert_eq!(Obj::from_bool(true).unbox(), 1);
}

#[test]
fn ctor_reads_back() {
    let o = Obj::ctor(3, vec![Obj::from_usize(1), Obj::mk_string("x")], vec![7u8]);
    assert_eq!(o.ctor_tag(), 3);
    assert_eq!(o.heap_tag(), 3);
    assert_eq!(*o.ctor_get(0), Obj::from_usize(1));
    assert_eq!(o.ctor_get(1).to_string(), "x");
    assert_eq!(
        o,
        Obj::Ctor { tag: 3, objs: vec![Obj::Scalar(3), Obj::Str("x".to_string())], scalars: vec![7] }
    );
    let m = Obj::ctor(MAX_CTOR_TAG, vec![], vec![]);
    assert_eq!(m.ctor_tag(), 243);
}

#[test]
fn tag_of_scalar_is_truncated_number() {
    let o = Obj::from_usize((1usize << 32) + 2);
    assert_eq!(o.ctor_tag(), 2);
}

#[test]
fn strings_read_back() {
    let s = Obj::mk_string("hello, world");
    assert_eq!(s.to_string(), "hello, world");
    assert_eq!(s.ctor_tag(), STRING_TAG as u32);
    assert_eq!(s.heap_tag(), 249);
    assert_eq!(Obj::mk_string("").to_string(), "");
}

#[test]
fn opaque_cells_keep_their_kind() {
    let o = Obj::Opaque { kind: 245, id: 0x1000 };
    assert_eq!(o.ctor_tag(), 245);
    assert_eq!(o.heap_tag(), 245);
    assert_eq!(o.clone(), o);
}

#[test]
fn clone_copies_nested_cells() {
    let inner = Obj::ctor(1, vec![Obj::mk_string("a"), Obj::nil()], vec![]);
    let outer = Obj::ctor(0, vec![inner, Obj::from_usize(9)], vec![1, 2]);
    let copy = outer.clone();
    assert_eq!(copy, outer);
}
