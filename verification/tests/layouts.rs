use lean_base::{
    Environment, Except, Import, IoResult, Layout, LeanOption, List, Name, Obj, Options, Pair,
    TObj,
};

fn scalar_obj<A: ?Sized>(n: usize) -> TObj<A> {
    TObj::new(Obj::from_usize(n))
}

#[test]
fn list_nil_is_box_zero() {
    let t: TObj<List<Name>> = List::Nil.pack();
    assert_eq!(t.clone().into_obj(), Obj::Scalar(1));
    assert!(matches!(t.unpack(), List::Nil));
}

#[test]
fn list_cons_round_trips() {
    let tail: TObj<List<Name>> = List::Nil.pack();
    let t = List::Cons(scalar_obj::<Name>(4), tail).pack();
    let o = t.clone().into_obj();
    assert_eq!(o, Obj::ctor(1, vec![Obj::from_usize(4), Obj::nil()], vec![]));
    match t.unpack() {
        List::Cons(hd, tl) => {
            assert_eq!(hd.into_obj(), Obj::from_usize(4));
            assert_eq!(tl.into_obj(), Obj::nil());
        }
        List::Nil => panic!("expected a cons cell"),
    }
}

#[test]
fn list_unpack_of_ctor_tag_zero_is_nil() {
    let t: TObj<List<Name>> = TObj::new(Obj::ctor(0, vec![], vec![]));
    assert!(matches!(t.unpack(), List::Nil));
}

#[test]
fn io_result_layout() {
    let ok = IoResult::<Name>::Success(scalar_obj(2)).pack();
    assert_eq!(ok.clone().into_obj(), Obj::ctor(0, vec![Obj::from_usize(2), Obj::nil()], vec![]));
    assert!(matches!(ok.unpack(), IoResult::Success(v) if v.clone().into_obj() == Obj::from_usize(2)));
    let err = IoResult::<Name>::Error(Obj::mk_string("boom")).pack();
    assert_eq!(
        err.clone().into_obj(),
        Obj::ctor(1, vec![Obj::mk_string("boom"), Obj::nil()], vec![])
    );
    assert!(matches!(err.unpack(), IoResult::Error(e) if e == Obj::mk_string("boom")));
}

#[test]
fn except_layout() {
    let ok: TObj<Except<str, Name>> = Except::Success(scalar_obj(8)).pack();
    assert_eq!(ok.clone().into_obj(), Obj::ctor(1, vec![Obj::from_usize(8)], vec![]));
    assert!(matches!(ok.unpack(), Except::Success(v) if v.clone().into_obj() == Obj::from_usize(8)));
    let err: TObj<Except<str, Name>> = Except::Error(TObj::<str>::new_str("bad")).pack();
    assert_eq!(err.clone().into_obj(), Obj::ctor(0, vec![Obj::mk_string("bad")], vec![]));
    match err.unpack() {
        Except::Error(s) => assert_eq!(s.as_str(), "bad"),
        Except::Success(_) => panic!("expected an error"),
    }
}

#[test]
fn option_layout() {
    let none: LeanOption<Name> = None;
    let packed = none.pack();
    assert_eq!(packed.clone().into_obj(), Obj::nil());
    assert!(packed.unpack().is_none());
    let some: LeanOption<Name> = Some(scalar_obj(6));
    let t = some.pack();
    assert_eq!(t.clone().into_obj(), Obj::ctor(1, vec![Obj::from_usize(6)], vec![]));
    assert!(matches!(t.unpack(), Some(v) if v.clone().into_obj() == Obj::from_usize(6)));
    let heap_none: TObj<LeanOption<Name>> = TObj::new(Obj::ctor(0, vec![], vec![]));
    assert!(heap_none.unpack().is_none());
}

#[test]
fn pair_layout() {
    let p: Pair<Name, Options> = (scalar_obj(1), scalar_obj(2));
    let t = p.pack();
    assert_eq!(
        t.clone().into_obj(),
        Obj::ctor(0, vec![Obj::from_usize(1), Obj::from_usize(2)], vec![])
    );
    let (a, b) = t.unpack();
    assert_eq!(a.into_obj(), Obj::from_usize(1));
    assert_eq!(b.into_obj(), Obj::from_usize(2));
}

#[test]
fn bool_layout() {
    for b in [true, false] {
        let t = b.pack();
        assert_eq!(t.clone().into_obj(), Obj::from_bool(b));
        assert_eq!(t.unpack(), b);
    }
    let big: TObj<bool> = TObj::new(Obj::from_usize(42));
    assert!(big.unpack());
    let cell: TObj<bool> = TObj::new(Obj::ctor(0, vec![], vec![]));
    assert!(cell.unpack());
}

#[test]
fn can_unpack_matches_layouts() {
    let nil: TObj<List<Name>> = TObj::new(Obj::nil());
    assert!(nil.can_unpack());
    let short: TObj<List<Name>> = TObj::new(Obj::ctor(1, vec![Obj::nil()], vec![]));
    assert!(!short.can_unpack());
    let text: TObj<List<Name>> = TObj::new(Obj::mk_string("x"));
    assert!(!text.can_unpack());
    let scalar_io: TObj<IoResult<Name>> = TObj::new(Obj::nil());
    assert!(!scalar_io.can_unpack());
    let env: TObj<Environment> = TObj::new(Obj::ctor(0, vec![Obj::nil(); 4], vec![]));
    assert!(!env.can_unpack());
    let none: TObj<LeanOption<Name>> = TObj::new(Obj::nil());
    assert!(none.can_unpack());
}

#[test]
fn environment_layout() {
    let env = Environment {
        const_to_mod_idx: Obj::from_usize(0),
        constants: Obj::from_usize(1),
        extensions: Obj::mk_string("ext"),
        extra_const_names: Obj::nil(),
        header: Obj::from_usize(4),
    };
    let t = env.pack();
    assert_eq!(
        t.clone().into_obj(),
        Obj::ctor(
            0,
            vec![
                Obj::from_usize(0),
                Obj::from_usize(1),
                Obj::mk_string("ext"),
                Obj::nil(),
                Obj::from_usize(4)
            ],
            vec![]
        )
    );
    let back = t.unpack();
    assert_eq!(back.constants, Obj::from_usize(1));
    assert_eq!(back.extensions, Obj::mk_string("ext"));
    assert_eq!(back.header, Obj::from_usize(4));
}

#[test]
fn typed_objects_keep_their_object() {
    let t: TObj<Import> = TObj::from_obj(Obj::mk_string("m"));
    let r = t.as_ref();
    let owned = r.to_owned();
    assert_eq!(owned.into_obj(), Obj::mk_string("m"));
    let c = t.clone();
    assert_eq!(c.into_obj(), t.into_obj());
    let s = TObj::<str>::new_str("lean");
    assert_eq!(s.as_str(), "lean");
}
