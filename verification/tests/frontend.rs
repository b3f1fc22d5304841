use lean_base::{
    eval_result, frontend_environment, import_list, lakefile_path, Environment, Except, Layout, Name, Obj, TObj,
};

fn import_obj(name: &str) -> Obj {
    Obj::ctor(0, vec![Obj::mk_string(name)], vec![0u8])
}

#[test]
fn import_list_puts_last_module_first() {
    let names: Vec<TObj<Name>> =
        vec![TObj::new(Obj::mk_string("Init")), TObj::new(Obj::mk_string("Lean"))];
    let list = import_list(&names).into_obj();
    let expected = Obj::ctor(
        1,
        vec![import_obj("Lean"), Obj::ctor(1, vec![import_obj("Init"), Obj::nil()], vec![])],
        vec![],
    );
    assert_eq!(list, expected);
}

#[test]
fn import_list_of_nothing_is_nil() {
    let names: Vec<TObj<Name>> = Vec::new();
    assert_eq!(import_list(&names).into_obj(), Obj::nil());
}

#[test]
fn eval_result_value_and_error() {
    let ok: TObj<Except<str, ()>> = Except::Success(TObj::new(Obj::from_usize(12))).pack();
    let v: Result<TObj<str>, TObj<str>> = eval_result(ok);
    assert_eq!(v.ok().map(|t| t.into_obj()), Some(Obj::from_usize(12)));
    let err: TObj<Except<str, ()>> = Except::Error(TObj::<str>::new_str("unknown constant")).pack();
    match eval_result::<str>(err) {
        Err(msg) => assert_eq!(msg.as_str(), "unknown constant"),
        Ok(_) => panic!("expected an error"),
    }
}

fn env() -> Environment {
    Environment {
        const_to_mod_idx: Obj::from_usize(0),
        constants: Obj::from_usize(1),
        extensions: Obj::from_usize(2),
        extra_const_names: Obj::from_usize(3),
        header: Obj::from_usize(4),
    }
}

#[test]
fn frontend_environment_needs_success_flag() {
    let good = (env().pack(), true.pack()).pack();
    let e = frontend_environment(good).expect("environment");
    assert_eq!(e.unpack().header, Obj::from_usize(4));
    let bad = (env().pack(), false.pack()).pack();
    assert!(frontend_environment(bad).is_none());
}

#[test]
fn lakefile_path_appends_file_name() {
    assert_eq!(lakefile_path("."), "./lakefile.lean");
    assert_eq!(lakefile_path("/home/pkg"), "/home/pkg/lakefile.lean");
}
