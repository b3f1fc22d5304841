use lean_base::{generate_arg_idents, generate_arg_names, generate_fixed_closure, prettified_fixed_closures};

#[test]
fn arg_idents_and_names() {
    assert_eq!(generate_arg_idents(3), vec!["Arg0", "Arg1", "Arg2"]);
    assert_eq!(generate_arg_names(2), vec!["arg0", "arg1"]);
    assert!(generate_arg_idents(0).is_empty());
    assert_eq!(generate_arg_idents(12)[11], "Arg11");
}

#[test]
fn closure_of_one_argument() {
    let expected = "#[derive(Clone)]\npub struct Closure1<Output: ?Sized, Arg0: ?Sized, >(\n    core::marker::PhantomData<Output>,\n    core::marker::PhantomData<Arg0>, \n);\n\nimpl<Output: ?Sized, Arg0: ?Sized, > crate::TObj<Closure1<Output, Arg0, >> {\n    pub fn invoke(self, arg0: crate::TObj<Arg0>, ) -> crate::TObj<Output> {\n        let f = self.obj.into_raw();\n        unsafe {\n            let res = lean_sys::lean_apply_1(f, arg0.into_raw(), );\n            crate::TObj::from_raw(res)\n        }\n    }\n}\n\n#[cfg(feature = \"nightly\")]\nimpl<Output: ?Sized, Arg0: ?Sized, > FnOnce<(crate::TObj<Arg0>, )> for crate::TObj<Closure1<Output, Arg0, >> {\n    type Output = crate::TObj<Output>;\n    extern \"rust-call\" fn call_once(self, args: (crate::TObj<Arg0>, )) -> Self::Output {\n        self.invoke(args.0, )\n    }\n}\n\n";
    assert_eq!(generate_fixed_closure(1), expected);
}

#[test]
fn closure_of_sixteen_arguments() {
    let s = generate_fixed_closure(16);
    assert!(s.contains("pub struct Closure16<"));
    assert!(s.contains("Arg15: ?Sized, >"));
    assert!(s.contains("lean_sys::lean_apply_16(f, arg0.into_raw(), "));
    assert!(s.contains("self.invoke(args.0, args.1, "));
    assert!(s.contains("args.15, )"));
}

#[test]
fn all_closures_parse_and_format() {
    let text = prettified_fixed_closures().expect("the closure types parse");
    for n in 1..=16 {
        assert!(text.contains(&format!("pub struct Closure{}<", n)));
        assert!(text.contains(&format!("lean_sys::lean_apply_{}(", n)));
    }
    assert!(text.contains("#[cfg(feature = \"nightly\")]"));
    assert!(!text.contains("Closure17"));
    // The printed text is formatted anew, not the generated text handed back.
    assert!(!text.contains(", >"));
    assert_ne!(text.len(), (1..=16).map(|n| generate_fixed_closure(n).len()).sum::<usize>());
}
