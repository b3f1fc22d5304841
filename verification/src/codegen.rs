//! Source text of the typed closure types of every arity, for the build.
//!
//! For each arity `n` the text declares `Closure{n}`, a marker type with the
//! output and argument types as parameters, an `invoke` method on typed
//! closure objects of that type, which applies the closure with
//! `lean_apply_{n}`, and (with the `nightly` feature) the matching `FnOnce`
//! implementation.  The text of all arities is parsed as a Rust file with `syn`
//! and printed with `prettyplease`.
use vstd::prelude::*;
use vstd::string::StringExecFns;

verus! {

/// A parsed Rust source file.
#[verifier::external_type_specification]
#[verifier::external_body]
pub struct ExFile(syn::File);

/// A Rust parse error.
#[verifier::external_type_specification]
#[verifier::external_body]
pub struct ExSynError(syn::Error);

/// The file that `syn::parse_str::<syn::File>` makes of `text`, or `None` when
/// it does not parse.  Outside a procedural macro spans carry no positions, so
/// the file is a function of the text alone.
pub uninterp spec fn parsed_rust_file(text: Seq<char>) -> Option<syn::File>;

/// The text that `prettyplease::unparse` prints for `file`.
pub uninterp spec fn printed_rust_file(file: syn::File) -> Seq<char>;

/// The texts whose parsed file `prettyplease` is known to print.
/// `prettyplease::unparse` panics on syntax that `syn` keeps verbatim (such as
/// `dyn*` types or `builtin #` forms); the closure types are written with
/// structs, impls, functions, `let`, an `unsafe` block, paths, generics,
/// tuple types, field accesses and method calls only, and hold none.
pub open spec fn printable_source(text: Seq<char>) -> bool {
    text == closures_source(MAX_CLOSURE_ARITY as nat)
}

/// Parses `text` as a Rust source file with `syn::parse_str::<syn::File>`:
/// the result is the file named by `parsed_rust_file`, or an error exactly
/// when that name gives `None`.
#[verifier::external_body]
fn parse_rust_file(text: &str) -> (r: Result<syn::File, syn::Error>)
    ensures
        r is Ok <==> parsed_rust_file(text@) is Some,
        r matches Ok(f) ==> parsed_rust_file(text@) == Some(f),
{
    syn::parse_str::<syn::File>(text)
}

/// Prints a parsed file with `prettyplease::unparse`; the result is the text
/// named by `printed_rust_file`.  Only files parsed from a text that
/// `printable_source` accepts are taken, since `unparse` panics on others.
#[verifier::external_body]
fn unparse_rust_file(file: &syn::File) -> (r: String)
    requires
        exists|text: Seq<char>|
            printable_source(text) && parsed_rust_file(text) == Some(*file),
    ensures
        r@ == printed_rust_file(*file),
{
    prettyplease::unparse(file)
}

/// The character of a decimal digit.
pub open spec fn digit(d: nat) -> char {
    if d == 0 {
        '0'
    } else if d == 1 {
        '1'
    } else if d == 2 {
        '2'
    } else if d == 3 {
        '3'
    } else if d == 4 {
        '4'
    } else if d == 5 {
        '5'
    } else if d == 6 {
        '6'
    } else if d == 7 {
        '7'
    } else if d == 8 {
        '8'
    } else {
        '9'
    }
}

/// The decimal numeral of `n`, without leading zeros.
pub open spec fn decimal(n: nat) -> Seq<char>
    decreases n,
{
    if n < 10 {
        seq![digit(n)]
    } else {
        decimal(n / 10) + seq![digit(n % 10)]
    }
}

/// Appends the numeral of a digit.
fn push_digit(s: &mut String, d: usize)
    requires
        d < 10,
    ensures
        final(s)@ == old(s)@ + seq![digit(d as nat)],
{
    let text = if d == 0 {
        proof {
            reveal_strlit("0");
        }
        "0"
    } else if d == 1 {
        proof {
            reveal_strlit("1");
        }
        "1"
    } else if d == 2 {
        proof {
            reveal_strlit("2");
        }
        "2"
    } else if d == 3 {
        proof {
            reveal_strlit("3");
        }
        "3"
    } else if d == 4 {
        proof {
            reveal_strlit("4");
        }
        "4"
    } else if d == 5 {
        proof {
            reveal_strlit("5");
        }
        "5"
    } else if d == 6 {
        proof {
            reveal_strlit("6");
        }
        "6"
    } else if d == 7 {
        proof {
            reveal_strlit("7");
        }
        "7"
    } else if d == 8 {
        proof {
            reveal_strlit("8");
        }
        "8"
    } else {
        proof {
            reveal_strlit("9");
        }
        "9"
    };
    assert(text@ =~= seq![digit(d as nat)]);
    s.append(text);
}

/// Appends the decimal numeral of `n`.
fn push_decimal(s: &mut String, n: usize)
    ensures
        final(s)@ == old(s)@ + decimal(n as nat),
    decreases n,
{
    if n >= 10 {
        push_decimal(s, n / 10);
    }
    push_digit(s, n % 10);
    assert(s@ =~= old(s)@ + decimal(n as nat));
}

/// The text `a`, the numeral of `i`, then, when `twice`, `b` and the numeral of
/// `i` again, then `c`.
pub open spec fn piece(i: nat, a: Seq<char>, b: Seq<char>, c: Seq<char>, twice: bool) -> Seq<
    char,
> {
    if twice {
        a + decimal(i) + b + decimal(i) + c
    } else {
        a + decimal(i) + c
    }
}

/// The pieces for `0`, `1`, ..., `k - 1`, one after another.
pub open spec fn pieces(k: nat, a: Seq<char>, b: Seq<char>, c: Seq<char>, twice: bool) -> Seq<
    char,
>
    decreases k,
{
    if k == 0 {
        Seq::empty()
    } else {
        pieces((k - 1) as nat, a, b, c, twice) + piece((k - 1) as nat, a, b, c, twice)
    }
}

/// Appends the pieces for `0`, `1`, ..., `n - 1`.
fn push_pieces(s: &mut String, n: usize, a: &str, b: &str, c: &str, twice: bool)
    ensures
        final(s)@ == old(s)@ + pieces(n as nat, a@, b@, c@, twice),
{
    let mut i: usize = 0;
    while i < n
        invariant
            i <= n,
            s@ == old(s)@ + pieces(i as nat, a@, b@, c@, twice),
        decreases n - i,
    {
        let ghost before = s@;
        s.append(a);
        push_decimal(s, i);
        if twice {
            s.append(b);
            push_decimal(s, i);
        }
        s.append(c);
        proof {
            assert(s@ =~= before + piece(i as nat, a@, b@, c@, twice));
            assert(pieces((i + 1) as nat, a@, b@, c@, twice) == pieces(i as nat, a@, b@, c@, twice)
                + piece(i as nat, a@, b@, c@, twice));
            assert(s@ =~= old(s)@ + pieces((i + 1) as nat, a@, b@, c@, twice));
        }
        i = i + 1;
    }
}

/// The names of the argument types, `Arg0`, ..., `Arg{n-1}`.
pub fn generate_arg_idents(n: usize) -> (r: Vec<String>)
    ensures
        r@.len() == n,
        forall|i: int| 0 <= i < n ==> #[trigger] r@[i]@ == "Arg"@ + decimal(i as nat),
{
    let mut r: Vec<String> = Vec::new();
    let mut i: usize = 0;
    while i < n
        invariant
            i <= n,
            r@.len() == i,
            forall|j: int| 0 <= j < i ==> #[trigger] r@[j]@ == "Arg"@ + decimal(j as nat),
        decreases n - i,
    {
        let mut name = String::from_str("Arg");
        push_decimal(&mut name, i);
        r.push(name);
        i = i + 1;
    }
    r
}

/// The names of the arguments, `arg0`, ..., `arg{n-1}`.
pub fn generate_arg_names(n: usize) -> (r: Vec<String>)
    ensures
        r@.len() == n,
        forall|i: int| 0 <= i < n ==> #[trigger] r@[i]@ == "arg"@ + decimal(i as nat),
{
    let mut r: Vec<String> = Vec::new();
    let mut i: usize = 0;
    while i < n
        invariant
            i <= n,
            r@.len() == i,
            forall|j: int| 0 <= j < i ==> #[trigger] r@[j]@ == "arg"@ + decimal(j as nat),
        decreases n - i,
    {
        let mut name = String::from_str("arg");
        push_decimal(&mut name, i);
        r.push(name);
        i = i + 1;
    }
    r
}

/// `Arg0: ?Sized, Arg1: ?Sized, ...`
pub open spec fn sized_params(n: nat) -> Seq<char> {
    pieces(n, "Arg"@, ""@, ": ?Sized, "@, false)
}

/// `Arg0, Arg1, ...`
pub open spec fn type_args(n: nat) -> Seq<char> {
    pieces(n, "Arg"@, ""@, ", "@, false)
}

/// `crate::TObj<Arg0>, crate::TObj<Arg1>, ...`
pub open spec fn arg_types(n: nat) -> Seq<char> {
    pieces(n, "crate::TObj<Arg"@, ""@, ">, "@, false)
}

/// The text of the closure type of arity `n`.
pub open spec fn closure_source(n: nat) -> Seq<char> {
    "#[derive(Clone)]\n"@ + "pub struct Closure"@ + decimal(n) + "<Output: ?Sized, "@ + sized_params(n)
        + ">(\n    core::marker::PhantomData<Output>,\n    "@ + pieces(
        n,
        "core::marker::PhantomData<Arg"@,
        ""@,
        ">, "@,
        false,
    ) + "\n);\n\nimpl<Output: ?Sized, "@ + sized_params(n) + "> crate::TObj<Closure"@ + decimal(n)
        + "<Output, "@ + type_args(n) + ">> {\n    pub fn invoke(self, "@ + pieces(
        n,
        "arg"@,
        ": crate::TObj<Arg"@,
        ">, "@,
        true,
    ) + ") -> crate::TObj<Output> {\n        let f = self.obj.into_raw();\n        unsafe {\n            let res = "@
        + "lean_sys::lean_apply_"@
        + decimal(n) + "(f, "@ + pieces(n, "arg"@, ""@, ".into_raw(), "@, false)
        + ");\n            crate::TObj::from_raw(res)\n        }\n    }\n}\n\n#[cfg(feature = \"nightly\")]\nimpl<Output: ?Sized, "@
        + sized_params(n) + "> FnOnce<("@ + arg_types(n) + ")> for crate::TObj<Closure"@ + decimal(
        n,
    ) + "<Output, "@ + type_args(n)
        + ">> {\n    type Output = crate::TObj<Output>;\n    extern \"rust-call\" fn call_once(self, args: ("@
        + arg_types(n) + ")) -> Self::Output {\n        self.invoke("@ + pieces(
        n,
        "args."@,
        ""@,
        ", "@,
        false,
    ) + ")\n    }\n}\n\n"@
}

/// The text of the closure type of arity `n`.
pub fn generate_fixed_closure(n: usize) -> (s: String)
    ensures
        s@ == closure_source(n as nat),
{
    let mut s = String::from_str("#[derive(Clone)]\n");
    s.append("pub struct Closure");
    push_decimal(&mut s, n);
    s.append("<Output: ?Sized, ");
    push_pieces(&mut s, n, "Arg", "", ": ?Sized, ", false);
    s.append(">(\n    core::marker::PhantomData<Output>,\n    ");
    push_pieces(&mut s, n, "core::marker::PhantomData<Arg", "", ">, ", false);
    s.append("\n);\n\nimpl<Output: ?Sized, ");
    push_pieces(&mut s, n, "Arg", "", ": ?Sized, ", false);
    s.append("> crate::TObj<Closure");
    push_decimal(&mut s, n);
    s.append("<Output, ");
    push_pieces(&mut s, n, "Arg", "", ", ", false);
    s.append(">> {\n    pub fn invoke(self, ");
    push_pieces(&mut s, n, "arg", ": crate::TObj<Arg", ">, ", true);
    s.append(
        ") -> crate::TObj<Output> {\n        let f = self.obj.into_raw();\n        unsafe {\n            let res = ",
    );
    s.append("lean_sys::lean_apply_");
    push_decimal(&mut s, n);
    s.append("(f, ");
    push_pieces(&mut s, n, "arg", "", ".into_raw(), ", false);
    s.append(
        ");\n            crate::TObj::from_raw(res)\n        }\n    }\n}\n\n#[cfg(feature = \"nightly\")]\nimpl<Output: ?Sized, ",
    );
    push_pieces(&mut s, n, "Arg", "", ": ?Sized, ", false);
    s.append("> FnOnce<(");
    push_pieces(&mut s, n, "crate::TObj<Arg", "", ">, ", false);
    s.append(")> for crate::TObj<Closure");
    push_decimal(&mut s, n);
    s.append("<Output, ");
    push_pieces(&mut s, n, "Arg", "", ", ", false);
    s.append(
        ">> {\n    type Output = crate::TObj<Output>;\n    extern \"rust-call\" fn call_once(self, args: (",
    );
    push_pieces(&mut s, n, "crate::TObj<Arg", "", ">, ", false);
    s.append(")) -> Self::Output {\n        self.invoke(");
    push_pieces(&mut s, n, "args.", "", ", ", false);
    s.append(")\n    }\n}\n\n");
    s
}

/// The arities that closure types are made for.
pub const MAX_CLOSURE_ARITY: usize = 16;

/// The text of the closure types of arities `1` to `k`, one after another.
pub open spec fn closures_source(k: nat) -> Seq<char>
    decreases k,
{
    if k == 0 {
        Seq::empty()
    } else {
        closures_source((k - 1) as nat) + closure_source(k)
    }
}

/// The text of the closure types of arities 1 to 16, parsed by `syn` and
/// printed by `prettyplease`: `None` when `syn` does not parse the text as a
/// Rust file.
pub fn prettified_fixed_closures() -> (r: Option<String>)
    ensures
        r is Some <==> parsed_rust_file(closures_source(MAX_CLOSURE_ARITY as nat)) is Some,
        r matches Some(t) ==> t@ == printed_rust_file(
            parsed_rust_file(closures_source(MAX_CLOSURE_ARITY as nat))->0,
        ),
{
    let mut text = String::new();
    let mut n: usize = 1;
    while n <= MAX_CLOSURE_ARITY
        invariant
            1 <= n <= MAX_CLOSURE_ARITY + 1,
            text@ == closures_source((n - 1) as nat),
        decreases MAX_CLOSURE_ARITY + 1 - n,
    {
        let piece = generate_fixed_closure(n);
        text.append(piece.as_str());
        n = n + 1;
    }
    match parse_rust_file(text.as_str()) {
        Ok(file) => {
            proof {
                assert(printable_source(text@));
            }
            Some(unparse_rust_file(&file))
        },
        Err(_) => None,
    }
}

// ---------------------------------------------------------------------------
// What the generated text says

/// The number a decimal digit character stands for.
pub open spec fn digit_value(c: char) -> int {
    c as int - 48
}

/// The number a string of decimal digits stands for.
pub open spec fn numeral_value(s: Seq<char>) -> int
    decreases s.len(),
{
    if s.len() == 0 {
        0
    } else {
        numeral_value(s.drop_last()) * 10 + digit_value(s.last())
    }
}

/// The numeral of `n` is made of the characters `0` to `9`, starts with `0`
/// only when it is `0` itself, and stands for `n`.
pub proof fn lemma_decimal_numeral(n: nat)
    ensures
        decimal(n).len() >= 1,
        forall|j: int| 0 <= j < decimal(n).len() ==> 48 <= #[trigger] (decimal(n)[j] as int) <= 57,
        n >= 10 ==> decimal(n)[0] != '0',
        numeral_value(decimal(n)) == n,
    decreases n,
{
    let d = (n % 10) as nat;
    assert(digit(d) as int == 48 + d) by {
        if d == 0 {
        } else if d == 1 {
        } else if d == 2 {
        } else if d == 3 {
        } else if d == 4 {
        } else if d == 5 {
        } else if d == 6 {
        } else if d == 7 {
        } else if d == 8 {
        } else {
        }
    }
    reveal_with_fuel(numeral_value, 2);
    if n < 10 {
        assert(decimal(n) =~= seq![digit(n)]);
        assert(decimal(n).drop_last() =~= Seq::<char>::empty());
        assert(numeral_value(decimal(n)) == numeral_value(Seq::<char>::empty()) * 10 + digit_value(
            digit(n),
        ));
    } else {
        let q = n / 10;
        lemma_decimal_numeral(q);
        let s = decimal(n);
        assert(s == decimal(q) + seq![digit(d)]);
        assert(s.drop_last() =~= decimal(q));
        assert(s.last() == digit(d));
        assert(q * 10 + d == n) by (nonlinear_arith)
            requires
                q == n / 10,
                d == n % 10,
        ;
        if q >= 10 {
            assert(s[0] == decimal(q)[0]);
        } else {
            assert(decimal(q) == seq![digit(q)]);
            assert(q >= 1);
            assert(digit(q) as int == 48 + q) by {
                if q == 1 {
                } else if q == 2 {
                } else if q == 3 {
                } else if q == 4 {
                } else if q == 5 {
                } else if q == 6 {
                } else if q == 7 {
                } else if q == 8 {
                } else {
                }
            }
            assert(s[0] == digit(q));
        }
        assert forall|j: int| 0 <= j < s.len() implies 48 <= #[trigger] (s[j] as int) <= 57 by {
            if j < decimal(q).len() {
                assert(s[j] == decimal(q)[j]);
            } else {
                assert(s[j] == digit(d));
            }
        }
    }
}

/// Different numbers have different numerals.
pub proof fn lemma_decimal_injective(m: nat, n: nat)
    ensures
        decimal(m) == decimal(n) ==> m == n,
{
    lemma_decimal_numeral(m);
    lemma_decimal_numeral(n);
}

/// `t` occurs in `s` as a contiguous run of characters.
pub open spec fn contains_text(s: Seq<char>, t: Seq<char>) -> bool {
    exists|k: int|
        0 <= k && k + t.len() <= s.len() && #[trigger] s.subrange(k, k + t.len()) == t
}

proof fn lemma_contains_self(t: Seq<char>)
    ensures
        contains_text(t, t),
{
    assert(t.subrange(0int, 0int + t.len()) =~= t);
}

proof fn lemma_contains_after(a: Seq<char>, s: Seq<char>, t: Seq<char>)
    requires
        contains_text(s, t),
    ensures
        contains_text(a + s, t),
{
    let k = choose|k: int|
        0 <= k && k + t.len() <= s.len() && #[trigger] s.subrange(k, k + t.len()) == t;
    assert((a + s).subrange(a.len() + k, a.len() + k + t.len()) =~= s.subrange(k, k + t.len()));
}

proof fn lemma_contains_before(s: Seq<char>, b: Seq<char>, t: Seq<char>)
    requires
        contains_text(s, t),
    ensures
        contains_text(s + b, t),
{
    let k = choose|k: int|
        0 <= k && k + t.len() <= s.len() && #[trigger] s.subrange(k, k + t.len()) == t;
    assert((s + b).subrange(k, k + t.len()) =~= s.subrange(k, k + t.len()));
}

broadcast proof fn lemma_contains_in_join(a: Seq<char>, b: Seq<char>, t: Seq<char>)
    requires
        contains_text(a, t) || contains_text(b, t),
    ensures
        #[trigger] contains_text(a + b, t),
{
    if contains_text(a, t) {
        lemma_contains_before(a, b, t);
    } else {
        lemma_contains_after(a, b, t);
    }
}

broadcast proof fn lemma_contains_last_three(
    x: Seq<char>,
    l: Seq<char>,
    d: Seq<char>,
    f: Seq<char>,
)
    ensures
        #[trigger] contains_text(((x + l) + d) + f, (l + d) + f),
{
    let s = ((x + l) + d) + f;
    let t = (l + d) + f;
    assert(s.subrange(x.len() as int, x.len() as int + t.len()) =~= t);
}

/// The pieces for `0` to `k - 1` hold the piece for each `i < k`.
proof fn lemma_pieces_contain(k: nat, a: Seq<char>, b: Seq<char>, c: Seq<char>, twice: bool, i: nat)
    requires
        i < k,
    ensures
        contains_text(pieces(k, a, b, c, twice), piece(i, a, b, c, twice)),
    decreases k,
{
    let p = piece(i, a, b, c, twice);
    if i + 1 == k {
        lemma_contains_self(p);
        lemma_contains_after(pieces(i, a, b, c, twice), p, p);
    } else {
        lemma_pieces_contain((k - 1) as nat, a, b, c, twice, i);
        lemma_contains_before(
            pieces((k - 1) as nat, a, b, c, twice),
            piece((k - 1) as nat, a, b, c, twice),
            p,
        );
    }
}

/// The closure type of arity `n` is named `Closure{n}` and calls
/// `lean_apply_{n}`; for each `i < n` it has the type parameter `Arg{i}`, a
/// marker field for it, an `invoke` parameter `arg{i}` of type
/// `crate::TObj<Arg{i}>` (the numeral in the type is the parameter's own), hands
/// `arg{i}` to the runtime, takes `crate::TObj<Arg{i}>` in the `FnOnce`
/// argument tuple and passes `args.{i}` on to `invoke`.
pub proof fn lemma_closure_source_declares(n: nat, i: nat)
    ensures
        contains_text(closure_source(n), "pub struct Closure"@ + decimal(n) + "<Output: ?Sized, "@),
        contains_text(closure_source(n), "lean_sys::lean_apply_"@ + decimal(n) + "(f, "@),
        i < n ==> contains_text(closure_source(n), "Arg"@ + decimal(i) + ": ?Sized, "@),
        i < n ==> contains_text(
            closure_source(n),
            "core::marker::PhantomData<Arg"@ + decimal(i) + ">, "@,
        ),
        i < n ==> contains_text(
            closure_source(n),
            "arg"@ + decimal(i) + ": crate::TObj<Arg"@ + decimal(i) + ">, "@,
        ),
        i < n ==> contains_text(closure_source(n), "arg"@ + decimal(i) + ".into_raw(), "@),
        i < n ==> contains_text(closure_source(n), "crate::TObj<Arg"@ + decimal(i) + ">, "@),
        i < n ==> contains_text(closure_source(n), "args."@ + decimal(i) + ", "@),
{
    broadcast use lemma_contains_in_join, lemma_contains_last_three;

    let name = "pub struct Closure"@ + decimal(n) + "<Output: ?Sized, "@;
    let s = closure_source(n);
    let head = "#[derive(Clone)]\n"@;
    assert(head + "pub struct Closure"@ + decimal(n) + "<Output: ?Sized, "@ =~= head + name);
    lemma_contains_self(name);
    assert(contains_text(s, name));
    let apply = "lean_sys::lean_apply_"@ + decimal(n) + "(f, "@;
    lemma_contains_self(apply);
    if i < n {
        lemma_pieces_contain(n, "Arg"@, ""@, ": ?Sized, "@, false, i);
        lemma_pieces_contain(n, "core::marker::PhantomData<Arg"@, ""@, ">, "@, false, i);
        lemma_pieces_contain(n, "arg"@, ": crate::TObj<Arg"@, ">, "@, true, i);
        lemma_pieces_contain(n, "arg"@, ""@, ".into_raw(), "@, false, i);
        lemma_pieces_contain(n, "crate::TObj<Arg"@, ""@, ">, "@, false, i);
        lemma_pieces_contain(n, "args."@, ""@, ", "@, false, i);
        assert(piece(i, "Arg"@, ""@, ": ?Sized, "@, false) == "Arg"@ + decimal(i) + ": ?Sized, "@);
    }
}

/// The closure types of arities 1 to `m` hold the closure type of each arity
/// from 1 to `m`.
pub proof fn lemma_closures_source_holds(m: nat, k: nat)
    requires
        1 <= k <= m,
    ensures
        contains_text(closures_source(m), closure_source(k)),
    decreases m,
{
    if k == m {
        lemma_contains_self(closure_source(k));
        lemma_contains_after(closures_source((m - 1) as nat), closure_source(k), closure_source(k));
    } else {
        lemma_closures_source_holds((m - 1) as nat, k);
        lemma_contains_before(closures_source((m - 1) as nat), closure_source(m), closure_source(k));
    }
}

} // verus!
