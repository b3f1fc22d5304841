//! The decisions of the front-end driver: the import list handed to the module
//! importer, the value of an evaluated constant, and the environment that an
//! elaboration run left behind.
use vstd::prelude::*;
use vstd::string::StringExecFns;

use crate::object::{lemma_obj_views, nil_value, obj_views, Obj, Value};
use crate::typed::{
    Environment, Except, ExceptView, Import, Layout, List, Name, Pair, TObj,
};

verus! {

/// The `Import` cell for a module name: constructor 0 with the name and one
/// scalar byte, `runtimeOnly := false`.
pub open spec fn import_value(name: Value) -> Value {
    Value::Ctor { tag: 0, objs: seq![name], scalars: seq![0u8] }
}

/// The list of imports for the module names `names`, each new import put in
/// front of those before it (so the last name comes first).
pub open spec fn imports_value(names: Seq<Value>) -> Value
    decreases names.len(),
{
    if names.len() == 0 {
        nil_value()
    } else {
        Value::ctor(1, seq![import_value(names.last()), imports_value(names.drop_last())])
    }
}

/// The models of a sequence of typed objects.
pub open spec fn name_values(names: Seq<TObj<Name>>) -> Seq<Value> {
    Seq::new(names.len(), |i: int| names[i]@)
}

/// The `j`-th element of a list object: follow `j` tails, then take the head.
pub open spec fn list_element(o: Value, j: nat) -> Value
    decreases j,
{
    if j == 0 {
        o.field(0)
    } else {
        list_element(o.field(1), (j - 1) as nat)
    }
}

/// `o` is a list of exactly `n` cells: `n` constructor cells of tag 1 with two
/// fields and no scalar bytes, each the tail of the one before, ending in the
/// scalar word 1 (`box(0)`).
pub open spec fn is_list_of_length(o: Value, n: nat) -> bool
    decreases n,
{
    if n == 0 {
        o == Value::Scalar(1)
    } else {
        &&& o is Ctor
        &&& o->Ctor_tag == 1
        &&& o->objs.len() == 2
        &&& o->scalars.len() == 0
        &&& is_list_of_length(o.field(1), (n - 1) as nat)
    }
}

/// The import list of `names` holds one import per name, and its `j`-th
/// element is the import of the name `j` places from the end: constructor 0
/// with that name and the scalar byte 0.
pub proof fn lemma_import_list_elements(names: Seq<TObj<Name>>)
    ensures
        is_list_of_length(imports_value(name_values(names)), names.len()),
        forall|j: int|
            0 <= j < names.len() ==> #[trigger] list_element(
                imports_value(name_values(names)),
                j as nat,
            ) == (Value::Ctor {
                tag: 0,
                objs: seq![names[names.len() - 1 - j]@],
                scalars: seq![0u8],
            }),
    decreases names.len(),
{
    let nv = name_values(names);
    if names.len() == 0 {
        crate::layout_laws::lemma_small_boxes();
    } else {
        let rest = names.drop_last();
        lemma_import_list_elements(rest);
        assert(name_values(rest) =~= nv.drop_last());
        let o = imports_value(nv);
        assert(o.field(1) == imports_value(name_values(rest)));
        assert forall|j: int| 0 <= j < names.len() implies #[trigger] list_element(o, j as nat)
            == (Value::Ctor {
            tag: 0,
            objs: seq![names[names.len() - 1 - j]@],
            scalars: seq![0u8],
        }) by {
            if j == 0 {
                assert(nv.last() == names[names.len() - 1]@);
            } else {
                assert(list_element(o, j as nat) == list_element(
                    imports_value(name_values(rest)),
                    (j - 1) as nat,
                ));
                assert(rest[rest.len() - 1 - (j - 1)] == names[names.len() - 1 - j]);
            }
        }
    }
}

/// Builds the import list for the given module names, in the order in which the
/// importer expects it.
pub fn import_list(names: &Vec<TObj<Name>>) -> (r: TObj<List<Import>>)
    ensures
        r@ == imports_value(name_values(names@)),
{
    let mut imports: TObj<List<Import>> = List::Nil.pack();
    let mut i: usize = 0;
    while i < names.len()
        invariant
            i <= names.len(),
            imports@ == imports_value(name_values(names@).take(i as int)),
        decreases names.len() - i,
    {
        let name = names[i].clone();
        let ghost name_view = name@;
        let mut fields: Vec<Obj> = Vec::new();
        fields.push(name.into_obj());
        let mut scalars: Vec<u8> = Vec::new();
        scalars.push(0u8);
        proof {
            lemma_obj_views(fields@);
            assert(obj_views(fields@) =~= seq![name_view]);
            assert(scalars@ =~= seq![0u8]);
        }
        let import: TObj<Import> = TObj::new(Obj::ctor(0, fields, scalars));
        imports = List::Cons(import, imports).pack();
        proof {
            let taken = name_values(names@).take(i + 1);
            assert(taken.drop_last() =~= name_values(names@).take(i as int));
            assert(taken.last() == name_view);
        }
        i = i + 1;
    }
    proof {
        assert(name_values(names@).take(names.len() as int) =~= name_values(names@));
    }
    imports
}

/// The path of the Lake file in the package directory `dir`.
pub fn lakefile_path(dir: &str) -> (r: String)
    ensures
        r@ == dir@ + "/lakefile.lean"@,
{
    let mut path = String::from_str(dir);
    path.append("/lakefile.lean");
    path
}

/// The value of an evaluated constant, or the error message of the evaluation.
pub fn eval_result<T: ?Sized>(res: TObj<Except<str, ()>>) -> (r: Result<TObj<T>, TObj<str>>)
    requires
        Except::<str, ()>::unpackable(res@),
    ensures
        match Except::<str, ()>::decode(res@) {
            ExceptView::Success(v) => r matches Ok(t) && t@ == v,
            ExceptView::Error(e) => r matches Err(s) && s@ == e,
        },
{
    match res.unpack() {
        Except::Success(val) => Ok(TObj::new(val.into_obj())),
        Except::Error(s) => Err(s),
    }
}

/// The environment that an elaboration run produced, if the run reported no
/// error: the run's result is the environment paired with the success flag.
pub fn frontend_environment(res: TObj<Pair<Environment, bool>>) -> (r: Option<TObj<Environment>>)
    requires
        <Pair<Environment, bool> as Layout>::unpackable(res@),
    ensures
        r is Some <==> <bool as Layout>::decode(res@.field(1)),
        r matches Some(env) ==> env@ == res@.field(0),
{
    let (env, ok) = res.unpack();
    if ok.unpack() {
        Some(env)
    } else {
        None
    }
}

} // verus!
