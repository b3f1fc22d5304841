//! What each layout writes and reads, stated cell by cell: which constructor
//! tag stands for which case, and which field holds which component.
use vstd::prelude::*;

use crate::object::{box_word, unbox_word, Value};
use crate::typed::{
    Environment, EnvironmentView, Except, ExceptView, IoResult, IoResultView, Layout, List,
    ListView, TObj,
};

verus! {

/// The scalar `box(0)` is the word 1, and `box(1)` the word 3.
pub proof fn lemma_small_boxes()
    ensures
        box_word(0) == 1,
        box_word(1) == 3,
{
    assert(((0usize << 1usize) | 1usize) == 1usize) by (bit_vector);
    assert(((1usize << 1usize) | 1usize) == 3usize) by (bit_vector);
}

/// `List`: `nil` is the scalar word 1 and reads back from every object whose
/// tag is 0; `cons` is a constructor cell of tag 1 whose field 0 is the head and
/// field 1 the tail, and every object of tag 1 with two fields reads back as
/// the `cons` of its field 0 and field 1.
pub proof fn lemma_list_cells<A: ?Sized>(v: List<A>, o: Value, hd: Value, tl: Value)
    ensures
        v matches List::Cons(h, t) ==> v.shape() == ListView::Cons(h@, t@),
        v is Nil ==> v.shape() == ListView::Nil,
        List::<A>::encode(ListView::Nil) == Value::Scalar(1),
        List::<A>::encode(ListView::Cons(hd, tl)) == (Value::Ctor {
            tag: 1,
            objs: seq![hd, tl],
            scalars: Seq::empty(),
        }),
        o.obj_tag() == 0 ==> List::<A>::unpackable(o) && List::<A>::decode(o) == ListView::Nil,
        o.obj_tag() == 1 && o.has_fields(2) ==> List::<A>::unpackable(o) && List::<A>::decode(o)
            == ListView::Cons(o.field(0), o.field(1)),
{
    lemma_small_boxes();
}

/// `IoResult`: success is a constructor cell of tag 0 and error one of tag 1,
/// each holding the payload in field 0 and the world token (the word 1) in
/// field 1; every cell of tag 0 with a field reads back as success of its field
/// 0 and every cell of tag 1 as the error of its field 0, whatever the payload.
pub proof fn lemma_io_result_cells<T: ?Sized>(v: IoResult<T>, o: Value, e: Value)
    ensures
        v matches IoResult::Success(x) ==> v.shape() == IoResultView::Success(x@),
        v matches IoResult::Error(x) ==> v.shape() == IoResultView::Error(x@),
        IoResult::<T>::encode(IoResultView::Success(e)) == (Value::Ctor {
            tag: 0,
            objs: seq![e, Value::Scalar(1)],
            scalars: Seq::empty(),
        }),
        IoResult::<T>::encode(IoResultView::Error(e)) == (Value::Ctor {
            tag: 1,
            objs: seq![e, Value::Scalar(1)],
            scalars: Seq::empty(),
        }),
        o.has_fields(1) && o.heap_tag() == 0 ==> IoResult::<T>::unpackable(o)
            && IoResult::<T>::decode(o) == IoResultView::Success(o.field(0)),
        o.has_fields(1) && o.heap_tag() == 1 ==> IoResult::<T>::unpackable(o)
            && IoResult::<T>::decode(o) == IoResultView::Error(o.field(0)),
{
    lemma_small_boxes();
}

/// `Except`: the error is a constructor cell of tag 0 and the value one of tag
/// 1, each with the payload as its only field; every cell of tag 0 with a field
/// reads back as the error of its field 0 and every cell of tag 1 as the value
/// of its field 0, whatever the payload.
pub proof fn lemma_except_cells<E: ?Sized, T: ?Sized>(v: Except<E, T>, o: Value, e: Value)
    ensures
        v matches Except::Error(x) ==> v.shape() == ExceptView::Error(x@),
        v matches Except::Success(x) ==> v.shape() == ExceptView::Success(x@),
        Except::<E, T>::encode(ExceptView::Error(e)) == (Value::Ctor {
            tag: 0,
            objs: seq![e],
            scalars: Seq::empty(),
        }),
        Except::<E, T>::encode(ExceptView::Success(e)) == (Value::Ctor {
            tag: 1,
            objs: seq![e],
            scalars: Seq::empty(),
        }),
        o.has_fields(1) && o.heap_tag() == 0 ==> Except::<E, T>::unpackable(o)
            && Except::<E, T>::decode(o) == ExceptView::Error(o.field(0)),
        o.has_fields(1) && o.heap_tag() == 1 ==> Except::<E, T>::unpackable(o)
            && Except::<E, T>::decode(o) == ExceptView::Success(o.field(0)),
{
}

/// `Option`: `none` is the scalar word 1 and reads back from every object of
/// tag 0; `some` is a constructor cell of tag 1 with the value as its only
/// field, and every object of tag 1 with a field reads back as `some` of its
/// field 0.
pub proof fn lemma_option_cells<T: ?Sized>(v: Option<TObj<T>>, o: Value, e: Value)
    ensures
        v matches Some(x) ==> v.shape() == Some(x@),
        v is None ==> v.shape() == None::<Value>,
        <Option<TObj<T>> as Layout>::encode(None) == Value::Scalar(1),
        <Option<TObj<T>> as Layout>::encode(Some(e)) == (Value::Ctor {
            tag: 1,
            objs: seq![e],
            scalars: Seq::empty(),
        }),
        o.obj_tag() == 0 ==> <Option<TObj<T>> as Layout>::unpackable(o) && <Option<
            TObj<T>,
        > as Layout>::decode(o) == None::<Value>,
        o.obj_tag() == 1 && o.has_fields(1) ==> <Option<TObj<T>> as Layout>::unpackable(o) && <Option<
            TObj<T>,
        > as Layout>::decode(o) == Some(o.field(0)),
{
    lemma_small_boxes();
}

/// Pairs: a constructor cell of tag 0 with the first component in field 0 and
/// the second in field 1; every cell with two fields reads back as the pair of
/// its field 0 and field 1, in that order.
pub proof fn lemma_pair_cells<A: ?Sized, B: ?Sized>(v: (TObj<A>, TObj<B>), o: Value, a: Value, b: Value)
    ensures
        v.shape() == (v.0@, v.1@),
        <(TObj<A>, TObj<B>) as Layout>::encode((a, b)) == (Value::Ctor {
            tag: 0,
            objs: seq![a, b],
            scalars: Seq::empty(),
        }),
        o.has_fields(2) ==> <(TObj<A>, TObj<B>) as Layout>::unpackable(o) && <(
            TObj<A>,
            TObj<B>,
        ) as Layout>::decode(o) == (o.field(0), o.field(1)),
{
}

/// Booleans: `false` is the scalar word 1 and `true` the word 3; a scalar
/// reads back as `true` exactly when its number is not 0.
pub proof fn lemma_bool_cells(b: bool, w: usize)
    ensures
        b.shape() == b,
        <bool as Layout>::encode(false) == Value::Scalar(1),
        <bool as Layout>::encode(true) == Value::Scalar(3),
        <bool as Layout>::unpackable(Value::Scalar(w)),
        <bool as Layout>::decode(Value::Scalar(w)) == (unbox_word(w) != 0),
{
    lemma_small_boxes();
}

/// `Environment`: a constructor cell of tag 0 whose fields 0 to 4 hold, in this
/// order, the constant-to-module index, the constants, the extensions, the
/// extra constant names and the header; every cell with five fields reads back
/// with each component taken from that field.
pub proof fn lemma_environment_cells(v: Environment, o: Value, e: EnvironmentView)
    ensures
        v.shape().const_to_mod_idx == v.const_to_mod_idx@,
        v.shape().constants == v.constants@,
        v.shape().extensions == v.extensions@,
        v.shape().extra_const_names == v.extra_const_names@,
        v.shape().header == v.header@,
        Environment::encode(e) == (Value::Ctor {
            tag: 0,
            objs: seq![e.const_to_mod_idx, e.constants, e.extensions, e.extra_const_names, e.header],
            scalars: Seq::empty(),
        }),
        o.has_fields(5) ==> Environment::unpackable(o),
        o.has_fields(5) ==> Environment::decode(o).const_to_mod_idx == o.field(0),
        o.has_fields(5) ==> Environment::decode(o).constants == o.field(1),
        o.has_fields(5) ==> Environment::decode(o).extensions == o.field(2),
        o.has_fields(5) ==> Environment::decode(o).extra_const_names == o.field(3),
        o.has_fields(5) ==> Environment::decode(o).header == o.field(4),
{
}

} // verus!
