//! Typed Lean objects and the layouts of Lean's inductive types.
use std::marker::PhantomData;
use vstd::prelude::*;

use crate::object::{
    box_word, lemma_obj_views, lemma_unbox_box, nil_value, obj_views, unbox_scalar, unbox_word, Obj,
    Value,
};

verus! {

/// A Rust type with a Lean object layout: how a value is packed into a Lean
/// object and unpacked from one.
pub trait Layout: Sized {
    /// The mathematical model of a value, as far as its layout sees it.
    type Shape;

    /// The model of this value.
    spec fn shape(&self) -> Self::Shape;

    /// The object that packing a value with model `v` gives.
    spec fn encode(v: Self::Shape) -> Value;

    /// The objects that `unpack_obj` accepts.
    spec fn unpackable(o: Value) -> bool;

    /// The model of the value that unpacking `o` gives.
    spec fn decode(o: Value) -> Self::Shape;

    /// The objects that the type's own constructors build.
    spec fn canonical(o: Value) -> bool;

    /// Packs a value into an object.
    fn pack_obj(v: Self) -> (o: Obj)
        ensures
            o@ == Self::encode(v.shape()),
    ;

    /// Whether `unpack_obj` accepts `o`.
    fn unpackable_obj(o: &Obj) -> (r: bool)
        ensures
            r == Self::unpackable(o@),
    ;

    /// Unpacks a value from an object.
    fn unpack_obj(o: Obj) -> (v: Self)
        requires
            Self::unpackable(o@),
        ensures
            v.shape() == Self::decode(o@),
    ;

    /// Packs a value into a typed object.
    fn pack(self) -> (t: TObj<Self>)
        ensures
            t@ == Self::encode(self.shape()),
    {
        TObj::new(Self::pack_obj(self))
    }

    /// Unpacking a packed value gives the value back.
    proof fn lemma_unpack_pack(v: Self::Shape)
        ensures
            Self::unpackable(Self::encode(v)),
            Self::decode(Self::encode(v)) == v,
    ;

    /// Packing an unpacked canonical object gives the object back.
    proof fn lemma_pack_unpack(o: Value)
        requires
            Self::unpackable(o),
            Self::canonical(o),
        ensures
            Self::encode(Self::decode(o)) == o,
    ;
}

/// A Lean object that holds a value of type `A`.
pub struct TObj<A: ?Sized> {
    pub(crate) obj: Obj,
    val: PhantomData<A>,
}

/// A borrowed Lean object that holds a value of type `A`.
pub struct TObjRef<'a, A: ?Sized> {
    obj_ref: &'a Obj,
    val: PhantomData<A>,
}

impl<A: ?Sized> View for TObj<A> {
    type V = Value;

    closed spec fn view(&self) -> Value {
        self.obj@
    }
}

impl<'a, A: ?Sized> View for TObjRef<'a, A> {
    type V = Value;

    closed spec fn view(&self) -> Value {
        self.obj_ref@
    }
}

impl<A: ?Sized> Clone for TObj<A> {
    fn clone(&self) -> (r: Self)
        ensures
            r@ == self@,
    {
        TObj { obj: self.obj.clone(), val: PhantomData }
    }
}

impl<'a, A: ?Sized> Clone for TObjRef<'a, A> {
    fn clone(&self) -> (r: Self)
        ensures
            r@ == self@,
    {
        TObjRef { obj_ref: self.obj_ref, val: PhantomData }
    }
}

impl<'a, A: ?Sized> Copy for TObjRef<'a, A> {

}

impl<'a, A: ?Sized> TObjRef<'a, A> {
    /// An owned copy of the borrowed object.
    pub fn to_owned(self) -> (r: TObj<A>)
        ensures
            r@ == self@,
    {
        TObj::from_obj(self.obj_ref.clone())
    }
}

impl<A: ?Sized> TObj<A> {
    /// Types the object `obj` as holding an `A`.
    pub fn new(obj: Obj) -> (r: Self)
        ensures
            r@ == obj@,
    {
        TObj { obj, val: PhantomData }
    }

    /// Types the object `obj` as holding an `A`.
    pub fn from_obj(obj: Obj) -> (r: Self)
        ensures
            r@ == obj@,
    {
        Self::new(obj)
    }

    /// Borrows the untyped object.
    pub fn as_obj(&self) -> (r: &Obj)
        ensures
            r@ == self@,
    {
        &self.obj
    }

    /// The untyped object.
    pub fn into_obj(self) -> (r: Obj)
        ensures
            r@ == self@,
    {
        self.obj
    }

    /// Whether `unpack` accepts this object.
    pub fn can_unpack(&self) -> (r: bool)
        where
            A: Layout + Sized,
        ensures
            r == A::unpackable(self@),
    {
        A::unpackable_obj(&self.obj)
    }

    /// Unpacks the value that the object holds.
    pub fn unpack(self) -> (r: A)
        where
            A: Layout + Sized,
        requires
            A::unpackable(self@),
        ensures
            r.shape() == A::decode(self@),
    {
        A::unpack_obj(self.obj)
    }

    /// Borrows the object.
    pub fn as_ref(&self) -> (r: TObjRef<'_, A>)
        ensures
            r@ == self@,
    {
        TObjRef { obj_ref: &self.obj, val: PhantomData }
    }
}

impl TObj<str> {
    /// A new Lean string holding `value`.
    pub fn new_str(value: &str) -> (r: Self)
        ensures
            r@ == Value::Str(value@),
    {
        TObj::new(Obj::mk_string(value))
    }

    /// The text of a Lean string.
    pub fn as_str(&self) -> (r: &str)
        requires
            self@ is Str,
        ensures
            r@ == self@->Str_0,
    {
        self.obj.to_string()
    }
}

/// The model of a constructor cell with no scalar bytes and the given fields,
/// built from two objects.
proof fn lemma_two_fields(a: Obj, b: Obj, v: Vec<Obj>)
    requires
        v@ == seq![a, b],
    ensures
        obj_views(v@) == seq![a@, b@],
{
    lemma_obj_views(v@);
    assert(obj_views(v@) =~= seq![a@, b@]);
}

/// Builds the fields of a two-field constructor cell.
fn two_fields(a: Obj, b: Obj) -> (v: Vec<Obj>)
    ensures
        v@.len() == 2,
        obj_views(v@) == seq![a@, b@],
{
    let ghost (ga, gb) = (a, b);
    let mut v: Vec<Obj> = Vec::new();
    v.push(a);
    v.push(b);
    proof {
        assert(v@ =~= seq![ga, gb]);
        lemma_two_fields(ga, gb, v);
    }
    v
}

/// Builds the fields of a one-field constructor cell.
fn one_field(a: Obj) -> (v: Vec<Obj>)
    ensures
        v@.len() == 1,
        obj_views(v@) == seq![a@],
{
    let ghost ga = a;
    let mut v: Vec<Obj> = Vec::new();
    v.push(a);
    proof {
        lemma_obj_views(v@);
        assert(obj_views(v@) =~= seq![ga@]);
    }
    v
}

/// The canonical form of a constructor cell with the given tag and `n` fields
/// and no scalar bytes.
pub open spec fn is_plain_ctor(o: Value, tag: u8, n: nat) -> bool {
    &&& o is Ctor
    &&& o->Ctor_tag == tag
    &&& o->objs.len() == n
    &&& o->scalars.len() == 0
}

/// A plain constructor cell is equal to the one rebuilt from its fields.
proof fn lemma_plain_ctor_eq(o: Value, tag: u8, objs: Seq<Value>)
    requires
        is_plain_ctor(o, tag, objs.len()),
        forall|i: int| 0 <= i < objs.len() ==> o.field(i) == #[trigger] objs[i],
    ensures
        o == Value::ctor(tag, objs),
{
    assert(o->objs =~= objs);
    assert(o->scalars =~= Seq::<u8>::empty());
}

// ---------------------------------------------------------------------------
// Lists
/// `List α`: `nil` is `box(0)`; `cons` is constructor 1 with the head and the tail.
pub enum List<A: ?Sized> {
    Nil,
    Cons(TObj<A>, TObj<List<A>>),
}

/// The model of a list cell.
pub enum ListView {
    Nil,
    Cons(Value, Value),
}

impl<A: ?Sized> View for List<A> {
    type V = ListView;

    open spec fn view(&self) -> ListView {
        match self {
            List::Nil => ListView::Nil,
            List::Cons(hd, tl) => ListView::Cons(hd@, tl@),
        }
    }
}

impl<A: ?Sized> Layout for List<A> {
    type Shape = ListView;

    open spec fn shape(&self) -> ListView {
        self@
    }

    open spec fn encode(v: ListView) -> Value {
        match v {
            ListView::Nil => nil_value(),
            ListView::Cons(hd, tl) => Value::ctor(1, seq![hd, tl]),
        }
    }

    open spec fn unpackable(o: Value) -> bool {
        o.obj_tag() == 0 || (o.obj_tag() == 1 && o.has_fields(2))
    }

    open spec fn decode(o: Value) -> ListView {
        if o.obj_tag() == 0 {
            ListView::Nil
        } else {
            ListView::Cons(o.field(0), o.field(1))
        }
    }

    open spec fn canonical(o: Value) -> bool {
        o == nil_value() || is_plain_ctor(o, 1, 2)
    }

    fn pack_obj(v: Self) -> (o: Obj) {
        match v {
            List::Nil => Obj::nil(),
            List::Cons(hd, tl) => Obj::ctor(1, two_fields(hd.obj, tl.obj), Vec::new()),
        }
    }

    fn unpackable_obj(o: &Obj) -> (r: bool) {
        let tag = o.ctor_tag();
        tag == 0 || (tag == 1 && o.has_fields(2))
    }

    fn unpack_obj(o: Obj) -> (v: Self) {
        if o.ctor_tag() == 0 {
            List::Nil
        } else {
            List::Cons(TObj::new(o.ctor_get(0).clone()), TObj::new(o.ctor_get(1).clone()))
        }
    }

    proof fn lemma_unpack_pack(v: ListView) {
        lemma_unbox_box(0);
    }

    proof fn lemma_pack_unpack(o: Value) {
        if o != nil_value() {
            lemma_plain_ctor_eq(o, 1, seq![o.field(0), o.field(1)]);
        }
    }
}

// ---------------------------------------------------------------------------
// I/O results
/// `EStateM.Result ε σ α` as `IO` uses it: `ok` is constructor 0 and `error`
/// constructor 1; each holds the payload and the world token `box(0)`.
pub enum IoResult<T: ?Sized> {
    Success(TObj<T>),
    Error(Obj),
}

/// The model of an I/O result cell.
pub enum IoResultView {
    Success(Value),
    Error(Value),
}

impl<T: ?Sized> View for IoResult<T> {
    type V = IoResultView;

    open spec fn view(&self) -> IoResultView {
        match self {
            IoResult::Success(e) => IoResultView::Success(e@),
            IoResult::Error(e) => IoResultView::Error(e@),
        }
    }
}

impl<T: ?Sized> Layout for IoResult<T> {
    type Shape = IoResultView;

    open spec fn shape(&self) -> IoResultView {
        self@
    }

    open spec fn encode(v: IoResultView) -> Value {
        match v {
            IoResultView::Success(e) => Value::ctor(0, seq![e, nil_value()]),
            IoResultView::Error(e) => Value::ctor(1, seq![e, nil_value()]),
        }
    }

    open spec fn unpackable(o: Value) -> bool {
        o.has_fields(1) && (o.heap_tag() == 0 || o.heap_tag() == 1)
    }

    open spec fn decode(o: Value) -> IoResultView {
        if o.heap_tag() == 0 {
            IoResultView::Success(o.field(0))
        } else {
            IoResultView::Error(o.field(0))
        }
    }

    open spec fn canonical(o: Value) -> bool {
        &&& is_plain_ctor(o, 0, 2) || is_plain_ctor(o, 1, 2)
        &&& o.field(1) == nil_value()
    }

    fn pack_obj(v: Self) -> (o: Obj) {
        match v {
            IoResult::Success(e) => Obj::ctor(0, two_fields(e.obj, Obj::nil()), Vec::new()),
            IoResult::Error(e) => Obj::ctor(1, two_fields(e, Obj::nil()), Vec::new()),
        }
    }

    fn unpackable_obj(o: &Obj) -> (r: bool) {
        o.has_fields(1) && (o.heap_tag() == 0 || o.heap_tag() == 1)
    }

    fn unpack_obj(o: Obj) -> (v: Self) {
        if o.heap_tag() == 0 {
            IoResult::Success(TObj::new(o.ctor_get(0).clone()))
        } else {
            IoResult::Error(o.ctor_get(0).clone())
        }
    }

    proof fn lemma_unpack_pack(v: IoResultView) {
    }

    proof fn lemma_pack_unpack(o: Value) {
        let tag = o->Ctor_tag;
        lemma_plain_ctor_eq(o, tag, seq![o.field(0), nil_value()]);
    }
}

// ---------------------------------------------------------------------------
// Except
/// `Except ε α`: `error` is constructor 0 and `ok` constructor 1, each with one
/// field.
pub enum Except<E: ?Sized, T: ?Sized> {
    Error(TObj<E>),
    Success(TObj<T>),
}

/// The model of an `Except` cell.
pub enum ExceptView {
    Error(Value),
    Success(Value),
}

impl<E: ?Sized, T: ?Sized> View for Except<E, T> {
    type V = ExceptView;

    open spec fn view(&self) -> ExceptView {
        match self {
            Except::Error(e) => ExceptView::Error(e@),
            Except::Success(e) => ExceptView::Success(e@),
        }
    }
}

impl<E: ?Sized, T: ?Sized> Layout for Except<E, T> {
    type Shape = ExceptView;

    open spec fn shape(&self) -> ExceptView {
        self@
    }

    open spec fn encode(v: ExceptView) -> Value {
        match v {
            ExceptView::Error(e) => Value::ctor(0, seq![e]),
            ExceptView::Success(e) => Value::ctor(1, seq![e]),
        }
    }

    open spec fn unpackable(o: Value) -> bool {
        o.has_fields(1) && (o.heap_tag() == 0 || o.heap_tag() == 1)
    }

    open spec fn decode(o: Value) -> ExceptView {
        if o.heap_tag() == 0 {
            ExceptView::Error(o.field(0))
        } else {
            ExceptView::Success(o.field(0))
        }
    }

    open spec fn canonical(o: Value) -> bool {
        is_plain_ctor(o, 0, 1) || is_plain_ctor(o, 1, 1)
    }

    fn pack_obj(v: Self) -> (o: Obj) {
        match v {
            Except::Error(e) => Obj::ctor(0, one_field(e.obj), Vec::new()),
            Except::Success(e) => Obj::ctor(1, one_field(e.obj), Vec::new()),
        }
    }

    fn unpackable_obj(o: &Obj) -> (r: bool) {
        o.has_fields(1) && (o.heap_tag() == 0 || o.heap_tag() == 1)
    }

    fn unpack_obj(o: Obj) -> (v: Self) {
        if o.heap_tag() == 0 {
            Except::Error(TObj::new(o.ctor_get(0).clone()))
        } else {
            Except::Success(TObj::new(o.ctor_get(0).clone()))
        }
    }

    proof fn lemma_unpack_pack(v: ExceptView) {
    }

    proof fn lemma_pack_unpack(o: Value) {
        let tag = o->Ctor_tag;
        lemma_plain_ctor_eq(o, tag, seq![o.field(0)]);
    }
}

// ---------------------------------------------------------------------------
// Options
/// `Option α`: `none` is `box(0)`; `some` is constructor 1 with one field.
pub type LeanOption<T> = Option<TObj<T>>;

impl<T: ?Sized> Layout for Option<TObj<T>> {
    type Shape = Option<Value>;

    open spec fn shape(&self) -> Option<Value> {
        match self {
            None => None,
            Some(e) => Some(e@),
        }
    }

    open spec fn encode(v: Option<Value>) -> Value {
        match v {
            None => nil_value(),
            Some(e) => Value::ctor(1, seq![e]),
        }
    }

    /// The tag is read as for every inductive type, so that `none`, the scalar
    /// `box(0)`, reads as tag 0.
    open spec fn unpackable(o: Value) -> bool {
        o.obj_tag() == 0 || (o.obj_tag() == 1 && o.has_fields(1))
    }

    open spec fn decode(o: Value) -> Option<Value> {
        if o.obj_tag() == 0 {
            None
        } else {
            Some(o.field(0))
        }
    }

    open spec fn canonical(o: Value) -> bool {
        o == nil_value() || is_plain_ctor(o, 1, 1)
    }

    fn pack_obj(v: Self) -> (o: Obj) {
        match v {
            None => Obj::nil(),
            Some(e) => Obj::ctor(1, one_field(e.obj), Vec::new()),
        }
    }

    fn unpackable_obj(o: &Obj) -> (r: bool) {
        let tag = o.ctor_tag();
        tag == 0 || (tag == 1 && o.has_fields(1))
    }

    fn unpack_obj(o: Obj) -> (v: Self) {
        if o.ctor_tag() == 0 {
            None
        } else {
            Some(TObj::new(o.ctor_get(0).clone()))
        }
    }

    proof fn lemma_unpack_pack(v: Option<Value>) {
        lemma_unbox_box(0);
    }

    proof fn lemma_pack_unpack(o: Value) {
        if o != nil_value() {
            lemma_plain_ctor_eq(o, 1, seq![o.field(0)]);
        }
    }
}

// ---------------------------------------------------------------------------
// Pairs
/// `α × β`: constructor 0 with the two components.
pub type Pair<A, B> = (TObj<A>, TObj<B>);

impl<A: ?Sized, B: ?Sized> Layout for (TObj<A>, TObj<B>) {
    type Shape = (Value, Value);

    open spec fn shape(&self) -> (Value, Value) {
        (self.0@, self.1@)
    }

    open spec fn encode(v: (Value, Value)) -> Value {
        Value::ctor(0, seq![v.0, v.1])
    }

    open spec fn unpackable(o: Value) -> bool {
        o.has_fields(2)
    }

    open spec fn decode(o: Value) -> (Value, Value) {
        (o.field(0), o.field(1))
    }

    open spec fn canonical(o: Value) -> bool {
        is_plain_ctor(o, 0, 2)
    }

    fn pack_obj(v: Self) -> (o: Obj) {
        Obj::ctor(0, two_fields(v.0.obj, v.1.obj), Vec::new())
    }

    fn unpackable_obj(o: &Obj) -> (r: bool) {
        o.has_fields(2)
    }

    fn unpack_obj(o: Obj) -> (v: Self) {
        (TObj::new(o.ctor_get(0).clone()), TObj::new(o.ctor_get(1).clone()))
    }

    proof fn lemma_unpack_pack(v: (Value, Value)) {
    }

    proof fn lemma_pack_unpack(o: Value) {
        lemma_plain_ctor_eq(o, 0, seq![o.field(0), o.field(1)]);
    }
}

// ---------------------------------------------------------------------------
// Booleans
/// The number that represents a boolean.
pub open spec fn bool_number(b: bool) -> usize {
    if b {
        1
    } else {
        0
    }
}

impl Layout for bool {
    type Shape = bool;

    open spec fn shape(&self) -> bool {
        *self
    }

    open spec fn encode(v: bool) -> Value {
        Value::Scalar(box_word(bool_number(v)))
    }

    open spec fn unpackable(o: Value) -> bool {
        true
    }

    /// A scalar is true when its number is not 0; the address of a heap cell,
    /// shifted right by one bit, is never 0.
    open spec fn decode(o: Value) -> bool {
        match o {
            Value::Scalar(w) => unbox_word(w) != 0,
            _ => true,
        }
    }

    open spec fn canonical(o: Value) -> bool {
        o == Self::encode(false) || o == Self::encode(true)
    }

    fn pack_obj(v: Self) -> (o: Obj) {
        Obj::from_bool(v)
    }

    fn unpackable_obj(o: &Obj) -> (r: bool) {
        true
    }

    fn unpack_obj(o: Obj) -> (v: Self) {
        match o {
            Obj::Scalar(w) => unbox_scalar(w) != 0,
            _ => true,
        }
    }

    proof fn lemma_unpack_pack(v: bool) {
        lemma_unbox_box(0);
        lemma_unbox_box(1);
    }

    proof fn lemma_pack_unpack(o: Value) {
        lemma_unbox_box(0);
        lemma_unbox_box(1);
    }
}

// ---------------------------------------------------------------------------
// Environments
/// `Lean.Environment`: constructor 0 with five fields.
pub struct Environment {
    pub const_to_mod_idx: Obj,
    pub constants: Obj,
    pub extensions: Obj,
    pub extra_const_names: Obj,
    pub header: Obj,
}

/// The model of an environment cell.
pub struct EnvironmentView {
    pub const_to_mod_idx: Value,
    pub constants: Value,
    pub extensions: Value,
    pub extra_const_names: Value,
    pub header: Value,
}

impl View for Environment {
    type V = EnvironmentView;

    open spec fn view(&self) -> EnvironmentView {
        EnvironmentView {
            const_to_mod_idx: self.const_to_mod_idx@,
            constants: self.constants@,
            extensions: self.extensions@,
            extra_const_names: self.extra_const_names@,
            header: self.header@,
        }
    }
}

/// The five fields of an environment, in their order in the cell.
pub open spec fn environment_fields(v: EnvironmentView) -> Seq<Value> {
    seq![v.const_to_mod_idx, v.constants, v.extensions, v.extra_const_names, v.header]
}

impl Layout for Environment {
    type Shape = EnvironmentView;

    open spec fn shape(&self) -> EnvironmentView {
        self@
    }

    open spec fn encode(v: EnvironmentView) -> Value {
        Value::ctor(0, environment_fields(v))
    }

    open spec fn unpackable(o: Value) -> bool {
        o.has_fields(5)
    }

    open spec fn decode(o: Value) -> EnvironmentView {
        EnvironmentView {
            const_to_mod_idx: o.field(0),
            constants: o.field(1),
            extensions: o.field(2),
            extra_const_names: o.field(3),
            header: o.field(4),
        }
    }

    open spec fn canonical(o: Value) -> bool {
        is_plain_ctor(o, 0, 5)
    }

    fn pack_obj(v: Self) -> (o: Obj) {
        let ghost gv = v.shape();
        let Environment { const_to_mod_idx, constants, extensions, extra_const_names, header } =
            v;
        let mut fields: Vec<Obj> = Vec::new();
        fields.push(const_to_mod_idx);
        fields.push(constants);
        fields.push(extensions);
        fields.push(extra_const_names);
        fields.push(header);
        proof {
            lemma_obj_views(fields@);
            assert(obj_views(fields@) =~= environment_fields(gv));
        }
        Obj::ctor(0, fields, Vec::new())
    }

    fn unpackable_obj(o: &Obj) -> (r: bool) {
        o.has_fields(5)
    }

    fn unpack_obj(o: Obj) -> (v: Self) {
        Environment {
            const_to_mod_idx: o.ctor_get(0).clone(),
            constants: o.ctor_get(1).clone(),
            extensions: o.ctor_get(2).clone(),
            extra_const_names: o.ctor_get(3).clone(),
            header: o.ctor_get(4).clone(),
        }
    }

    proof fn lemma_unpack_pack(v: EnvironmentView) {
    }

    proof fn lemma_pack_unpack(o: Value) {
        lemma_plain_ctor_eq(o, 0, environment_fields(Self::decode(o)));
    }
}

/// `Lean.Name`.
pub struct Name;

/// `Lean.Module`.
pub struct Module;

/// `Lean.Options`.
pub struct Options;

/// `Lean.Import`.
pub struct Import;

} // verus!
