//! Lean runtime objects, held as plain values.
//!
//! A Lean value is either a *scalar*, a machine word whose lowest bit is set and
//! whose remaining bits carry a small number, or a pointer to a heap cell.  The
//! cells that the library reads are constructor cells (a tag, a sequence of object
//! fields and a block of scalar bytes) and strings; every other kind of cell
//! (closures, arrays, thunks, big numbers, external data, ...) is carried through
//! untouched, known only by its header tag and an identity.
use vstd::prelude::*;
use vstd::arithmetic::power2::pow2;

verus! {

/// Largest tag a constructor cell may carry.
pub const MAX_CTOR_TAG: u8 = 243;

/// Header tag of string cells.
pub const STRING_TAG: u8 = 249;

/// A constructor cell holds fewer object fields than this.
pub const MAX_CTOR_FIELDS: usize = 256;

/// A constructor cell holds fewer scalar bytes than this.
pub const MAX_CTOR_SCALARS: usize = 1024;

/// The word that represents the small number `n`: `n` shifted left by one bit,
/// with the lowest bit set.  The topmost bit of `n` does not fit and is lost.
pub open spec fn box_word(n: usize) -> usize {
    (n << 1usize) | 1usize
}

/// The small number that the scalar word `w` represents.
pub open spec fn unbox_word(w: usize) -> usize {
    w >> 1usize
}

/// Boxes `n` as a scalar word.
pub fn box_scalar(n: usize) -> (w: usize)
    ensures
        w == box_word(n),
{
    (n << 1usize) | 1usize
}

/// Reads the small number out of the scalar word `w`.
pub fn unbox_scalar(w: usize) -> (n: usize)
    ensures
        n == unbox_word(w),
{
    w >> 1usize
}

/// Every boxed word is a scalar word: its lowest bit is set.
pub proof fn lemma_box_is_scalar(n: usize)
    ensures
        box_word(n) & 1usize == 1usize,
{
    assert(((n << 1usize) | 1usize) & 1usize == 1usize) by (bit_vector);
}

/// Unboxing a boxed number gives it back exactly when the number fits in all
/// but the topmost bit of a word.
pub proof fn lemma_unbox_box(n: usize)
    ensures
        unbox_word(box_word(n)) == n <==> n <= usize::MAX >> 1usize,
        usize::MAX >> 1usize >= 0x7fff_ffff,
{
    broadcast use vstd::bits::lemma_usize_shr_is_div, vstd::bits::lemma_usize_shl_is_mul;

    let w = box_word(n);
    assert(w >> 1usize == w / 2) by (bit_vector);
    vstd::arithmetic::power2::lemma2_to64();
    assert(usize::MAX >> 1usize == usize::MAX as nat / pow2(1));
    if n <= usize::MAX >> 1usize {
        assert(n * pow2(1) <= usize::MAX);
        assert(n << 1usize == n * pow2(1));
        let x = n << 1usize;
        assert(x % 2 == 0 ==> x | 1usize == x + 1) by (bit_vector);
        assert(w == 2 * n + 1);
    } else {
        assert(w / 2 <= usize::MAX / 2);
    }
}

/// Boxing a scalar word's number gives the word back.
pub proof fn lemma_box_unbox(w: usize)
    requires
        w & 1usize == 1usize,
    ensures
        box_word(unbox_word(w)) == w,
{
    assert(w & 1usize == 1usize ==> (((w >> 1usize) << 1usize) | 1usize) == w) by (bit_vector);
}

/// The mathematical model of a Lean value.
pub enum Value {
    /// A scalar, by its machine word.
    Scalar(usize),
    /// A constructor cell.
    Ctor { tag: u8, objs: Seq<Value>, scalars: Seq<u8> },
    /// A string cell, by its characters.
    Str(Seq<char>),
    /// Any other heap cell, by its header tag and an identity.
    Opaque { kind: u8, id: usize },
}

impl Value {
    /// The tag that `lean_obj_tag` reads: the number of a scalar (truncated to
    /// 32 bits), else the header tag of the cell.
    pub open spec fn obj_tag(self) -> u32 {
        match self {
            Value::Scalar(w) => unbox_word(w) as u32,
            Value::Ctor { tag, .. } => tag as u32,
            Value::Str(_) => STRING_TAG as u32,
            Value::Opaque { kind, .. } => kind as u32,
        }
    }

    /// The header tag of a heap cell.
    pub open spec fn heap_tag(self) -> u8
        recommends
            !(self is Scalar),
    {
        match self {
            Value::Scalar(_) => 0,
            Value::Ctor { tag, .. } => tag,
            Value::Str(_) => STRING_TAG,
            Value::Opaque { kind, .. } => kind,
        }
    }

    /// The number of object fields of a constructor cell (0 for anything else).
    pub open spec fn num_objs(self) -> nat {
        match self {
            Value::Ctor { objs, .. } => objs.len(),
            _ => 0,
        }
    }

    /// The `i`-th object field of a constructor cell.
    pub open spec fn field(self, i: int) -> Value
        recommends
            self is Ctor,
            0 <= i < self.num_objs(),
    {
        match self {
            Value::Ctor { objs, .. } => objs[i],
            _ => Value::Scalar(1),
        }
    }

    /// Whether this is a constructor cell with at least `n` object fields.
    pub open spec fn has_fields(self, n: nat) -> bool {
        self is Ctor && n <= self.num_objs()
    }

    /// The model of the constructor cell with the given parts.
    pub open spec fn ctor(tag: u8, objs: Seq<Value>) -> Value {
        Value::Ctor { tag, objs, scalars: Seq::empty() }
    }
}

/// The object `box(0)`, which stands for every nullary constructor with tag 0
/// (such as `List.nil` or `Option.none`) and for the I/O world token.
pub open spec fn nil_value() -> Value {
    Value::Scalar(box_word(0))
}

/// A Lean value.
#[derive(Debug, PartialEq, Eq)]
pub enum Obj {
    /// A scalar, by its machine word.
    Scalar(usize),
    /// A constructor cell: its tag, its object fields and its scalar bytes.
    Ctor { tag: u8, objs: Vec<Obj>, scalars: Vec<u8> },
    /// A string cell.
    Str(String),
    /// Any other heap cell, carried through by its header tag and an identity.
    Opaque { kind: u8, id: usize },
}

impl View for Obj {
    type V = Value;

    open spec fn view(&self) -> Value
        decreases self, 1nat,
    {
        match self {
            Obj::Scalar(w) => Value::Scalar(*w),
            Obj::Ctor { tag, objs, scalars } => Value::Ctor {
                tag: *tag,
                objs: obj_views(objs@),
                scalars: scalars@,
            },
            Obj::Str(s) => Value::Str(s@),
            Obj::Opaque { kind, id } => Value::Opaque { kind: *kind, id: *id },
        }
    }
}

/// The models of a sequence of objects, one by one.
pub open spec fn obj_views(s: Seq<Obj>) -> Seq<Value>
    decreases s, 0nat,
{
    if s.len() == 0 {
        Seq::empty()
    } else {
        obj_views(s.drop_last()).push(s.last().view())
    }
}

/// `obj_views` keeps the length and maps each object to its model.
pub proof fn lemma_obj_views(s: Seq<Obj>)
    ensures
        obj_views(s).len() == s.len(),
        forall|i: int| 0 <= i < s.len() ==> #[trigger] obj_views(s)[i] == s[i]@,
    decreases s.len(),
{
    reveal_with_fuel(obj_views, 2);
    if s.len() > 0 {
        lemma_obj_views(s.drop_last());
    }
}

impl Clone for Obj {
    /// A copy of the value.
    fn clone(&self) -> (r: Self)
        ensures
            r@ == self@,
        decreases self,
    {
        match self {
            Obj::Scalar(w) => Obj::Scalar(*w),
            Obj::Str(s) => Obj::Str(s.clone()),
            Obj::Opaque { kind, id } => Obj::Opaque { kind: *kind, id: *id },
            Obj::Ctor { tag, objs, scalars } => {
                let mut v: Vec<Obj> = Vec::new();
                let mut i: usize = 0;
                while i < objs.len()
                    invariant
                        i <= objs.len(),
                        *self is Ctor,
                        self->objs == *objs,
                        v@.len() == i,
                        forall|j: int| 0 <= j < i ==> v@[j]@ == objs@[j]@,
                    decreases objs.len() - i,
                {
                    proof {
                        assert(decreases_to!(*self => objs@[i as int]));
                    }
                    let c = objs[i].clone();
                    v.push(c);
                    i = i + 1;
                }
                let sc = scalars.clone();
                let r = Obj::Ctor { tag: *tag, objs: v, scalars: sc };
                proof {
                    lemma_obj_views(v@);
                    lemma_obj_views(objs@);
                    assert(obj_views(v@) =~= obj_views(objs@));
                }
                r
            },
        }
    }
}

impl Obj {
    /// The object `box(0)`.
    pub fn nil() -> (r: Obj)
        ensures
            r@ == nil_value(),
    {
        Obj::Scalar(box_scalar(0))
    }

    /// The scalar object that represents `n` (its topmost bit is lost).
    pub fn from_usize(n: usize) -> (r: Obj)
        ensures
            r@ == Value::Scalar(box_word(n)),
    {
        Obj::Scalar(box_scalar(n))
    }

    /// The scalar object that represents `b`: `box(1)` for `true`, `box(0)` for
    /// `false`.
    pub fn from_bool(b: bool) -> (r: Obj)
        ensures
            r@ == Value::Scalar(box_word(if b { 1 } else { 0 })),
    {
        let n: usize = if b { 1 } else { 0 };
        Obj::Scalar(box_scalar(n))
    }

    /// The `i`-th object field of a constructor cell.
    pub fn ctor_get(&self, i: u32) -> (r: &Obj)
        requires
            self@ is Ctor,
            i < self@.num_objs(),
        ensures
            r@ == self@.field(i as int),
    {
        match self {
            Obj::Ctor { objs, .. } => {
                proof {
                    lemma_obj_views(objs@);
                }
                &objs[i as usize]
            },
            _ => {
                proof {
                    assert(false);
                }
                self
            },
        }
    }

    /// The tag of the object: the number of a scalar (truncated to 32 bits),
    /// else the header tag of its cell.
    pub fn ctor_tag(&self) -> (r: u32)
        ensures
            r == self@.obj_tag(),
    {
        match self {
            Obj::Scalar(w) => unbox_scalar(*w) as u32,
            Obj::Ctor { tag, .. } => *tag as u32,
            Obj::Str(_) => STRING_TAG as u32,
            Obj::Opaque { kind, .. } => *kind as u32,
        }
    }

    /// Whether this is a scalar.
    pub fn is_scalar(&self) -> (r: bool)
        ensures
            r == self@ is Scalar,
    {
        match self {
            Obj::Scalar(_) => true,
            _ => false,
        }
    }

    /// Whether this is a constructor cell with at least `n` object fields.
    pub fn has_fields(&self, n: usize) -> (r: bool)
        ensures
            r == self@.has_fields(n as nat),
    {
        match self {
            Obj::Ctor { objs, .. } => {
                proof {
                    lemma_obj_views(objs@);
                }
                n <= objs.len()
            },
            _ => false,
        }
    }

    /// The header tag of a heap cell.
    pub fn heap_tag(&self) -> (r: u8)
        requires
            !(self@ is Scalar),
        ensures
            r == self@.heap_tag(),
    {
        match self {
            Obj::Scalar(_) => 0,
            Obj::Ctor { tag, .. } => *tag,
            Obj::Str(_) => STRING_TAG,
            Obj::Opaque { kind, .. } => *kind,
        }
    }

    /// The number that a scalar object represents.
    pub fn unbox(&self) -> (r: usize)
        requires
            self@ is Scalar,
        ensures
            r == unbox_word(self@->Scalar_0),
    {
        match self {
            Obj::Scalar(w) => unbox_scalar(*w),
            _ => 0,
        }
    }

    /// A new constructor cell with the given tag, object fields and scalar bytes.
    pub fn ctor(tag: u8, args: Vec<Obj>, scalars: Vec<u8>) -> (r: Obj)
        requires
            tag <= MAX_CTOR_TAG,
            args.len() < MAX_CTOR_FIELDS,
            scalars.len() < MAX_CTOR_SCALARS,
        ensures
            r@ == (Value::Ctor { tag, objs: obj_views(args@), scalars: scalars@ }),
    {
        Obj::Ctor { tag, objs: args, scalars }
    }

    /// A new string cell holding `s`.
    pub fn mk_string(s: &str) -> (r: Obj)
        ensures
            r@ == Value::Str(s@),
    {
        Obj::Str(s.to_owned())
    }

    /// The text of a string cell.
    pub fn to_string(&self) -> (r: &str)
        requires
            self@ is Str,
        ensures
            r@ == self@->Str_0,
    {
        match self {
            Obj::Str(s) => s.as_str(),
            _ => "",
        }
    }
}

/// A constructor cell reads back as it was built: its tag, its number of
/// fields and each field.
pub proof fn lemma_ctor_read_back(tag: u8, objs: Seq<Value>, scalars: Seq<u8>)
    ensures
        (Value::Ctor { tag, objs, scalars }).obj_tag() == tag as u32,
        (Value::Ctor { tag, objs, scalars }).heap_tag() == tag,
        (Value::Ctor { tag, objs, scalars }).num_objs() == objs.len(),
        forall|i: int|
            0 <= i < objs.len() ==> #[trigger] (Value::Ctor { tag, objs, scalars }).field(i)
                == objs[i],
{
}

/// A string cell reads back the text it was made from, and carries the string
/// tag.
pub proof fn lemma_string_read_back(s: Seq<char>)
    ensures
        Value::Str(s)->Str_0 == s,
        Value::Str(s).obj_tag() == STRING_TAG as u32,
{
}

/// The scalar for a boolean reads back as the boolean's number, 1 or 0.
pub proof fn lemma_bool_read_back(b: bool)
    ensures
        unbox_word(box_word(if b { 1 } else { 0 })) == (if b { 1usize } else { 0usize }),
        Value::Scalar(box_word(if b { 1 } else { 0 })).obj_tag() == (if b { 1u32 } else { 0u32 }),
{
    lemma_unbox_box(0);
    lemma_unbox_box(1);
}

} // verus!
