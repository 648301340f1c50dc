//! Runtime values: immutable, duplicated by value. A function value
//! holds the index of its declaration in the program's function list
//! together with its declared arity, for call-site arity checking.

use vstd::prelude::*;

use crate::error::ValueKind;
use crate::token::clone_bytes;

verus! {

/// A runtime value. A float literal's value is carried as its source
/// text: this runtime does not compute with floats.
pub enum Value {
    Nil,
    Bool(bool),
    I32(i32),
    F32(Vec<u8>),
    Chars(Vec<u8>),
    Func(usize, usize),
}

/// The mathematical value of a runtime value.
pub enum ValueV {
    Nil,
    Bool(bool),
    I32(i32),
    F32(Seq<u8>),
    Chars(Seq<u8>),
    Func(int, int),
}

impl View for Value {
    type V = ValueV;

    open spec fn view(&self) -> ValueV {
        match self {
            Value::Nil => ValueV::Nil,
            Value::Bool(b) => ValueV::Bool(*b),
            Value::I32(i) => ValueV::I32(*i),
            Value::F32(s) => ValueV::F32(s@),
            Value::Chars(s) => ValueV::Chars(s@),
            Value::Func(f, a) => ValueV::Func(*f as int, *a as int),
        }
    }
}

/// The kind of a value, as named in operand-kind errors.
pub open spec fn value_kind(v: ValueV) -> ValueKind {
    match v {
        ValueV::Nil => ValueKind::Nil,
        ValueV::Bool(_) => ValueKind::Bool,
        ValueV::I32(_) => ValueKind::I32,
        ValueV::F32(_) => ValueKind::F32,
        ValueV::Chars(_) => ValueKind::Chars,
        ValueV::Func(_, _) => ValueKind::Func,
    }
}

impl Value {
    /// The kind of this value.
    pub fn kind_of(&self) -> (k: ValueKind)
        ensures
            k == value_kind(self@),
    {
        match self {
            Value::Nil => ValueKind::Nil,
            Value::Bool(_) => ValueKind::Bool,
            Value::I32(_) => ValueKind::I32,
            Value::F32(_) => ValueKind::F32,
            Value::Chars(_) => ValueKind::Chars,
            Value::Func(_, _) => ValueKind::Func,
        }
    }

    /// The boolean inside; only boolean values may be asked.
    pub fn unwrap(&self) -> (b: bool)
        requires
            self@ is Bool,
        ensures
            self@ == ValueV::Bool(b),
    {
        match self {
            Value::Bool(b) => *b,
            _ => false,
        }
    }
}

/// The mathematical values of a sequence of runtime values, in order.
pub open spec fn vals_view(s: Seq<Value>) -> Seq<ValueV>
    decreases s.len(),
{
    if s.len() == 0 {
        Seq::empty()
    } else {
        vals_view(s.drop_last()).push(s.last()@)
    }
}

/// The element values of `vals_view` are the views of the elements.
pub proof fn lemma_vals_view_len(s: Seq<Value>)
    ensures
        vals_view(s).len() == s.len(),
        forall|i: int| 0 <= i < s.len() ==> vals_view(s)[i] == s[i]@,
    decreases s.len(),
{
    if s.len() > 0 {
        lemma_vals_view_len(s.drop_last());
    }
}

impl Clone for Value {
    /// A copied value has the same mathematical value as the original.
    fn clone(&self) -> (res: Self)
        ensures
            res@ == self@,
    {
        match self {
            Value::Nil => Value::Nil,
            Value::Bool(b) => Value::Bool(*b),
            Value::I32(i) => Value::I32(*i),
            Value::F32(s) => Value::F32(clone_bytes(s)),
            Value::Chars(s) => Value::Chars(clone_bytes(s)),
            Value::Func(f, a) => Value::Func(*f, *a),
        }
    }
}

} // verus!
