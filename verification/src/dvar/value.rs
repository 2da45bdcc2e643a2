use vstd::prelude::*;
use crate::text::{decimal_i64, decimal_isize, i64_to_string, isize_to_string};

verus! {

/// The value a dvar holds.
///
/// Floating-point kinds of value (floats, vectors, colours) are handled
/// outside this library.
#[derive(Debug)]
pub enum DvarValue {
    Bool(bool),
    Int(i32),
    String(String),
    Enumeration(String),
    Int64(i64),
}

/// The mathematical model of a [`DvarValue`]: strings are taken by their
/// characters.
pub enum DvarValueView {
    Bool(bool),
    Int(i32),
    String(Seq<char>),
    Enumeration(Seq<char>),
    Int64(i64),
}

impl View for DvarValue {
    type V = DvarValueView;

    open spec fn view(&self) -> DvarValueView {
        match self {
            DvarValue::Bool(b) => DvarValueView::Bool(*b),
            DvarValue::Int(i) => DvarValueView::Int(*i),
            DvarValue::String(s) => DvarValueView::String(s@),
            DvarValue::Enumeration(s) => DvarValueView::Enumeration(s@),
            DvarValue::Int64(i) => DvarValueView::Int64(*i),
        }
    }
}

impl DvarValue {
    /// A copy of the value.
    pub fn clone_value(&self) -> (r: DvarValue)
        ensures
            r@ == self@,
    {
        match self {
            DvarValue::Bool(b) => DvarValue::Bool(*b),
            DvarValue::Int(i) => DvarValue::Int(*i),
            DvarValue::String(s) => DvarValue::String(s.clone()),
            DvarValue::Enumeration(s) => DvarValue::Enumeration(s.clone()),
            DvarValue::Int64(i) => DvarValue::Int64(*i),
        }
    }

    /// Whether both values are of the same kind and hold the same value.
    pub fn equals(&self, other: &DvarValue) -> (r: bool)
        ensures
            r == (self@ == other@),
    {
        match (self, other) {
            (DvarValue::Bool(a), DvarValue::Bool(b)) => *a == *b,
            (DvarValue::Int(a), DvarValue::Int(b)) => *a == *b,
            (DvarValue::String(a), DvarValue::String(b)) => *a == *b,
            (DvarValue::Enumeration(a), DvarValue::Enumeration(b)) => *a == *b,
            (DvarValue::Int64(a), DvarValue::Int64(b)) => *a == *b,
            _ => false,
        }
    }

    /// The boolean held, if the value is a boolean.
    pub fn as_bool(&self) -> (r: Option<bool>)
        ensures
            r == (match self@ {
                DvarValueView::Bool(b) => Some(b),
                _ => None,
            }),
    {
        match self {
            DvarValue::Bool(b) => Some(*b),
            _ => None,
        }
    }

    /// The integer held, if the value is an integer.
    pub fn as_int(&self) -> (r: Option<i32>)
        ensures
            r == (match self@ {
                DvarValueView::Int(i) => Some(i),
                _ => None,
            }),
    {
        match self {
            DvarValue::Int(i) => Some(*i),
            _ => None,
        }
    }

    /// A copy of the text held, if the value is a string.
    pub fn as_string(&self) -> (r: Option<String>)
        ensures
            match self@ {
                DvarValueView::String(s) => r is Some && r->0@ == s,
                _ => r is None,
            },
    {
        match self {
            DvarValue::String(s) => Some(s.clone()),
            _ => None,
        }
    }

    /// A copy of the text held, if the value is an enumeration value.
    pub fn as_enumeration(&self) -> (r: Option<String>)
        ensures
            match self@ {
                DvarValueView::Enumeration(s) => r is Some && r->0@ == s,
                _ => r is None,
            },
    {
        match self {
            DvarValue::Enumeration(s) => Some(s.clone()),
            _ => None,
        }
    }

    /// The 64-bit integer held, if the value is one.
    pub fn as_int64(&self) -> (r: Option<i64>)
        ensures
            r == (match self@ {
                DvarValueView::Int64(i) => Some(i),
                _ => None,
            }),
    {
        match self {
            DvarValue::Int64(i) => Some(*i),
            _ => None,
        }
    }
}


/// The text of a value, as it is displayed: a boolean as "true" or
/// "false", a number in decimal, a string as itself.
pub open spec fn value_text(v: DvarValueView) -> Seq<char> {
    match v {
        DvarValueView::Bool(b) => if b { "true"@ } else { "false"@ },
        DvarValueView::Int(i) => decimal_isize(i as isize),
        DvarValueView::String(s) => s,
        DvarValueView::Enumeration(s) => s,
        DvarValueView::Int64(i) => decimal_i64(i),
    }
}

impl DvarValue {
    /// The text of the value, as it is displayed (see [`value_text`]).
    pub fn to_text(&self) -> (r: String)
        ensures
            r@ == value_text(self@),
    {
        match self {
            DvarValue::Bool(b) => if *b { "true".to_owned() } else { "false".to_owned() },
            DvarValue::Int(i) => isize_to_string(*i as isize),
            DvarValue::String(s) => s.clone(),
            DvarValue::Enumeration(s) => s.clone(),
            DvarValue::Int64(i) => i64_to_string(*i),
        }
    }
}

} // verus!
