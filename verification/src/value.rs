//! Plain values that clients send and receive.
use vstd::prelude::*;

verus! {

/// A number of a client message or of a control.
///
/// Control values are double precision numbers. The control model only compares them, so a number
/// is held by its place in the order of all doubles: `order` is smaller exactly when the number is
/// smaller, and equal exactly when the number is equal. `integer` is its value where the number is
/// written as a 64 bit integer, `truncated` its value without its fraction, cut off at the limits of
/// 32 bits.
#[derive(Clone, Copy, Debug, PartialEq, Eq, Structural)]
pub struct Number {
    pub order: i64,
    pub integer: Option<i64>,
    pub truncated: i32,
}

/// A value of a client message.
#[derive(Debug)]
pub enum Value {
    Null,
    Bool(bool),
    Number(Number),
    String(String),
    /// A list. Its items are of no interest: no control takes one.
    Array,
    /// A record. Its fields are of no interest: no control takes one.
    Object,
}

/// A value of a client message, as a mathematical value.
pub enum ValueView {
    Null,
    Bool(bool),
    Number(Number),
    String(Seq<char>),
    Array,
    Object,
}

impl View for Value {
    type V = ValueView;

    open spec fn view(&self) -> ValueView {
        match self {
            Value::Null => ValueView::Null,
            Value::Bool(b) => ValueView::Bool(*b),
            Value::Number(n) => ValueView::Number(*n),
            Value::String(s) => ValueView::String(s@),
            Value::Array => ValueView::Array,
            Value::Object => ValueView::Object,
        }
    }
}

impl Clone for Value {
    fn clone(&self) -> (r: Value)
        ensures
            r@ == self@,
    {
        match self {
            Value::Null => Value::Null,
            Value::Bool(b) => Value::Bool(*b),
            Value::Number(n) => Value::Number(*n),
            Value::String(s) => Value::String(s.clone()),
            Value::Array => Value::Array,
            Value::Object => Value::Object,
        }
    }
}

/// The view of an optional value.
pub open spec fn opt_value(v: Option<Value>) -> Option<ValueView> {
    match v {
        Some(v) => Some(v@),
        None => None,
    }
}

/// The view of an optional text.
pub open spec fn opt_text(v: Option<String>) -> Option<Seq<char>> {
    match v {
        Some(v) => Some(v@),
        None => None,
    }
}

/// Copies an optional value.
pub fn clone_opt_value(v: &Option<Value>) -> (r: Option<Value>)
    ensures
        opt_value(r) == opt_value(*v),
{
    match v {
        Some(v) => Some(v.clone()),
        None => None,
    }
}

/// Copies an optional text.
pub fn clone_opt_text(v: &Option<String>) -> (r: Option<String>)
    ensures
        opt_text(r) == opt_text(*v),
        r is Some == v is Some,
{
    match v {
        Some(v) => Some(v.clone()),
        None => None,
    }
}

} // verus!
