//! Domain values: what a column's text decodes to on the application side.
use vstd::prelude::*;

verus! {

/// A dynamically typed domain value.
#[derive(Debug)]
pub enum Value {
    Null,
    Bool(bool),
    I32(i32),
    I64(i64),
    U32(u32),
    U64(u64),
    String(String),
    Binary(Vec<u8>),
    Array(Vec<Value>),
    Dict(Vec<(Value, Value)>),
    Ext(&'static str, Box<Value>),
}

/// A value is empty when it is null, an empty string, byte string, array or
/// map, or an extension wrapped around an empty value.
pub open spec fn value_is_empty(v: Value) -> bool
    decreases v,
{
    match v {
        Value::Null => true,
        Value::String(s) => s@.len() == 0,
        Value::Binary(b) => b@.len() == 0,
        Value::Array(a) => a@.len() == 0,
        Value::Dict(m) => m@.len() == 0,
        Value::Ext(_, inner) => value_is_empty(*inner),
        _ => false,
    }
}

impl Value {
    /// Wraps the value in an extension tagged `name`; a value that is already an
    /// extension is kept as it is.
    pub fn into_ext(self, name: &'static str) -> (r: Self)
        ensures
            self is Ext ==> r == self,
            !(self is Ext) ==> (r matches Value::Ext(n, inner) && n == name && *inner == self),
    {
        match self {
            Value::Ext(_, _) => self,
            _ => Value::Ext(name, Box::new(self)),
        }
    }

    pub fn is_empty(&self) -> (r: bool)
        ensures
            r == value_is_empty(*self),
        decreases *self,
    {
        match self {
            Value::Null => true,
            Value::Bool(_) => false,
            Value::I32(_) => false,
            Value::I64(_) => false,
            Value::U32(_) => false,
            Value::U64(_) => false,
            Value::String(v) => v.as_str().is_empty(),
            Value::Binary(v) => v.len() == 0,
            Value::Array(v) => v.len() == 0,
            Value::Dict(v) => v.len() == 0,
            Value::Ext(_, v) => v.is_empty(),
        }
    }
}

} // verus!
