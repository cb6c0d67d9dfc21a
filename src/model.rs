//! Declarative descriptions of columns, indexes and restrictions, as callers
//! write them.
use vstd::prelude::*;

verus! {

/// A column entry as an entity declares it.
#[derive(Debug, Clone, Default)]
pub struct StColumnDef {
    pub name: String,
    /// Canonical name of the column's type tag (`VARCHAR`, `BIGINT`, ...).
    pub types: String,
    /// Position of the column in the table, from 0.
    pub col_slot: u16,
    pub size: u16,
    pub nullable: u8,
    pub is_primary: u8,
    pub is_default: u8,
    pub default_val: String,
    pub crud_value: String,
    /// Digits after the decimal point.
    pub precision: u16,
    pub comment: String,
}

/// A column entry together with the literal and operator that one operation
/// carries for it: the value to insert or set, or the value to compare with.
#[derive(Debug, Clone, Default)]
pub struct StColumnDef4C {
    pub name: String,
    pub types: String,
    pub col_slot: u16,
    pub size: u16,
    pub nullable: u8,
    pub is_primary: u8,
    pub is_default: u8,
    pub default_val: String,
    pub crud_value: String,
    pub precision: u16,
    pub comment: String,
    /// Code of the comparison operator (see `assign_type_t`).
    pub assign_type_t: u8,
}

/// An index entry as an entity declares it.
#[derive(Debug, Clone, Default)]
pub struct StIndexDef {
    pub name: String,
    /// Indexed columns, in order.
    pub cols: Vec<String>,
    /// The engine's number for the index, from 0.
    pub idx_slot: u16,
    pub col_count: u32,
    pub is_unique: u8,
    pub is_primary: u8,
}

/// One query condition: column `name` compared with the literal `value` under
/// the operator coded by `assign`.
#[derive(Debug, Clone)]
pub struct Restriction {
    pub name: String,
    pub value: String,
    pub assign: u8,
}

impl Restriction {
    /// An equality condition.
    pub fn equ(name: String, value: String) -> (r: Self)
        ensures
            r.name@ == name@,
            r.value@ == value@,
            r.assign == 0,
    {
        Restriction { name, value, assign: 0 }
    }
}

/// Outcome of an operation as reported to a caller: a text and a status code.
#[derive(Debug, Default)]
pub struct ExecResult {
    pub results: String,
    pub code: i32,
}

/// A check that failed, with its message.
#[derive(Debug, Clone)]
pub enum CheckError {
    Simple(String),
}

impl CheckError {
    pub fn message(&self) -> (r: String)
        ensures
            self matches CheckError::Simple(m) && r@ == m@,
    {
        match self {
            CheckError::Simple(m) => m.clone(),
        }
    }
}

/// A column entry with the value and operator of one operation filled in; the
/// declared fields are kept.
pub open spec fn carries(c: StColumnDef4C, d: StColumnDef, value: Seq<char>, assign: u8) -> bool {
    &&& c.name@ == d.name@
    &&& c.types@ == d.types@
    &&& c.col_slot == d.col_slot
    &&& c.size == d.size
    &&& c.nullable == d.nullable
    &&& c.is_primary == d.is_primary
    &&& c.is_default == d.is_default
    &&& c.default_val@ == d.default_val@
    &&& c.crud_value@ == value
    &&& c.precision == d.precision
    &&& c.comment@ == d.comment@
    &&& c.assign_type_t == assign
}

impl StColumnDef {
    /// This column with `value` and the operator coded `assign` filled in.
    pub fn with_value(&self, value: &String, assign: u8) -> (r: StColumnDef4C)
        ensures
            carries(r, *self, value@, assign),
    {
        StColumnDef4C {
            name: self.name.clone(),
            types: self.types.clone(),
            col_slot: self.col_slot,
            size: self.size,
            nullable: self.nullable,
            is_primary: self.is_primary,
            is_default: self.is_default,
            default_val: self.default_val.clone(),
            crud_value: value.clone(),
            precision: self.precision,
            comment: self.comment.clone(),
            assign_type_t: assign,
        }
    }
}

} // verus!
