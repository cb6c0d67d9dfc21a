//! Entity types: how an application type describes its table, and the example
//! `User` entity.
use vstd::prelude::*;
use crate::crud::FieldValue;
use crate::cursor::{DecodedColumn, DecodedRow};
use crate::error::OrmError;
use crate::model::{StColumnDef, StIndexDef};
use crate::schema::{EntityDescriptor, register};
use crate::value::Value;

verus! {

/// An application type stored as a table: its table name, declared columns
/// and indexes, and the fields of one value.
pub trait Create {
    fn table_name(&self) -> String;

    fn get_table_colums_info(&self) -> Vec<StColumnDef>;

    fn get_table_indexs(&self) -> Vec<StIndexDef>;

    /// The value's fields, each named by its column.
    fn fields(&self) -> Vec<FieldValue>;
}

/// Registers the entity type of `t` from its declarations.
pub fn describe<T: Create>(t: &T) -> (r: Result<EntityDescriptor, OrmError>)
    ensures
        r matches Ok(d) ==> d.wf(),
        r matches Err(e) ==> e is Schema,
{
    register(t.table_name(), t.get_table_colums_info(), t.get_table_indexs())
}

/// Column metadata of a result set.
pub trait MetaData {
    fn column_len(&self) -> usize;

    /// Name of the column at position `i`; empty past the last column.
    fn column_name(&self, i: usize) -> String;

    /// Declared type name of the column at position `i`; empty past the last
    /// column.
    fn column_type(&self, i: usize) -> String;
}

impl MetaData for EntityDescriptor {
    fn column_len(&self) -> usize {
        self.columns.len()
    }

    fn column_name(&self, i: usize) -> String {
        if i < self.columns.len() {
            self.columns[i].name.clone()
        } else {
            String::new()
        }
    }

    fn column_type(&self, i: usize) -> String {
        if i < self.columns.len() {
            self.columns[i].types.clone()
        } else {
            String::new()
        }
    }
}

/// A row of a result set whose values can be taken out by position.
pub trait Row {
    /// Takes the value at position `i`, leaving `Null` in its place.
    fn get(&mut self, i: usize) -> Result<Value, OrmError>;
}

impl DecodedRow {
    /// Takes the value of the column at position `i`, leaving `Null` in its
    /// place; `None` past the last column.
    pub fn take(&mut self, i: usize) -> (r: Option<Value>)
        ensures
            i >= old(self).columns@.len() ==> r is None && final(self).columns@ == old(self).columns@,
            i < old(self).columns@.len() ==> r == Some(old(self).columns@[i as int].value)
                && final(self).columns@.len() == old(self).columns@.len()
                && final(self).columns@[i as int].name@ == old(self).columns@[i as int].name@
                && final(self).columns@[i as int].value is Null
                && forall|j: int| 0 <= j < old(self).columns@.len() && j != i
                    ==> final(self).columns@[j] == old(self).columns@[j],
    {
        if i >= self.columns.len() {
            return None;
        }
        let c = self.columns.remove(i);
        let value = c.value;
        self.columns.insert(i, DecodedColumn { name: c.name, value: Value::Null });
        Some(value)
    }
}

impl Row for DecodedRow {
    fn get(&mut self, i: usize) -> Result<Value, OrmError> {
        match self.take(i) {
            Some(v) => Ok(v),
            None => Err(OrmError::NoColumnAt(i)),
        }
    }
}

/// The example entity: a user with an identifier and four names.
#[derive(Debug, Clone, Default)]
pub struct User {
    pub id: Option<String>,
    pub name1: Option<String>,
    pub name2: Option<String>,
    pub name3: Option<String>,
    pub name4: Option<String>,
}

/// A `VARCHAR` column entry.
fn varchar_column(name: &str, slot: u16, size: u16, primary: u8) -> (r: StColumnDef)
    ensures
        r.name@ == name@,
        r.col_slot == slot,
        r.size == size,
        r.is_primary == primary,
{
    StColumnDef {
        name: name.to_owned(),
        types: "VARCHAR".to_owned(),
        col_slot: slot,
        size,
        nullable: 0,
        is_primary: primary,
        is_default: 0,
        default_val: String::new(),
        crud_value: String::new(),
        precision: 0,
        comment: String::new(),
    }
}

fn field(name: &str, value: &Option<String>) -> (r: FieldValue)
    ensures
        r.name@ == name@,
        r.value == *value,
{
    FieldValue { name: name.to_owned(), value: value.clone() }
}

impl Create for User {
    fn table_name(&self) -> String {
        "user".to_owned()
    }

    fn get_table_colums_info(&self) -> Vec<StColumnDef> {
        let mut cols: Vec<StColumnDef> = Vec::new();
        cols.push(varchar_column("id", 0, 10, 1));
        cols.push(varchar_column("name1", 1, 10, 0));
        cols.push(varchar_column("name2", 2, 20, 0));
        cols.push(varchar_column("name3", 3, 20, 0));
        cols.push(varchar_column("name4", 4, 40, 0));
        cols
    }

    fn get_table_indexs(&self) -> Vec<StIndexDef> {
        let mut cols: Vec<String> = Vec::new();
        cols.push("id".to_owned());
        let mut ixs: Vec<StIndexDef> = Vec::new();
        ixs.push(StIndexDef {
            name: "IDX_id".to_owned(),
            cols,
            idx_slot: 0,
            col_count: 1,
            is_unique: 1,
            is_primary: 1,
        });
        ixs
    }

    fn fields(&self) -> Vec<FieldValue> {
        let mut fs: Vec<FieldValue> = Vec::new();
        fs.push(field("id", &self.id));
        fs.push(field("name1", &self.name1));
        fs.push(field("name2", &self.name2));
        fs.push(field("name3", &self.name3));
        fs.push(field("name4", &self.name4));
        fs
    }
}

/// The text of a decoded value, when it is a string.
fn text_of(v: &Value) -> (r: Option<String>)
    ensures
        v matches Value::String(s) ==> r matches Some(t) && t@ == s@,
        !(v is String) ==> r is None,
{
    match v {
        Value::String(s) => Some(s.clone()),
        _ => None,
    }
}

/// The text of the last column named `name`, when that column decoded to a
/// string.
pub open spec fn last_text(cols: Seq<DecodedColumn>, name: Seq<char>) -> Option<Seq<char>>
    decreases cols.len(),
{
    if cols.len() == 0 {
        None
    } else if cols.last().name@ == name {
        match cols.last().value {
            Value::String(s) => Some(s@),
            _ => None,
        }
    } else {
        last_text(cols.drop_last(), name)
    }
}

pub open spec fn opt_text(o: Option<String>) -> Option<Seq<char>> {
    match o {
        Some(s) => Some(s@),
        None => None,
    }
}

/// Each field of `u` is the text of the last column of its name in `cols`.
pub open spec fn user_from(u: User, cols: Seq<DecodedColumn>) -> bool {
    &&& opt_text(u.id) == last_text(cols, "id"@)
    &&& opt_text(u.name1) == last_text(cols, "name1"@)
    &&& opt_text(u.name2) == last_text(cols, "name2"@)
    &&& opt_text(u.name3) == last_text(cols, "name3"@)
    &&& opt_text(u.name4) == last_text(cols, "name4"@)
}

impl User {
    /// The user that a decoded row holds: each field from the last column of
    /// its name, when that column decoded to a string; absent otherwise.
    pub fn from_row(row: &DecodedRow) -> (u: User)
        ensures
            user_from(u, row.columns@),
    {
        let mut u = User { id: None, name1: None, name2: None, name3: None, name4: None };
        let mut j: usize = 0;
        while j < row.columns.len()
            invariant
                0 <= j <= row.columns@.len(),
                user_from(u, row.columns@.subrange(0, j as int)),
            decreases row.columns@.len() - j,
        {
            let c = &row.columns[j];
            let text = text_of(&c.value);
            proof {
                reveal_strlit("id");
                reveal_strlit("name1");
                reveal_strlit("name2");
                reveal_strlit("name3");
                reveal_strlit("name4");
                assert("id"@.len() == 2 && "name1"@.len() == 5 && "name2"@.len() == 5);
                assert("name3"@.len() == 5 && "name4"@.len() == 5);
                assert("name1"@[4] == '1' && "name2"@[4] == '2' && "name3"@[4] == '3' && "name4"@[4] == '4');
                let next = row.columns@.subrange(0, j + 1);
                assert(next.drop_last() == row.columns@.subrange(0, j as int));
                assert(next.last() == *c);
            }
            if c.name == "id".to_owned() {
                u.id = text;
            } else if c.name == "name1".to_owned() {
                u.name1 = text;
            } else if c.name == "name2".to_owned() {
                u.name2 = text;
            } else if c.name == "name3".to_owned() {
                u.name3 = text;
            } else if c.name == "name4".to_owned() {
                u.name4 = text;
            }
            j = j + 1;
        }
        proof {
            assert(row.columns@.subrange(0, row.columns@.len() as int) == row.columns@);
        }
        u
    }
}

} // verus!
