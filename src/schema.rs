//! The entity descriptor registry: an entity's declared columns and indexes,
//! checked once and read by every operation on the entity afterwards.
use vstd::prelude::*;
use crate::error::{OrmError, SchemaFault};
use crate::model::{Restriction, StColumnDef, StColumnDef4C, StIndexDef, carries};

verus! {

/// Schema of one entity type: its table, columns and indexes.
#[derive(Debug)]
pub struct EntityDescriptor {
    pub table_name: String,
    pub columns: Vec<StColumnDef>,
    pub indexes: Vec<StIndexDef>,
}

/// Position of the first column at or after `i` named `name`.
pub open spec fn column_named_from(cols: Seq<StColumnDef>, name: Seq<char>, i: int) -> Option<int>
    decreases cols.len() - i,
{
    if i < 0 || i >= cols.len() {
        None
    } else if cols[i].name@ == name {
        Some(i)
    } else {
        column_named_from(cols, name, i + 1)
    }
}

/// Position of the first column named `name`.
pub open spec fn column_named(cols: Seq<StColumnDef>, name: Seq<char>) -> Option<int> {
    column_named_from(cols, name, 0)
}

pub open spec fn has_column(cols: Seq<StColumnDef>, name: Seq<char>) -> bool {
    exists|i: int| 0 <= i < cols.len() && cols[i].name@ == name
}

/// No two columns share a name.
pub open spec fn names_unique(cols: Seq<StColumnDef>) -> bool {
    forall|i: int, j: int| 0 <= i < j < cols.len() ==> cols[i].name@ != cols[j].name@
}

/// An index lists at least one column, declares as many columns as it lists,
/// and lists only columns of the entity.
pub open spec fn index_ok(ix: StIndexDef, cols: Seq<StColumnDef>) -> bool {
    &&& ix.cols@.len() > 0
    &&& ix.col_count as int == ix.cols@.len()
    &&& forall|c: int| 0 <= c < ix.cols@.len() ==> has_column(cols, #[trigger] ix.cols@[c]@)
}

/// A consistent entity description.
pub open spec fn schema_ok(cols: Seq<StColumnDef>, ixs: Seq<StIndexDef>) -> bool {
    &&& names_unique(cols)
    &&& forall|k: int| 0 <= k < ixs.len() ==> index_ok(#[trigger] ixs[k], cols)
}

/// `f` names a fault that the description has.
pub open spec fn fault_holds(f: SchemaFault, cols: Seq<StColumnDef>, ixs: Seq<StIndexDef>) -> bool {
    match f {
        SchemaFault::DuplicateColumn(j) => j < cols.len() && exists|i: int|
            0 <= i < j && cols[i].name@ == cols[j as int].name@,
        SchemaFault::EmptyIndex(k) => k < ixs.len() && ixs[k as int].cols@.len() == 0,
        SchemaFault::ColumnCountMismatch(k) => k < ixs.len() && ixs[k as int].col_count as int
            != ixs[k as int].cols@.len(),
        SchemaFault::UnknownIndexColumn(k, c) => k < ixs.len() && c < ixs[k as int].cols@.len()
            && !has_column(cols, ixs[k as int].cols@[c as int]@),
    }
}

impl EntityDescriptor {
    pub open spec fn wf(&self) -> bool {
        schema_ok(self.columns@, self.indexes@)
    }
}

pub proof fn lemma_column_named_from(cols: Seq<StColumnDef>, name: Seq<char>, i: int)
    requires
        0 <= i,
    ensures
        column_named_from(cols, name, i) matches Some(j) ==> i <= j < cols.len() && cols[j].name@
            == name && forall|m: int| i <= m < j ==> cols[m].name@ != name,
        column_named_from(cols, name, i) is None ==> forall|m: int|
            i <= m < cols.len() ==> cols[m].name@ != name,
    decreases cols.len() - i,
{
    if i < cols.len() && cols[i].name@ != name {
        lemma_column_named_from(cols, name, i + 1);
    }
}

/// Position of the first column named `name`.
pub fn find_column(cols: &Vec<StColumnDef>, name: &String) -> (r: Option<usize>)
    ensures
        r matches Some(i) ==> column_named(cols@, name@) == Some(i as int),
        r is None ==> column_named(cols@, name@) is None,
        r matches Some(i) ==> i < cols@.len() && cols@[i as int].name@ == name@,
        r is None <==> !has_column(cols@, name@),
{
    proof {
        lemma_column_named_from(cols@, name@, 0);
    }
    let mut i: usize = 0;
    while i < cols.len()
        invariant
            0 <= i <= cols@.len(),
            column_named(cols@, name@) == column_named_from(cols@, name@, i as int),
            forall|m: int| 0 <= m < i ==> cols@[m].name@ != name@,
        decreases cols@.len() - i,
    {
        if cols[i].name == *name {
            return Some(i);
        }
        i = i + 1;
    }
    None
}

/// Checks an entity description and makes it the entity's descriptor. Fails
/// with a schema fault that the description has: a repeated column name, an
/// index without columns, an index whose declared column count is not the
/// number of columns it lists, or an index column that the entity lacks.
pub fn register(table_name: String, columns: Vec<StColumnDef>, indexes: Vec<StIndexDef>) -> (r:
    Result<EntityDescriptor, OrmError>)
    ensures
        r is Ok <==> schema_ok(columns@, indexes@),
        r matches Ok(d) ==> d.table_name@ == table_name@ && d.columns@ == columns@ && d.indexes@
            == indexes@ && d.wf(),
        r matches Err(e) ==> (e matches OrmError::Schema(f) && fault_holds(f, columns@, indexes@)),
{
    let mut j: usize = 0;
    while j < columns.len()
        invariant
            0 <= j <= columns@.len(),
            forall|a: int, b: int| 0 <= a < b < j ==> columns@[a].name@ != columns@[b].name@,
        decreases columns@.len() - j,
    {
        let first = find_column(&columns, &columns[j].name);
        proof {
            lemma_column_named_from(columns@, columns@[j as int].name@, 0);
        }
        match first {
            Some(i) => {
                if i < j {
                    return Err(OrmError::Schema(SchemaFault::DuplicateColumn(j)));
                }
            },
            None => {},
        }
        j = j + 1;
    }
    let mut k: usize = 0;
    while k < indexes.len()
        invariant
            0 <= k <= indexes@.len(),
            names_unique(columns@),
            forall|m: int| 0 <= m < k ==> index_ok(#[trigger] indexes@[m], columns@),
        decreases indexes@.len() - k,
    {
        let ix = &indexes[k];
        if ix.cols.len() == 0 {
            return Err(OrmError::Schema(SchemaFault::EmptyIndex(k)));
        }
        if ix.col_count as usize != ix.cols.len() {
            return Err(OrmError::Schema(SchemaFault::ColumnCountMismatch(k)));
        }
        let mut c: usize = 0;
        while c < ix.cols.len()
            invariant
                0 <= c <= ix.cols@.len(),
                k < indexes@.len(),
                *ix == indexes@[k as int],
                forall|m: int| 0 <= m < c ==> has_column(columns@, #[trigger] ix.cols@[m]@),
            decreases ix.cols@.len() - c,
        {
            if find_column(&columns, &ix.cols[c]).is_none() {
                return Err(OrmError::Schema(SchemaFault::UnknownIndexColumn(k, c)));
            }
            c = c + 1;
        }
        k = k + 1;
    }
    Ok(EntityDescriptor { table_name, columns, indexes })
}

/// `c` is restriction `r` turned into a column entry of `cols`: the first column
/// of that name, with the restriction's literal and operator filled in.
pub open spec fn restriction_carried(c: StColumnDef4C, r: Restriction, cols: Seq<StColumnDef>) -> bool {
    column_named(cols, r.name@) matches Some(p) && carries(c, cols[p], r.value@, r.assign)
}

/// `cs` is `rs` turned into column entries of `cols`, position by position.
pub open spec fn restrictions_carried(cs: Seq<StColumnDef4C>, rs: Seq<Restriction>, cols: Seq<StColumnDef>) -> bool {
    &&& cs.len() == rs.len()
    &&& forall|i: int| 0 <= i < rs.len() ==> #[trigger] restriction_carried(cs[i], rs[i], cols)
}

/// Turns restrictions into column entries of the entity, in order. Fails with
/// `UnknownColumn` for the first restriction on a column that the entity does
/// not have.
pub fn restriction_columns(cols: &Vec<StColumnDef>, rs: &Vec<Restriction>) -> (r: Result<
    Vec<StColumnDef4C>,
    OrmError,
>)
    ensures
        r is Ok <==> forall|i: int| 0 <= i < rs@.len() ==> has_column(cols@, #[trigger] rs@[i].name@),
        r matches Ok(cs) ==> restrictions_carried(cs@, rs@, cols@),
        r matches Err(e) ==> (e matches OrmError::UnknownColumn(n) && exists|i: int|
            0 <= i < rs@.len() && rs@[i].name@ == n@ && !has_column(cols@, n@)),
{
    let mut out: Vec<StColumnDef4C> = Vec::new();
    let mut i: usize = 0;
    while i < rs.len()
        invariant
            0 <= i <= rs@.len(),
            forall|m: int| 0 <= m < i ==> has_column(cols@, #[trigger] rs@[m].name@),
            restrictions_carried(out@, rs@.subrange(0, i as int), cols@),
        decreases rs@.len() - i,
    {
        let r = &rs[i];
        match find_column(cols, &r.name) {
            Some(c) => {
                let col = cols[c].with_value(&r.value, r.assign);
                let ghost prev = out@;
                out.push(col);
                proof {
                    let s = rs@.subrange(0, i + 1);
                    assert(s[i as int] == rs@[i as int]);
                    assert(restriction_carried(out@[i as int], s[i as int], cols@));
                    assert forall|m: int| 0 <= m < s.len() implies #[trigger] restriction_carried(
                        out@[m],
                        s[m],
                        cols@,
                    ) by {
                        if m < i {
                            assert(s[m] == rs@.subrange(0, i as int)[m]);
                            assert(out@[m] == prev[m]);
                            assert(restriction_carried(prev[m], rs@.subrange(0, i as int)[m], cols@));
                        }
                    }
                }
            },
            None => {
                return Err(OrmError::UnknownColumn(r.name.clone()));
            },
        }
        i = i + 1;
    }
    proof {
        assert(rs@.subrange(0, rs@.len() as int) == rs@);
    }
    Ok(out)
}

} // verus!
