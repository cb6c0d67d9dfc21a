//! The CRUD orchestrator: payloads for inserts, updates and deletes, and the
//! protocol that drives a mutation or a table creation across the boundary.
//!
//! A mutation first opens the table; a failure there ends it with the engine's
//! status and asks for nothing more. It then sends its single write, and, when
//! auto-commit is on, commits on success or rolls back on failure. Without
//! auto-commit the transaction stays open for the caller to end.
use vstd::prelude::*;
use crate::cursor::{
    all_encode, fetch_columns, fetch_columns_of, lemma_fetch_encodable, lemma_restrictions_encodable,
};
use crate::error::OrmError;
use crate::marshal::{
    col_data_convert, column_encodable, columns_encodable, declared_encodable, encodable,
    exp_column_def_t, exp_index_def_t, index_data_convert, index_encodable, index_encodes,
    lemma_carried_encodable,
};
use crate::model::{Restriction, StColumnDef, StColumnDef4C, carries};
use crate::schema::{
    EntityDescriptor, column_named, find_column, has_column, lemma_column_named_from,
    restriction_columns, restrictions_carried,
};

verus! {

/// One field of an entity value: the column it maps to and its text, if any.
#[derive(Debug, Clone)]
pub struct FieldValue {
    pub name: String,
    pub value: Option<String>,
}

/// The text that an insert stores for a field: its value, or `null` when it
/// has none.
pub open spec fn insert_text(f: FieldValue) -> Seq<char> {
    match f.value {
        Some(v) => v@,
        None => "null"@,
    }
}

/// `c` is field `f` as a column of `cols` holding text `text`.
pub open spec fn field_carried(c: StColumnDef4C, f: FieldValue, text: Seq<char>, cols: Seq<StColumnDef>) -> bool {
    column_named(cols, f.name@) matches Some(p) && carries(c, cols[p], text, 0)
}

/// The fields that hold a value, in order.
pub open spec fn present(fields: Seq<FieldValue>) -> Seq<FieldValue>
    decreases fields.len(),
{
    if fields.len() == 0 {
        Seq::empty()
    } else if fields.last().value is Some {
        present(fields.drop_last()).push(fields.last())
    } else {
        present(fields.drop_last())
    }
}

/// Every field names a column of the entity.
pub open spec fn fields_known(fields: Seq<FieldValue>, cols: Seq<StColumnDef>) -> bool {
    forall|i: int| 0 <= i < fields.len() ==> has_column(cols, #[trigger] fields[i].name@)
}

/// The insert payload: every field, in order, as its column holding the
/// field's insert text. Fails with `UnknownColumn` for a field that names no
/// column.
pub fn insert_payload(cols: &Vec<StColumnDef>, fields: &Vec<FieldValue>) -> (r: Result<Vec<StColumnDef4C>, OrmError>)
    ensures
        r is Ok <==> fields_known(fields@, cols@),
        r matches Ok(cs) ==> cs@.len() == fields@.len() && forall|i: int|
            0 <= i < fields@.len() ==> #[trigger] field_carried(cs@[i], fields@[i], insert_text(fields@[i]), cols@),
        r matches Err(e) ==> e is UnknownColumn,
{
    let mut out: Vec<StColumnDef4C> = Vec::new();
    let mut i: usize = 0;
    while i < fields.len()
        invariant
            0 <= i <= fields@.len(),
            out@.len() == i,
            forall|m: int| 0 <= m < i ==> has_column(cols@, #[trigger] fields@[m].name@),
            forall|m: int|
                0 <= m < i ==> #[trigger] field_carried(out@[m], fields@[m], insert_text(fields@[m]), cols@),
        decreases fields@.len() - i,
    {
        let f = &fields[i];
        match find_column(cols, &f.name) {
            Some(c) => {
                let text = match &f.value {
                    Some(v) => v.clone(),
                    None => "null".to_owned(),
                };
                let ghost prev = out@;
                out.push(cols[c].with_value(&text, 0));
                proof {
                    assert forall|m: int|
                        0 <= m < i + 1 implies #[trigger] field_carried(out@[m], fields@[m], insert_text(fields@[m]), cols@) by {
                        if m < i {
                            assert(out@[m] == prev[m]);
                        }
                    }
                }
            },
            None => {
                proof {
                    assert(!has_column(cols@, fields@[i as int].name@));
                }
                return Err(OrmError::UnknownColumn(f.name.clone()));
            },
        }
        i = i + 1;
    }
    Ok(out)
}

/// The update payload: the fields that hold a value, in order, each as its
/// column holding that value. Fails with `UnknownColumn` for such a field that
/// names no column.
pub fn update_payload(cols: &Vec<StColumnDef>, fields: &Vec<FieldValue>) -> (r: Result<Vec<StColumnDef4C>, OrmError>)
    ensures
        r is Ok <==> fields_known(present(fields@), cols@),
        r matches Ok(cs) ==> cs@.len() == present(fields@).len() && forall|i: int|
            0 <= i < cs@.len() ==> #[trigger] field_carried(
                cs@[i],
                present(fields@)[i],
                present(fields@)[i].value->Some_0@,
                cols@,
            ),
        r matches Err(e) ==> e is UnknownColumn,
{
    let mut out: Vec<StColumnDef4C> = Vec::new();
    let mut i: usize = 0;
    while i < fields.len()
        invariant
            0 <= i <= fields@.len(),
            out@.len() == present(fields@.subrange(0, i as int)).len(),
            fields_known(present(fields@.subrange(0, i as int)), cols@),
            forall|m: int|
                0 <= m < out@.len() ==> #[trigger] field_carried(
                    out@[m],
                    present(fields@.subrange(0, i as int))[m],
                    present(fields@.subrange(0, i as int))[m].value->Some_0@,
                    cols@,
                ),
        decreases fields@.len() - i,
    {
        let f = &fields[i];
        let ghost before = present(fields@.subrange(0, i as int));
        proof {
            assert(fields@.subrange(0, i + 1).drop_last() == fields@.subrange(0, i as int));
            assert(fields@.subrange(0, i + 1).last() == fields@[i as int]);
        }
        match &f.value {
            Some(v) => {
                match find_column(cols, &f.name) {
                    Some(c) => {
                        let ghost prev = out@;
                        out.push(cols[c].with_value(v, 0));
                        proof {
                            let after = present(fields@.subrange(0, i + 1));
                            assert(after == before.push(fields@[i as int]));
                            assert forall|m: int| 0 <= m < out@.len() implies #[trigger] field_carried(
                                out@[m],
                                after[m],
                                after[m].value->Some_0@,
                                cols@,
                            ) by {
                                if m < prev.len() {
                                    assert(out@[m] == prev[m]);
                                    assert(after[m] == before[m]);
                                }
                            }
                            assert forall|m: int| 0 <= m < after.len() implies has_column(cols@, #[trigger] after[m].name@) by {
                                if m < before.len() {
                                    assert(after[m] == before[m]);
                                }
                            }
                        }
                    },
                    None => {
                        proof {
                            let after = present(fields@.subrange(0, i + 1));
                            assert(after == before.push(fields@[i as int]));
                            assert(after[after.len() - 1] == fields@[i as int]);
                            lemma_present_prefix(fields@, i as int + 1);
                            assert(present(fields@)[after.len() - 1] == fields@[i as int]);
                        }
                        return Err(OrmError::UnknownColumn(f.name.clone()));
                    },
                }
            },
            None => {},
        }
        i = i + 1;
    }
    proof {
        assert(fields@.subrange(0, fields@.len() as int) == fields@);
    }
    Ok(out)
}

/// The fields of a prefix that hold a value come first among all fields that
/// hold a value.
proof fn lemma_present_prefix(fields: Seq<FieldValue>, n: int)
    requires
        0 <= n <= fields.len(),
    ensures
        present(fields.subrange(0, n)).len() <= present(fields).len(),
        forall|m: int|
            0 <= m < present(fields.subrange(0, n)).len() ==> #[trigger] present(fields.subrange(0, n))[m]
                == present(fields)[m],
    decreases fields.len() - n,
{
    if n < fields.len() {
        lemma_present_prefix(fields, n + 1);
        let a = present(fields.subrange(0, n));
        let b = present(fields.subrange(0, n + 1));
        assert(fields.subrange(0, n + 1).drop_last() == fields.subrange(0, n));
        assert(b.len() >= a.len());
        assert forall|m: int| 0 <= m < a.len() implies #[trigger] a[m] == present(fields)[m] by {
            assert(b[m] == a[m]);
        }
    } else {
        assert(fields.subrange(0, n) == fields);
    }
}

/// A field column of an entity whose declared texts can cross the boundary,
/// holding a text that can cross it, can cross it.
proof fn lemma_fields_encodable(
    cs: Seq<StColumnDef4C>,
    fs: Seq<FieldValue>,
    texts: spec_fn(FieldValue) -> Seq<char>,
    cols: Seq<StColumnDef>,
)
    requires
        cs.len() == fs.len(),
        forall|i: int| 0 <= i < cs.len() ==> #[trigger] field_carried(cs[i], fs[i], texts(fs[i]), cols),
        columns_encodable(cols),
        forall|i: int| 0 <= i < fs.len() ==> encodable(texts(#[trigger] fs[i])),
    ensures
        forall|i: int| 0 <= i < cs.len() ==> column_encodable(#[trigger] cs[i]),
{
    assert forall|i: int| 0 <= i < cs.len() implies column_encodable(#[trigger] cs[i]) by {
        assert(field_carried(cs[i], fs[i], texts(fs[i]), cols));
        lemma_column_named_from(cols, fs[i].name@, 0);
        let p = column_named(cols, fs[i].name@)->Some_0;
        assert(declared_encodable(cols[p]));
        lemma_carried_encodable(cs[i], cols[p], texts(fs[i]), 0);
    }
}

/// The value text of a field that holds one.
pub open spec fn set_text(f: FieldValue) -> Seq<char> {
    f.value->Some_0@
}

/// What a mutation does.
#[derive(Debug, Clone, Copy, PartialEq, Eq, Structural)]
pub enum MutationKind {
    /// Create the table, then each declared index.
    CreateTable,
    /// Create each declared index.
    CreateIndexes,
    Insert,
    Update,
    Delete,
}

/// Where a mutation stands.
#[derive(Debug, Clone, Copy, PartialEq, Eq, Structural)]
pub enum MutationPhase {
    Ready,
    CreatingTable,
    /// Opening the table, before the write or before creating this index.
    OpeningTable(usize),
    CreatingIndex(usize),
    Writing,
    /// Ending the transaction of a write that returned this status.
    Ending(i32),
    Done,
}

/// The engine's answer to the last action, or the start of the mutation.
#[derive(Debug, Clone, Copy, PartialEq, Eq, Structural)]
pub enum MutationEvent {
    Start,
    Status(i32),
}

/// What the caller is to do next.
#[derive(Debug, Clone, Copy, PartialEq, Eq, Structural)]
pub enum MutationAction {
    OpenTable,
    /// Create the table with the request's columns.
    CreateTable,
    /// Create the request's index at this position.
    CreateIndex(usize),
    /// Insert the request's columns.
    InsertRow,
    /// Update to the request's columns the rows that match its conditions.
    UpdateRow,
    /// Delete the rows that match the request's conditions.
    DeleteRow,
    Commit,
    Rollback,
    /// The mutation is over, with this status code.
    Finish(i32),
}

pub open spec fn creates_indexes(kind: MutationKind) -> bool {
    kind is CreateTable || kind is CreateIndexes
}

/// The phase that follows `phase` on `ev`, and the action that goes with it.
pub open spec fn mutation_next(
    kind: MutationKind,
    auto_commit: bool,
    n_indexes: nat,
    phase: MutationPhase,
    ev: MutationEvent,
) -> (MutationPhase, MutationAction) {
    match (phase, ev) {
        (MutationPhase::Ready, MutationEvent::Start) => match kind {
            MutationKind::CreateTable => (MutationPhase::CreatingTable, MutationAction::CreateTable),
            MutationKind::CreateIndexes => if n_indexes == 0 {
                (MutationPhase::Done, MutationAction::Finish(0))
            } else {
                (MutationPhase::OpeningTable(0), MutationAction::OpenTable)
            },
            _ => (MutationPhase::OpeningTable(0), MutationAction::OpenTable),
        },
        (MutationPhase::CreatingTable, MutationEvent::Status(st)) => if st != 0 {
            (MutationPhase::Done, MutationAction::Finish(st))
        } else if n_indexes == 0 {
            (MutationPhase::Done, MutationAction::Finish(0))
        } else {
            (MutationPhase::OpeningTable(0), MutationAction::OpenTable)
        },
        (MutationPhase::OpeningTable(k), MutationEvent::Status(st)) => if st != 0 {
            (MutationPhase::Done, MutationAction::Finish(st))
        } else {
            match kind {
                MutationKind::Insert => (MutationPhase::Writing, MutationAction::InsertRow),
                MutationKind::Update => (MutationPhase::Writing, MutationAction::UpdateRow),
                MutationKind::Delete => (MutationPhase::Writing, MutationAction::DeleteRow),
                _ => (MutationPhase::CreatingIndex(k), MutationAction::CreateIndex(k)),
            }
        },
        (MutationPhase::CreatingIndex(k), MutationEvent::Status(st)) => if st != 0 {
            (MutationPhase::Done, MutationAction::Finish(st))
        } else if k + 1 < n_indexes {
            (MutationPhase::OpeningTable((k + 1) as usize), MutationAction::OpenTable)
        } else {
            (MutationPhase::Done, MutationAction::Finish(0))
        },
        (MutationPhase::Writing, MutationEvent::Status(st)) => if auto_commit {
            (MutationPhase::Ending(st), if st == 0 { MutationAction::Commit } else { MutationAction::Rollback })
        } else {
            (MutationPhase::Done, MutationAction::Finish(st))
        },
        (MutationPhase::Ending(st), MutationEvent::Status(_)) => (MutationPhase::Done, MutationAction::Finish(st)),
        _ => (MutationPhase::Done, MutationAction::Finish(-1i32)),
    }
}

/// Without auto-commit a mutation never ends the transaction: whatever the
/// engine answers, it asks for neither a commit nor a rollback, so what it
/// wrote stays in the session's open transaction until the caller commits or
/// rolls back.
pub proof fn lemma_grouped_write_leaves_transaction_open(
    kind: MutationKind,
    n_indexes: nat,
    phase: MutationPhase,
    ev: MutationEvent,
)
    ensures
        !(mutation_next(kind, false, n_indexes, phase, ev).1 is Commit),
        !(mutation_next(kind, false, n_indexes, phase, ev).1 is Rollback),
{
}

/// With auto-commit, a write that succeeded is committed and one that failed
/// is rolled back, and the mutation then ends with the write's status.
pub proof fn lemma_auto_commit_policy(kind: MutationKind, n_indexes: nat, st: i32, any: i32)
    ensures
        mutation_next(kind, true, n_indexes, MutationPhase::Writing, MutationEvent::Status(st)).1
            == (if st == 0 { MutationAction::Commit } else { MutationAction::Rollback }),
        mutation_next(kind, true, n_indexes, MutationPhase::Ending(st), MutationEvent::Status(any))
            == (MutationPhase::Done, MutationAction::Finish(st)),
{
}

/// What a mutation sends: the table, its kind, whether it commits by itself,
/// the encoded columns (of the table to create, the row to insert, or the
/// values to set), the encoded conditions, and the encoded indexes to create.
#[derive(Debug)]
pub struct MutationRequest {
    pub table_name: String,
    pub kind: MutationKind,
    pub auto_commit: bool,
    pub columns: Vec<exp_column_def_t>,
    pub conditions: Vec<exp_column_def_t>,
    pub indexes: Vec<exp_index_def_t>,
}

/// A mutation in progress.
pub struct Mutation {
    request: MutationRequest,
    phase: MutationPhase,
}

impl Mutation {
    #[verifier::type_invariant]
    spec fn inv(&self) -> bool {
        let n = self.request.indexes@.len();
        &&& self.phase matches MutationPhase::CreatingIndex(k) ==> k < n
        &&& self.phase matches MutationPhase::OpeningTable(k) ==> (creates_indexes(self.request.kind) ==> k < n)
    }

    pub closed spec fn spec_request(&self) -> MutationRequest {
        self.request
    }

    pub closed spec fn spec_phase(&self) -> MutationPhase {
        self.phase
    }

    /// Index positions in the phase are positions of the request's indexes.
    pub open spec fn wf(&self) -> bool {
        let n = self.spec_request().indexes@.len();
        &&& self.spec_phase() matches MutationPhase::CreatingIndex(k) ==> k < n
        &&& self.spec_phase() matches MutationPhase::OpeningTable(k) ==> (creates_indexes(
            self.spec_request().kind,
        ) ==> k < n)
    }

    fn ready(request: MutationRequest) -> (r: Mutation)
        ensures
            r.spec_request() == request,
            r.spec_phase() == MutationPhase::Ready,
            r.wf(),
    {
        Mutation { request, phase: MutationPhase::Ready }
    }

    pub fn request(&self) -> (r: &MutationRequest)
        ensures
            *r == self.spec_request(),
    {
        &self.request
    }

    pub fn phase(&self) -> (r: MutationPhase)
        ensures
            r == self.spec_phase(),
    {
        self.phase
    }

    /// Takes the engine's answer to the last action (or `Start`) and says what
    /// to do next.
    pub fn step(&mut self, ev: MutationEvent) -> (a: MutationAction)
        ensures
            final(self).wf(),
            final(self).spec_request() == old(self).spec_request(),
            (final(self).spec_phase(), a) == mutation_next(
                old(self).spec_request().kind,
                old(self).spec_request().auto_commit,
                old(self).spec_request().indexes@.len(),
                old(self).spec_phase(),
                ev,
            ),
    {
        proof {
            use_type_invariant(&*self);
        }
        let kind = self.request.kind;
        let n = self.request.indexes.len();
        let (next, action) = match (self.phase, ev) {
            (MutationPhase::Ready, MutationEvent::Start) => match kind {
                MutationKind::CreateTable => (MutationPhase::CreatingTable, MutationAction::CreateTable),
                MutationKind::CreateIndexes => if n == 0 {
                    (MutationPhase::Done, MutationAction::Finish(0))
                } else {
                    (MutationPhase::OpeningTable(0), MutationAction::OpenTable)
                },
                _ => (MutationPhase::OpeningTable(0), MutationAction::OpenTable),
            },
            (MutationPhase::CreatingTable, MutationEvent::Status(st)) => if st != 0 {
                (MutationPhase::Done, MutationAction::Finish(st))
            } else if n == 0 {
                (MutationPhase::Done, MutationAction::Finish(0))
            } else {
                (MutationPhase::OpeningTable(0), MutationAction::OpenTable)
            },
            (MutationPhase::OpeningTable(k), MutationEvent::Status(st)) => if st != 0 {
                (MutationPhase::Done, MutationAction::Finish(st))
            } else {
                match kind {
                    MutationKind::Insert => (MutationPhase::Writing, MutationAction::InsertRow),
                    MutationKind::Update => (MutationPhase::Writing, MutationAction::UpdateRow),
                    MutationKind::Delete => (MutationPhase::Writing, MutationAction::DeleteRow),
                    _ => (MutationPhase::CreatingIndex(k), MutationAction::CreateIndex(k)),
                }
            },
            (MutationPhase::CreatingIndex(k), MutationEvent::Status(st)) => if st != 0 {
                (MutationPhase::Done, MutationAction::Finish(st))
            } else if k + 1 < n {
                (MutationPhase::OpeningTable(k + 1), MutationAction::OpenTable)
            } else {
                (MutationPhase::Done, MutationAction::Finish(0))
            },
            (MutationPhase::Writing, MutationEvent::Status(st)) => if self.request.auto_commit {
                (MutationPhase::Ending(st), if st == 0 { MutationAction::Commit } else { MutationAction::Rollback })
            } else {
                (MutationPhase::Done, MutationAction::Finish(st))
            },
            (MutationPhase::Ending(st), MutationEvent::Status(_)) => (MutationPhase::Done, MutationAction::Finish(st)),
            _ => (MutationPhase::Done, MutationAction::Finish(-1)),
        };
        self.phase = next;
        action
    }
}

/// Prepares the creation of the entity's table with its declared columns,
/// followed by its declared indexes. Fails with `Marshal` when a declared text
/// cannot cross the boundary.
pub fn create_table(e: &EntityDescriptor) -> (r: Result<Mutation, OrmError>)
    ensures
        columns_encodable(e.columns@) && (forall|k: int| 0 <= k < e.indexes@.len() ==> index_encodable(#[trigger] e.indexes@[k]))
            ==> r is Ok,
        r matches Ok(m) ==> {
            let q = m.spec_request();
            &&& q.table_name@ == e.table_name@
            &&& q.kind == MutationKind::CreateTable
            &&& !q.auto_commit
            &&& exists|cs: Seq<StColumnDef4C>| fetch_columns_of(cs, *e) && #[trigger] all_encode(q.columns@, cs)
            &&& q.conditions@.len() == 0
            &&& q.indexes@.len() == e.indexes@.len()
            &&& forall|k: int| 0 <= k < q.indexes@.len() ==> index_encodes(#[trigger] q.indexes@[k], e.indexes@[k])
            &&& m.spec_phase() == MutationPhase::Ready
            &&& m.wf()
        },
        r matches Err(err) ==> err is Marshal,
{
    let cols = fetch_columns(e);
    proof {
        if columns_encodable(e.columns@) {
            lemma_fetch_encodable(cols@, *e);
        }
    }
    let columns = match col_data_convert(&cols) {
        Ok(es) => es,
        Err(err) => return Err(err),
    };
    let indexes = match index_data_convert(&e.indexes) {
        Ok(es) => es,
        Err(err) => return Err(err),
    };
    let request = MutationRequest {
        table_name: e.table_name.clone(),
        kind: MutationKind::CreateTable,
        auto_commit: false,
        columns,
        conditions: Vec::new(),
        indexes,
    };
    proof {
        assert(all_encode(request.columns@, cols@));
    }
    Ok(Mutation::ready(request))
}

/// Prepares the creation of the entity's declared indexes, one after another.
/// Fails with `Marshal` when an index text cannot cross the boundary.
pub fn create_index(e: &EntityDescriptor) -> (r: Result<Mutation, OrmError>)
    ensures
        (forall|k: int| 0 <= k < e.indexes@.len() ==> index_encodable(#[trigger] e.indexes@[k])) ==> r is Ok,
        r matches Ok(m) ==> {
            let q = m.spec_request();
            &&& q.table_name@ == e.table_name@
            &&& q.kind == MutationKind::CreateIndexes
            &&& !q.auto_commit
            &&& q.columns@.len() == 0
            &&& q.conditions@.len() == 0
            &&& q.indexes@.len() == e.indexes@.len()
            &&& forall|k: int| 0 <= k < q.indexes@.len() ==> index_encodes(#[trigger] q.indexes@[k], e.indexes@[k])
            &&& m.spec_phase() == MutationPhase::Ready
            &&& m.wf()
        },
        r matches Err(err) ==> err is Marshal,
{
    let indexes = match index_data_convert(&e.indexes) {
        Ok(es) => es,
        Err(err) => return Err(err),
    };
    let request = MutationRequest {
        table_name: e.table_name.clone(),
        kind: MutationKind::CreateIndexes,
        auto_commit: false,
        columns: Vec::new(),
        conditions: Vec::new(),
        indexes,
    };
    Ok(Mutation::ready(request))
}

/// Prepares an insert of an entity value given as its fields. Fails with
/// `UnknownColumn` for a field that names no column of the entity, and with
/// `Marshal` when a text cannot cross the boundary.
pub fn insert(e: &EntityDescriptor, fields: &Vec<FieldValue>, auto_commit: bool) -> (r: Result<Mutation, OrmError>)
    ensures
        fields_known(fields@, e.columns@) && columns_encodable(e.columns@) && (forall|i: int|
            0 <= i < fields@.len() ==> encodable(insert_text(#[trigger] fields@[i]))) ==> r is Ok,
        r matches Err(err) ==> err is UnknownColumn || err is Marshal,
        !fields_known(fields@, e.columns@) ==> r matches Err(OrmError::UnknownColumn(_)),
        r matches Ok(m) ==> {
            let q = m.spec_request();
            &&& q.table_name@ == e.table_name@
            &&& q.kind == MutationKind::Insert
            &&& q.auto_commit == auto_commit
            &&& exists|cs: Seq<StColumnDef4C>| #[trigger] all_encode(q.columns@, cs) && cs.len() == fields@.len()
                && forall|i: int| 0 <= i < cs.len() ==> #[trigger] field_carried(cs[i], fields@[i], insert_text(fields@[i]), e.columns@)
            &&& q.conditions@.len() == 0
            &&& q.indexes@.len() == 0
            &&& m.spec_phase() == MutationPhase::Ready
            &&& m.wf()
        },
{
    let cols = match insert_payload(&e.columns, fields) {
        Ok(cs) => cs,
        Err(err) => return Err(err),
    };
    proof {
        if columns_encodable(e.columns@) && (forall|i: int| 0 <= i < fields@.len() ==> encodable(insert_text(#[trigger] fields@[i]))) {
            lemma_fields_encodable(cols@, fields@, |f: FieldValue| insert_text(f), e.columns@);
        }
    }
    let columns = match col_data_convert(&cols) {
        Ok(es) => es,
        Err(err) => return Err(err),
    };
    let request = MutationRequest {
        table_name: e.table_name.clone(),
        kind: MutationKind::Insert,
        auto_commit,
        columns,
        conditions: Vec::new(),
        indexes: Vec::new(),
    };
    proof {
        assert(all_encode(request.columns@, cols@) && cols@.len() == fields@.len() && forall|i: int|
            0 <= i < cols@.len() ==> #[trigger] field_carried(cols@[i], fields@[i], insert_text(fields@[i]), e.columns@));
    }
    Ok(Mutation::ready(request))
}

/// Prepares an update, to the fields that hold a value, of the rows that
/// satisfy one restriction. Fails with `UnknownColumn` for such a field or a
/// restriction that names no column, and with `Marshal` when a text cannot
/// cross the boundary.
pub fn update_by_column(
    e: &EntityDescriptor,
    fields: &Vec<FieldValue>,
    restriction: Restriction,
    auto_commit: bool,
) -> (r: Result<Mutation, OrmError>)
    ensures
        fields_known(present(fields@), e.columns@) && has_column(e.columns@, restriction.name@)
            && columns_encodable(e.columns@) && encodable(restriction.value@) && (forall|i: int|
            0 <= i < present(fields@).len() ==> encodable(set_text(#[trigger] present(fields@)[i]))) ==> r is Ok,
        r matches Err(err) ==> err is UnknownColumn || err is Marshal,
        !fields_known(present(fields@), e.columns@) ==> r matches Err(OrmError::UnknownColumn(_)),
        !has_column(e.columns@, restriction.name@) ==> r matches Err(OrmError::UnknownColumn(_)),
        r matches Ok(m) ==> {
            let q = m.spec_request();
            &&& q.table_name@ == e.table_name@
            &&& q.kind == MutationKind::Update
            &&& q.auto_commit == auto_commit
            &&& exists|cs: Seq<StColumnDef4C>| #[trigger] all_encode(q.columns@, cs) && cs.len() == present(fields@).len()
                && forall|i: int| 0 <= i < cs.len() ==> #[trigger] field_carried(cs[i], present(fields@)[i], present(fields@)[i].value->Some_0@, e.columns@)
            &&& exists|cs: Seq<StColumnDef4C>| #[trigger] all_encode(q.conditions@, cs)
                && restrictions_carried(cs, seq![restriction], e.columns@)
            &&& q.indexes@.len() == 0
            &&& m.spec_phase() == MutationPhase::Ready
            &&& m.wf()
        },
{
    let cols = match update_payload(&e.columns, fields) {
        Ok(cs) => cs,
        Err(err) => return Err(err),
    };
    let mut rs: Vec<Restriction> = Vec::new();
    rs.push(restriction);
    proof {
        assert(rs@ == seq![restriction]);
        assert(rs@[0] == restriction);
    }
    let conds = match restriction_columns(&e.columns, &rs) {
        Ok(cs) => cs,
        Err(err) => return Err(err),
    };
    proof {
        let ps = present(fields@);
        if columns_encodable(e.columns@) && (forall|i: int| 0 <= i < ps.len() ==> encodable(set_text(#[trigger] ps[i]))) {
            assert forall|i: int| 0 <= i < cols@.len() implies #[trigger] field_carried(cols@[i], ps[i], set_text(ps[i]), e.columns@) by {
                assert(field_carried(cols@[i], ps[i], ps[i].value->Some_0@, e.columns@));
            }
            lemma_fields_encodable(cols@, ps, |f: FieldValue| set_text(f), e.columns@);
        }
        if columns_encodable(e.columns@) && encodable(restriction.value@) {
            assert forall|i: int| 0 <= i < rs@.len() implies encodable(#[trigger] rs@[i].value@) by {
                assert(rs@[i] == restriction);
            }
            lemma_restrictions_encodable(conds@, rs@, e.columns@);
        }
    }
    let columns = match col_data_convert(&cols) {
        Ok(es) => es,
        Err(err) => return Err(err),
    };
    let conditions = match col_data_convert(&conds) {
        Ok(es) => es,
        Err(err) => return Err(err),
    };
    let request = MutationRequest {
        table_name: e.table_name.clone(),
        kind: MutationKind::Update,
        auto_commit,
        columns,
        conditions,
        indexes: Vec::new(),
    };
    proof {
        let p = present(fields@);
        assert(all_encode(request.columns@, cols@) && cols@.len() == p.len() && forall|i: int|
            0 <= i < cols@.len() ==> #[trigger] field_carried(cols@[i], p[i], p[i].value->Some_0@, e.columns@));
        assert(all_encode(request.conditions@, conds@) && restrictions_carried(conds@, seq![restriction], e.columns@));
    }
    Ok(Mutation::ready(request))
}

/// Prepares a delete of the rows that satisfy one restriction. Fails with
/// `UnknownColumn` when the restriction names no column, and with `Marshal`
/// when its literal cannot cross the boundary.
pub fn delete_by_column(e: &EntityDescriptor, restriction: Restriction, auto_commit: bool) -> (r: Result<Mutation, OrmError>)
    ensures
        has_column(e.columns@, restriction.name@) && columns_encodable(e.columns@) && encodable(restriction.value@)
            ==> r is Ok,
        r matches Err(err) ==> err is UnknownColumn || err is Marshal,
        !has_column(e.columns@, restriction.name@) ==> r matches Err(OrmError::UnknownColumn(_)),
        r matches Ok(m) ==> {
            let q = m.spec_request();
            &&& q.table_name@ == e.table_name@
            &&& q.kind == MutationKind::Delete
            &&& q.auto_commit == auto_commit
            &&& q.columns@.len() == 0
            &&& exists|cs: Seq<StColumnDef4C>| #[trigger] all_encode(q.conditions@, cs)
                && restrictions_carried(cs, seq![restriction], e.columns@)
            &&& q.indexes@.len() == 0
            &&& m.spec_phase() == MutationPhase::Ready
            &&& m.wf()
        },
{
    let mut rs: Vec<Restriction> = Vec::new();
    rs.push(restriction);
    proof {
        assert(rs@ == seq![restriction]);
        assert(rs@[0] == restriction);
    }
    let conds = match restriction_columns(&e.columns, &rs) {
        Ok(cs) => cs,
        Err(err) => return Err(err),
    };
    proof {
        if columns_encodable(e.columns@) && encodable(restriction.value@) {
            assert forall|k: int| 0 <= k < rs@.len() implies encodable(#[trigger] rs@[k].value@) by {
                assert(rs@[k] == restriction);
            }
            lemma_restrictions_encodable(conds@, rs@, e.columns@);
        }
    }
    let conditions = match col_data_convert(&conds) {
        Ok(es) => es,
        Err(err) => return Err(err),
    };
    let request = MutationRequest {
        table_name: e.table_name.clone(),
        kind: MutationKind::Delete,
        auto_commit,
        columns: Vec::new(),
        conditions,
        indexes: Vec::new(),
    };
    proof {
        assert(all_encode(request.conditions@, conds@) && restrictions_carried(conds@, seq![restriction], e.columns@));
    }
    Ok(Mutation::ready(request))
}

} // verus!
