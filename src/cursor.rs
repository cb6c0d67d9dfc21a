//! The select protocol: open the table, open a cursor along the planned access
//! path, then advance and fetch until the engine reports the end, keeping each
//! fetched row that satisfies the residual restrictions, decoded.
//!
//! The caller performs each action that `SelectSession::step` returns and hands
//! the engine's answer back as the next event.
use vstd::prelude::*;
use crate::error::OrmError;
use crate::marshal::{
    bytes_text, col_data_convert, column_encodable, column_encodes, column_text, columns_encodable,
    declared_encodable, decode_bytes, decodes_to, encodable, exp_column_def_t,
    lemma_carried_encodable,
};
use crate::model::{Restriction, StColumnDef4C, StIndexDef, carries};
use crate::planner::{
    AccessPath, index_selector, lemma_path_in_bounds, lemma_seek_from_input, plan, planned_path,
    planned_residual, planned_seek,
};
use crate::schema::{
    EntityDescriptor, column_named, has_column, lemma_column_named_from, restriction_carried,
    restriction_columns, restrictions_carried,
};
use crate::model::StColumnDef;
use crate::types::gs_type_t;
use crate::value::Value;

verus! {

/// One column of a fetched row: its name, type tag and the engine's bytes.
#[derive(Debug)]
pub struct FetchedColumn {
    pub name: String,
    pub col_type: gs_type_t,
    pub value: Vec<u8>,
}

/// One column of a decoded row.
#[derive(Debug)]
pub struct DecodedColumn {
    pub name: String,
    pub value: Value,
}

/// A fetched row decoded: column names with their domain values.
#[derive(Debug)]
pub struct DecodedRow {
    pub columns: Vec<DecodedColumn>,
}

/// Every column of `row` named by `r` holds `r`'s literal.
pub open spec fn satisfies(row: Seq<FetchedColumn>, r: Restriction) -> bool {
    forall|j: int|
        0 <= j < row.len() && (#[trigger] row[j]).name@ == r.name@ ==> bytes_text(row[j].value@)
            == r.value@
}

/// `row` satisfies every restriction of `rs`.
pub open spec fn satisfies_all(row: Seq<FetchedColumn>, rs: Seq<Restriction>) -> bool {
    forall|i: int| 0 <= i < rs.len() ==> satisfies(row, #[trigger] rs[i])
}

/// The rows of `rows` that satisfy every restriction of `rs`, in order.
pub open spec fn select_rows(rows: Seq<Seq<FetchedColumn>>, rs: Seq<Restriction>) -> Seq<
    Seq<FetchedColumn>,
>
    decreases rows.len(),
{
    if rows.len() == 0 {
        Seq::empty()
    } else {
        let rest = select_rows(rows.drop_last(), rs);
        if satisfies_all(rows.last(), rs) {
            rest.push(rows.last())
        } else {
            rest
        }
    }
}

/// The rows that the engine yields for a table along `path` when it seeks with
/// `seek`: on an index, the rows that satisfy the seek restrictions; on a full
/// scan, all rows. `table` lists the stored rows in the order that the path
/// walks them.
pub open spec fn path_yield(
    table: Seq<Seq<FetchedColumn>>,
    path: AccessPath,
    seek: Seq<Restriction>,
) -> Seq<Seq<FetchedColumn>> {
    if path is FullScan {
        table
    } else {
        select_rows(table, seek)
    }
}

/// `d` is the decoding of fetched row `row`, column by column.
pub open spec fn row_decodes(d: Seq<DecodedColumn>, row: Seq<FetchedColumn>) -> bool {
    &&& d.len() == row.len()
    &&& forall|j: int|
        0 <= j < row.len() ==> (#[trigger] d[j]).name@ == row[j].name@ && decodes_to(
            d[j].value,
            bytes_text(row[j].value@),
            row[j].col_type,
        )
}

/// `rows` are the decodings of `sel`, in order.
pub open spec fn rows_match(rows: Seq<DecodedRow>, sel: Seq<Seq<FetchedColumn>>) -> bool {
    &&& rows.len() == sel.len()
    &&& forall|i: int| 0 <= i < sel.len() ==> row_decodes((#[trigger] rows[i]).columns@, sel[i])
}

proof fn lemma_select_compose(
    t: Seq<Seq<FetchedColumn>>,
    a: Seq<Restriction>,
    b: Seq<Restriction>,
    c: Seq<Restriction>,
)
    requires
        forall|row: Seq<FetchedColumn>|
            (satisfies_all(row, a) && satisfies_all(row, b)) == #[trigger] satisfies_all(row, c),
    ensures
        select_rows(select_rows(t, a), b) == select_rows(t, c),
    decreases t.len(),
{
    if t.len() > 0 {
        lemma_select_compose(t.drop_last(), a, b, c);
        let rest = select_rows(t.drop_last(), a);
        if satisfies_all(t.last(), a) {
            let s = rest.push(t.last());
            assert(s.drop_last() == rest);
            assert(s.last() == t.last());
        }
    }
}

proof fn lemma_satisfies_split(row: Seq<FetchedColumn>, rs: Seq<Restriction>, i: int)
    requires
        0 <= i < rs.len(),
    ensures
        (satisfies_all(row, seq![rs[i]]) && satisfies_all(row, rs.remove(i))) == satisfies_all(
            row,
            rs,
        ),
{
    let rest = rs.remove(i);
    if satisfies_all(row, seq![rs[i]]) && satisfies_all(row, rest) {
        assert forall|m: int| 0 <= m < rs.len() implies satisfies(row, #[trigger] rs[m]) by {
            if m < i {
                assert(rest[m] == rs[m]);
            } else if m > i {
                assert(rest[m - 1] == rs[m]);
            } else {
                assert(seq![rs[i]][0] == rs[m]);
            }
        }
    }
    if satisfies_all(row, rs) {
        assert forall|m: int| 0 <= m < rest.len() implies satisfies(row, #[trigger] rest[m]) by {
            if m < i {
                assert(rest[m] == rs[m]);
            } else {
                assert(rest[m] == rs[m + 1]);
            }
        }
        assert forall|m: int| 0 <= m < 1 implies satisfies(row, #[trigger] seq![rs[i]][m]) by {
            assert(seq![rs[i]][m] == rs[i]);
        }
    }
}

/// Whichever access path the plan takes, the rows that the engine yields along
/// it, filtered by the residual restrictions, are exactly the stored rows that
/// satisfy every restriction.
pub proof fn lemma_plan_preserves_result(
    rs: Seq<Restriction>,
    ixs: Seq<StIndexDef>,
    table: Seq<Seq<FetchedColumn>>,
)
    requires
        rs.len() <= usize::MAX,
        ixs.len() <= usize::MAX,
    ensures
        ({
            let path = planned_path(rs, ixs);
            select_rows(path_yield(table, path, planned_seek(rs, path)), planned_residual(rs, path))
                == select_rows(table, rs)
        }),
{
    let path = planned_path(rs, ixs);
    match path {
        AccessPath::Composite(_) => {
            lemma_select_compose(table, rs, Seq::empty(), rs);
        },
        AccessPath::Partial(k, i) => {
            lemma_path_in_bounds(rs, ixs);
            assert forall|row: Seq<FetchedColumn>|
                (satisfies_all(row, seq![rs[i as int]]) && satisfies_all(row, rs.remove(i as int)))
                    == #[trigger] satisfies_all(row, rs) by {
                lemma_satisfies_split(row, rs, i as int);
            }
            lemma_select_compose(table, seq![rs[i as int]], rs.remove(i as int), rs);
        },
        AccessPath::FullScan => {},
    }
}

/// Whether `row` satisfies every restriction of `rs`.
pub fn row_satisfies(row: &Vec<FetchedColumn>, rs: &Vec<Restriction>) -> (r: bool)
    ensures
        r == satisfies_all(row@, rs@),
{
    let mut i: usize = 0;
    while i < rs.len()
        invariant
            0 <= i <= rs@.len(),
            forall|m: int| 0 <= m < i ==> satisfies(row@, #[trigger] rs@[m]),
        decreases rs@.len() - i,
    {
        let r = &rs[i];
        let mut j: usize = 0;
        while j < row.len()
            invariant
                0 <= j <= row@.len(),
                i < rs@.len(),
                *r == rs@[i as int],
                forall|m: int|
                    0 <= m < j && (#[trigger] row@[m]).name@ == r.name@ ==> bytes_text(row@[m].value@)
                        == r.value@,
            decreases row@.len() - j,
        {
            if row[j].name == r.name {
                let text = column_text(&row[j].value);
                if text != r.value {
                    return false;
                }
            }
            j = j + 1;
        }
        i = i + 1;
    }
    true
}

/// Decodes every column of a fetched row.
pub fn decode_row(row: &Vec<FetchedColumn>) -> (d: DecodedRow)
    ensures
        row_decodes(d.columns@, row@),
{
    let mut columns: Vec<DecodedColumn> = Vec::new();
    let mut j: usize = 0;
    while j < row.len()
        invariant
            0 <= j <= row@.len(),
            columns@.len() == j,
            forall|m: int|
                0 <= m < j ==> (#[trigger] columns@[m]).name@ == row@[m].name@ && decodes_to(
                    columns@[m].value,
                    bytes_text(row@[m].value@),
                    row@[m].col_type,
                ),
        decreases row@.len() - j,
    {
        let c = &row[j];
        let value = decode_bytes(&c.value, c.col_type);
        columns.push(DecodedColumn { name: c.name.clone(), value });
        j = j + 1;
    }
    DecodedRow { columns }
}

/// Where a select stands.
#[derive(Debug, Clone, Copy, PartialEq, Eq, Structural)]
pub enum CursorPhase {
    /// Nothing asked of the engine yet.
    Closed,
    /// Waiting for the table to open.
    OpeningTable,
    /// Waiting for the cursor to open.
    OpeningCursor,
    /// Waiting for the cursor to advance.
    Advancing,
    /// Waiting for the current row.
    Fetching,
    /// Finished; nothing more is asked.
    Done,
}

/// The engine's answer to the last action, or the start of the select.
#[derive(Debug)]
pub enum CursorEvent {
    Start,
    /// Status of opening the table or the cursor.
    Status(i32),
    /// Status of advancing the cursor, and whether it reached the end.
    Next(i32, bool),
    /// Status of fetching the current row, and the row.
    Row(i32, Vec<FetchedColumn>),
}

/// What the caller is to do next.
#[derive(Debug, Clone, Copy, PartialEq, Eq, Structural)]
pub enum CursorAction {
    OpenTable,
    /// Open a cursor with the request's seek columns and index selector.
    OpenCursor,
    Next,
    /// Fetch the current row's columns as the request lists them.
    Fetch,
    /// The select is over, with this status code.
    Finish(i32),
}

/// The code with which a session ends when an event does not fit its phase.
pub open spec fn misuse_code() -> i32 {
    -1i32
}

/// The phase that follows `phase` on `ev`, and the action that goes with it.
/// A failing status ends the select with that status; the end of the cursor
/// ends it with success.
pub open spec fn cursor_next(phase: CursorPhase, ev: CursorEvent) -> (CursorPhase, CursorAction) {
    match (phase, ev) {
        (CursorPhase::Closed, CursorEvent::Start) => (CursorPhase::OpeningTable, CursorAction::OpenTable),
        (CursorPhase::OpeningTable, CursorEvent::Status(st)) => if st == 0 {
            (CursorPhase::OpeningCursor, CursorAction::OpenCursor)
        } else {
            (CursorPhase::Done, CursorAction::Finish(st))
        },
        (CursorPhase::OpeningCursor, CursorEvent::Status(st)) => if st == 0 {
            (CursorPhase::Advancing, CursorAction::Next)
        } else {
            (CursorPhase::Done, CursorAction::Finish(st))
        },
        (CursorPhase::Advancing, CursorEvent::Next(st, eof)) => if st != 0 {
            (CursorPhase::Done, CursorAction::Finish(st))
        } else if eof {
            (CursorPhase::Done, CursorAction::Finish(0))
        } else {
            (CursorPhase::Fetching, CursorAction::Fetch)
        },
        (CursorPhase::Fetching, CursorEvent::Row(st, _)) => if st == 0 {
            (CursorPhase::Advancing, CursorAction::Next)
        } else {
            (CursorPhase::Done, CursorAction::Finish(st))
        },
        _ => (CursorPhase::Done, CursorAction::Finish(misuse_code())),
    }
}

/// The rows fetched so far after `ev` in `phase`: a row fetched with success is
/// added.
pub open spec fn fetched_after(
    fetched: Seq<Seq<FetchedColumn>>,
    phase: CursorPhase,
    ev: CursorEvent,
) -> Seq<Seq<FetchedColumn>> {
    match (phase, ev) {
        (CursorPhase::Fetching, CursorEvent::Row(st, row)) => if st == 0 {
            fetched.push(row@)
        } else {
            fetched
        },
        _ => fetched,
    }
}

/// What the engine is asked for: the table, the encoded seek columns, the index
/// selector (`-1` for a full scan) and the encoded columns to fetch.
#[derive(Debug)]
pub struct SelectRequest {
    pub table_name: String,
    pub path: AccessPath,
    pub seek: Vec<exp_column_def_t>,
    pub index_slot: i32,
    pub select_columns: Vec<exp_column_def_t>,
}

/// A select in progress.
pub struct SelectSession {
    request: SelectRequest,
    residual: Vec<Restriction>,
    rows: Vec<DecodedRow>,
    phase: CursorPhase,
    fetched: Ghost<Seq<Seq<FetchedColumn>>>,
}

impl SelectSession {
    #[verifier::type_invariant]
    spec fn inv(&self) -> bool {
        rows_match(self.rows@, select_rows(self.fetched@, self.residual@))
    }

    /// A closed session that asks for nothing and holds nothing.
    fn placeholder() -> (r: SelectSession) {
        SelectSession {
            request: SelectRequest {
                table_name: String::new(),
                path: AccessPath::FullScan,
                seek: Vec::new(),
                index_slot: -1,
                select_columns: Vec::new(),
            },
            residual: Vec::new(),
            rows: Vec::new(),
            phase: CursorPhase::Closed,
            fetched: Ghost(Seq::empty()),
        }
    }

    pub closed spec fn spec_phase(&self) -> CursorPhase {
        self.phase
    }

    /// What the engine is asked for.
    pub closed spec fn spec_request(&self) -> SelectRequest {
        self.request
    }

    /// The residual restrictions, checked on every fetched row.
    pub closed spec fn spec_residual(&self) -> Seq<Restriction> {
        self.residual@
    }

    /// The rows that the engine returned so far, in order.
    pub closed spec fn spec_fetched(&self) -> Seq<Seq<FetchedColumn>> {
        self.fetched@
    }

    /// The result so far.
    pub closed spec fn spec_rows(&self) -> Seq<DecodedRow> {
        self.rows@
    }

    /// The result is the decoding of the fetched rows that satisfy the
    /// residual restrictions.
    pub open spec fn wf(&self) -> bool {
        rows_match(self.spec_rows(), select_rows(self.spec_fetched(), self.spec_residual()))
    }

    pub fn request(&self) -> (r: &SelectRequest)
        ensures
            *r == self.spec_request(),
    {
        &self.request
    }

    pub fn phase(&self) -> (r: CursorPhase)
        ensures
            r == self.spec_phase(),
    {
        self.phase
    }

    pub fn rows(&self) -> (r: &Vec<DecodedRow>)
        ensures
            r@ == self.spec_rows(),
            self.wf(),
    {
        proof {
            use_type_invariant(self);
        }
        &self.rows
    }

    pub fn into_rows(self) -> (r: Vec<DecodedRow>)
        ensures
            r@ == self.spec_rows(),
            rows_match(r@, select_rows(self.spec_fetched(), self.spec_residual())),
    {
        proof {
            use_type_invariant(&self);
        }
        self.rows
    }

    /// Takes the engine's answer to the last action (or `Start`) and says what
    /// to do next. A successfully fetched row is kept, decoded, when it
    /// satisfies the residual restrictions, and dropped otherwise; iteration
    /// goes on either way.
    pub fn step(&mut self, ev: CursorEvent) -> (a: CursorAction)
        ensures
            final(self).wf(),
            (final(self).spec_phase(), a) == cursor_next(old(self).spec_phase(), ev),
            final(self).spec_fetched() == fetched_after(old(self).spec_fetched(), old(self).spec_phase(), ev),
            final(self).spec_residual() == old(self).spec_residual(),
            final(self).spec_request() == old(self).spec_request(),
    {
        proof {
            use_type_invariant(&*self);
        }
        let phase = self.phase;
        match ev {
            CursorEvent::Start => {
                if phase == CursorPhase::Closed {
                    self.phase = CursorPhase::OpeningTable;
                    CursorAction::OpenTable
                } else {
                    self.phase = CursorPhase::Done;
                    CursorAction::Finish(-1)
                }
            },
            CursorEvent::Status(st) => {
                if phase == CursorPhase::OpeningTable {
                    if st == 0 {
                        self.phase = CursorPhase::OpeningCursor;
                        CursorAction::OpenCursor
                    } else {
                        self.phase = CursorPhase::Done;
                        CursorAction::Finish(st)
                    }
                } else if phase == CursorPhase::OpeningCursor {
                    if st == 0 {
                        self.phase = CursorPhase::Advancing;
                        CursorAction::Next
                    } else {
                        self.phase = CursorPhase::Done;
                        CursorAction::Finish(st)
                    }
                } else {
                    self.phase = CursorPhase::Done;
                    CursorAction::Finish(-1)
                }
            },
            CursorEvent::Next(st, eof) => {
                if phase == CursorPhase::Advancing {
                    if st != 0 {
                        self.phase = CursorPhase::Done;
                        CursorAction::Finish(st)
                    } else if eof {
                        self.phase = CursorPhase::Done;
                        CursorAction::Finish(0)
                    } else {
                        self.phase = CursorPhase::Fetching;
                        CursorAction::Fetch
                    }
                } else {
                    self.phase = CursorPhase::Done;
                    CursorAction::Finish(-1)
                }
            },
            CursorEvent::Row(st, row) => {
                if phase == CursorPhase::Fetching {
                    if st == 0 {
                        let keep = row_satisfies(&row, &self.residual);
                        let mut cur = SelectSession::placeholder();
                        std::mem::swap(&mut cur, self);
                        proof {
                            use_type_invariant(&cur);
                        }
                        let SelectSession { request, residual, mut rows, phase: _, fetched } = cur;
                        if keep {
                            let d = decode_row(&row);
                            rows.push(d);
                        }
                        let ghost old_fetched = fetched@;
                        let ghost new_fetched = old_fetched.push(row@);
                        proof {
                            assert(new_fetched.drop_last() == old_fetched);
                            assert(new_fetched.last() == row@);
                        }
                        *self = SelectSession {
                            request,
                            residual,
                            rows,
                            phase: CursorPhase::Advancing,
                            fetched: Ghost(new_fetched),
                        };
                        CursorAction::Next
                    } else {
                        self.phase = CursorPhase::Done;
                        CursorAction::Finish(st)
                    }
                } else {
                    self.phase = CursorPhase::Done;
                    CursorAction::Finish(-1)
                }
            },
        }
    }
}

/// The entity's columns as a select fetches them: each as declared, under
/// equality.
pub open spec fn fetch_columns_of(cs: Seq<StColumnDef4C>, e: EntityDescriptor) -> bool {
    &&& cs.len() == e.columns@.len()
    &&& forall|i: int| 0 <= i < cs.len() ==> carries(#[trigger] cs[i], e.columns@[i], e.columns@[i].crud_value@, 0)
}

/// All of `cs` encode to `es`, position by position.
pub open spec fn all_encode(es: Seq<exp_column_def_t>, cs: Seq<StColumnDef4C>) -> bool {
    &&& es.len() == cs.len()
    &&& forall|i: int| 0 <= i < cs.len() ==> column_encodes(#[trigger] es[i], cs[i])
}

/// The entity's columns, each as declared, under equality.
pub fn fetch_columns(e: &EntityDescriptor) -> (r: Vec<StColumnDef4C>)
    ensures
        fetch_columns_of(r@, *e),
{
    let mut out: Vec<StColumnDef4C> = Vec::new();
    let mut i: usize = 0;
    while i < e.columns.len()
        invariant
            0 <= i <= e.columns@.len(),
            out@.len() == i,
            forall|m: int| 0 <= m < i ==> carries(#[trigger] out@[m], e.columns@[m], e.columns@[m].crud_value@, 0),
        decreases e.columns@.len() - i,
    {
        let c = &e.columns[i];
        out.push(c.with_value(&c.crud_value, 0));
        i = i + 1;
    }
    out
}

/// Restriction columns of an entity whose declared texts can cross the
/// boundary, carrying literals that can cross it, can cross it.
pub proof fn lemma_restrictions_encodable(cs: Seq<StColumnDef4C>, rs: Seq<Restriction>, cols: Seq<StColumnDef>)
    requires
        restrictions_carried(cs, rs, cols),
        columns_encodable(cols),
        forall|i: int| 0 <= i < rs.len() ==> encodable(#[trigger] rs[i].value@),
    ensures
        forall|i: int| 0 <= i < cs.len() ==> column_encodable(#[trigger] cs[i]),
{
    assert forall|i: int| 0 <= i < cs.len() implies column_encodable(#[trigger] cs[i]) by {
        assert(restriction_carried(cs[i], rs[i], cols));
        lemma_column_named_from(cols, rs[i].name@, 0);
        let p = column_named(cols, rs[i].name@)->Some_0;
        assert(declared_encodable(cols[p]));
        lemma_carried_encodable(cs[i], cols[p], rs[i].value@, rs[i].assign);
    }
}

/// The entity's columns as fetched can cross the boundary when their declared
/// texts can.
pub proof fn lemma_fetch_encodable(cs: Seq<StColumnDef4C>, e: EntityDescriptor)
    requires
        fetch_columns_of(cs, e),
        columns_encodable(e.columns@),
    ensures
        forall|i: int| 0 <= i < cs.len() ==> column_encodable(#[trigger] cs[i]),
{
    assert forall|i: int| 0 <= i < cs.len() implies column_encodable(#[trigger] cs[i]) by {
        assert(declared_encodable(e.columns@[i]));
        lemma_carried_encodable(cs[i], e.columns@[i], e.columns@[i].crud_value@, 0);
    }
}

/// A select is owed: every restriction names a column of the entity and
/// carries a literal that can cross the boundary, and so do the entity's
/// declared texts.
pub open spec fn select_owed(e: EntityDescriptor, rs: Seq<Restriction>) -> bool {
    &&& forall|i: int| 0 <= i < rs.len() ==> has_column(e.columns@, #[trigger] rs[i].name@)
    &&& forall|i: int| 0 <= i < rs.len() ==> encodable(#[trigger] rs[i].value@)
    &&& columns_encodable(e.columns@)
}

/// Prepares a select of the entity's rows that satisfy every restriction.
/// Fails with `UnknownColumn` when a restriction names a column that the entity
/// lacks, and with `Marshal` when a seek literal or a declared column text
/// cannot cross the boundary. On success the request seeks along the planned
/// path and the session is closed, with nothing fetched.
pub fn prepare_select(e: &EntityDescriptor, restrictions: &Vec<Restriction>) -> (r: Result<SelectSession, OrmError>)
    ensures
        select_owed(*e, restrictions@) ==> r is Ok,
        r matches Err(err) ==> err is UnknownColumn || err is Marshal,
        !(forall|i: int| 0 <= i < restrictions@.len() ==> has_column(e.columns@, #[trigger] restrictions@[i].name@))
            ==> r matches Err(OrmError::UnknownColumn(_)),
        r matches Ok(s) ==> {
            let rs = restrictions@;
            let path = planned_path(rs, e.indexes@);
            &&& s.spec_request().table_name@ == e.table_name@
            &&& s.spec_request().path == path
            &&& path is FullScan ==> s.spec_request().index_slot == -1
            &&& path matches AccessPath::Composite(k) ==> s.spec_request().index_slot == e.indexes@[k as int].idx_slot
            &&& path matches AccessPath::Partial(k, _) ==> s.spec_request().index_slot == e.indexes@[k as int].idx_slot
            &&& exists|cs: Seq<StColumnDef4C>| restrictions_carried(cs, planned_seek(rs, path), e.columns@)
                && #[trigger] all_encode(s.spec_request().seek@, cs)
            &&& exists|cs: Seq<StColumnDef4C>| fetch_columns_of(cs, *e)
                && #[trigger] all_encode(s.spec_request().select_columns@, cs)
            &&& s.spec_residual() == planned_residual(rs, path)
            &&& s.spec_phase() == CursorPhase::Closed
            &&& s.spec_fetched() == Seq::<Seq<FetchedColumn>>::empty()
            &&& s.wf()
        },
{
    match restriction_columns(&e.columns, restrictions) {
        Ok(_) => {},
        Err(err) => return Err(err),
    }
    let p = plan(restrictions, &e.indexes);
    let n_restrictions = restrictions.len();
    let n_indexes = e.indexes.len();
    let ghost owed = select_owed(*e, restrictions@);
    proof {
        assert(restrictions@.len() == n_restrictions && e.indexes@.len() == n_indexes);
        lemma_path_in_bounds(restrictions@, e.indexes@);
        lemma_seek_from_input(restrictions@, e.indexes@);
        if owed {
            let seek = p.seek@;
            assert forall|j: int| 0 <= j < seek.len() implies has_column(e.columns@, #[trigger] seek[j].name@)
                && encodable(seek[j].value@) by {
                let m = choose|m: int| 0 <= m < restrictions@.len() && seek[j] == restrictions@[m];
                assert(has_column(e.columns@, restrictions@[m].name@));
                assert(encodable(restrictions@[m].value@));
            }
        }
    }
    let seek_cols = match restriction_columns(&e.columns, &p.seek) {
        Ok(cs) => cs,
        Err(err) => return Err(err),
    };
    proof {
        if owed {
            assert forall|j: int| 0 <= j < p.seek@.len() implies encodable(#[trigger] p.seek@[j].value@) by {
                assert(has_column(e.columns@, p.seek@[j].name@) && encodable(p.seek@[j].value@));
            }
            lemma_restrictions_encodable(seek_cols@, p.seek@, e.columns@);
        }
    }
    let seek = match col_data_convert(&seek_cols) {
        Ok(es) => es,
        Err(err) => return Err(err),
    };
    let fetch_cols = fetch_columns(e);
    proof {
        if owed {
            lemma_fetch_encodable(fetch_cols@, *e);
        }
    }
    let select_columns = match col_data_convert(&fetch_cols) {
        Ok(es) => es,
        Err(err) => return Err(err),
    };
    let index_slot = index_selector(p.path, &e.indexes);
    let request = SelectRequest {
        table_name: e.table_name.clone(),
        path: p.path,
        seek,
        index_slot,
        select_columns,
    };
    proof {
        assert(all_encode(request.seek@, seek_cols@));
        assert(all_encode(request.select_columns@, fetch_cols@));
    }
    Ok(SelectSession {
        request,
        residual: p.residual,
        rows: Vec::new(),
        phase: CursorPhase::Closed,
        fetched: Ghost(Seq::empty()),
    })
}

/// Prepares a select on one restriction.
pub fn select_by_column(e: &EntityDescriptor, restriction: Restriction) -> (r: Result<SelectSession, OrmError>)
    ensures
        select_owed(*e, seq![restriction]) ==> r is Ok,
        r matches Err(err) ==> err is UnknownColumn || err is Marshal,
        !has_column(e.columns@, restriction.name@) ==> r matches Err(OrmError::UnknownColumn(_)),
        r matches Ok(s) ==> {
            let path = planned_path(seq![restriction], e.indexes@);
            &&& s.spec_request().path == path
            &&& s.spec_residual() == planned_residual(seq![restriction], path)
            &&& s.spec_phase() == CursorPhase::Closed
            &&& s.spec_fetched() == Seq::<Seq<FetchedColumn>>::empty()
            &&& s.wf()
        },
{
    let mut rs: Vec<Restriction> = Vec::new();
    rs.push(restriction);
    proof {
        assert(rs@ == seq![restriction]);
        assert(rs@[0] == restriction);
    }
    prepare_select(e, &rs)
}

/// Prepares a select on several restrictions; an empty list is refused with
/// `NoRestrictions`.
pub fn select_by_columns(e: &EntityDescriptor, restrictions: Vec<Restriction>) -> (r: Result<SelectSession, OrmError>)
    ensures
        restrictions@.len() > 0 && select_owed(*e, restrictions@) ==> r is Ok,
        r matches Err(err) ==> err is UnknownColumn || err is Marshal || err is NoRestrictions,
        restrictions@.len() == 0 ==> r matches Err(OrmError::NoRestrictions),
        restrictions@.len() > 0 && !(forall|i: int| 0 <= i < restrictions@.len() ==> has_column(e.columns@, #[trigger] restrictions@[i].name@))
            ==> r matches Err(OrmError::UnknownColumn(_)),
        r matches Ok(s) ==> {
            let path = planned_path(restrictions@, e.indexes@);
            &&& restrictions@.len() > 0
            &&& s.spec_request().path == path
            &&& s.spec_residual() == planned_residual(restrictions@, path)
            &&& s.spec_phase() == CursorPhase::Closed
            &&& s.spec_fetched() == Seq::<Seq<FetchedColumn>>::empty()
            &&& s.wf()
        },
{
    if restrictions.len() == 0 {
        return Err(OrmError::NoRestrictions);
    }
    prepare_select(e, &restrictions)
}

/// A select whose session fetched exactly what the engine yields along the
/// planned path holds the decoded stored rows that satisfy every restriction,
/// whichever path was planned.
pub proof fn lemma_select_returns_matching_rows(
    s: SelectSession,
    rs: Seq<Restriction>,
    ixs: Seq<StIndexDef>,
    table: Seq<Seq<FetchedColumn>>,
)
    requires
        rs.len() <= usize::MAX,
        ixs.len() <= usize::MAX,
        s.wf(),
        s.spec_residual() == planned_residual(rs, planned_path(rs, ixs)),
        s.spec_fetched() == path_yield(table, planned_path(rs, ixs), planned_seek(rs, planned_path(rs, ixs))),
    ensures
        rows_match(s.spec_rows(), select_rows(table, rs)),
{
    lemma_plan_preserves_result(rs, ixs, table);
}

} // verus!
