#![allow(non_snake_case)]

use ncti_orm::crud::{
    create_index, create_table, delete_by_column, insert, update_by_column, FieldValue, Mutation,
    MutationAction, MutationEvent, MutationKind,
};
use ncti_orm::cursor::{
    select_by_column, select_by_columns, CursorAction, CursorEvent, CursorPhase, DecodedRow,
    FetchedColumn, SelectSession,
};
use ncti_orm::entity::{describe, Create, User};
use ncti_orm::error::OrmError;
use ncti_orm::marshal::exp_column_def_t;
use ncti_orm::model::{Restriction, StColumnDef, StIndexDef};
use ncti_orm::planner::AccessPath;
use ncti_orm::schema::{register, EntityDescriptor};
use ncti_orm::value::Value;

type StoredRow = Vec<(String, String)>;

fn text(b: &[u8]) -> String {
    String::from_utf8_lossy(b).into_owned()
}

fn row_matches(row: &StoredRow, conds: &[exp_column_def_t]) -> bool {
    conds.iter().all(|c| {
        let n = text(&c.name.str);
        let v = text(&c.crud_value.str);
        row.iter().filter(|(rn, _)| *rn == n).all(|(_, rv)| *rv == v)
    })
}

/// A single-session engine kept in memory: a committed state and the
/// session's working state, which commit and rollback reconcile.
#[derive(Default)]
struct Engine {
    tables: Vec<String>,
    indexes: Vec<usize>,
    committed: Vec<StoredRow>,
    working: Vec<StoredRow>,
    fail_open: bool,
    fail_write: bool,
    calls: Vec<MutationAction>,
}

impl Engine {
    fn with_table(name: &str) -> Engine {
        Engine { tables: vec![name.to_string()], ..Engine::default() }
    }

    fn run(&mut self, mut m: Mutation) -> i32 {
        let mut ev = MutationEvent::Start;
        loop {
            let a = m.step(ev);
            self.calls.push(a);
            let req = m.request();
            let st = match a {
                MutationAction::OpenTable => {
                    if self.fail_open || !self.tables.contains(&req.table_name) {
                        -1
                    } else {
                        0
                    }
                }
                MutationAction::CreateTable => {
                    self.tables.push(req.table_name.clone());
                    0
                }
                MutationAction::CreateIndex(k) => {
                    self.indexes.push(k);
                    0
                }
                MutationAction::InsertRow => {
                    if self.fail_write {
                        -1
                    } else {
                        let row = req
                            .columns
                            .iter()
                            .map(|c| (text(&c.name.str), text(&c.crud_value.str)))
                            .collect();
                        self.working.push(row);
                        0
                    }
                }
                MutationAction::UpdateRow => {
                    for row in self.working.iter_mut() {
                        if row_matches(row, &req.conditions) {
                            for c in &req.columns {
                                let n = text(&c.name.str);
                                for cell in row.iter_mut() {
                                    if cell.0 == n {
                                        cell.1 = text(&c.crud_value.str);
                                    }
                                }
                            }
                        }
                    }
                    0
                }
                MutationAction::DeleteRow => {
                    let conds = &req.conditions;
                    self.working.retain(|row| !row_matches(row, conds));
                    0
                }
                MutationAction::Commit => {
                    self.commit();
                    0
                }
                MutationAction::Rollback => {
                    self.rollback();
                    0
                }
                MutationAction::Finish(st) => return st,
            };
            ev = MutationEvent::Status(st);
        }
    }

    fn commit(&mut self) {
        self.committed = self.working.clone();
    }

    fn rollback(&mut self) {
        self.working = self.committed.clone();
    }

    /// Runs a select on the session's own view (`fresh == false`) or on the
    /// committed state, as a fresh handle sees it.
    fn select(&self, mut s: SelectSession, fresh: bool) -> (i32, Vec<DecodedRow>) {
        let view = if fresh { &self.committed } else { &self.working };
        let mut cursor: Vec<StoredRow> = Vec::new();
        let mut pos = 0usize;
        let mut ev = CursorEvent::Start;
        loop {
            let a = s.step(ev);
            ev = match a {
                CursorAction::OpenTable => {
                    CursorEvent::Status(if self.tables.contains(&s.request().table_name) { 0 } else { -1 })
                }
                CursorAction::OpenCursor => {
                    let req = s.request();
                    cursor = if req.index_slot == -1 {
                        view.clone()
                    } else {
                        view.iter().filter(|r| row_matches(r, &req.seek)).cloned().collect()
                    };
                    pos = 0;
                    CursorEvent::Status(0)
                }
                CursorAction::Next => {
                    if pos < cursor.len() {
                        pos += 1;
                        CursorEvent::Next(0, false)
                    } else {
                        CursorEvent::Next(0, true)
                    }
                }
                CursorAction::Fetch => {
                    let row = &cursor[pos - 1];
                    let cols = s
                        .request()
                        .select_columns
                        .iter()
                        .map(|c| {
                            let n = text(&c.name.str);
                            let v = row
                                .iter()
                                .find(|(rn, _)| *rn == n)
                                .map(|(_, v)| v.clone())
                                .unwrap_or_default();
                            FetchedColumn { name: n, col_type: c.col_type, value: v.into_bytes() }
                        })
                        .collect();
                    CursorEvent::Row(0, cols)
                }
                CursorAction::Finish(st) => return (st, s.into_rows()),
            };
        }
    }
}

fn user_entity() -> EntityDescriptor {
    describe(&User::default()).unwrap()
}

fn user(v: &str) -> User {
    User {
        id: Some(v.to_string()),
        name1: Some(v.to_string()),
        name2: Some(v.to_string()),
        name3: Some(v.to_string()),
        name4: Some(v.to_string()),
    }
}

fn eq(name: &str, value: &str) -> Restriction {
    Restriction::equ(name.to_string(), value.to_string())
}

fn users(rows: &[DecodedRow]) -> Vec<User> {
    rows.iter().map(User::from_row).collect()
}

fn ids(rows: &[DecodedRow]) -> Vec<String> {
    users(rows).into_iter().map(|u| u.id.unwrap_or_default()).collect()
}

fn insert_user(engine: &mut Engine, e: &EntityDescriptor, u: &User, commit: bool) -> i32 {
    engine.run(insert(e, &u.fields(), commit).unwrap())
}

/// A table of users `(id, name1, name2)` with all five columns.
fn seeded(e: &EntityDescriptor, rows: &[(&str, &str, &str)]) -> Engine {
    let mut engine = Engine::with_table("user");
    for (id, n1, n2) in rows {
        let u = User {
            id: Some(id.to_string()),
            name1: Some(n1.to_string()),
            name2: Some(n2.to_string()),
            name3: Some("-".to_string()),
            name4: Some("-".to_string()),
        };
        assert_eq!(insert_user(&mut engine, e, &u, true), 0);
    }
    engine
}

fn brute_force(engine: &Engine, rs: &[Restriction]) -> Vec<String> {
    engine
        .committed
        .iter()
        .filter(|row| {
            rs.iter().all(|r| row.iter().filter(|(n, _)| *n == r.name).all(|(_, v)| *v == r.value))
        })
        .map(|row| row.iter().find(|(n, _)| n == "id").unwrap().1.clone())
        .collect()
}

#[test]
fn select_on_indexed_column_seeks_the_index() {
    let e = user_entity();
    let engine = seeded(&e, &[("4", "x", "a"), ("5", "y", "b"), ("6", "x", "c")]);
    let s = select_by_column(&e, eq("id", "5")).unwrap();
    assert_eq!(s.request().path, AccessPath::Composite(0));
    assert_eq!(s.request().index_slot, 0);
    assert_eq!(s.request().seek.len(), 1);
    assert_eq!(s.request().seek[0].crud_value.str, b"5".to_vec());
    let (st, rows) = engine.select(s, true);
    assert_eq!(st, 0);
    assert_eq!(ids(&rows), vec!["5".to_string()]);
    let (_, none) = engine.select(select_by_column(&e, eq("id", "9")).unwrap(), true);
    assert!(none.is_empty());
}

#[test]
fn select_on_plain_column_scans_and_filters() {
    let e = user_entity();
    let engine = seeded(&e, &[("4", "x", "a"), ("5", "y", "b"), ("6", "x", "c")]);
    let s = select_by_column(&e, eq("name1", "x")).unwrap();
    assert_eq!(s.request().path, AccessPath::FullScan);
    assert_eq!(s.request().index_slot, -1);
    assert!(s.request().seek.is_empty());
    let (st, rows) = engine.select(s, true);
    assert_eq!(st, 0);
    assert_eq!(ids(&rows), vec!["4".to_string(), "6".to_string()]);
}

#[test]
fn select_on_two_columns_seeks_the_leading_one_and_filters_the_rest() {
    let e = user_entity();
    let engine = seeded(&e, &[("5", "y", "a"), ("6", "x", "b")]);
    let s = select_by_columns(&e, vec![eq("id", "5"), eq("name1", "x")]).unwrap();
    assert_eq!(s.request().path, AccessPath::Partial(0, 0));
    assert_eq!(s.request().seek.len(), 1);
    assert_eq!(s.request().seek[0].name.str, b"id".to_vec());
    let (_, rows) = engine.select(s, true);
    assert!(rows.is_empty());
    let (_, rows) = engine.select(select_by_columns(&e, vec![eq("id", "6"), eq("name1", "x")]).unwrap(), true);
    assert_eq!(ids(&rows), vec!["6".to_string()]);
}

#[test]
fn every_path_returns_the_matching_rows() {
    let cols: Vec<StColumnDef> = User::default().get_table_colums_info();
    let mk = |name: &str, c: &[&str], slot: u16| StIndexDef {
        name: name.to_string(),
        cols: c.iter().map(|x| x.to_string()).collect(),
        idx_slot: slot,
        col_count: c.len() as u32,
        is_unique: 0,
        is_primary: 0,
    };
    let index_sets = vec![
        vec![],
        vec![mk("IDX_id", &["id"], 0)],
        vec![mk("IDX_n1", &["name1"], 0), mk("IDX_id_n1", &["id", "name1"], 1)],
        vec![mk("IDX_n2_n1", &["name2", "name1"], 0)],
    ];
    let data = [("1", "x", "a"), ("2", "x", "b"), ("3", "y", "a"), ("4", "x", "a"), ("5", "y", "b")];
    let queries = vec![
        vec![eq("id", "2")],
        vec![eq("name1", "x")],
        vec![eq("name1", "x"), eq("name2", "a")],
        vec![eq("name2", "a"), eq("name1", "x")],
        vec![eq("id", "3"), eq("name1", "y")],
        vec![eq("name1", "y"), eq("id", "3")],
        vec![eq("name1", "x"), eq("name1", "y")],
        vec![eq("id", "4"), eq("name2", "a"), eq("name1", "x")],
    ];
    for ixs in index_sets {
        let e = register("user".to_string(), cols.clone(), ixs).unwrap();
        let engine = seeded(&e, &data);
        for q in &queries {
            let expected = brute_force(&engine, q);
            let (st, rows) = engine.select(select_by_columns(&e, q.clone()).unwrap(), true);
            assert_eq!(st, 0);
            assert_eq!(ids(&rows), expected, "query {:?}", q);
        }
    }
}

#[test]
fn integer_columns_decode_to_integers() {
    let mut cols: Vec<StColumnDef> = User::default().get_table_colums_info();
    cols[1].types = "BIGINT".to_string();
    let e = register("user".to_string(), cols, vec![]).unwrap();
    let engine = seeded(&e, &[("1", "42", "a")]);
    let (_, rows) = engine.select(select_by_column(&e, eq("id", "1")).unwrap(), true);
    assert_eq!(rows.len(), 1);
    assert_eq!(rows[0].columns[1].name, "name1");
    assert!(matches!(rows[0].columns[1].value, Value::I64(42)));
}

#[test]
fn select_refuses_unknown_columns_and_empty_lists() {
    let e = user_entity();
    assert!(matches!(select_by_column(&e, eq("nope", "1")), Err(OrmError::UnknownColumn(_))));
    assert!(matches!(select_by_columns(&e, vec![]), Err(OrmError::NoRestrictions)));
}

#[test]
fn select_stops_on_a_failing_status() {
    let e = user_entity();
    let mut s = select_by_column(&e, eq("id", "1")).unwrap();
    assert_eq!(s.phase(), CursorPhase::Closed);
    assert_eq!(s.step(CursorEvent::Start), CursorAction::OpenTable);
    assert_eq!(s.step(CursorEvent::Status(0)), CursorAction::OpenCursor);
    assert_eq!(s.step(CursorEvent::Status(0)), CursorAction::Next);
    assert_eq!(s.step(CursorEvent::Next(1, false)), CursorAction::Finish(1));
    assert_eq!(s.phase(), CursorPhase::Done);
    assert!(s.rows().is_empty());
}

#[test]
fn select_keeps_rows_fetched_before_a_failure() {
    let e = user_entity();
    let mut s = select_by_column(&e, eq("name1", "x")).unwrap();
    s.step(CursorEvent::Start);
    s.step(CursorEvent::Status(0));
    s.step(CursorEvent::Status(0));
    let row = |id: &str, n1: &str| {
        vec![
            FetchedColumn { name: "id".to_string(), col_type: ncti_orm::types::gs_type_t::GS_TYPE_VARCHAR, value: id.as_bytes().to_vec() },
            FetchedColumn { name: "name1".to_string(), col_type: ncti_orm::types::gs_type_t::GS_TYPE_VARCHAR, value: n1.as_bytes().to_vec() },
        ]
    };
    assert_eq!(s.step(CursorEvent::Next(0, false)), CursorAction::Fetch);
    assert_eq!(s.step(CursorEvent::Row(0, row("1", "x"))), CursorAction::Next);
    assert_eq!(s.step(CursorEvent::Next(0, false)), CursorAction::Fetch);
    assert_eq!(s.step(CursorEvent::Row(0, row("2", "z"))), CursorAction::Next);
    assert_eq!(s.step(CursorEvent::Next(0, false)), CursorAction::Fetch);
    assert_eq!(s.step(CursorEvent::Row(-1, vec![])), CursorAction::Finish(-1));
    assert_eq!(ids(s.rows()), vec!["1".to_string()]);
    assert_eq!(s.step(CursorEvent::Start), CursorAction::Finish(-1));
}

#[test]
fn insert_without_commit_is_seen_by_the_session_only() {
    let e = user_entity();
    let mut engine = Engine::with_table("user");
    assert_eq!(insert_user(&mut engine, &e, &user("7"), false), 0);
    assert!(!engine.calls.contains(&MutationAction::Commit));
    assert!(!engine.calls.contains(&MutationAction::Rollback));
    let (_, mine) = engine.select(select_by_column(&e, eq("id", "7")).unwrap(), false);
    assert_eq!(ids(&mine), vec!["7".to_string()]);
    let (_, fresh) = engine.select(select_by_column(&e, eq("id", "7")).unwrap(), true);
    assert!(fresh.is_empty());
    engine.rollback();
    let (_, after) = engine.select(select_by_column(&e, eq("id", "7")).unwrap(), true);
    assert!(after.is_empty());
}

#[test]
fn insert_with_commit_commits_on_success() {
    let e = user_entity();
    let mut engine = Engine::with_table("user");
    assert_eq!(insert_user(&mut engine, &e, &user("1"), true), 0);
    assert_eq!(
        engine.calls,
        vec![MutationAction::OpenTable, MutationAction::InsertRow, MutationAction::Commit, MutationAction::Finish(0)]
    );
}

#[test]
fn insert_with_commit_rolls_back_on_failure() {
    let e = user_entity();
    let mut engine = Engine::with_table("user");
    engine.fail_write = true;
    assert_eq!(insert_user(&mut engine, &e, &user("1"), true), -1);
    assert_eq!(
        engine.calls,
        vec![MutationAction::OpenTable, MutationAction::InsertRow, MutationAction::Rollback, MutationAction::Finish(-1)]
    );
}

#[test]
fn failed_table_open_stops_the_mutation() {
    let e = user_entity();
    let mut engine = Engine::with_table("user");
    engine.fail_open = true;
    assert_eq!(insert_user(&mut engine, &e, &user("1"), true), -1);
    assert_eq!(engine.calls, vec![MutationAction::OpenTable, MutationAction::Finish(-1)]);
    assert!(engine.working.is_empty());
}

#[test]
fn insert_payload_writes_null_for_absent_fields() {
    let e = user_entity();
    let mut engine = Engine::with_table("user");
    let u = User { id: Some("1".to_string()), ..User::default() };
    assert_eq!(insert_user(&mut engine, &e, &u, true), 0);
    assert_eq!(engine.committed[0][1], ("name1".to_string(), "null".to_string()));
}

#[test]
fn update_sets_only_fields_with_values() {
    let e = user_entity();
    let mut engine = seeded(&e, &[("1", "a", "b")]);
    let patch = User { id: Some("1".to_string()), name1: Some("new".to_string()), ..User::default() };
    let m = update_by_column(&e, &patch.fields(), eq("id", "1"), true).unwrap();
    assert_eq!(m.request().kind, MutationKind::Update);
    assert_eq!(m.request().columns.len(), 2);
    assert_eq!(engine.run(m), 0);
    let (_, rows) = engine.select(select_by_column(&e, eq("id", "1")).unwrap(), true);
    let got = users(&rows);
    assert_eq!(got[0].name1.as_deref(), Some("new"));
    assert_eq!(got[0].name2.as_deref(), Some("b"));
}

#[test]
fn unknown_fields_and_restrictions_are_refused() {
    let e = user_entity();
    let fields = vec![FieldValue { name: "age".to_string(), value: Some("3".to_string()) }];
    assert!(matches!(insert(&e, &fields, true), Err(OrmError::UnknownColumn(_))));
    assert!(matches!(delete_by_column(&e, eq("age", "3"), true), Err(OrmError::UnknownColumn(_))));
    assert!(matches!(
        update_by_column(&e, &user("1").fields(), eq("age", "3"), true),
        Err(OrmError::UnknownColumn(_))
    ));
}

#[test]
fn create_table_then_its_indexes() {
    let e = user_entity();
    let mut engine = Engine::default();
    let m = create_table(&e).unwrap();
    assert_eq!(m.request().columns.len(), 5);
    assert_eq!(m.request().indexes.len(), 1);
    assert_eq!(engine.run(m), 0);
    assert_eq!(
        engine.calls,
        vec![
            MutationAction::CreateTable,
            MutationAction::OpenTable,
            MutationAction::CreateIndex(0),
            MutationAction::Finish(0)
        ]
    );
    assert_eq!(engine.tables, vec!["user".to_string()]);
}

#[test]
fn create_index_alone_needs_the_table() {
    let e = user_entity();
    let mut engine = Engine::default();
    assert_eq!(engine.run(create_index(&e).unwrap()), -1);
    let mut engine = Engine::with_table("user");
    assert_eq!(engine.run(create_index(&e).unwrap()), 0);
    assert_eq!(engine.indexes, vec![0]);
}

#[test]
fn RDB_001_create_table() {
    let mut engine = Engine::default();
    let ret = engine.run(create_table(&user_entity()).unwrap());
    assert_eq!(ret, 0);
}

#[test]
fn RDB_001_insert() {
    let e = user_entity();
    let mut engine = Engine::with_table("user");
    assert_eq!(insert_user(&mut engine, &e, &user("1"), true), 0);
    let (_, rows) = engine.select(select_by_column(&e, eq("id", "1")).unwrap(), false);
    assert_eq!(users(&rows)[0].name4.as_deref(), Some("1"));
}

#[test]
fn RDB_002_insert() {
    let e = user_entity();
    let mut engine = Engine::with_table("user");
    assert_eq!(insert_user(&mut engine, &e, &user("2"), true), 0);
    let (_, rows) = engine.select(select_by_column(&e, eq("id", "2")).unwrap(), false);
    assert_eq!(ids(&rows), vec!["2".to_string()]);
}

#[test]
fn RDB_003_insert() {
    let e = user_entity();
    let mut engine = Engine::with_table("user");
    assert_eq!(insert_user(&mut engine, &e, &user("3"), true), 0);
    assert_eq!(engine.committed.len(), 1);
}

#[test]
fn RDB_003_select() {
    let e = user_entity();
    let mut engine = Engine::with_table("user");
    insert_user(&mut engine, &e, &user("3"), true);
    let (_, rows) = engine.select(select_by_column(&e, eq("id", "3")).unwrap(), true);
    assert_eq!(ids(&rows), vec!["3".to_string()]);
}

#[test]
fn RDB_004_select() {
    let e = user_entity();
    let mut engine = Engine::with_table("user");
    insert_user(&mut engine, &e, &user("1"), true);
    let (_, rows) = engine.select(select_by_column(&e, eq("id", "1")).unwrap(), true);
    assert_eq!(rows.len(), 1);
}

#[test]
fn RDB_004_update() {
    let e = user_entity();
    let mut engine = Engine::with_table("user");
    insert_user(&mut engine, &e, &user("1"), true);
    let t = User {
        id: Some("1".to_string()),
        name1: Some("update1".to_string()),
        name2: Some("update2".to_string()),
        name3: Some("update3".to_string()),
        name4: Some("update4".to_string()),
    };
    let ret = engine.run(update_by_column(&e, &t.fields(), eq("id", "1"), true).unwrap());
    assert_eq!(ret, 0);
    let (_, rows) = engine.select(select_by_column(&e, eq("id", "1")).unwrap(), true);
    assert_eq!(users(&rows)[0].name3.as_deref(), Some("update3"));
}

#[test]
fn RDB_005_insert() {
    let e = user_entity();
    let mut engine = Engine::with_table("user");
    assert_eq!(insert_user(&mut engine, &e, &user("5"), true), 0);
}

#[test]
fn RDB_005_delete() {
    let e = user_entity();
    let mut engine = Engine::with_table("user");
    insert_user(&mut engine, &e, &user("5"), true);
    let ret = engine.run(delete_by_column(&e, eq("id", "5"), true).unwrap());
    assert_eq!(ret, 0);
    let (_, rows) = engine.select(select_by_column(&e, eq("id", "5")).unwrap(), true);
    assert!(rows.is_empty());
}

#[test]
fn RDB_006_insert() {
    let e = user_entity();
    let mut engine = Engine::with_table("user");
    assert_eq!(insert_user(&mut engine, &e, &user("6"), true), 0);
}

#[test]
fn RDB_006_rollback() {
    let e = user_entity();
    let mut engine = Engine::with_table("user");
    insert_user(&mut engine, &e, &user("6"), true);
    engine.run(delete_by_column(&e, eq("id", "6"), false).unwrap());
    let (_, gone) = engine.select(select_by_column(&e, eq("id", "6")).unwrap(), false);
    assert!(gone.is_empty());
    engine.rollback();
    let (_, back) = engine.select(select_by_column(&e, eq("id", "6")).unwrap(), false);
    assert_eq!(ids(&back), vec!["6".to_string()]);
}

#[test]
fn RDB_007_insert() {
    let e = user_entity();
    let mut engine = Engine::with_table("user");
    insert_user(&mut engine, &e, &user("7"), true);
    let (_, rows) = engine.select(select_by_column(&e, eq("id", "7")).unwrap(), false);
    assert_eq!(rows.len(), 1);
}

#[test]
fn RDB_007_rollback() {
    let e = user_entity();
    let mut engine = Engine::with_table("user");
    insert_user(&mut engine, &e, &user("7"), true);
    engine.run(delete_by_column(&e, eq("id", "7"), false).unwrap());
    insert_user(&mut engine, &e, &user("8"), false);
    let t = User { id: Some("8".to_string()), name1: Some("update8".to_string()), ..User::default() };
    engine.run(update_by_column(&e, &t.fields(), eq("id", "8"), false).unwrap());
    let (_, seven) = engine.select(select_by_column(&e, eq("id", "7")).unwrap(), false);
    assert!(seven.is_empty());
    let (_, eight) = engine.select(select_by_column(&e, eq("id", "8")).unwrap(), false);
    assert_eq!(users(&eight)[0].name1.as_deref(), Some("update8"));
    engine.rollback();
    let (_, seven) = engine.select(select_by_column(&e, eq("id", "7")).unwrap(), false);
    assert_eq!(ids(&seven), vec!["7".to_string()]);
    let (_, eight) = engine.select(select_by_column(&e, eq("id", "8")).unwrap(), false);
    assert!(eight.is_empty());
}

#[test]
fn RDB_008_insert() {
    let e = user_entity();
    let mut engine = Engine::with_table("user");
    insert_user(&mut engine, &e, &user("10"), true);
    let (_, rows) = engine.select(select_by_column(&e, eq("id", "10")).unwrap(), false);
    assert_eq!(ids(&rows), vec!["10".to_string()]);
}

#[test]
fn RDB_008_commit() {
    let e = user_entity();
    let mut engine = Engine::with_table("user");
    insert_user(&mut engine, &e, &user("10"), true);
    engine.run(delete_by_column(&e, eq("id", "10"), false).unwrap());
    insert_user(&mut engine, &e, &user("11"), false);
    engine.commit();
    let (_, ten) = engine.select(select_by_column(&e, eq("id", "10")).unwrap(), true);
    assert!(ten.is_empty());
    let (_, eleven) = engine.select(select_by_column(&e, eq("id", "11")).unwrap(), true);
    assert_eq!(ids(&eleven), vec!["11".to_string()]);
}

fn bulk(entity: EntityDescriptor) {
    let mut engine = Engine::default();
    assert_eq!(engine.run(create_table(&entity).unwrap()), 0);
    for i in 1..101 {
        insert_user(&mut engine, &entity, &user(&i.to_string()), false);
        if i % 10 == 0 {
            engine.commit();
        }
    }
    for n in 1..100 {
        let (st, rows) = engine.select(select_by_column(&entity, eq("id", &n.to_string())).unwrap(), true);
        assert_eq!(st, 0);
        assert_eq!(ids(&rows), vec![n.to_string()]);
    }
}

#[test]
fn RDB_index_001() {
    let cols = User::default().get_table_colums_info();
    bulk(register("user".to_string(), cols, vec![]).unwrap());
}

#[test]
fn RDB_index_002() {
    bulk(user_entity());
}
