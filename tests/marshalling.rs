use ncti_orm::cursor::{DecodedColumn, DecodedRow};
use ncti_orm::entity::{describe, MetaData, Row, User};
use ncti_orm::error::{status_result, OrmError, SchemaFault};
use ncti_orm::marshal::{
    col_data_convert, decode, decode_bytes, encode_text, index_data_convert, parse_i64,
};
use ncti_orm::model::{CheckError, ExecResult, Restriction, StColumnDef, StColumnDef4C, StIndexDef};
use ncti_orm::schema::{find_column, register, restriction_columns};
use ncti_orm::types::{assign_type_t, dbtype_t, gs_type_t, status_t, table_type_t};
use ncti_orm::value::Value;

fn all_tags() -> Vec<gs_type_t> {
    vec![
    gs_type_t::GS_TYPE_UNKNOWN,
    gs_type_t::GS_TYPE_BASE,
    gs_type_t::GS_TYPE_INTEGER,
    gs_type_t::GS_TYPE_BIGINT,
    gs_type_t::GS_TYPE_REAL,
    gs_type_t::GS_TYPE_NUMBER,
    gs_type_t::GS_TYPE_DECIMAL,
    gs_type_t::GS_TYPE_DATE,
    gs_type_t::GS_TYPE_TIMESTAMP,
    gs_type_t::GS_TYPE_CHAR,
    gs_type_t::GS_TYPE_VARCHAR,
    gs_type_t::GS_TYPE_STRING,
    gs_type_t::GS_TYPE_BINARY,
    gs_type_t::GS_TYPE_VARBINARY,
    gs_type_t::GS_TYPE_CLOB,
    gs_type_t::GS_TYPE_BLOB,
    gs_type_t::GS_TYPE_CURSOR,
    gs_type_t::GS_TYPE_COLUMN,
    gs_type_t::GS_TYPE_BOOLEAN,
    gs_type_t::GS_TYPE_TIMESTAMP_TZ_FAKE,
    gs_type_t::GS_TYPE_TIMESTAMP_LTZ,
    gs_type_t::GS_TYPE_INTERVAL,
    gs_type_t::GS_TYPE_INTERVAL_YM,
    gs_type_t::GS_TYPE_INTERVAL_DS,
    gs_type_t::GS_TYPE_RAW,
    gs_type_t::GS_TYPE_IMAGE,
    gs_type_t::GS_TYPE_UINT32,
    gs_type_t::GS_TYPE_UINT64,
    gs_type_t::GS_TYPE_SMALLINT,
    gs_type_t::GS_TYPE_USMALLINT,
    gs_type_t::GS_TYPE_TINYINT,
    gs_type_t::GS_TYPE_UTINYINT,
    gs_type_t::GS_TYPE_FLOAT,
    gs_type_t::GS_TYPE_TIMESTAMP_TZ,
    gs_type_t::GS_TYPE_ARRAY,
    gs_type_t::GS_TYPE_OPERAND_CEIL,
    gs_type_t::GS_TYPE_RECORD,
    gs_type_t::GS_TYPE_COLLECTION,
    gs_type_t::GS_TYPE_OBJECT,
    gs_type_t::GS_TYPE__DO_NOT_USE,
    gs_type_t::GS_TYPE_FUNC_BASE,
    gs_type_t::GS_TYPE_TYPMODE,
    gs_type_t::GS_TYPE_VM_ROWID,
    gs_type_t::GS_TYPE_ITVL_UNIT,
    gs_type_t::GS_TYPE_UNINITIALIZED,
    gs_type_t::GS_TYPE_NATIVE_DATE,
    gs_type_t::GS_TYPE_NATIVE_TIMESTAMP,
    gs_type_t::GS_TYPE_LOGIC_TRUE,
    ]
}

fn column(name: &str, types: &str) -> StColumnDef {
    StColumnDef {
        name: name.to_string(),
        types: types.to_string(),
        col_slot: 0,
        size: 10,
        nullable: 0,
        is_primary: 0,
        is_default: 0,
        default_val: String::new(),
        crud_value: String::new(),
        precision: 0,
        comment: String::new(),
    }
}

fn index(name: &str, cols: &[&str], count: u32) -> StIndexDef {
    StIndexDef {
        name: name.to_string(),
        cols: cols.iter().map(|c| c.to_string()).collect(),
        idx_slot: 0,
        col_count: count,
        is_unique: 0,
        is_primary: 0,
    }
}

#[test]
fn tag_names_round_trip_for_every_tag() {
    for t in all_tags() {
        assert_eq!(gs_type_t::from_name(&t.as_string()), t);
    }
}

#[test]
fn tag_names_are_canonical() {
    assert_eq!(gs_type_t::GS_TYPE_VARCHAR.as_string(), "VARCHAR");
    assert_eq!(gs_type_t::GS_TYPE_BIGINT.as_string(), "BIGINT");
    assert_eq!(gs_type_t::GS_TYPE__DO_NOT_USE.as_string(), "_DO_NOT_USE");
    assert_eq!(gs_type_t::GS_TYPE_UNKNOWN.as_string(), "UNKNOWN");
    assert_eq!(gs_type_t::from_name("TIMESTAMP_LTZ"), gs_type_t::GS_TYPE_TIMESTAMP_LTZ);
}

#[test]
fn unknown_tag_name_gives_unknown() {
    assert_eq!(gs_type_t::from_name("varchar"), gs_type_t::GS_TYPE_UNKNOWN);
    assert_eq!(gs_type_t::from_name(""), gs_type_t::GS_TYPE_UNKNOWN);
    assert_eq!(gs_type_t::from_name("VARCHAR2"), gs_type_t::GS_TYPE_UNKNOWN);
}

#[test]
fn tag_codes_follow_the_engine() {
    assert_eq!(gs_type_t::GS_TYPE_UNKNOWN.code(), -1);
    assert_eq!(gs_type_t::GS_TYPE_BASE.code(), 20000);
    assert_eq!(gs_type_t::GS_TYPE_VARCHAR.code(), 20009);
    assert_eq!(gs_type_t::GS_TYPE_OPERAND_CEIL.code(), 20040);
    assert_eq!(gs_type_t::GS_TYPE_LOGIC_TRUE.code(), 20207);
}

#[test]
fn assign_codes_round_trip() {
    for v in 0u8..6 {
        assert_eq!(assign_type_t::from_u8(v).as_u8(), v);
    }
    assert_eq!(assign_type_t::from_u8(9), assign_type_t::ASSIGN_TYPE_EQUAL);
    assert_eq!(assign_type_t::ASSIGN_TYPE_UNEQUAL.as_u8(), 5);
    assert_eq!(assign_type_t::default(), assign_type_t::ASSIGN_TYPE_EQUAL);
}

#[test]
fn status_and_kind_codes() {
    assert_eq!(status_t::from_code(0), status_t::GS_SUCCESS);
    assert_eq!(status_t::from_code(1), status_t::GS_TIMEDOUT);
    assert_eq!(status_t::from_code(-1), status_t::GS_ERROR);
    assert_eq!(status_t::from_code(7), status_t::GS_ERROR);
    assert_eq!(status_t::GS_ERROR.code(), -1);
    assert_eq!(table_type_t::TABLE_TYPE_EXTERNAL.code(), 5);
    assert_eq!(dbtype_t::DB_TYPE_CEIL.code(), 1);
}

#[test]
fn value_emptiness() {
    assert!(Value::Null.is_empty());
    assert!(Value::String(String::new()).is_empty());
    assert!(!Value::String("a".to_string()).is_empty());
    assert!(!Value::I64(0).is_empty());
    assert!(Value::Array(vec![]).is_empty());
    assert!(!Value::Dict(vec![(Value::Null, Value::Null)]).is_empty());
    assert!(Value::Ext("t", Box::new(Value::Binary(vec![]))).is_empty());
    assert!(!Value::Ext("t", Box::new(Value::Bool(false))).is_empty());
}

#[test]
fn value_into_ext_wraps_once() {
    match Value::I32(3).into_ext("num") {
        Value::Ext(n, inner) => {
            assert_eq!(n, "num");
            assert!(matches!(*inner, Value::I32(3)));
        }
        other => panic!("not an extension: {:?}", other),
    }
    match Value::Ext("a", Box::new(Value::Null)).into_ext("b") {
        Value::Ext(n, inner) => {
            assert_eq!(n, "a");
            assert!(matches!(*inner, Value::Null));
        }
        other => panic!("not an extension: {:?}", other),
    }
}

#[test]
fn restriction_equ_is_equality() {
    let r = Restriction::equ("id".to_string(), "5".to_string());
    assert_eq!(r.name, "id");
    assert_eq!(r.value, "5");
    assert_eq!(r.assign, 0);
}

#[test]
fn check_error_and_exec_result() {
    let e = CheckError::Simple("bad".to_string());
    assert_eq!(e.message(), "bad");
    let r = ExecResult { results: "ok".to_string(), code: 0 };
    assert_eq!(r.code, 0);
    assert_eq!(r.results, "ok");
}

#[test]
fn encode_text_gives_utf8_bytes_and_length() {
    let t = encode_text(&"héllo".to_string(), assign_type_t::ASSIGN_TYPE_LESS).unwrap();
    assert_eq!(t.str, "héllo".as_bytes().to_vec());
    assert_eq!(t.len, 6);
    assert_eq!(t.assign, assign_type_t::ASSIGN_TYPE_LESS);
    let empty = encode_text(&String::new(), assign_type_t::ASSIGN_TYPE_EQUAL).unwrap();
    assert_eq!(empty.len, 0);
}

#[test]
fn encode_text_refuses_zero_byte() {
    assert!(encode_text(&"a\0b".to_string(), assign_type_t::ASSIGN_TYPE_EQUAL).is_none());
}

#[test]
fn column_payload_encodes_every_field() {
    let c = StColumnDef4C {
        name: "ACCTID".to_string(),
        types: "BIGINT".to_string(),
        col_slot: 1,
        size: 14,
        nullable: 0,
        is_primary: 1,
        is_default: 0,
        default_val: String::new(),
        crud_value: "10".to_string(),
        precision: 2,
        comment: "c".to_string(),
        assign_type_t: 3,
    };
    let es = col_data_convert(&vec![c]).unwrap();
    assert_eq!(es.len(), 1);
    let e = &es[0];
    assert_eq!(e.name.str, b"ACCTID".to_vec());
    assert_eq!(e.col_type, gs_type_t::GS_TYPE_BIGINT);
    assert_eq!(e.col_slot, 1);
    assert_eq!(e.is_primary, 1);
    assert_eq!(e.crud_value.str, b"10".to_vec());
    assert_eq!(e.crud_value.len, 2);
    assert_eq!(e.crud_value.assign, assign_type_t::ASSIGN_TYPE_LESS_EQUAL);
    assert_eq!(e.precision, 2);
}

#[test]
fn column_payload_reports_the_first_bad_column() {
    let mut good = StColumnDef4C::default();
    good.name = "a".to_string();
    let mut bad = StColumnDef4C::default();
    bad.name = "b".to_string();
    bad.crud_value = "x\0".to_string();
    match col_data_convert(&vec![good.clone(), bad, good]) {
        Err(OrmError::Marshal(i)) => assert_eq!(i, 1),
        other => panic!("unexpected: {:?}", other),
    }
}

#[test]
fn index_payload_counts_listed_columns() {
    let es = index_data_convert(&vec![index("IDX", &["a", "b"], 7)]).unwrap();
    assert_eq!(es[0].col_count, 2);
    assert_eq!(es[0].cols.len(), 2);
    assert_eq!(es[0].cols[1].str, b"b".to_vec());
    assert_eq!(es[0].name.assign, assign_type_t::ASSIGN_TYPE_EQUAL);
}

#[test]
fn parse_i64_cases() {
    assert_eq!(parse_i64("42"), Some(42));
    assert_eq!(parse_i64("-17"), Some(-17));
    assert_eq!(parse_i64("+8"), Some(8));
    assert_eq!(parse_i64("007"), Some(7));
    assert_eq!(parse_i64("9223372036854775807"), Some(i64::MAX));
    assert_eq!(parse_i64("-9223372036854775808"), Some(i64::MIN));
    assert_eq!(parse_i64("9223372036854775808"), None);
    assert_eq!(parse_i64("123456789012345678901234"), None);
    assert_eq!(parse_i64(""), None);
    assert_eq!(parse_i64("-"), None);
    assert_eq!(parse_i64("1a"), None);
    assert_eq!(parse_i64(" 1"), None);
}

#[test]
fn decode_integer_tags_to_integers() {
    assert!(matches!(decode(&"42".to_string(), gs_type_t::GS_TYPE_BIGINT), Value::I64(42)));
    assert!(matches!(decode(&"-3".to_string(), gs_type_t::GS_TYPE_INTEGER), Value::I64(-3)));
    assert!(matches!(decode(&"5".to_string(), gs_type_t::GS_TYPE_UTINYINT), Value::I64(5)));
}

#[test]
fn decode_falls_back_to_text() {
    match decode(&"abc".to_string(), gs_type_t::GS_TYPE_BIGINT) {
        Value::String(s) => assert_eq!(s, "abc"),
        other => panic!("unexpected: {:?}", other),
    }
    match decode(&"42".to_string(), gs_type_t::GS_TYPE_VARCHAR) {
        Value::String(s) => assert_eq!(s, "42"),
        other => panic!("unexpected: {:?}", other),
    }
}

#[test]
fn decode_unknown_tag_payload_is_text() {
    for payload in [b"12".to_vec(), b"x y".to_vec(), vec![0xff, 0x41], vec![]] {
        match decode_bytes(&payload, gs_type_t::GS_TYPE_UNKNOWN) {
            Value::String(s) => assert_eq!(s, String::from_utf8_lossy(&payload)),
            other => panic!("unexpected: {:?}", other),
        }
    }
}

#[test]
fn decode_bytes_reads_utf8() {
    match decode_bytes(&"żółw".as_bytes().to_vec(), gs_type_t::GS_TYPE_VARCHAR) {
        Value::String(s) => assert_eq!(s, "żółw"),
        other => panic!("unexpected: {:?}", other),
    }
    assert!(matches!(decode_bytes(&b"77".to_vec(), gs_type_t::GS_TYPE_BIGINT), Value::I64(77)));
}

#[test]
fn register_accepts_a_consistent_schema() {
    let cols = vec![column("id", "VARCHAR"), column("name1", "VARCHAR")];
    let ixs = vec![index("IDX_id", &["id"], 1), index("IDX_both", &["id", "name1"], 2)];
    let d = register("user".to_string(), cols, ixs).unwrap();
    assert_eq!(d.table_name, "user");
    assert_eq!(d.columns.len(), 2);
    assert_eq!(d.indexes.len(), 2);
}

#[test]
fn register_refuses_index_on_missing_column() {
    let cols = vec![column("id", "VARCHAR")];
    let ixs = vec![index("IDX_id", &["id"], 1), index("IDX_x", &["id", "nope"], 2)];
    match register("t".to_string(), cols, ixs) {
        Err(OrmError::Schema(f)) => assert_eq!(f, SchemaFault::UnknownIndexColumn(1, 1)),
        other => panic!("unexpected: {:?}", other),
    }
}

#[test]
fn register_refuses_duplicate_column() {
    let cols = vec![column("id", "VARCHAR"), column("a", "VARCHAR"), column("id", "BIGINT")];
    match register("t".to_string(), cols, vec![]) {
        Err(OrmError::Schema(f)) => assert_eq!(f, SchemaFault::DuplicateColumn(2)),
        other => panic!("unexpected: {:?}", other),
    }
}

#[test]
fn register_refuses_empty_index_and_wrong_count() {
    let cols = vec![column("id", "VARCHAR")];
    match register("t".to_string(), cols.clone(), vec![index("e", &[], 0)]) {
        Err(OrmError::Schema(f)) => assert_eq!(f, SchemaFault::EmptyIndex(0)),
        other => panic!("unexpected: {:?}", other),
    }
    match register("t".to_string(), cols, vec![index("c", &["id"], 2)]) {
        Err(OrmError::Schema(f)) => assert_eq!(f, SchemaFault::ColumnCountMismatch(0)),
        other => panic!("unexpected: {:?}", other),
    }
}

#[test]
fn find_column_returns_first_position() {
    let cols = vec![column("a", "VARCHAR"), column("b", "VARCHAR")];
    assert_eq!(find_column(&cols, &"b".to_string()), Some(1));
    assert_eq!(find_column(&cols, &"c".to_string()), None);
}

#[test]
fn restriction_columns_fill_value_and_operator() {
    let cols = vec![column("a", "VARCHAR"), column("b", "BIGINT")];
    let rs = vec![
        Restriction::equ("b".to_string(), "9".to_string()),
        Restriction { name: "a".to_string(), value: "x".to_string(), assign: 5 },
    ];
    let cs = restriction_columns(&cols, &rs).unwrap();
    assert_eq!(cs[0].name, "b");
    assert_eq!(cs[0].types, "BIGINT");
    assert_eq!(cs[0].crud_value, "9");
    assert_eq!(cs[1].crud_value, "x");
    assert_eq!(cs[1].assign_type_t, 5);
    match restriction_columns(&cols, &vec![Restriction::equ("zz".to_string(), "1".to_string())]) {
        Err(OrmError::UnknownColumn(n)) => assert_eq!(n, "zz"),
        other => panic!("unexpected: {:?}", other),
    }
}

#[test]
fn tag_codes_read_back() {
    for t in all_tags() {
        assert_eq!(gs_type_t::from_code(t.code()), t);
    }
    assert_eq!(gs_type_t::from_code(20099), gs_type_t::GS_TYPE_UNKNOWN);
}

#[test]
fn status_result_carries_the_code() {
    assert!(status_result(0).is_ok());
    assert!(matches!(status_result(1), Err(OrmError::Boundary(1))));
    assert!(matches!(status_result(-1), Err(OrmError::Boundary(-1))));
}

#[test]
fn row_get_takes_values_out() {
    let mut row = DecodedRow {
        columns: vec![
            DecodedColumn { name: "id".to_string(), value: Value::String("7".to_string()) },
            DecodedColumn { name: "n".to_string(), value: Value::I64(3) },
        ],
    };
    assert!(matches!(row.get(1), Ok(Value::I64(3))));
    assert!(matches!(row.columns[1].value, Value::Null));
    assert_eq!(row.columns[1].name, "n");
    assert!(matches!(row.get(2), Err(OrmError::NoColumnAt(2))));
    let u = User::from_row(&row);
    assert_eq!(u.id.as_deref(), Some("7"));
    assert_eq!(u.name1, None);
}

#[test]
fn entity_metadata() {
    let d = describe(&User::default()).unwrap();
    assert_eq!(d.column_len(), 5);
    assert_eq!(d.column_name(2), "name2");
    assert_eq!(d.column_type(0), "VARCHAR");
    assert_eq!(d.column_name(9), "");
}
