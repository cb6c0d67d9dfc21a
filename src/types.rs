//! The engine's closed enumerations: column type tags, comparison operators,
//! status codes, table kinds and engine kinds.
use vstd::prelude::*;

verus! {

/// Comparison operator carried by a column value or a restriction.
#[allow(non_camel_case_types)]
#[derive(Debug, Clone, Copy, PartialEq, Eq, Structural)]
pub enum assign_type_t {
    ASSIGN_TYPE_EQUAL,
    ASSIGN_TYPE_LESS,
    ASSIGN_TYPE_MORE,
    ASSIGN_TYPE_LESS_EQUAL,
    ASSIGN_TYPE_MORE_EQUAL,
    ASSIGN_TYPE_UNEQUAL,
}

/// The operator's code on the engine boundary.
pub open spec fn assign_code(a: assign_type_t) -> u8 {
    match a {
        assign_type_t::ASSIGN_TYPE_EQUAL => 0,
        assign_type_t::ASSIGN_TYPE_LESS => 1,
        assign_type_t::ASSIGN_TYPE_MORE => 2,
        assign_type_t::ASSIGN_TYPE_LESS_EQUAL => 3,
        assign_type_t::ASSIGN_TYPE_MORE_EQUAL => 4,
        assign_type_t::ASSIGN_TYPE_UNEQUAL => 5,
    }
}

/// The operator that a code stands for; an unknown code means equality.
pub open spec fn assign_of_code(v: u8) -> assign_type_t {
    if v == 1 {
        assign_type_t::ASSIGN_TYPE_LESS
    } else if v == 2 {
        assign_type_t::ASSIGN_TYPE_MORE
    } else if v == 3 {
        assign_type_t::ASSIGN_TYPE_LESS_EQUAL
    } else if v == 4 {
        assign_type_t::ASSIGN_TYPE_MORE_EQUAL
    } else if v == 5 {
        assign_type_t::ASSIGN_TYPE_UNEQUAL
    } else {
        assign_type_t::ASSIGN_TYPE_EQUAL
    }
}

impl assign_type_t {
    pub fn as_u8(&self) -> (r: u8)
        ensures
            r == assign_code(*self),
            r <= 5,
    {
        match self {
            assign_type_t::ASSIGN_TYPE_EQUAL => 0,
            assign_type_t::ASSIGN_TYPE_LESS => 1,
            assign_type_t::ASSIGN_TYPE_MORE => 2,
            assign_type_t::ASSIGN_TYPE_LESS_EQUAL => 3,
            assign_type_t::ASSIGN_TYPE_MORE_EQUAL => 4,
            assign_type_t::ASSIGN_TYPE_UNEQUAL => 5,
        }
    }

    pub fn from_u8(v: u8) -> (r: assign_type_t)
        ensures
            r == assign_of_code(v),
            v <= 5 ==> assign_code(r) == v,
    {
        if v == 1 {
            assign_type_t::ASSIGN_TYPE_LESS
        } else if v == 2 {
            assign_type_t::ASSIGN_TYPE_MORE
        } else if v == 3 {
            assign_type_t::ASSIGN_TYPE_LESS_EQUAL
        } else if v == 4 {
            assign_type_t::ASSIGN_TYPE_MORE_EQUAL
        } else if v == 5 {
            assign_type_t::ASSIGN_TYPE_UNEQUAL
        } else {
            assign_type_t::ASSIGN_TYPE_EQUAL
        }
    }
}

impl Default for assign_type_t {
    fn default() -> (r: assign_type_t)
        ensures
            r == assign_type_t::ASSIGN_TYPE_EQUAL,
    {
        assign_type_t::ASSIGN_TYPE_EQUAL
    }
}

/// Status that every engine call returns.
#[allow(non_camel_case_types)]
#[derive(Debug, Clone, Copy, PartialEq, Eq, Structural)]
pub enum status_t {
    GS_ERROR,
    GS_SUCCESS,
    GS_TIMEDOUT,
}

/// The status that a raw code stands for: `0` is success, `1` a timeout, any
/// other code an error.
pub open spec fn status_of_code(c: i32) -> status_t {
    if c == 0 {
        status_t::GS_SUCCESS
    } else if c == 1 {
        status_t::GS_TIMEDOUT
    } else {
        status_t::GS_ERROR
    }
}

impl status_t {
    pub fn code(&self) -> (r: i32)
        ensures
            status_of_code(r) == *self,
            *self == status_t::GS_SUCCESS <==> r == 0,
    {
        match self {
            status_t::GS_ERROR => -1,
            status_t::GS_SUCCESS => 0,
            status_t::GS_TIMEDOUT => 1,
        }
    }

    pub fn from_code(c: i32) -> (r: status_t)
        ensures
            r == status_of_code(c),
    {
        if c == 0 {
            status_t::GS_SUCCESS
        } else if c == 1 {
            status_t::GS_TIMEDOUT
        } else {
            status_t::GS_ERROR
        }
    }
}

/// Storage kind of a table.
#[allow(non_camel_case_types)]
#[derive(Debug, Clone, Copy, PartialEq, Eq, Structural)]
pub enum table_type_t {
    TABLE_TYPE_HEAP,
    TABLE_TYPE_IOT,
    TABLE_TYPE_TRANS_TEMP,
    TABLE_TYPE_SESSION_TEMP,
    TABLE_TYPE_NOLOGGING,
    TABLE_TYPE_EXTERNAL,
}

impl table_type_t {
    pub fn code(&self) -> (r: i32)
        ensures
            0 <= r <= 5,
            r == 0 <==> *self == table_type_t::TABLE_TYPE_HEAP,
            r == 1 <==> *self == table_type_t::TABLE_TYPE_IOT,
            r == 2 <==> *self == table_type_t::TABLE_TYPE_TRANS_TEMP,
            r == 3 <==> *self == table_type_t::TABLE_TYPE_SESSION_TEMP,
            r == 4 <==> *self == table_type_t::TABLE_TYPE_NOLOGGING,
            r == 5 <==> *self == table_type_t::TABLE_TYPE_EXTERNAL,
    {
        match self {
            table_type_t::TABLE_TYPE_HEAP => 0,
            table_type_t::TABLE_TYPE_IOT => 1,
            table_type_t::TABLE_TYPE_TRANS_TEMP => 2,
            table_type_t::TABLE_TYPE_SESSION_TEMP => 3,
            table_type_t::TABLE_TYPE_NOLOGGING => 4,
            table_type_t::TABLE_TYPE_EXTERNAL => 5,
        }
    }
}

/// Kind of engine that a data directory is opened with.
#[allow(non_camel_case_types)]
#[derive(Debug, Clone, Copy, PartialEq, Eq, Structural)]
pub enum dbtype_t {
    DB_TYPE_GSTOR,
    DB_TYPE_CEIL,
}

impl dbtype_t {
    pub fn code(&self) -> (r: i32)
        ensures
            r == 0 <==> *self == dbtype_t::DB_TYPE_GSTOR,
            r == 1 <==> *self == dbtype_t::DB_TYPE_CEIL,
    {
        match self {
            dbtype_t::DB_TYPE_GSTOR => 0,
            dbtype_t::DB_TYPE_CEIL => 1,
        }
    }
}

/// Column type tag of the engine. Each tag has one canonical upper-case name
/// and one numeric code that the engine uses on its boundary.
#[allow(non_camel_case_types)]
#[derive(Debug, Clone, Copy, PartialEq, Eq, Structural)]
pub enum gs_type_t {
    GS_TYPE_UNKNOWN,
    GS_TYPE_BASE,
    GS_TYPE_INTEGER,
    GS_TYPE_BIGINT,
    GS_TYPE_REAL,
    GS_TYPE_NUMBER,
    GS_TYPE_DECIMAL,
    GS_TYPE_DATE,
    GS_TYPE_TIMESTAMP,
    GS_TYPE_CHAR,
    GS_TYPE_VARCHAR,
    GS_TYPE_STRING,
    GS_TYPE_BINARY,
    GS_TYPE_VARBINARY,
    GS_TYPE_CLOB,
    GS_TYPE_BLOB,
    GS_TYPE_CURSOR,
    GS_TYPE_COLUMN,
    GS_TYPE_BOOLEAN,
    GS_TYPE_TIMESTAMP_TZ_FAKE,
    GS_TYPE_TIMESTAMP_LTZ,
    GS_TYPE_INTERVAL,
    GS_TYPE_INTERVAL_YM,
    GS_TYPE_INTERVAL_DS,
    GS_TYPE_RAW,
    GS_TYPE_IMAGE,
    GS_TYPE_UINT32,
    GS_TYPE_UINT64,
    GS_TYPE_SMALLINT,
    GS_TYPE_USMALLINT,
    GS_TYPE_TINYINT,
    GS_TYPE_UTINYINT,
    GS_TYPE_FLOAT,
    GS_TYPE_TIMESTAMP_TZ,
    GS_TYPE_ARRAY,
    GS_TYPE_OPERAND_CEIL,
    GS_TYPE_RECORD,
    GS_TYPE_COLLECTION,
    GS_TYPE_OBJECT,
    GS_TYPE__DO_NOT_USE,
    GS_TYPE_FUNC_BASE,
    GS_TYPE_TYPMODE,
    GS_TYPE_VM_ROWID,
    GS_TYPE_ITVL_UNIT,
    GS_TYPE_UNINITIALIZED,
    GS_TYPE_NATIVE_DATE,
    GS_TYPE_NATIVE_TIMESTAMP,
    GS_TYPE_LOGIC_TRUE,
}

/// The canonical name of a tag.
pub open spec fn tag_name(t: gs_type_t) -> Seq<char> {
    match t {
        gs_type_t::GS_TYPE_UNKNOWN => "UNKNOWN"@,
        gs_type_t::GS_TYPE_BASE => "BASE"@,
        gs_type_t::GS_TYPE_INTEGER => "INTEGER"@,
        gs_type_t::GS_TYPE_BIGINT => "BIGINT"@,
        gs_type_t::GS_TYPE_REAL => "REAL"@,
        gs_type_t::GS_TYPE_NUMBER => "NUMBER"@,
        gs_type_t::GS_TYPE_DECIMAL => "DECIMAL"@,
        gs_type_t::GS_TYPE_DATE => "DATE"@,
        gs_type_t::GS_TYPE_TIMESTAMP => "TIMESTAMP"@,
        gs_type_t::GS_TYPE_CHAR => "CHAR"@,
        gs_type_t::GS_TYPE_VARCHAR => "VARCHAR"@,
        gs_type_t::GS_TYPE_STRING => "STRING"@,
        gs_type_t::GS_TYPE_BINARY => "BINARY"@,
        gs_type_t::GS_TYPE_VARBINARY => "VARBINARY"@,
        gs_type_t::GS_TYPE_CLOB => "CLOB"@,
        gs_type_t::GS_TYPE_BLOB => "BLOB"@,
        gs_type_t::GS_TYPE_CURSOR => "CURSOR"@,
        gs_type_t::GS_TYPE_COLUMN => "COLUMN"@,
        gs_type_t::GS_TYPE_BOOLEAN => "BOOLEAN"@,
        gs_type_t::GS_TYPE_TIMESTAMP_TZ_FAKE => "TIMESTAMP_TZ_FAKE"@,
        gs_type_t::GS_TYPE_TIMESTAMP_LTZ => "TIMESTAMP_LTZ"@,
        gs_type_t::GS_TYPE_INTERVAL => "INTERVAL"@,
        gs_type_t::GS_TYPE_INTERVAL_YM => "INTERVAL_YM"@,
        gs_type_t::GS_TYPE_INTERVAL_DS => "INTERVAL_DS"@,
        gs_type_t::GS_TYPE_RAW => "RAW"@,
        gs_type_t::GS_TYPE_IMAGE => "IMAGE"@,
        gs_type_t::GS_TYPE_UINT32 => "UINT32"@,
        gs_type_t::GS_TYPE_UINT64 => "UINT64"@,
        gs_type_t::GS_TYPE_SMALLINT => "SMALLINT"@,
        gs_type_t::GS_TYPE_USMALLINT => "USMALLINT"@,
        gs_type_t::GS_TYPE_TINYINT => "TINYINT"@,
        gs_type_t::GS_TYPE_UTINYINT => "UTINYINT"@,
        gs_type_t::GS_TYPE_FLOAT => "FLOAT"@,
        gs_type_t::GS_TYPE_TIMESTAMP_TZ => "TIMESTAMP_TZ"@,
        gs_type_t::GS_TYPE_ARRAY => "ARRAY"@,
        gs_type_t::GS_TYPE_OPERAND_CEIL => "OPERAND_CEIL"@,
        gs_type_t::GS_TYPE_RECORD => "RECORD"@,
        gs_type_t::GS_TYPE_COLLECTION => "COLLECTION"@,
        gs_type_t::GS_TYPE_OBJECT => "OBJECT"@,
        gs_type_t::GS_TYPE__DO_NOT_USE => "_DO_NOT_USE"@,
        gs_type_t::GS_TYPE_FUNC_BASE => "FUNC_BASE"@,
        gs_type_t::GS_TYPE_TYPMODE => "TYPMODE"@,
        gs_type_t::GS_TYPE_VM_ROWID => "VM_ROWID"@,
        gs_type_t::GS_TYPE_ITVL_UNIT => "ITVL_UNIT"@,
        gs_type_t::GS_TYPE_UNINITIALIZED => "UNINITIALIZED"@,
        gs_type_t::GS_TYPE_NATIVE_DATE => "NATIVE_DATE"@,
        gs_type_t::GS_TYPE_NATIVE_TIMESTAMP => "NATIVE_TIMESTAMP"@,
        gs_type_t::GS_TYPE_LOGIC_TRUE => "LOGIC_TRUE"@,
    }
}

/// The engine's numeric code of a tag.
pub open spec fn tag_code(t: gs_type_t) -> int {
    match t {
        gs_type_t::GS_TYPE_UNKNOWN => -1,
        gs_type_t::GS_TYPE_BASE => 20000,
        gs_type_t::GS_TYPE_INTEGER => 20001,
        gs_type_t::GS_TYPE_BIGINT => 20002,
        gs_type_t::GS_TYPE_REAL => 20003,
        gs_type_t::GS_TYPE_NUMBER => 20004,
        gs_type_t::GS_TYPE_DECIMAL => 20005,
        gs_type_t::GS_TYPE_DATE => 20006,
        gs_type_t::GS_TYPE_TIMESTAMP => 20007,
        gs_type_t::GS_TYPE_CHAR => 20008,
        gs_type_t::GS_TYPE_VARCHAR => 20009,
        gs_type_t::GS_TYPE_STRING => 20010,
        gs_type_t::GS_TYPE_BINARY => 20011,
        gs_type_t::GS_TYPE_VARBINARY => 20012,
        gs_type_t::GS_TYPE_CLOB => 20013,
        gs_type_t::GS_TYPE_BLOB => 20014,
        gs_type_t::GS_TYPE_CURSOR => 20015,
        gs_type_t::GS_TYPE_COLUMN => 20016,
        gs_type_t::GS_TYPE_BOOLEAN => 20017,
        gs_type_t::GS_TYPE_TIMESTAMP_TZ_FAKE => 20018,
        gs_type_t::GS_TYPE_TIMESTAMP_LTZ => 20019,
        gs_type_t::GS_TYPE_INTERVAL => 20020,
        gs_type_t::GS_TYPE_INTERVAL_YM => 20021,
        gs_type_t::GS_TYPE_INTERVAL_DS => 20022,
        gs_type_t::GS_TYPE_RAW => 20023,
        gs_type_t::GS_TYPE_IMAGE => 20024,
        gs_type_t::GS_TYPE_UINT32 => 20025,
        gs_type_t::GS_TYPE_UINT64 => 20026,
        gs_type_t::GS_TYPE_SMALLINT => 20027,
        gs_type_t::GS_TYPE_USMALLINT => 20028,
        gs_type_t::GS_TYPE_TINYINT => 20029,
        gs_type_t::GS_TYPE_UTINYINT => 20030,
        gs_type_t::GS_TYPE_FLOAT => 20031,
        gs_type_t::GS_TYPE_TIMESTAMP_TZ => 20032,
        gs_type_t::GS_TYPE_ARRAY => 20033,
        gs_type_t::GS_TYPE_OPERAND_CEIL => 20040,
        gs_type_t::GS_TYPE_RECORD => 20041,
        gs_type_t::GS_TYPE_COLLECTION => 20042,
        gs_type_t::GS_TYPE_OBJECT => 20043,
        gs_type_t::GS_TYPE__DO_NOT_USE => 20044,
        gs_type_t::GS_TYPE_FUNC_BASE => 20200,
        gs_type_t::GS_TYPE_TYPMODE => 20201,
        gs_type_t::GS_TYPE_VM_ROWID => 20202,
        gs_type_t::GS_TYPE_ITVL_UNIT => 20203,
        gs_type_t::GS_TYPE_UNINITIALIZED => 20204,
        gs_type_t::GS_TYPE_NATIVE_DATE => 20205,
        gs_type_t::GS_TYPE_NATIVE_TIMESTAMP => 20206,
        gs_type_t::GS_TYPE_LOGIC_TRUE => 20207,
    }
}

/// Every tag, in declaration order.
pub open spec fn all_tags() -> Seq<gs_type_t> {
    seq![
        gs_type_t::GS_TYPE_UNKNOWN,
        gs_type_t::GS_TYPE_BASE,
        gs_type_t::GS_TYPE_INTEGER,
        gs_type_t::GS_TYPE_BIGINT,
        gs_type_t::GS_TYPE_REAL,
        gs_type_t::GS_TYPE_NUMBER,
        gs_type_t::GS_TYPE_DECIMAL,
        gs_type_t::GS_TYPE_DATE,
        gs_type_t::GS_TYPE_TIMESTAMP,
        gs_type_t::GS_TYPE_CHAR,
        gs_type_t::GS_TYPE_VARCHAR,
        gs_type_t::GS_TYPE_STRING,
        gs_type_t::GS_TYPE_BINARY,
        gs_type_t::GS_TYPE_VARBINARY,
        gs_type_t::GS_TYPE_CLOB,
        gs_type_t::GS_TYPE_BLOB,
        gs_type_t::GS_TYPE_CURSOR,
        gs_type_t::GS_TYPE_COLUMN,
        gs_type_t::GS_TYPE_BOOLEAN,
        gs_type_t::GS_TYPE_TIMESTAMP_TZ_FAKE,
        gs_type_t::GS_TYPE_TIMESTAMP_LTZ,
        gs_type_t::GS_TYPE_INTERVAL,
        gs_type_t::GS_TYPE_INTERVAL_YM,
        gs_type_t::GS_TYPE_INTERVAL_DS,
        gs_type_t::GS_TYPE_RAW,
        gs_type_t::GS_TYPE_IMAGE,
        gs_type_t::GS_TYPE_UINT32,
        gs_type_t::GS_TYPE_UINT64,
        gs_type_t::GS_TYPE_SMALLINT,
        gs_type_t::GS_TYPE_USMALLINT,
        gs_type_t::GS_TYPE_TINYINT,
        gs_type_t::GS_TYPE_UTINYINT,
        gs_type_t::GS_TYPE_FLOAT,
        gs_type_t::GS_TYPE_TIMESTAMP_TZ,
        gs_type_t::GS_TYPE_ARRAY,
        gs_type_t::GS_TYPE_OPERAND_CEIL,
        gs_type_t::GS_TYPE_RECORD,
        gs_type_t::GS_TYPE_COLLECTION,
        gs_type_t::GS_TYPE_OBJECT,
        gs_type_t::GS_TYPE__DO_NOT_USE,
        gs_type_t::GS_TYPE_FUNC_BASE,
        gs_type_t::GS_TYPE_TYPMODE,
        gs_type_t::GS_TYPE_VM_ROWID,
        gs_type_t::GS_TYPE_ITVL_UNIT,
        gs_type_t::GS_TYPE_UNINITIALIZED,
        gs_type_t::GS_TYPE_NATIVE_DATE,
        gs_type_t::GS_TYPE_NATIVE_TIMESTAMP,
        gs_type_t::GS_TYPE_LOGIC_TRUE,
    ]
}

/// The tag whose canonical name is `s`, or `GS_TYPE_UNKNOWN` when no tag has
/// that name.
pub open spec fn tag_of_name(s: Seq<char>) -> gs_type_t {
    if exists|t: gs_type_t| tag_name(t) == s {
        choose|t: gs_type_t| tag_name(t) == s
    } else {
        gs_type_t::GS_TYPE_UNKNOWN
    }
}

/// Length, first and last character of a tag's name: together they tell every
/// two tags apart.
proof fn lemma_name_shape(t: gs_type_t, u: gs_type_t)
    ensures
        tag_name(t).len() > 0,
        tag_name(u).len() == tag_name(t).len() && tag_name(u)[0] == tag_name(t)[0]
            && tag_name(u)[tag_name(t).len() - 1] == tag_name(t)[tag_name(t).len() - 1] ==> u == t,
{
    reveal_strlit("UNKNOWN");
    reveal_strlit("BASE");
    reveal_strlit("INTEGER");
    reveal_strlit("BIGINT");
    reveal_strlit("REAL");
    reveal_strlit("NUMBER");
    reveal_strlit("DECIMAL");
    reveal_strlit("DATE");
    reveal_strlit("TIMESTAMP");
    reveal_strlit("CHAR");
    reveal_strlit("VARCHAR");
    reveal_strlit("STRING");
    reveal_strlit("BINARY");
    reveal_strlit("VARBINARY");
    reveal_strlit("CLOB");
    reveal_strlit("BLOB");
    reveal_strlit("CURSOR");
    reveal_strlit("COLUMN");
    reveal_strlit("BOOLEAN");
    reveal_strlit("TIMESTAMP_TZ_FAKE");
    reveal_strlit("TIMESTAMP_LTZ");
    reveal_strlit("INTERVAL");
    reveal_strlit("INTERVAL_YM");
    reveal_strlit("INTERVAL_DS");
    reveal_strlit("RAW");
    reveal_strlit("IMAGE");
    reveal_strlit("UINT32");
    reveal_strlit("UINT64");
    reveal_strlit("SMALLINT");
    reveal_strlit("USMALLINT");
    reveal_strlit("TINYINT");
    reveal_strlit("UTINYINT");
    reveal_strlit("FLOAT");
    reveal_strlit("TIMESTAMP_TZ");
    reveal_strlit("ARRAY");
    reveal_strlit("OPERAND_CEIL");
    reveal_strlit("RECORD");
    reveal_strlit("COLLECTION");
    reveal_strlit("OBJECT");
    reveal_strlit("_DO_NOT_USE");
    reveal_strlit("FUNC_BASE");
    reveal_strlit("TYPMODE");
    reveal_strlit("VM_ROWID");
    reveal_strlit("ITVL_UNIT");
    reveal_strlit("UNINITIALIZED");
    reveal_strlit("NATIVE_DATE");
    reveal_strlit("NATIVE_TIMESTAMP");
    reveal_strlit("LOGIC_TRUE");
}

/// No two tags share a canonical name.
pub proof fn lemma_tag_name_injective(t1: gs_type_t, t2: gs_type_t)
    ensures
        tag_name(t1) == tag_name(t2) ==> t1 == t2,
{
    lemma_name_shape(t1, t2);
}

/// The tag whose engine code is `c`, or `GS_TYPE_UNKNOWN` when no tag has that
/// code.
pub open spec fn tag_of_code(c: int) -> gs_type_t {
    if exists|t: gs_type_t| tag_code(t) == c {
        choose|t: gs_type_t| tag_code(t) == c
    } else {
        gs_type_t::GS_TYPE_UNKNOWN
    }
}

/// No two tags share an engine code.
pub proof fn lemma_tag_code_injective(t1: gs_type_t, t2: gs_type_t)
    ensures
        tag_code(t1) == tag_code(t2) ==> t1 == t2,
{
}

/// Every tag stands in `all_tags`.
proof fn lemma_tag_in_all(t: gs_type_t)
    ensures
        exists|j: int| 0 <= j < all_tags().len() && all_tags()[j] == t,
{
    let s = all_tags();
    match t {
        gs_type_t::GS_TYPE_UNKNOWN => assert(s[0] == t),
        gs_type_t::GS_TYPE_BASE => assert(s[1] == t),
        gs_type_t::GS_TYPE_INTEGER => assert(s[2] == t),
        gs_type_t::GS_TYPE_BIGINT => assert(s[3] == t),
        gs_type_t::GS_TYPE_REAL => assert(s[4] == t),
        gs_type_t::GS_TYPE_NUMBER => assert(s[5] == t),
        gs_type_t::GS_TYPE_DECIMAL => assert(s[6] == t),
        gs_type_t::GS_TYPE_DATE => assert(s[7] == t),
        gs_type_t::GS_TYPE_TIMESTAMP => assert(s[8] == t),
        gs_type_t::GS_TYPE_CHAR => assert(s[9] == t),
        gs_type_t::GS_TYPE_VARCHAR => assert(s[10] == t),
        gs_type_t::GS_TYPE_STRING => assert(s[11] == t),
        gs_type_t::GS_TYPE_BINARY => assert(s[12] == t),
        gs_type_t::GS_TYPE_VARBINARY => assert(s[13] == t),
        gs_type_t::GS_TYPE_CLOB => assert(s[14] == t),
        gs_type_t::GS_TYPE_BLOB => assert(s[15] == t),
        gs_type_t::GS_TYPE_CURSOR => assert(s[16] == t),
        gs_type_t::GS_TYPE_COLUMN => assert(s[17] == t),
        gs_type_t::GS_TYPE_BOOLEAN => assert(s[18] == t),
        gs_type_t::GS_TYPE_TIMESTAMP_TZ_FAKE => assert(s[19] == t),
        gs_type_t::GS_TYPE_TIMESTAMP_LTZ => assert(s[20] == t),
        gs_type_t::GS_TYPE_INTERVAL => assert(s[21] == t),
        gs_type_t::GS_TYPE_INTERVAL_YM => assert(s[22] == t),
        gs_type_t::GS_TYPE_INTERVAL_DS => assert(s[23] == t),
        gs_type_t::GS_TYPE_RAW => assert(s[24] == t),
        gs_type_t::GS_TYPE_IMAGE => assert(s[25] == t),
        gs_type_t::GS_TYPE_UINT32 => assert(s[26] == t),
        gs_type_t::GS_TYPE_UINT64 => assert(s[27] == t),
        gs_type_t::GS_TYPE_SMALLINT => assert(s[28] == t),
        gs_type_t::GS_TYPE_USMALLINT => assert(s[29] == t),
        gs_type_t::GS_TYPE_TINYINT => assert(s[30] == t),
        gs_type_t::GS_TYPE_UTINYINT => assert(s[31] == t),
        gs_type_t::GS_TYPE_FLOAT => assert(s[32] == t),
        gs_type_t::GS_TYPE_TIMESTAMP_TZ => assert(s[33] == t),
        gs_type_t::GS_TYPE_ARRAY => assert(s[34] == t),
        gs_type_t::GS_TYPE_OPERAND_CEIL => assert(s[35] == t),
        gs_type_t::GS_TYPE_RECORD => assert(s[36] == t),
        gs_type_t::GS_TYPE_COLLECTION => assert(s[37] == t),
        gs_type_t::GS_TYPE_OBJECT => assert(s[38] == t),
        gs_type_t::GS_TYPE__DO_NOT_USE => assert(s[39] == t),
        gs_type_t::GS_TYPE_FUNC_BASE => assert(s[40] == t),
        gs_type_t::GS_TYPE_TYPMODE => assert(s[41] == t),
        gs_type_t::GS_TYPE_VM_ROWID => assert(s[42] == t),
        gs_type_t::GS_TYPE_ITVL_UNIT => assert(s[43] == t),
        gs_type_t::GS_TYPE_UNINITIALIZED => assert(s[44] == t),
        gs_type_t::GS_TYPE_NATIVE_DATE => assert(s[45] == t),
        gs_type_t::GS_TYPE_NATIVE_TIMESTAMP => assert(s[46] == t),
        gs_type_t::GS_TYPE_LOGIC_TRUE => assert(s[47] == t),
    }
}

/// Reading a tag back from its canonical name gives the same tag.
pub proof fn lemma_tag_round_trip(t: gs_type_t)
    ensures
        tag_of_name(tag_name(t)) == t,
{
    let c = choose|u: gs_type_t| tag_name(u) == tag_name(t);
    lemma_tag_name_injective(c, t);
}

impl gs_type_t {
    /// The canonical name, as a string literal.
    pub fn name_str(&self) -> (r: &'static str)
        ensures
            r@ == tag_name(*self),
    {
        match self {
            gs_type_t::GS_TYPE_UNKNOWN => "UNKNOWN",
            gs_type_t::GS_TYPE_BASE => "BASE",
            gs_type_t::GS_TYPE_INTEGER => "INTEGER",
            gs_type_t::GS_TYPE_BIGINT => "BIGINT",
            gs_type_t::GS_TYPE_REAL => "REAL",
            gs_type_t::GS_TYPE_NUMBER => "NUMBER",
            gs_type_t::GS_TYPE_DECIMAL => "DECIMAL",
            gs_type_t::GS_TYPE_DATE => "DATE",
            gs_type_t::GS_TYPE_TIMESTAMP => "TIMESTAMP",
            gs_type_t::GS_TYPE_CHAR => "CHAR",
            gs_type_t::GS_TYPE_VARCHAR => "VARCHAR",
            gs_type_t::GS_TYPE_STRING => "STRING",
            gs_type_t::GS_TYPE_BINARY => "BINARY",
            gs_type_t::GS_TYPE_VARBINARY => "VARBINARY",
            gs_type_t::GS_TYPE_CLOB => "CLOB",
            gs_type_t::GS_TYPE_BLOB => "BLOB",
            gs_type_t::GS_TYPE_CURSOR => "CURSOR",
            gs_type_t::GS_TYPE_COLUMN => "COLUMN",
            gs_type_t::GS_TYPE_BOOLEAN => "BOOLEAN",
            gs_type_t::GS_TYPE_TIMESTAMP_TZ_FAKE => "TIMESTAMP_TZ_FAKE",
            gs_type_t::GS_TYPE_TIMESTAMP_LTZ => "TIMESTAMP_LTZ",
            gs_type_t::GS_TYPE_INTERVAL => "INTERVAL",
            gs_type_t::GS_TYPE_INTERVAL_YM => "INTERVAL_YM",
            gs_type_t::GS_TYPE_INTERVAL_DS => "INTERVAL_DS",
            gs_type_t::GS_TYPE_RAW => "RAW",
            gs_type_t::GS_TYPE_IMAGE => "IMAGE",
            gs_type_t::GS_TYPE_UINT32 => "UINT32",
            gs_type_t::GS_TYPE_UINT64 => "UINT64",
            gs_type_t::GS_TYPE_SMALLINT => "SMALLINT",
            gs_type_t::GS_TYPE_USMALLINT => "USMALLINT",
            gs_type_t::GS_TYPE_TINYINT => "TINYINT",
            gs_type_t::GS_TYPE_UTINYINT => "UTINYINT",
            gs_type_t::GS_TYPE_FLOAT => "FLOAT",
            gs_type_t::GS_TYPE_TIMESTAMP_TZ => "TIMESTAMP_TZ",
            gs_type_t::GS_TYPE_ARRAY => "ARRAY",
            gs_type_t::GS_TYPE_OPERAND_CEIL => "OPERAND_CEIL",
            gs_type_t::GS_TYPE_RECORD => "RECORD",
            gs_type_t::GS_TYPE_COLLECTION => "COLLECTION",
            gs_type_t::GS_TYPE_OBJECT => "OBJECT",
            gs_type_t::GS_TYPE__DO_NOT_USE => "_DO_NOT_USE",
            gs_type_t::GS_TYPE_FUNC_BASE => "FUNC_BASE",
            gs_type_t::GS_TYPE_TYPMODE => "TYPMODE",
            gs_type_t::GS_TYPE_VM_ROWID => "VM_ROWID",
            gs_type_t::GS_TYPE_ITVL_UNIT => "ITVL_UNIT",
            gs_type_t::GS_TYPE_UNINITIALIZED => "UNINITIALIZED",
            gs_type_t::GS_TYPE_NATIVE_DATE => "NATIVE_DATE",
            gs_type_t::GS_TYPE_NATIVE_TIMESTAMP => "NATIVE_TIMESTAMP",
            gs_type_t::GS_TYPE_LOGIC_TRUE => "LOGIC_TRUE",
        }
    }

    /// The engine's numeric code.
    pub fn code(&self) -> (r: i32)
        ensures
            r as int == tag_code(*self),
    {
        match self {
            gs_type_t::GS_TYPE_UNKNOWN => -1,
            gs_type_t::GS_TYPE_BASE => 20000,
            gs_type_t::GS_TYPE_INTEGER => 20001,
            gs_type_t::GS_TYPE_BIGINT => 20002,
            gs_type_t::GS_TYPE_REAL => 20003,
            gs_type_t::GS_TYPE_NUMBER => 20004,
            gs_type_t::GS_TYPE_DECIMAL => 20005,
            gs_type_t::GS_TYPE_DATE => 20006,
            gs_type_t::GS_TYPE_TIMESTAMP => 20007,
            gs_type_t::GS_TYPE_CHAR => 20008,
            gs_type_t::GS_TYPE_VARCHAR => 20009,
            gs_type_t::GS_TYPE_STRING => 20010,
            gs_type_t::GS_TYPE_BINARY => 20011,
            gs_type_t::GS_TYPE_VARBINARY => 20012,
            gs_type_t::GS_TYPE_CLOB => 20013,
            gs_type_t::GS_TYPE_BLOB => 20014,
            gs_type_t::GS_TYPE_CURSOR => 20015,
            gs_type_t::GS_TYPE_COLUMN => 20016,
            gs_type_t::GS_TYPE_BOOLEAN => 20017,
            gs_type_t::GS_TYPE_TIMESTAMP_TZ_FAKE => 20018,
            gs_type_t::GS_TYPE_TIMESTAMP_LTZ => 20019,
            gs_type_t::GS_TYPE_INTERVAL => 20020,
            gs_type_t::GS_TYPE_INTERVAL_YM => 20021,
            gs_type_t::GS_TYPE_INTERVAL_DS => 20022,
            gs_type_t::GS_TYPE_RAW => 20023,
            gs_type_t::GS_TYPE_IMAGE => 20024,
            gs_type_t::GS_TYPE_UINT32 => 20025,
            gs_type_t::GS_TYPE_UINT64 => 20026,
            gs_type_t::GS_TYPE_SMALLINT => 20027,
            gs_type_t::GS_TYPE_USMALLINT => 20028,
            gs_type_t::GS_TYPE_TINYINT => 20029,
            gs_type_t::GS_TYPE_UTINYINT => 20030,
            gs_type_t::GS_TYPE_FLOAT => 20031,
            gs_type_t::GS_TYPE_TIMESTAMP_TZ => 20032,
            gs_type_t::GS_TYPE_ARRAY => 20033,
            gs_type_t::GS_TYPE_OPERAND_CEIL => 20040,
            gs_type_t::GS_TYPE_RECORD => 20041,
            gs_type_t::GS_TYPE_COLLECTION => 20042,
            gs_type_t::GS_TYPE_OBJECT => 20043,
            gs_type_t::GS_TYPE__DO_NOT_USE => 20044,
            gs_type_t::GS_TYPE_FUNC_BASE => 20200,
            gs_type_t::GS_TYPE_TYPMODE => 20201,
            gs_type_t::GS_TYPE_VM_ROWID => 20202,
            gs_type_t::GS_TYPE_ITVL_UNIT => 20203,
            gs_type_t::GS_TYPE_UNINITIALIZED => 20204,
            gs_type_t::GS_TYPE_NATIVE_DATE => 20205,
            gs_type_t::GS_TYPE_NATIVE_TIMESTAMP => 20206,
            gs_type_t::GS_TYPE_LOGIC_TRUE => 20207,
        }
    }

    pub fn as_string(&self) -> (r: String)
        ensures
            r@ == tag_name(*self),
    {
        self.name_str().to_owned()
    }

    /// The tag named `s`; a name that no tag has gives `GS_TYPE_UNKNOWN`.
    pub fn from_name(s: &str) -> (r: gs_type_t)
        ensures
            r == tag_of_name(s@),
    {
    let tags: Vec<gs_type_t> = vec![
        gs_type_t::GS_TYPE_UNKNOWN,
        gs_type_t::GS_TYPE_BASE,
        gs_type_t::GS_TYPE_INTEGER,
        gs_type_t::GS_TYPE_BIGINT,
        gs_type_t::GS_TYPE_REAL,
        gs_type_t::GS_TYPE_NUMBER,
        gs_type_t::GS_TYPE_DECIMAL,
        gs_type_t::GS_TYPE_DATE,
        gs_type_t::GS_TYPE_TIMESTAMP,
        gs_type_t::GS_TYPE_CHAR,
        gs_type_t::GS_TYPE_VARCHAR,
        gs_type_t::GS_TYPE_STRING,
        gs_type_t::GS_TYPE_BINARY,
        gs_type_t::GS_TYPE_VARBINARY,
        gs_type_t::GS_TYPE_CLOB,
        gs_type_t::GS_TYPE_BLOB,
        gs_type_t::GS_TYPE_CURSOR,
        gs_type_t::GS_TYPE_COLUMN,
        gs_type_t::GS_TYPE_BOOLEAN,
        gs_type_t::GS_TYPE_TIMESTAMP_TZ_FAKE,
        gs_type_t::GS_TYPE_TIMESTAMP_LTZ,
        gs_type_t::GS_TYPE_INTERVAL,
        gs_type_t::GS_TYPE_INTERVAL_YM,
        gs_type_t::GS_TYPE_INTERVAL_DS,
        gs_type_t::GS_TYPE_RAW,
        gs_type_t::GS_TYPE_IMAGE,
        gs_type_t::GS_TYPE_UINT32,
        gs_type_t::GS_TYPE_UINT64,
        gs_type_t::GS_TYPE_SMALLINT,
        gs_type_t::GS_TYPE_USMALLINT,
        gs_type_t::GS_TYPE_TINYINT,
        gs_type_t::GS_TYPE_UTINYINT,
        gs_type_t::GS_TYPE_FLOAT,
        gs_type_t::GS_TYPE_TIMESTAMP_TZ,
        gs_type_t::GS_TYPE_ARRAY,
        gs_type_t::GS_TYPE_OPERAND_CEIL,
        gs_type_t::GS_TYPE_RECORD,
        gs_type_t::GS_TYPE_COLLECTION,
        gs_type_t::GS_TYPE_OBJECT,
        gs_type_t::GS_TYPE__DO_NOT_USE,
        gs_type_t::GS_TYPE_FUNC_BASE,
        gs_type_t::GS_TYPE_TYPMODE,
        gs_type_t::GS_TYPE_VM_ROWID,
        gs_type_t::GS_TYPE_ITVL_UNIT,
        gs_type_t::GS_TYPE_UNINITIALIZED,
        gs_type_t::GS_TYPE_NATIVE_DATE,
        gs_type_t::GS_TYPE_NATIVE_TIMESTAMP,
        gs_type_t::GS_TYPE_LOGIC_TRUE,
    ];
        assert(tags@ == all_tags());
        let q = s.to_owned();
        let mut i: usize = 0;
        while i < tags.len()
            invariant
                tags@ == all_tags(),
                q@ == s@,
                0 <= i <= tags.len(),
                forall|j: int| 0 <= j < i ==> tag_name(#[trigger] tags@[j]) != s@,
            decreases tags.len() - i,
        {
            let t = tags[i];
            let n = t.as_string();
            if n == q {
                proof {
                    let c = choose|u: gs_type_t| tag_name(u) == s@;
                    lemma_tag_name_injective(c, t);
                }
                return t;
            }
            i = i + 1;
        }
        proof {
            assert forall|u: gs_type_t| tag_name(u) != s@ by {
                lemma_tag_in_all(u);
            }
        }
        gs_type_t::GS_TYPE_UNKNOWN
    }

    /// The tag with engine code `c`; a code that no tag has gives
    /// `GS_TYPE_UNKNOWN`.
    pub fn from_code(c: i32) -> (r: gs_type_t)
        ensures
            r == tag_of_code(c as int),
    {
    let tags: Vec<gs_type_t> = vec![
        gs_type_t::GS_TYPE_UNKNOWN,
        gs_type_t::GS_TYPE_BASE,
        gs_type_t::GS_TYPE_INTEGER,
        gs_type_t::GS_TYPE_BIGINT,
        gs_type_t::GS_TYPE_REAL,
        gs_type_t::GS_TYPE_NUMBER,
        gs_type_t::GS_TYPE_DECIMAL,
        gs_type_t::GS_TYPE_DATE,
        gs_type_t::GS_TYPE_TIMESTAMP,
        gs_type_t::GS_TYPE_CHAR,
        gs_type_t::GS_TYPE_VARCHAR,
        gs_type_t::GS_TYPE_STRING,
        gs_type_t::GS_TYPE_BINARY,
        gs_type_t::GS_TYPE_VARBINARY,
        gs_type_t::GS_TYPE_CLOB,
        gs_type_t::GS_TYPE_BLOB,
        gs_type_t::GS_TYPE_CURSOR,
        gs_type_t::GS_TYPE_COLUMN,
        gs_type_t::GS_TYPE_BOOLEAN,
        gs_type_t::GS_TYPE_TIMESTAMP_TZ_FAKE,
        gs_type_t::GS_TYPE_TIMESTAMP_LTZ,
        gs_type_t::GS_TYPE_INTERVAL,
        gs_type_t::GS_TYPE_INTERVAL_YM,
        gs_type_t::GS_TYPE_INTERVAL_DS,
        gs_type_t::GS_TYPE_RAW,
        gs_type_t::GS_TYPE_IMAGE,
        gs_type_t::GS_TYPE_UINT32,
        gs_type_t::GS_TYPE_UINT64,
        gs_type_t::GS_TYPE_SMALLINT,
        gs_type_t::GS_TYPE_USMALLINT,
        gs_type_t::GS_TYPE_TINYINT,
        gs_type_t::GS_TYPE_UTINYINT,
        gs_type_t::GS_TYPE_FLOAT,
        gs_type_t::GS_TYPE_TIMESTAMP_TZ,
        gs_type_t::GS_TYPE_ARRAY,
        gs_type_t::GS_TYPE_OPERAND_CEIL,
        gs_type_t::GS_TYPE_RECORD,
        gs_type_t::GS_TYPE_COLLECTION,
        gs_type_t::GS_TYPE_OBJECT,
        gs_type_t::GS_TYPE__DO_NOT_USE,
        gs_type_t::GS_TYPE_FUNC_BASE,
        gs_type_t::GS_TYPE_TYPMODE,
        gs_type_t::GS_TYPE_VM_ROWID,
        gs_type_t::GS_TYPE_ITVL_UNIT,
        gs_type_t::GS_TYPE_UNINITIALIZED,
        gs_type_t::GS_TYPE_NATIVE_DATE,
        gs_type_t::GS_TYPE_NATIVE_TIMESTAMP,
        gs_type_t::GS_TYPE_LOGIC_TRUE,
    ];
        assert(tags@ == all_tags());
        let mut i: usize = 0;
        while i < tags.len()
            invariant
                tags@ == all_tags(),
                0 <= i <= tags.len(),
                forall|j: int| 0 <= j < i ==> tag_code(#[trigger] tags@[j]) != c as int,
            decreases tags.len() - i,
        {
            let t = tags[i];
            if t.code() == c {
                proof {
                    let u = choose|u: gs_type_t| tag_code(u) == c as int;
                    lemma_tag_code_injective(u, t);
                }
                return t;
            }
            i = i + 1;
        }
        proof {
            assert forall|u: gs_type_t| tag_code(u) != c as int by {
                lemma_tag_in_all(u);
            }
        }
        gs_type_t::GS_TYPE_UNKNOWN
    }
}

} // verus!
