//! Marshalling between domain values and the engine's column representation.
//!
//! Outbound, every text becomes a length-prefixed byte buffer with no zero
//! byte, so that it can cross the boundary as a C string. Inbound, a column's
//! bytes are read as text and decoded by the column's type tag: integer types
//! to integers, everything else to strings.
use vstd::prelude::*;
use vstd::string::*;
use vstd::utf8::*;
use crate::error::OrmError;
use crate::model::{StColumnDef, StColumnDef4C, StIndexDef, carries};
use crate::types::{assign_type_t, assign_of_code, gs_type_t, tag_of_name};
use crate::value::Value;

verus! {

/// A text as the engine takes it: its UTF-8 bytes, their count, and the
/// comparison operator that goes with it.
#[allow(non_camel_case_types)]
#[derive(Debug)]
pub struct col_text_t {
    pub str: Vec<u8>,
    pub len: u32,
    pub assign: assign_type_t,
}

/// A column entry as the engine takes it.
#[allow(non_camel_case_types)]
#[derive(Debug)]
pub struct exp_column_def_t {
    pub name: col_text_t,
    pub col_type: gs_type_t,
    pub col_slot: u16,
    pub size: u16,
    pub nullable: u32,
    pub is_primary: u32,
    pub is_default: u32,
    pub default_val: col_text_t,
    pub crud_value: col_text_t,
    pub precision: u16,
    pub comment: col_text_t,
}

/// An index entry as the engine takes it.
#[allow(non_camel_case_types)]
#[derive(Debug)]
pub struct exp_index_def_t {
    pub name: col_text_t,
    pub cols: Vec<col_text_t>,
    pub col_count: u32,
    pub is_unique: u32,
    pub is_primary: u32,
}

/// A text can cross the boundary: its UTF-8 form holds no zero byte and its
/// length fits the engine's 32-bit length field.
pub open spec fn encodable(s: Seq<char>) -> bool {
    &&& !encode_utf8(s).contains(0u8)
    &&& encode_utf8(s).len() <= u32::MAX
}

/// `t` is the boundary form of text `s` under operator `a`.
pub open spec fn text_encodes(t: col_text_t, s: Seq<char>, a: assign_type_t) -> bool {
    &&& t.str@ == encode_utf8(s)
    &&& t.len as int == encode_utf8(s).len()
    &&& t.assign == a
}

/// Encodes a text with its operator; `None` when the text cannot cross the
/// boundary.
pub fn encode_text(s: &String, assign: assign_type_t) -> (r: Option<col_text_t>)
    ensures
        r is Some <==> encodable(s@),
        r matches Some(t) ==> text_encodes(t, s@, assign),
{
    let bytes = s.as_str().as_bytes_vec();
    if bytes.len() > u32::MAX as usize {
        return None;
    }
    let mut i: usize = 0;
    while i < bytes.len()
        invariant
            bytes@ == encode_utf8(s@),
            0 <= i <= bytes@.len(),
            forall|j: int| 0 <= j < i ==> bytes@[j] != 0u8,
        decreases bytes@.len() - i,
    {
        if bytes[i] == 0u8 {
            proof {
                assert(bytes@.contains(0u8));
            }
            return None;
        }
        i = i + 1;
    }
    let len = bytes.len() as u32;
    Some(col_text_t { str: bytes, len, assign })
}

/// `e` is the boundary form of column `c`: every text encoded under the
/// column's operator, the type tag read from its name, the flags widened.
pub open spec fn column_encodes(e: exp_column_def_t, c: StColumnDef4C) -> bool {
    let a = assign_of_code(c.assign_type_t);
    &&& text_encodes(e.name, c.name@, a)
    &&& e.col_type == tag_of_name(c.types@)
    &&& e.col_slot == c.col_slot
    &&& e.size == c.size
    &&& e.nullable == c.nullable as u32
    &&& e.is_primary == c.is_primary as u32
    &&& e.is_default == c.is_default as u32
    &&& text_encodes(e.default_val, c.default_val@, a)
    &&& text_encodes(e.crud_value, c.crud_value@, a)
    &&& e.precision == c.precision
    &&& text_encodes(e.comment, c.comment@, a)
}

/// All texts of a column can cross the boundary.
pub open spec fn column_encodable(c: StColumnDef4C) -> bool {
    &&& encodable(c.name@)
    &&& encodable(c.default_val@)
    &&& encodable(c.crud_value@)
    &&& encodable(c.comment@)
}

/// The declared texts of a column can cross the boundary.
pub open spec fn declared_encodable(d: StColumnDef) -> bool {
    &&& encodable(d.name@)
    &&& encodable(d.default_val@)
    &&& encodable(d.crud_value@)
    &&& encodable(d.comment@)
}

/// Every declared text of the entity's columns can cross the boundary.
pub open spec fn columns_encodable(cols: Seq<StColumnDef>) -> bool {
    forall|i: int| 0 <= i < cols.len() ==> declared_encodable(#[trigger] cols[i])
}

/// A declared column carrying a literal that can cross the boundary can cross
/// it as a whole.
pub proof fn lemma_carried_encodable(c: StColumnDef4C, d: StColumnDef, v: Seq<char>, a: u8)
    requires
        carries(c, d, v, a),
        declared_encodable(d),
        encodable(v),
    ensures
        column_encodable(c),
{
}

/// Encodes one column; `None` when one of its texts cannot cross the boundary.
pub fn encode_column(c: &StColumnDef4C) -> (r: Option<exp_column_def_t>)
    ensures
        r is Some <==> column_encodable(*c),
        r matches Some(e) ==> column_encodes(e, *c),
{
    let a = assign_type_t::from_u8(c.assign_type_t);
    let name = match encode_text(&c.name, a) {
        Some(t) => t,
        None => return None,
    };
    let default_val = match encode_text(&c.default_val, a) {
        Some(t) => t,
        None => return None,
    };
    let crud_value = match encode_text(&c.crud_value, a) {
        Some(t) => t,
        None => return None,
    };
    let comment = match encode_text(&c.comment, a) {
        Some(t) => t,
        None => return None,
    };
    Some(exp_column_def_t {
        name,
        col_type: gs_type_t::from_name(c.types.as_str()),
        col_slot: c.col_slot,
        size: c.size,
        nullable: c.nullable as u32,
        is_primary: c.is_primary as u32,
        is_default: c.is_default as u32,
        default_val,
        crud_value,
        precision: c.precision,
        comment,
    })
}

/// Encodes a payload of columns, in order. Fails with `Marshal(i)` for the
/// first column `i` with a text that cannot cross the boundary.
pub fn col_data_convert(cols: &Vec<StColumnDef4C>) -> (r: Result<Vec<exp_column_def_t>, OrmError>)
    ensures
        r is Ok <==> forall|i: int| 0 <= i < cols@.len() ==> column_encodable(#[trigger] cols@[i]),
        r matches Ok(es) ==> es@.len() == cols@.len() && forall|i: int|
            0 <= i < cols@.len() ==> column_encodes(#[trigger] es@[i], cols@[i]),
        r matches Err(e) ==> (e matches OrmError::Marshal(i) && i < cols@.len()
            && !column_encodable(cols@[i as int])
            && forall|j: int| 0 <= j < i ==> column_encodable(#[trigger] cols@[j])),
{
    let mut out: Vec<exp_column_def_t> = Vec::new();
    let mut i: usize = 0;
    while i < cols.len()
        invariant
            0 <= i <= cols@.len(),
            out@.len() == i,
            forall|j: int| 0 <= j < i ==> column_encodable(#[trigger] cols@[j]),
            forall|j: int| 0 <= j < i ==> column_encodes(#[trigger] out@[j], cols@[j]),
        decreases cols@.len() - i,
    {
        match encode_column(&cols[i]) {
            Some(e) => out.push(e),
            None => return Err(OrmError::Marshal(i)),
        }
        i = i + 1;
    }
    Ok(out)
}

/// All texts of an index can cross the boundary.
pub open spec fn index_encodable(ix: StIndexDef) -> bool {
    &&& encodable(ix.name@)
    &&& forall|c: int| 0 <= c < ix.cols@.len() ==> encodable(#[trigger] ix.cols@[c]@)
    &&& ix.cols@.len() <= u32::MAX
}

/// `e` is the boundary form of index `ix`: texts encoded under equality, the
/// column count taken from the listed columns, the flags widened.
pub open spec fn index_encodes(e: exp_index_def_t, ix: StIndexDef) -> bool {
    let a = assign_type_t::ASSIGN_TYPE_EQUAL;
    &&& text_encodes(e.name, ix.name@, a)
    &&& e.cols@.len() == ix.cols@.len()
    &&& forall|c: int| 0 <= c < ix.cols@.len() ==> text_encodes(#[trigger] e.cols@[c], ix.cols@[c]@, a)
    &&& e.col_count as int == ix.cols@.len()
    &&& e.is_unique == ix.is_unique as u32
    &&& e.is_primary == ix.is_primary as u32
}

/// Encodes one index; `None` when one of its texts cannot cross the boundary.
pub fn encode_index(ix: &StIndexDef) -> (r: Option<exp_index_def_t>)
    ensures
        r is Some <==> index_encodable(*ix),
        r matches Some(e) ==> index_encodes(e, *ix),
{
    let a = assign_type_t::ASSIGN_TYPE_EQUAL;
    let name = match encode_text(&ix.name, a) {
        Some(t) => t,
        None => return None,
    };
    if ix.cols.len() > u32::MAX as usize {
        return None;
    }
    let mut cols: Vec<col_text_t> = Vec::new();
    let mut c: usize = 0;
    while c < ix.cols.len()
        invariant
            0 <= c <= ix.cols@.len(),
            cols@.len() == c,
            forall|j: int| 0 <= j < c ==> encodable(#[trigger] ix.cols@[j]@),
            forall|j: int| 0 <= j < c ==> text_encodes(#[trigger] cols@[j], ix.cols@[j]@, a),
        decreases ix.cols@.len() - c,
    {
        match encode_text(&ix.cols[c], a) {
            Some(t) => cols.push(t),
            None => return None,
        }
        c = c + 1;
    }
    let col_count = cols.len() as u32;
    Some(exp_index_def_t {
        name,
        cols,
        col_count,
        is_unique: ix.is_unique as u32,
        is_primary: ix.is_primary as u32,
    })
}

/// Encodes a list of indexes, in order. Fails with `Marshal(k)` for the first
/// index `k` with a text that cannot cross the boundary.
pub fn index_data_convert(ixs: &Vec<StIndexDef>) -> (r: Result<Vec<exp_index_def_t>, OrmError>)
    ensures
        r is Ok <==> forall|k: int| 0 <= k < ixs@.len() ==> index_encodable(#[trigger] ixs@[k]),
        r matches Ok(es) ==> es@.len() == ixs@.len() && forall|k: int|
            0 <= k < ixs@.len() ==> index_encodes(#[trigger] es@[k], ixs@[k]),
        r matches Err(e) ==> (e matches OrmError::Marshal(k) && k < ixs@.len()
            && !index_encodable(ixs@[k as int])),
{
    let mut out: Vec<exp_index_def_t> = Vec::new();
    let mut k: usize = 0;
    while k < ixs.len()
        invariant
            0 <= k <= ixs@.len(),
            out@.len() == k,
            forall|j: int| 0 <= j < k ==> index_encodable(#[trigger] ixs@[j]),
            forall|j: int| 0 <= j < k ==> index_encodes(#[trigger] out@[j], ixs@[j]),
        decreases ixs@.len() - k,
    {
        match encode_index(&ixs[k]) {
            Some(e) => out.push(e),
            None => return Err(OrmError::Marshal(k)),
        }
        k = k + 1;
    }
    Ok(out)
}

// ---------------------------------------------------------------------------
// Inbound: text of a fetched column, and its decoding.

/// The text that `String::from_utf8_lossy` makes of a byte buffer.
pub uninterp spec fn utf8_lossy(b: Seq<u8>) -> Seq<char>;

/// Relies on `String::from_utf8_lossy`: the text depends on the bytes alone,
/// and bytes that are valid UTF-8 give the characters they encode.
#[verifier::external_body]
fn text_of_bytes(b: &Vec<u8>) -> (r: String)
    ensures
        r@ == utf8_lossy(b@),
        valid_utf8(b@) ==> r@ == decode_utf8(b@),
{
    String::from_utf8_lossy(b.as_slice()).into_owned()
}

/// The integer type tags: these decode to integers.
pub open spec fn is_integer_tag(t: gs_type_t) -> bool {
    ||| t == gs_type_t::GS_TYPE_TINYINT
    ||| t == gs_type_t::GS_TYPE_UTINYINT
    ||| t == gs_type_t::GS_TYPE_SMALLINT
    ||| t == gs_type_t::GS_TYPE_USMALLINT
    ||| t == gs_type_t::GS_TYPE_INTEGER
    ||| t == gs_type_t::GS_TYPE_UINT32
    ||| t == gs_type_t::GS_TYPE_BIGINT
    ||| t == gs_type_t::GS_TYPE_UINT64
}

pub open spec fn is_digit(c: char) -> bool {
    '0' <= c && c <= '9'
}

/// The number that a non-empty string of decimal digits writes.
pub open spec fn digits_value(s: Seq<char>) -> int
    decreases s.len(),
{
    if s.len() == 0 {
        0
    } else {
        digits_value(s.drop_last()) * 10 + (s.last() as int - '0' as int)
    }
}

pub open spec fn all_digits(s: Seq<char>) -> bool {
    &&& s.len() > 0
    &&& forall|i: int| 0 <= i < s.len() ==> is_digit(#[trigger] s[i])
}

/// The integer that `s` writes in decimal, with an optional leading sign; `None`
/// when `s` is no such text.
pub open spec fn integer_of(s: Seq<char>) -> Option<int> {
    if s.len() > 0 && (s[0] == '-' || s[0] == '+') {
        let d = s.subrange(1, s.len() as int);
        if all_digits(d) {
            Some(if s[0] == '-' { -digits_value(d) } else { digits_value(d) })
        } else {
            None
        }
    } else if all_digits(s) {
        Some(digits_value(s))
    } else {
        None
    }
}

/// The integer that `s` writes, when it fits in an `i64`.
pub open spec fn i64_of(s: Seq<char>) -> Option<int> {
    match integer_of(s) {
        Some(n) => if i64::MIN <= n <= i64::MAX { Some(n) } else { None },
        None => None,
    }
}

proof fn lemma_digits_step(s: Seq<char>, start: int, i: int)
    requires
        0 <= start <= i < s.len(),
    ensures
        digits_value(s.subrange(start, i + 1)) == digits_value(s.subrange(start, i)) * 10 + (
        s[i] as int - '0' as int),
{
    assert(s.subrange(start, i + 1).drop_last() == s.subrange(start, i));
}

/// Parses a signed decimal integer that fits in an `i64`.
pub fn parse_i64(s: &str) -> (r: Option<i64>)
    ensures
        r matches Some(v) ==> i64_of(s@) == Some(v as int),
        r is None ==> i64_of(s@) is None,
{
    let n = s.unicode_len();
    if n == 0 {
        return None;
    }
    let first = s.get_char(0);
    let signed = first == '-' || first == '+';
    let neg = first == '-';
    let start: usize = if signed { 1 } else { 0 };
    if start >= n {
        return None;
    }
    let ghost d = s@.subrange(start as int, n as int);
    let mut mag: u64 = 0;
    let mut big = false;
    let mut i: usize = start;
    while i < n
        invariant
            n == s@.len(),
            n > 0,
            signed == (s@[0] == '-' || s@[0] == '+'),
            neg == (s@[0] == '-'),
            start == (if signed { 1usize } else { 0usize }),
            start <= i <= n,
            d == s@.subrange(start as int, n as int),
            forall|j: int| start <= j < i ==> is_digit(#[trigger] s@[j]),
            !big ==> mag as int == digits_value(s@.subrange(start as int, i as int)),
            big ==> digits_value(s@.subrange(start as int, i as int)) > u64::MAX,
            digits_value(s@.subrange(start as int, i as int)) >= 0,
        decreases n - i,
    {
        let c = s.get_char(i);
        if !(c >= '0' && c <= '9') {
            proof {
                assert(!is_digit(d[i - start]));
                assert(!all_digits(d));
                if signed {
                    assert(d == s@.subrange(1, s@.len() as int));
                } else {
                    assert(d == s@);
                }
            }
            return None;
        }
        let dv: u64 = (c as u32 - '0' as u32) as u64;
        proof {
            lemma_digits_step(s@, start as int, i as int);
        }
        let ghost prev = digits_value(s@.subrange(start as int, i as int));
        if !big {
            if mag <= (u64::MAX - dv) / 10 {
                proof {
                    assert(mag * 10 + dv <= u64::MAX) by (nonlinear_arith)
                        requires
                            mag <= (u64::MAX - dv) / 10,
                            dv <= 9,
                    ;
                }
                mag = mag * 10 + dv;
            } else {
                proof {
                    assert(mag * 10 + dv > u64::MAX) by (nonlinear_arith)
                        requires
                            mag > (u64::MAX - dv) / 10,
                            dv <= 9,
                    ;
                }
                big = true;
            }
        } else {
            proof {
                assert(prev * 10 + dv > u64::MAX) by (nonlinear_arith)
                    requires
                        prev > u64::MAX,
                        dv >= 0,
                ;
            }
        }
        i = i + 1;
    }
    proof {
        assert(s@.subrange(start as int, n as int) == d);
        assert forall|j: int| 0 <= j < d.len() implies is_digit(#[trigger] d[j]) by {
            assert(d[j] == s@[j + start]);
        }
        if signed {
            assert(d == s@.subrange(1, s@.len() as int));
        } else {
            assert(d == s@);
        }
    }
    if big {
        return None;
    }
    if neg {
        if mag <= 9223372036854775808u64 {
            if mag == 9223372036854775808u64 {
                Some(i64::MIN)
            } else {
                Some(-(mag as i64))
            }
        } else {
            None
        }
    } else if mag <= i64::MAX as u64 {
        Some(mag as i64)
    } else {
        None
    }
}

/// `v` is what text `s` of a column tagged `tag` decodes to: an integer tag and
/// a text that writes an `i64` give that integer; anything else gives the text.
pub open spec fn decodes_to(v: Value, s: Seq<char>, tag: gs_type_t) -> bool {
    if is_integer_tag(tag) && i64_of(s) is Some {
        v matches Value::I64(n) && n as int == i64_of(s)->Some_0
    } else {
        v matches Value::String(t) && t@ == s
    }
}

/// Decodes the text of a column. Decoding never fails: a tag without a
/// decoding of its own, or an integer tag on a text that is no integer, gives
/// the text.
pub fn decode(s: &String, tag: gs_type_t) -> (v: Value)
    ensures
        decodes_to(v, s@, tag),
        !is_integer_tag(tag) ==> (v matches Value::String(t) && t@ == s@),
{
    let integer = match tag {
        gs_type_t::GS_TYPE_TINYINT | gs_type_t::GS_TYPE_UTINYINT | gs_type_t::GS_TYPE_SMALLINT
        | gs_type_t::GS_TYPE_USMALLINT | gs_type_t::GS_TYPE_INTEGER | gs_type_t::GS_TYPE_UINT32
        | gs_type_t::GS_TYPE_BIGINT | gs_type_t::GS_TYPE_UINT64 => true,
        _ => false,
    };
    if integer {
        match parse_i64(s.as_str()) {
            Some(n) => return Value::I64(n),
            None => {},
        }
    }
    Value::String(s.clone())
}

/// The text of a column's bytes.
pub open spec fn bytes_text(b: Seq<u8>) -> Seq<char> {
    utf8_lossy(b)
}

/// Decodes a column's byte payload: the bytes are read as text, replacing what
/// is not UTF-8, and the text is decoded by `tag`. A tag without a decoding of
/// its own always gives a string.
pub fn decode_bytes(b: &Vec<u8>, tag: gs_type_t) -> (v: Value)
    ensures
        decodes_to(v, bytes_text(b@), tag),
        !is_integer_tag(tag) ==> (v matches Value::String(t) && t@ == bytes_text(b@)),
        valid_utf8(b@) ==> decodes_to(v, decode_utf8(b@), tag),
{
    let text = text_of_bytes(b);
    decode(&text, tag)
}

/// The text of a fetched column's bytes, as the row filter and the decoding
/// read it.
pub fn column_text(b: &Vec<u8>) -> (r: String)
    ensures
        r@ == bytes_text(b@),
{
    text_of_bytes(b)
}

} // verus!
