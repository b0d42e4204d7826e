//! The type mapper: a total function from a SQL column type spelling, as the
//! catalog reports it, to the Rust type emitted for that column.
//!
//! Matching is tried in a fixed priority order: exact integer and serial
//! aliases first, then prefix rules for families with length or precision
//! suffixes (`numeric(10,2)`, `varchar(255)`, ...), then the remaining exact
//! spellings, and finally an unconditional fallback to `String`, so the
//! mapping never fails on any input.

use vstd::prelude::*;

use crate::strings::has_prefix;
use crate::strings::str_eq;
use crate::strings::str_has_prefix;

verus! {

/// The Rust type spelling chosen for the SQL type spelling `t`.
pub open spec fn rust_type_of(t: Seq<char>) -> Seq<char> {
    if t == "smallint"@ || t == "int2"@ {
        "i16"@
    } else if t == "integer"@ || t == "int"@ || t == "int4"@ {
        "i32"@
    } else if t == "bigint"@ || t == "int8"@ {
        "i64"@
    } else if has_prefix(t, "numeric"@) || has_prefix(t, "decimal"@) {
        "bigdecimal::BigDecimal"@
    } else if t == "real"@ || t == "float4"@ {
        "f32"@
    } else if t == "double precision"@ || t == "float8"@ {
        "f64"@
    } else if t == "smallserial"@ || t == "serial2"@ {
        "i16"@
    } else if t == "serial"@ || t == "serial4"@ {
        "i32"@
    } else if t == "bigserial"@ || t == "serial8"@ {
        "i64"@
    } else if has_prefix(t, "char"@) || has_prefix(t, "varchar"@) {
        "String"@
    } else if t == "text"@ {
        "String"@
    } else if has_prefix(t, "timestamp"@) {
        "chrono::DateTime"@
    } else if t == "date"@ {
        "chrono::NaiveDate"@
    } else if has_prefix(t, "time"@) {
        "chrono::NaiveTime"@
    } else if t == "bool"@ || t == "boolean"@ {
        "bool"@
    } else if t == "uuid"@ {
        "uuid::Uuid"@
    } else {
        "String"@
    }
}

/// `t` is matched by one of the mapper's explicit rules, so it does not fall
/// through to the `String` fallback.
pub open spec fn recognized(t: Seq<char>) -> bool {
    ||| t == "smallint"@
    ||| t == "int2"@
    ||| t == "integer"@
    ||| t == "int"@
    ||| t == "int4"@
    ||| t == "bigint"@
    ||| t == "int8"@
    ||| has_prefix(t, "numeric"@)
    ||| has_prefix(t, "decimal"@)
    ||| t == "real"@
    ||| t == "float4"@
    ||| t == "double precision"@
    ||| t == "float8"@
    ||| t == "smallserial"@
    ||| t == "serial2"@
    ||| t == "serial"@
    ||| t == "serial4"@
    ||| t == "bigserial"@
    ||| t == "serial8"@
    ||| has_prefix(t, "char"@)
    ||| has_prefix(t, "varchar"@)
    ||| t == "text"@
    ||| has_prefix(t, "timestamp"@)
    ||| t == "date"@
    ||| has_prefix(t, "time"@)
    ||| t == "bool"@
    ||| t == "boolean"@
    ||| t == "uuid"@
}

/// Maps one SQL type spelling to the Rust type emitted for it, exactly as
/// [`rust_type_of`] states.
pub fn to_rust_type(pg_type: &str) -> (r: &str)
    ensures
        r@ == rust_type_of(pg_type@),
{
    if str_eq(pg_type, "smallint") || str_eq(pg_type, "int2") {
        "i16"
    } else if str_eq(pg_type, "integer") || str_eq(pg_type, "int") || str_eq(pg_type, "int4") {
        "i32"
    } else if str_eq(pg_type, "bigint") || str_eq(pg_type, "int8") {
        "i64"
    } else if str_has_prefix(pg_type, "numeric") || str_has_prefix(pg_type, "decimal") {
        "bigdecimal::BigDecimal"
    } else if str_eq(pg_type, "real") || str_eq(pg_type, "float4") {
        "f32"
    } else if str_eq(pg_type, "double precision") || str_eq(pg_type, "float8") {
        "f64"
    } else if str_eq(pg_type, "smallserial") || str_eq(pg_type, "serial2") {
        "i16"
    } else if str_eq(pg_type, "serial") || str_eq(pg_type, "serial4") {
        "i32"
    } else if str_eq(pg_type, "bigserial") || str_eq(pg_type, "serial8") {
        "i64"
    } else if str_has_prefix(pg_type, "char") || str_has_prefix(pg_type, "varchar") {
        "String"
    } else if str_eq(pg_type, "text") {
        "String"
    } else if str_has_prefix(pg_type, "timestamp") {
        "chrono::DateTime"
    } else if str_eq(pg_type, "date") {
        "chrono::NaiveDate"
    } else if str_has_prefix(pg_type, "time") {
        "chrono::NaiveTime"
    } else if str_eq(pg_type, "bool") || str_eq(pg_type, "boolean") {
        "bool"
    } else if str_eq(pg_type, "uuid") {
        "uuid::Uuid"
    } else {
        "String"
    }
}

/// Totality of the fallback: a spelling matched by none of the explicit
/// rules maps to `String` rather than failing.
pub proof fn lemma_unrecognized_maps_to_string(t: Seq<char>)
    requires
        !recognized(t),
    ensures
        rust_type_of(t) == "String"@,
{
}

/// The mapper never returns an empty type name, whatever the input.
pub proof fn lemma_rust_type_nonempty(t: Seq<char>)
    ensures
        rust_type_of(t).len() > 0,
{
    reveal_strlit("i16");
    reveal_strlit("i32");
    reveal_strlit("i64");
    reveal_strlit("bigdecimal::BigDecimal");
    reveal_strlit("f32");
    reveal_strlit("f64");
    reveal_strlit("String");
    reveal_strlit("chrono::DateTime");
    reveal_strlit("chrono::NaiveDate");
    reveal_strlit("chrono::NaiveTime");
    reveal_strlit("bool");
    reveal_strlit("uuid::Uuid");
}

} // verus!
