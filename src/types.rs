use vstd::prelude::*;
use vstd::string::*;
use crate::naming::{starts_with, str_eq};

verus! {

pub open spec fn is_array_type(t: Seq<char>) -> bool {
    t.len() >= 2 && t.subrange(t.len() - 2, t.len() as int) == "[]"@
}

pub open spec fn begins(t: Seq<char>, p: Seq<char>) -> bool {
    p.len() <= t.len() && t.subrange(0, p.len() as int) == p
}

/// Storage column type of a non-array type tag.
pub open spec fn column_base_of(t: Seq<char>) -> Seq<char> {
    if t == "address"@ {
        "CHAR(42)"@
    } else if t == "bool"@ {
        "BOOLEAN"@
    } else if t == "string"@ {
        "TEXT"@
    } else if t == "uint256"@ || t == "int256"@ {
        "VARCHAR(78)"@
    } else if begins(t, "bytes"@) {
        "BYTEA"@
    } else if begins(t, "uint"@) || begins(t, "int"@) {
        "NUMERIC"@
    } else {
        "TEXT"@
    }
}

/// Storage column type of a type tag; an array `T[]` maps to the column type of
/// `T` followed by `[]`.
pub open spec fn column_type_of(t: Seq<char>) -> Seq<char> {
    if is_array_type(t) {
        column_base_of(t.subrange(0, t.len() - 2)) + "[]"@
    } else {
        column_base_of(t)
    }
}

/// The storage wrapper that encodes a value of type tag `t`, where one is known.
pub open spec fn wrapper_of(t: Seq<char>) -> Option<Seq<char>> {
    if t == "address"@ {
        Some("EthereumSqlTypeWrapper::Address"@)
    } else if t == "bool"@ {
        Some("EthereumSqlTypeWrapper::Bool"@)
    } else if t == "string"@ {
        Some("EthereumSqlTypeWrapper::String"@)
    } else if t == "uint256"@ {
        Some("EthereumSqlTypeWrapper::U256"@)
    } else if t == "int256"@ {
        Some("EthereumSqlTypeWrapper::I256"@)
    } else if t == "uint64"@ {
        Some("EthereumSqlTypeWrapper::U64"@)
    } else if !is_array_type(t) && begins(t, "bytes"@) {
        Some("EthereumSqlTypeWrapper::Bytes"@)
    } else {
        None
    }
}

/// Whether `t` ends in `[]`.
pub fn is_array(t: &str) -> (r: bool)
    ensures
        r == is_array_type(t@),
{
    let n = t.unicode_len();
    proof {
        reveal_strlit("[]");
    }
    if n < 2 {
        return false;
    }
    str_eq(t.substring_char(n - 2, n), "[]")
}

fn column_base(t: &str) -> (r: String)
    ensures
        r@ == column_base_of(t@),
{
    if str_eq(t, "address") {
        String::from_str("CHAR(42)")
    } else if str_eq(t, "bool") {
        String::from_str("BOOLEAN")
    } else if str_eq(t, "string") {
        String::from_str("TEXT")
    } else if str_eq(t, "uint256") || str_eq(t, "int256") {
        String::from_str("VARCHAR(78)")
    } else if starts_with(t, "bytes") {
        String::from_str("BYTEA")
    } else if starts_with(t, "uint") || starts_with(t, "int") {
        String::from_str("NUMERIC")
    } else {
        String::from_str("TEXT")
    }
}

/// Maps a type tag to its storage column type.
pub fn solidity_type_to_db_type(t: &str) -> (r: String)
    ensures
        r@ == column_type_of(t@),
{
    if is_array(t) {
        let n = t.unicode_len();
        column_base(t.substring_char(0, n - 2)).concat("[]")
    } else {
        column_base(t)
    }
}

/// Maps a type tag to its storage wrapper, where one is known.
pub fn solidity_type_to_ethereum_sql_type(t: &str) -> (r: Option<String>)
    ensures
        match r {
            Some(w) => wrapper_of(t@) == Some(w@),
            None => wrapper_of(t@) is None,
        },
{
    if str_eq(t, "address") {
        Some(String::from_str("EthereumSqlTypeWrapper::Address"))
    } else if str_eq(t, "bool") {
        Some(String::from_str("EthereumSqlTypeWrapper::Bool"))
    } else if str_eq(t, "string") {
        Some(String::from_str("EthereumSqlTypeWrapper::String"))
    } else if str_eq(t, "uint256") {
        Some(String::from_str("EthereumSqlTypeWrapper::U256"))
    } else if str_eq(t, "int256") {
        Some(String::from_str("EthereumSqlTypeWrapper::I256"))
    } else if str_eq(t, "uint64") {
        Some(String::from_str("EthereumSqlTypeWrapper::U64"))
    } else if !is_array(t) && starts_with(t, "bytes") {
        Some(String::from_str("EthereumSqlTypeWrapper::Bytes"))
    } else {
        None
    }
}

} // verus!
