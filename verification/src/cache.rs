use vstd::prelude::*;
use vstd::string::*;

use crate::hex_codec::{HexError, hex_decodable, spec_hex_decode, spec_hex_encode, hex_decode, hex_encode, lemma_hex_roundtrip};

verus! {

/// The statement that creates the key-value table of a cache.
pub open spec fn create_table_sql() -> Seq<char> {
    "CREATE TABLE if not exists kvs(key TEXT NOT NULL UNIQUE, value TEXT);"@
}

/// The statement that stores `?2` under `?1`, replacing an earlier value.
pub open spec fn upsert_sql() -> Seq<char> {
    "INSERT INTO kvs(key, value) VALUES (?1, ?2) ON CONFLICT(key) DO UPDATE SET value=excluded.value;"@
}

/// The query for the value stored under `key`.
pub open spec fn spec_select_sql(key: Seq<char>) -> Seq<char> {
    "SELECT value FROM kvs where key = '"@ + key + "'"@
}

/// The statement that creates the key-value table of a cache.
pub fn create_table_statement() -> (r: String)
    ensures
        r@ == create_table_sql(),
{
    String::from_str("CREATE TABLE if not exists kvs(key TEXT NOT NULL UNIQUE, value TEXT);")
}

/// The statement that stores a value under a key, replacing an earlier value.
pub fn upsert_statement() -> (r: String)
    ensures
        r@ == upsert_sql(),
{
    String::from_str(
        "INSERT INTO kvs(key, value) VALUES (?1, ?2) ON CONFLICT(key) DO UPDATE SET value=excluded.value;",
    )
}

/// The query for the value stored under `key`; the key is put between single
/// quotes as it is.
pub fn select_statement(key: &str) -> (r: String)
    ensures
        r@ == spec_select_sql(key@),
{
    let mut sql = String::from_str("SELECT value FROM kvs where key = '");
    sql.append(key);
    sql.append("'");
    sql
}

/// The text a cache stores for `value`: its lower-case hex encoding.
pub fn encode_entry(value: &[u8]) -> (r: String)
    ensures
        r@ == spec_hex_encode(value@),
{
    hex_encode(value)
}

/// The value a stored text stands for; text that is no hex is refused.
pub fn decode_entry(stored: &str) -> (r: Result<Vec<u8>, HexError>)
    ensures
        r is Ok <==> hex_decodable(stored.spec_bytes()),
        r matches Ok(value) ==> value@ == spec_hex_decode(stored.spec_bytes()),
{
    hex_decode(stored.as_bytes())
}

/// The value of the first row of a query result. Every row must be hex: the
/// rows are all decoded before the first is taken.
pub fn first_row_value(rows: &Vec<String>) -> (r: Result<Option<Vec<u8>>, HexError>)
    ensures
        r is Err <==> exists|i: int| 0 <= i < rows@.len() && !hex_decodable(vstd::utf8::encode_utf8((#[trigger] rows@[i])@)),
        r matches Ok(value) ==> (if rows@.len() == 0 {
            value is None
        } else {
            value matches Some(v) && v@ == spec_hex_decode(vstd::utf8::encode_utf8(rows@[0]@))
        }),
{
    let mut first: Option<Vec<u8>> = None;
    let mut i: usize = 0;
    while i < rows.len()
        invariant
            i <= rows@.len(),
            forall|j: int| 0 <= j < i ==> hex_decodable(vstd::utf8::encode_utf8((#[trigger] rows@[j])@)),
            i == 0 ==> first is None,
            i > 0 ==> (first matches Some(v) && v@ == spec_hex_decode(vstd::utf8::encode_utf8(rows@[0]@))),
        decreases rows@.len() - i,
    {
        match decode_entry(rows[i].as_str()) {
            Ok(value) => {
                if i == 0 {
                    first = Some(value);
                }
            },
            Err(e) => {
                return Err(e);
            },
        }
        i = i + 1;
    }
    Ok(first)
}

/// What a cache stores for a value decodes to that value again.
pub proof fn lemma_entry_roundtrip(value: Seq<u8>, stored: Seq<char>)
    requires
        stored == spec_hex_encode(value),
    ensures
        hex_decodable(vstd::utf8::encode_utf8(stored)),
        spec_hex_decode(vstd::utf8::encode_utf8(stored)) == value,
{
    lemma_hex_roundtrip(value);
}

} // verus!
