use rust_on_rails::cache::{
    create_table_statement, decode_entry, encode_entry, first_row_value, select_statement, upsert_statement,
};
use rust_on_rails::hex_codec::HexError;

#[test]
fn encode_entry_is_lower_hex() {
    assert_eq!(encode_entry(&[0x01, 0x02, 0x03, 0x0f, 0x10, 0xab]), "0102030f10ab");
    assert_eq!(encode_entry(b"Hello world!"), "48656c6c6f20776f726c6421");
    assert_eq!(encode_entry(&[]), "");
}

#[test]
fn decode_entry_reads_both_cases() {
    assert_eq!(decode_entry("f9B4Ca"), Ok(vec![0xf9, 0xb4, 0xca]));
    assert_eq!(decode_entry(""), Ok(vec![]));
}

#[test]
fn decode_entry_refuses_odd_length() {
    assert_eq!(decode_entry("123"), Err(HexError::OddLength));
}

#[test]
fn decode_entry_reports_first_bad_character() {
    assert_eq!(decode_entry("12g4x6"), Err(HexError::InvalidHexCharacter { c: 'g', index: 2 }));
    assert_eq!(decode_entry("1 "), Err(HexError::InvalidHexCharacter { c: ' ', index: 1 }));
}

#[test]
fn entry_roundtrip() {
    let values: Vec<Vec<u8>> = vec![vec![], vec![0], vec![255, 0, 128, 17], (0..=255u8).collect()];
    for v in values {
        assert_eq!(decode_entry(&encode_entry(&v)), Ok(v));
    }
}

#[test]
fn statements() {
    assert_eq!(select_statement("abc"), "SELECT value FROM kvs where key = 'abc'");
    assert_eq!(
        create_table_statement(),
        "CREATE TABLE if not exists kvs(key TEXT NOT NULL UNIQUE, value TEXT);"
    );
    assert_eq!(
        upsert_statement(),
        "INSERT INTO kvs(key, value) VALUES (?1, ?2) ON CONFLICT(key) DO UPDATE SET value=excluded.value;"
    );
}

#[test]
fn first_row_value_takes_first() {
    assert_eq!(first_row_value(&vec![]), Ok(None));
    assert_eq!(first_row_value(&vec!["0a".to_string(), "ff".to_string()]), Ok(Some(vec![10])));
}

#[test]
fn first_row_value_refuses_any_bad_row() {
    assert_eq!(first_row_value(&vec!["0a".to_string(), "f".to_string()]), Err(HexError::OddLength));
}
