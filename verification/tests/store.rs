//! Tests for the credential store adapter: key construction, record
//! building, and outcome translation.

use cargo_credential::store::{
    erase_result, fetch_result, store_request, store_result, CredentialRecord, EraseOutcome,
    PersistScope, ERROR_NOT_FOUND,
};
use cargo_credential::wide::{target_name, wstr};
use cargo_credential::Error;

/// Independent oracle: nul-terminated UTF-16 through the standard library.
fn utf16z(s: &str) -> Vec<u16> {
    let mut v: Vec<u16> = s.encode_utf16().collect();
    v.push(0);
    v
}

#[test]
fn target_name_exact() {
    let expected: Vec<u16> = vec![
        'c' as u16, 'a' as u16, 'r' as u16, 'g' as u16, 'o' as u16, '-' as u16, 'r' as u16,
        'e' as u16, 'g' as u16, 'i' as u16, 's' as u16, 't' as u16, 'r' as u16, 'y' as u16,
        ':' as u16, 'c' as u16, 'r' as u16, 'a' as u16, 't' as u16, 'e' as u16, 's' as u16,
        '-' as u16, 'i' as u16, 'o' as u16, 0,
    ];
    assert_eq!(target_name("crates-io"), expected);
}

#[test]
fn target_name_matches_std_utf16() {
    for id in [
        "https://github.com/rust-lang/crates.io-index",
        "régistry-\u{10348}-\u{1F980}",
        "",
    ] {
        let mut key = String::from("cargo-registry:");
        key.push_str(id);
        assert_eq!(target_name(id), utf16z(&key));
    }
}

#[test]
fn target_name_distinct() {
    let ids = ["a", "b", "ab", "ba", "", "a\u{1F980}", "a𐍈"];
    for (i, x) in ids.iter().enumerate() {
        for (j, y) in ids.iter().enumerate() {
            if i != j {
                assert_ne!(target_name(x), target_name(y), "{x:?} vs {y:?}");
            }
        }
    }
}

#[test]
fn wstr_nul_terminated() {
    assert_eq!(wstr("héllo \u{1F980}"), utf16z("héllo \u{1F980}"));
    assert_eq!(wstr(""), vec![0u16]);
}

#[test]
fn round_trip_store_fetch() {
    let token = "s3cr3t-tök€n";
    let record: CredentialRecord =
        store_request("https://example.com/index", token, None);
    assert_eq!(record.secret, token.as_bytes());
    let fetched = fetch_result(Ok(record.secret));
    assert_eq!(fetched, Ok(String::from(token)));
}

#[test]
fn fetch_invalid_utf8_is_encoding_error() {
    let fetched = fetch_result(Ok(vec![0xff, 0xfe, 0x00]));
    assert_eq!(fetched, Err(Error::Encoding));
}

#[test]
fn fetch_failure_is_store_access_error() {
    let fetched = fetch_result(Err(5));
    assert_eq!(fetched, Err(Error::StoreAccess { code: 5 }));
}

#[test]
fn store_request_fields() {
    let with_name = store_request("https://example.com/index", "tok", Some("crates-io"));
    assert_eq!(with_name.target, utf16z("cargo-registry:https://example.com/index"));
    assert_eq!(with_name.comment, utf16z("Cargo registry token for crates-io"));
    assert_eq!(with_name.secret, b"tok".to_vec());
    assert_eq!(with_name.persist, PersistScope::LocalMachine);

    let unnamed = store_request("https://example.com/index", "tok", None);
    assert_eq!(unnamed.comment, utf16z("Cargo registry token"));
}

#[test]
fn store_result_outcomes() {
    assert_eq!(store_result(Ok(())), Ok(()));
    assert_eq!(store_result(Err(3)), Err(Error::StoreAccess { code: 3 }));
}

#[test]
fn erase_idempotent() {
    // Erasing with no stored record succeeds.
    assert_eq!(erase_result(Err(ERROR_NOT_FOUND)), Ok(EraseOutcome::NotFound));
    // Erasing twice in a row succeeds both times: the first delete removes
    // the record, the second finds none.
    assert_eq!(erase_result(Ok(())), Ok(EraseOutcome::Removed));
    assert_eq!(erase_result(Err(ERROR_NOT_FOUND)), Ok(EraseOutcome::NotFound));
}

#[test]
fn erase_other_failure_is_store_access_error() {
    assert_eq!(erase_result(Err(5)), Err(Error::StoreAccess { code: 5 }));
}
