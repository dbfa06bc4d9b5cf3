use evm_indexer::error::CoreError;
use evm_indexer::http::{IndexerHandlers, TxListParams};
use evm_indexer::response::{ApiResponse, ErrorResponse};
use evm_indexer::storage::InMemoryStorage;

fn hash(b: u8) -> [u8; 32] {
    [b; 32]
}

#[test]
fn storage_read_after_write() {
    let mut s: InMemoryStorage<String> = InMemoryStorage::new();
    assert_eq!(s.insert_transaction(hash(1), "one".to_string()), Ok(()));
    assert_eq!(s.insert_transaction(hash(2), "two".to_string()), Ok(()));
    assert_eq!(s.get_transaction(&hash(1)), Ok(Some("one".to_string())));
    assert_eq!(s.get_transaction(&hash(2)), Ok(Some("two".to_string())));
    assert!(s.contains(&hash(1)));
    assert!(!s.contains(&hash(3)));
}

#[test]
fn storage_refuses_a_hash_twice() {
    let mut s: InMemoryStorage<u32> = InMemoryStorage::new();
    assert_eq!(s.insert_transaction(hash(0xab), 1), Ok(()));
    let expected = format!("hash=0x{}", "ab".repeat(32));
    assert_eq!(s.insert_transaction(hash(0xab), 2), Err(CoreError::StorageErrorHashExists(expected)));
    assert_eq!(s.get_transaction(&hash(0xab)), Ok(Some(1)));
    assert_eq!(s.len(), 1);
}

#[test]
fn storage_list_is_in_insertion_order() {
    let mut s: InMemoryStorage<u32> = InMemoryStorage::new();
    assert_eq!(s.get_list(), Ok(None));
    s.insert_transaction(hash(9), 0).unwrap();
    s.insert_transaction(hash(3), 0).unwrap();
    s.insert_transaction(hash(5), 0).unwrap();
    assert_eq!(s.get_list(), Ok(Some(vec![hash(9), hash(3), hash(5)])));
}

#[test]
fn hash_text_parses_with_and_without_prefix() {
    let mut s: InMemoryStorage<u32> = InMemoryStorage::new();
    s.insert_transaction(hash(0x0a), 10).unwrap();
    s.insert_transaction(hash(0xab), 11).unwrap();
    let hex = "0a".repeat(32);
    let found = |id: String| IndexerHandlers::get_list(&s, &TxListParams::new(id)).into_parts().3;
    assert_eq!(found(hex.clone()), Some(10));
    assert_eq!(found(format!("0x{}", hex)), Some(10));
    assert_eq!(found(format!("0X{}", "AB".repeat(32))), Some(11));
    assert_eq!(found("ab".repeat(32)), Some(11));
}

#[test]
fn params_validation_checks_length() {
    assert!(TxListParams::new("a".repeat(64)).validate().is_ok());
    assert!(TxListParams::new("a".repeat(66)).validate().is_ok());
    let e = TxListParams::new("a".repeat(63)).validate().err().unwrap();
    assert_eq!(e.field, "id");
    assert_eq!(e.message, "id must be a correct Ethereum transaction hash");
    assert!(TxListParams::new("a".repeat(67)).validate().is_err());
}

#[test]
fn lookup_of_bad_id_is_bad_request() {
    let s: InMemoryStorage<u32> = InMemoryStorage::new();
    let r = IndexerHandlers::get_list(&s, &TxListParams::new("abc".to_string()));
    let (status, ok, err, data) = r.into_parts();
    assert_eq!(status, 400);
    assert!(!ok);
    assert!(data.is_none());
    let err = err.unwrap();
    assert_eq!(err.error(), "validation error");
    assert_eq!(
        err.fields().clone(),
        Some(vec![("id".to_string(), "id must be a correct Ethereum transaction hash".to_string())])
    );
}

#[test]
fn lookup_of_stored_transaction_succeeds() {
    let mut s: InMemoryStorage<u32> = InMemoryStorage::new();
    s.insert_transaction(hash(0x11), 77).unwrap();
    let id = format!("0x{}", "11".repeat(32));
    let r = IndexerHandlers::get_list(&s, &TxListParams::new(id));
    assert_eq!(r.status_code(), 200);
    assert!(r.ok());
    assert!(r.error().is_none());
    assert_eq!(*r.data(), Some(77));
}

#[test]
fn error_response_fields_replace_earlier_messages() {
    let mut e = ErrorResponse::new("bad".to_string());
    assert!(e.fields().is_none());
    e.add_field_error("a".to_string(), "first".to_string());
    e.add_field_error("b".to_string(), "second".to_string());
    e.add_field_error("a".to_string(), "third".to_string());
    assert_eq!(
        e.fields().clone(),
        Some(vec![("a".to_string(), "third".to_string()), ("b".to_string(), "second".to_string())])
    );
}

#[test]
fn api_response_constructors() {
    let d: ApiResponse<u8> = ApiResponse::default();
    assert_eq!((d.status_code(), d.ok(), d.error().is_none(), d.data().is_none()), (200, true, true, true));
    let s = ApiResponse::for_success(Some(3u8));
    assert_eq!((s.status_code(), s.ok(), *s.data()), (200, true, Some(3)));
    let f: ApiResponse<u8> = ApiResponse::for_error("boom".to_string());
    assert_eq!((f.status_code(), f.ok()), (500, false));
    assert_eq!(f.error().as_ref().unwrap().error(), "boom");
    let w: ApiResponse<u8> = ApiResponse::with_error(ErrorResponse::new("x".to_string()));
    assert_eq!((w.status_code(), w.ok()), (500, false));
    let mut m: ApiResponse<u8> = ApiResponse::default();
    m.set_status_code(404);
    m.set_data(9);
    m.set_error(ErrorResponse::new("gone".to_string()));
    assert_eq!((m.status_code(), m.ok(), *m.data()), (404, false, Some(9)));
    m.set_ok(true);
    assert!(m.ok());
}

#[test]
fn storage_list_keeps_first_insert_of_each_hash() {
    let mut s: InMemoryStorage<u32> = InMemoryStorage::new();
    assert!(s.insert_transaction(hash(4), 1).is_ok());
    assert!(s.insert_transaction(hash(2), 2).is_ok());
    assert!(s.insert_transaction(hash(4), 3).is_err());
    assert!(s.insert_transaction(hash(7), 4).is_ok());
    assert_eq!(s.get_list(), Ok(Some(vec![hash(4), hash(2), hash(7)])));
    assert_eq!(s.get_transaction(&hash(4)), Ok(Some(1)));
}
