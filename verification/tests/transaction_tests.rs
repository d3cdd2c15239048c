use masp_rewards::storage::may_advance;
use masp_rewards::transaction::{
    inner_or_empty, is_valid_hash, page_or_default, require_wrapper, size_or_default,
    TransactionError, DEFAULT_PAGE, DEFAULT_RECENT_SIZE, TX_ID_LENGTH,
};

#[test]
fn question_defaults() {
    assert_eq!(DEFAULT_PAGE, 1);
    assert_eq!(DEFAULT_RECENT_SIZE, 10);
    assert_eq!(page_or_default(None), 1);
    assert_eq!(page_or_default(Some(0)), 0);
    assert_eq!(page_or_default(Some(7)), 7);
    assert_eq!(size_or_default(None), 10);
    assert_eq!(size_or_default(Some(3)), 3);
    assert_eq!(size_or_default(Some(u64::MAX)), u64::MAX);
}

#[test]
fn transaction_id_has_sixty_four_bytes() {
    assert_eq!(TX_ID_LENGTH, 64);
    let id = "a".repeat(64);
    assert!(is_valid_hash(&id).is_ok());
    assert!(is_valid_hash(&"Z".repeat(64)).is_ok());
    for bad in ["".to_string(), "a".repeat(63), "a".repeat(65), "é".repeat(64)] {
        assert!(matches!(is_valid_hash(&bad), Err(TransactionError::InvalidTxId)));
    }
    assert!(is_valid_hash(&"é".repeat(32)).is_ok());
}

#[test]
fn missing_wrapper_is_not_found() {
    match require_wrapper::<u8>("abc".to_string(), None) {
        Err(TransactionError::TxIdNotFound(id)) => assert_eq!(id, "abc"),
        other => panic!("{:?}", other),
    }
    assert_eq!(require_wrapper("abc".to_string(), Some(5u8)).ok(), Some(5));
}

#[test]
fn failed_inner_read_shows_nothing() {
    let read: Result<Vec<u8>, String> = Ok(vec![1, 2, 3]);
    assert_eq!(inner_or_empty(read), vec![1, 2, 3]);
    let failed: Result<Vec<u8>, String> = Err("down".to_string());
    assert!(inner_or_empty(failed).is_empty());
    let failed: Result<Vec<u8>, TransactionError> =
        Err(TransactionError::Database("down".to_string()));
    assert!(inner_or_empty(failed).is_empty());
}

#[test]
fn cursor_moves_by_one_or_from_nothing() {
    assert!(may_advance(None, 0));
    assert!(may_advance(None, 17));
    assert!(may_advance(Some(0), 1));
    assert!(may_advance(Some(u32::MAX - 1), u32::MAX));
    assert!(!may_advance(Some(u32::MAX), 0));
    assert!(!may_advance(Some(u32::MAX), u32::MAX));
    assert!(!may_advance(Some(5), 5));
    assert!(!may_advance(Some(5), 4));
    assert!(!may_advance(Some(5), 7));
}
