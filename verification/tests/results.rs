use fdb_node::error::ServiceError;
use fdb_node::records::{MetaContract, Metadata, Transaction};
use fdb_node::result::{
    wrapped_try, FdbClock, FdbMetaContractResult, FdbMetadataHistoryResult, FdbMetadataResult,
    FdbMetadatasResult, FdbResult, FdbTransactionResult, FdbTransactionsResult,
};

fn sample_transaction(hash: &str) -> Transaction {
    Transaction::new(
        hash.to_string(),
        "token".to_string(),
        "peer".to_string(),
        "host".to_string(),
        "key".to_string(),
        7,
        "data".to_string(),
        "pk".to_string(),
        "alias".to_string(),
        1234,
        "contract-id".to_string(),
        "metadata".to_string(),
        "token-id".to_string(),
    )
}

fn sample_metadata() -> Metadata {
    Metadata::new("key".to_string(), "alias".to_string(), "cid".to_string(), "pk".to_string())
}

#[test]
fn wrapped_try_returns_what_the_closure_returns() {
    let r: Result<i64, ServiceError> = wrapped_try(|| Ok(41 + 1));
    assert!(matches!(r, Ok(42)));
}

#[test]
fn transaction_new_is_pending_without_error() {
    let tx = sample_transaction("h1");
    assert_eq!(tx.hash, "h1");
    assert_eq!(tx.token_key, "token");
    assert_eq!(tx.from_peer_id, "peer");
    assert_eq!(tx.host_id, "host");
    assert_eq!(tx.data_key, "key");
    assert_eq!(tx.nonce, 7);
    assert_eq!(tx.data, "data");
    assert_eq!(tx.public_key, "pk");
    assert_eq!(tx.alias, "alias");
    assert_eq!(tx.timestamp, 1234);
    assert_eq!(tx.meta_contract_id, "contract-id");
    assert_eq!(tx.method, "metadata");
    assert_eq!(tx.token_id, "token-id");
    assert_eq!(tx.status, fdb_node::defaults::STATUS_PENDING);
    assert_eq!(tx.error_text, "");
}

#[test]
fn transaction_result_on_success() {
    let r = FdbTransactionResult::from(Ok(sample_transaction("h2")));
    assert!(r.success);
    assert_eq!(r.err_msg, "");
    assert_eq!(r.transaction.hash, "h2");
}

#[test]
fn transaction_result_on_error() {
    let r = FdbTransactionResult::from(Err(ServiceError::RecordNotFound("h3".to_string())));
    assert!(!r.success);
    assert_eq!(r.err_msg, "record not found: h3");
    assert_eq!(r.transaction.hash, "");
    assert_eq!(r.transaction.status, 0);
}

#[test]
fn transactions_result_both_ways() {
    let ok = FdbTransactionsResult::from(Ok(vec![sample_transaction("a"), sample_transaction("b")]));
    assert!(ok.success);
    assert_eq!(ok.err_msg, "");
    assert_eq!(ok.transactions.len(), 2);
    assert_eq!(ok.transactions[1].hash, "b");
    let err = FdbTransactionsResult::from(Err(ServiceError::InternalError("db down".to_string())));
    assert!(!err.success);
    assert_eq!(err.err_msg, "db down");
    assert!(err.transactions.is_empty());
}

#[test]
fn metadata_result_both_ways() {
    let ok = FdbMetadataResult::from(Ok(sample_metadata()));
    assert!(ok.success);
    assert_eq!(ok.metadata.cid, "cid");
    let err = FdbMetadataResult::from(Err(ServiceError::NoEncryptionType()));
    assert!(!err.success);
    assert_eq!(err.err_msg, "no encryption type");
    assert_eq!(err.metadata.cid, "");
    assert_eq!(err.metadata.public_key, "");
}

#[test]
fn metadatas_result_both_ways() {
    let ok = FdbMetadatasResult::from(Ok(vec![sample_metadata()]));
    assert!(ok.success);
    assert_eq!(ok.metadatas.len(), 1);
    let err = FdbMetadatasResult::from(Err(ServiceError::InvalidOwner("not owner of data_key: pk".to_string())));
    assert!(!err.success);
    assert_eq!(err.err_msg, "not owner of data_key: pk");
    assert!(err.metadatas.is_empty());
}

#[test]
fn meta_contract_result_both_ways() {
    let contract = MetaContract {
        token_key: "t".to_string(),
        meta_contract_id: "m".to_string(),
        public_key: "pk".to_string(),
    };
    let ok = FdbMetaContractResult::from(Ok(contract));
    assert!(ok.success);
    assert_eq!(ok.meta.meta_contract_id, "m");
    let err = FdbMetaContractResult::from(Err(ServiceError::NotSupportedEncryptionType("rsa".to_string())));
    assert!(!err.success);
    assert_eq!(err.err_msg, "not supported encryption type: rsa");
    assert_eq!(err.meta.token_key, "");
}

#[test]
fn history_result_splits_current_from_earlier() {
    let r = FdbMetadataHistoryResult::from(Ok(vec!["c".to_string(), "b".to_string(), "a".to_string()]));
    assert!(r.success);
    assert_eq!(r.err_msg, "");
    assert_eq!(r.metadata, "c");
    assert_eq!(r.history, vec!["b".to_string(), "a".to_string()]);
}

#[test]
fn history_result_with_one_version() {
    let r = FdbMetadataHistoryResult::from(Ok(vec!["only".to_string()]));
    assert_eq!(r.metadata, "only");
    assert!(r.history.is_empty());
}

#[test]
fn history_result_on_error() {
    let r = FdbMetadataHistoryResult::from(Err(ServiceError::InvalidEncryption("pk".to_string())));
    assert!(!r.success);
    assert_eq!(r.err_msg, "invalid encryption: pk");
    assert_eq!(r.metadata, "{}");
    assert!(r.history.is_empty());
}

#[test]
fn plain_records() {
    let r = FdbResult { transaction_hash: "h".to_string() };
    assert_eq!(r.transaction_hash, "h");
    let c = FdbClock { timestamp: 5 };
    assert_eq!(c.timestamp, 5);
}

#[test]
fn error_messages() {
    assert_eq!(ServiceError::InvalidMethod("invalid method: x".to_string()).message(), "invalid method: x");
    assert_eq!(ServiceError::InvalidSignature("sig".to_string()).message(), "sig");
    assert!(ServiceError::RecordNotFound("x".to_string()).is_not_found());
    assert!(!ServiceError::InternalError("x".to_string()).is_not_found());
}
