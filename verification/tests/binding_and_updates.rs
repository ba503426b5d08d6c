use fdb_node::binding::{plan_binding, settle_status, settle_write, BindAction};
use fdb_node::defaults::{STATUS_FAILED, STATUS_PENDING, STATUS_SUCCESS};
use fdb_node::error::ServiceError;
use fdb_node::metadata_update::{ItemAction, MetadataOutcome};
use fdb_node::records::{FinalMetadata, MetaContract, Metadata, Transaction};

fn s(x: &str) -> String {
    x.to_string()
}

fn tx(public_key: &str) -> Transaction {
    Transaction::new(
        s("hash-1"), s("token-1"), s("peer"), s("host"), s("key-1"), 3, s("new-contract"), s(public_key),
        s("alias"), 77, s("first-contract"), s("contract"), s("tid"),
    )
}

fn contract(public_key: &str) -> MetaContract {
    MetaContract { token_key: s("token-1"), meta_contract_id: s("old"), public_key: s(public_key) }
}

#[test]
fn unbound_token_is_bound_to_the_transaction_contract() {
    match plan_binding(&tx("pk"), Err(ServiceError::RecordNotFound(s("token-1")))) {
        BindAction::Create(c) => {
            assert_eq!(c.token_key, "token-1");
            assert_eq!(c.meta_contract_id, "first-contract");
            assert_eq!(c.public_key, "pk");
        },
        other => panic!("unexpected {:?}", other),
    }
}

#[test]
fn owner_rebinds_to_the_transaction_data() {
    match plan_binding(&tx("pk"), Ok(contract("pk"))) {
        BindAction::Rebind { token_key, meta_contract_id } => {
            assert_eq!(token_key, "token-1");
            assert_eq!(meta_contract_id, "new-contract");
        },
        other => panic!("unexpected {:?}", other),
    }
}

#[test]
fn foreign_signer_is_refused() {
    match plan_binding(&tx("intruder"), Ok(contract("pk"))) {
        BindAction::Refuse(ServiceError::InvalidOwner(k)) => assert_eq!(k, "intruder"),
        other => panic!("unexpected {:?}", other),
    }
}

#[test]
fn failed_contract_lookup_is_refused() {
    match plan_binding(&tx("pk"), Err(ServiceError::InternalError(s("db")))) {
        BindAction::Refuse(ServiceError::InternalError(m)) => assert_eq!(m, "db"),
        other => panic!("unexpected {:?}", other),
    }
}

#[test]
fn settling_statuses() {
    assert_eq!(settle_status(None), (STATUS_SUCCESS, s("")));
    assert_eq!(
        settle_status(Some(ServiceError::InvalidOwner(s("pk")))),
        (STATUS_FAILED, s("pk"))
    );
    assert_eq!(settle_write(Ok(())), (STATUS_SUCCESS, s("")));
    assert_eq!(
        settle_write(Err(ServiceError::RecordNotFound(s("x")))),
        (STATUS_FAILED, s("record not found: x"))
    );
}

#[test]
fn refused_update_with_message() {
    let o = MetadataOutcome::begin(&tx("pk"), false, s("content too long"));
    assert_eq!(o.status, STATUS_FAILED);
    assert_eq!(o.error_text, "content too long");
}

#[test]
fn refused_update_without_message() {
    let o = MetadataOutcome::begin(&tx("pk"), false, s(""));
    assert_eq!(o.status, STATUS_FAILED);
    assert_eq!(o.error_text, "Metadata not updateable");
}

#[test]
fn accepted_update_without_entries_keeps_the_transaction_state() {
    let o = MetadataOutcome::begin(&tx("pk"), true, s("ignored"));
    assert_eq!(o.status, STATUS_PENDING);
    assert_eq!(o.error_text, "");
}

fn item(public_key: &str) -> FinalMetadata {
    FinalMetadata { public_key: s(public_key), alias: s("al"), content: s("{\"v\":1}") }
}

#[test]
fn existing_record_gets_a_chained_block() {
    let t = tx("pk");
    let mut o = MetadataOutcome::begin(&t, true, s(""));
    let existing = Metadata::new(s("key-1"), s("al"), s("cid-0"), s("owner"));
    match o.step(&t, &s("mc"), item("owner"), Ok(existing)) {
        ItemAction::Append { content, previous_cid, subset, data_key, public_key } => {
            assert_eq!(content, "{\"v\":1}");
            assert_eq!(previous_cid, "cid-0");
            assert_eq!(subset.hash, "hash-1");
            assert_eq!(subset.timestamp, 77);
            assert_eq!(subset.meta_contract_id, "mc");
            assert_eq!(data_key, "key-1");
            assert_eq!(public_key, "owner");
        },
        other => panic!("unexpected {:?}", other),
    }
    assert_eq!(o.status, STATUS_SUCCESS);
}

#[test]
fn missing_record_is_created() {
    let t = tx("pk");
    let mut o = MetadataOutcome::begin(&t, true, s(""));
    match o.step(&t, &s("mc"), item("owner"), Err(ServiceError::RecordNotFound(s("x")))) {
        ItemAction::Create { content, subset, data_key, alias, public_key } => {
            assert_eq!(content, "{\"v\":1}");
            assert_eq!(subset.meta_contract_id, "mc");
            assert_eq!(data_key, "key-1");
            assert_eq!(alias, "al");
            assert_eq!(public_key, "owner");
        },
        other => panic!("unexpected {:?}", other),
    }
    assert_eq!(o.status, STATUS_SUCCESS);
}

#[test]
fn last_entry_decides_the_status() {
    let t = tx("pk");
    let mut o = MetadataOutcome::begin(&t, true, s(""));
    let a = o.step(&t, &s("mc"), item("a"), Err(ServiceError::InternalError(s("db"))));
    assert!(matches!(a, ItemAction::Skip));
    assert_eq!(o.status, STATUS_FAILED);
    assert_eq!(o.error_text, "db");
    let _ = o.step(&t, &s("mc"), item("b"), Err(ServiceError::RecordNotFound(s("x"))));
    assert_eq!(o.status, STATUS_SUCCESS);
    assert_eq!(o.error_text, "db");
}
