use fdb_node::defaults::{known_method, STATUS_FAILED, STATUS_PENDING};
use fdb_node::error::ServiceError;
use fdb_node::records::{Metadata, Transaction};
use fdb_node::send::{record_outcome, SendCheck, SendStage};

fn s(x: &str) -> String {
    x.to_string()
}

fn owner_record(public_key: &str) -> Metadata {
    Metadata::new(s("key"), s("alias"), s("cid"), s(public_key))
}

#[test]
fn known_methods() {
    assert!(known_method(&s("contract")));
    assert!(known_method(&s("metadata")));
    assert!(!known_method(&s("clone")));
    assert!(!known_method(&s("")));
}

#[test]
fn unknown_method_is_refused() {
    let c = SendCheck::start(&s("transfer"), &s("pk"), &s("d"), &s("ed25519"));
    assert_eq!(c.stage, SendStage::Done);
    match c.error {
        Some(ServiceError::InvalidMethod(m)) => assert_eq!(m, "invalid method: transfer"),
        other => panic!("unexpected {:?}", other),
    }
    assert_eq!(c.service_id, "");
}

#[test]
fn missing_key_type_outranks_unknown_method() {
    let c = SendCheck::start(&s("transfer"), &s("pk"), &s("d"), &s(""));
    assert_eq!(c.stage, SendStage::Done);
    match c.error {
        Some(ServiceError::InvalidEncryption(k)) => assert_eq!(k, "pk"),
        other => panic!("unexpected {:?}", other),
    }
}

#[test]
fn contract_request_goes_to_signature_and_names_its_contract() {
    let c = SendCheck::start(&s("contract"), &s("pk"), &s("contract-7"), &s("secp256k1"));
    assert_eq!(c.stage, SendStage::AwaitSignature);
    assert!(c.error.is_none());
    assert_eq!(c.service_id, "contract-7");
    let done = c.on_signature(true);
    assert_eq!(done.stage, SendStage::Done);
    assert!(done.error.is_none());
    assert_eq!(done.service_id, "contract-7");
}

#[test]
fn bad_signature_is_refused() {
    let c = SendCheck::start(&s("contract"), &s("pk"), &s("d"), &s("ed25519"));
    let done = c.on_signature(false);
    match done.error {
        Some(ServiceError::InvalidSignature(m)) => assert_eq!(m, "not owner of data_key: pk"),
        other => panic!("unexpected {:?}", other),
    }
}

#[test]
fn unsupported_key_type_is_refused_before_signature() {
    let c = SendCheck::start(&s("contract"), &s("pk"), &s("d"), &s("rsa"));
    assert_eq!(c.stage, SendStage::Done);
    match c.error {
        Some(ServiceError::NotSupportedEncryptionType(k)) => assert_eq!(k, "rsa"),
        other => panic!("unexpected {:?}", other),
    }
    assert_eq!(c.service_id, "d");
}

#[test]
fn metadata_request_asks_for_owner() {
    let c = SendCheck::start(&s("metadata"), &s("pk"), &s("d"), &s("ed25519"));
    assert_eq!(c.stage, SendStage::AwaitOwner);
    assert_eq!(c.service_id, "");
    let c = c.on_owner(Ok(owner_record("pk")));
    assert_eq!(c.stage, SendStage::AwaitSignature);
    assert!(c.error.is_none());
}

#[test]
fn metadata_of_another_owner_is_refused() {
    let c = SendCheck::start(&s("metadata"), &s("pk"), &s("d"), &s("ed25519"));
    let c = c.on_owner(Ok(owner_record("someone")));
    assert_eq!(c.stage, SendStage::Done);
    match c.error {
        Some(ServiceError::InvalidOwner(m)) => assert_eq!(m, "not owner of data_key: pk"),
        other => panic!("unexpected {:?}", other),
    }
}

#[test]
fn missing_metadata_lets_a_request_through() {
    let c = SendCheck::start(&s("metadata"), &s("pk"), &s("d"), &s("ed25519"));
    let c = c.on_owner(Err(ServiceError::RecordNotFound(s("none"))));
    assert_eq!(c.stage, SendStage::AwaitSignature);
}

#[test]
fn failed_lookup_is_passed_on() {
    let c = SendCheck::start(&s("metadata"), &s("pk"), &s("d"), &s("ed25519"));
    let c = c.on_owner(Err(ServiceError::InternalError(s("db down"))));
    assert_eq!(c.stage, SendStage::Done);
    match c.error {
        Some(ServiceError::InternalError(m)) => assert_eq!(m, "db down"),
        other => panic!("unexpected {:?}", other),
    }
}

fn tx() -> Transaction {
    Transaction::new(
        s("h"), s("t"), s("p"), s("host"), s("k"), 1, s("d"), s("pk"), s("a"), 9, s(""), s("contract"), s("id"),
    )
}

#[test]
fn refused_request_is_recorded_as_failed() {
    let mut t = tx();
    record_outcome(&mut t, Some(ServiceError::InvalidSignature(s("not owner of data_key: pk"))));
    assert_eq!(t.status, STATUS_FAILED);
    assert_eq!(t.error_text, "not owner of data_key: pk");
    assert_eq!(t.hash, "h");
}

#[test]
fn accepted_request_stays_pending() {
    let mut t = tx();
    record_outcome(&mut t, None);
    assert_eq!(t.status, STATUS_PENDING);
    assert_eq!(t.error_text, "");
}
