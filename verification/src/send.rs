use vstd::prelude::*;

use crate::defaults::{
    ENCRYPTION_TYPE_ED25519, ENCRYPTION_TYPE_SECP256K1, METHOD_CONTRACT, METHOD_METADATA,
    STATUS_FAILED, STATUS_PENDING, is_known_method, known_method,
};
use crate::error::{ErrorView, ServiceError, error_opt_view, error_text};
use crate::records::{Metadata, Transaction};

verus! {

/// The text of a refusal for a signer that does not own a record.
pub open spec fn not_owner_text(public_key: Seq<char>) -> Seq<char> {
    "not owner of data_key: "@ + public_key
}

/// The refusal of an unknown method, if `method` is one.
pub open spec fn method_refusal(method: Seq<char>) -> Option<ErrorView> {
    if is_known_method(method) {
        None
    } else {
        Some(ErrorView::InvalidMethod("invalid method: "@ + method))
    }
}

/// The refusal known before any lookup: a missing key type outranks an unknown method.
pub open spec fn early_refusal(method: Seq<char>, public_key: Seq<char>, key_type: Seq<char>) -> Option<ErrorView> {
    if key_type.len() == 0 {
        Some(ErrorView::InvalidEncryption(public_key))
    } else {
        method_refusal(method)
    }
}

/// The refusal that a lookup of the signer's metadata leads to.
pub open spec fn owner_refusal(public_key: Seq<char>, lookup: Result<Metadata, ServiceError>) -> Option<ErrorView> {
    match lookup {
        Ok(m) => if m.public_key@ == public_key {
            None
        } else {
            Some(ErrorView::InvalidOwner(not_owner_text(public_key)))
        },
        Err(e) => if e@ is RecordNotFound {
            None
        } else {
            Some(e@)
        },
    }
}

/// True when `key_type` names a key type whose signatures the service checks.
pub open spec fn is_supported_key_type(key_type: Seq<char>) -> bool {
    key_type == ENCRYPTION_TYPE_SECP256K1@ || key_type == ENCRYPTION_TYPE_ED25519@
}

/// The refusal of a key type that is missing or not supported.
pub open spec fn key_type_refusal(key_type: Seq<char>) -> Option<ErrorView> {
    if key_type.len() == 0 {
        Some(ErrorView::NoEncryptionType)
    } else if !is_supported_key_type(key_type) {
        Some(ErrorView::NotSupportedEncryptionType(key_type))
    } else {
        None
    }
}

/// The refusal that a signature check leads to.
pub open spec fn signature_refusal(public_key: Seq<char>, valid: bool) -> Option<ErrorView> {
    if valid {
        None
    } else {
        Some(ErrorView::InvalidSignature(not_owner_text(public_key)))
    }
}

/// What a request is answered, as a whole: `None` when it is accepted, else
/// the first refusal met. `lookup` is what the metadata lookup finds and
/// `valid` what the signature check says; each counts only where it is asked.
pub open spec fn send_refusal(
    method: Seq<char>,
    public_key: Seq<char>,
    key_type: Seq<char>,
    lookup: Result<Metadata, ServiceError>,
    valid: bool,
) -> Option<ErrorView> {
    let first = early_refusal(method, public_key, key_type);
    if first is Some {
        first
    } else {
        let owner = if method == METHOD_METADATA@ { owner_refusal(public_key, lookup) } else { None };
        if owner is Some {
            owner
        } else {
            let key = key_type_refusal(key_type);
            if key is Some {
                key
            } else {
                signature_refusal(public_key, valid)
            }
        }
    }
}

/// The meta contract a request names: its data, for a contract request that
/// passed the first checks; else nothing.
pub open spec fn send_service_id(
    method: Seq<char>,
    public_key: Seq<char>,
    key_type: Seq<char>,
    data: Seq<char>,
) -> Seq<char> {
    if early_refusal(method, public_key, key_type) is None && method == METHOD_CONTRACT@ {
        data
    } else {
        Seq::empty()
    }
}

/// Where the checks of a request stand.
#[derive(PartialEq, Eq, Structural, Clone, Copy, Debug)]
pub enum SendStage {
    /// The signer's metadata must be looked up next.
    AwaitOwner,
    /// The signature must be checked next.
    AwaitSignature,
    /// The checks are over.
    Done,
}

/// The checks of one request, run step by step as the lookups come in.
#[derive(Debug)]
pub struct SendCheck {
    pub error: Option<ServiceError>,
    pub service_id: String,
    pub stage: SendStage,
    pub public_key: String,
    pub key_type: String,
}

/// A `SendCheck` taken as plain values.
pub struct SendCheckView {
    pub error: Option<ErrorView>,
    pub service_id: Seq<char>,
    pub stage: SendStage,
    pub public_key: Seq<char>,
    pub key_type: Seq<char>,
}

impl View for SendCheck {
    type V = SendCheckView;

    open spec fn view(&self) -> SendCheckView {
        SendCheckView {
            error: error_opt_view(self.error),
            service_id: self.service_id@,
            stage: self.stage,
            public_key: self.public_key@,
            key_type: self.key_type@,
        }
    }
}

/// The state after the checks of the key type, once the owner is settled.
pub open spec fn after_owner(s: SendCheckView, owner: Option<ErrorView>) -> SendCheckView {
    if owner is Some {
        SendCheckView { error: owner, stage: SendStage::Done, ..s }
    } else {
        let key = key_type_refusal(s.key_type);
        if key is Some {
            SendCheckView { error: key, stage: SendStage::Done, ..s }
        } else {
            SendCheckView { error: None, stage: SendStage::AwaitSignature, ..s }
        }
    }
}

/// The state in which the checks of a request begin.
pub open spec fn start_spec(
    method: Seq<char>,
    public_key: Seq<char>,
    data: Seq<char>,
    key_type: Seq<char>,
) -> SendCheckView {
    let first = early_refusal(method, public_key, key_type);
    let s = SendCheckView {
        error: first,
        service_id: send_service_id(method, public_key, key_type, data),
        stage: SendStage::Done,
        public_key,
        key_type,
    };
    if first is Some {
        s
    } else if method == METHOD_METADATA@ {
        SendCheckView { stage: SendStage::AwaitOwner, ..s }
    } else {
        after_owner(s, None)
    }
}

/// The state after the signer's metadata lookup found `lookup`.
pub open spec fn owner_step_spec(s: SendCheckView, lookup: Result<Metadata, ServiceError>) -> SendCheckView {
    after_owner(s, owner_refusal(s.public_key, lookup))
}

/// The state after the signature check said `valid`.
pub open spec fn signature_step_spec(s: SendCheckView, valid: bool) -> SendCheckView {
    SendCheckView { error: signature_refusal(s.public_key, valid), stage: SendStage::Done, ..s }
}

/// The state at the end of the checks, each lookup answered by the given value.
pub open spec fn run_checks(
    method: Seq<char>,
    public_key: Seq<char>,
    data: Seq<char>,
    key_type: Seq<char>,
    lookup: Result<Metadata, ServiceError>,
    valid: bool,
) -> SendCheckView {
    let s0 = start_spec(method, public_key, data, key_type);
    let s1 = if s0.stage == SendStage::AwaitOwner { owner_step_spec(s0, lookup) } else { s0 };
    if s1.stage == SendStage::AwaitSignature { signature_step_spec(s1, valid) } else { s1 }
}

fn not_owner_message(public_key: &String) -> (r: String)
    ensures
        r@ == not_owner_text(public_key@),
{
    String::from_str("not owner of data_key: ").concat(public_key.as_str())
}

fn key_type_check(key_type: &String) -> (r: Option<ServiceError>)
    ensures
        error_opt_view(r) == key_type_refusal(key_type@),
{
    if key_type.as_str().is_empty() {
        Some(ServiceError::NoEncryptionType())
    } else {
        let secp = ENCRYPTION_TYPE_SECP256K1.to_owned();
        let ed = ENCRYPTION_TYPE_ED25519.to_owned();
        if *key_type != secp && *key_type != ed {
            Some(ServiceError::NotSupportedEncryptionType(key_type.clone()))
        } else {
            None
        }
    }
}

impl SendCheck {
    /// Moves on past the owner check, which found `owner`.
    fn settle_owner(self, owner: Option<ServiceError>) -> (r: SendCheck)
        ensures
            r@ == after_owner(self@, error_opt_view(owner)),
            r.key_type@ == self.key_type@,
            r.public_key@ == self.public_key@,
            r.service_id@ == self.service_id@,
    {
        let SendCheck { error: _, service_id, stage: _, public_key, key_type } = self;
        match owner {
            Some(e) => SendCheck {
                error: Some(e),
                service_id,
                stage: SendStage::Done,
                public_key,
                key_type,
            },
            None => {
                let key = key_type_check(&key_type);
                match key {
                    Some(e) => SendCheck {
                        error: Some(e),
                        service_id,
                        stage: SendStage::Done,
                        public_key,
                        key_type,
                    },
                    None => SendCheck {
                        error: None,
                        service_id,
                        stage: SendStage::AwaitSignature,
                        public_key,
                        key_type,
                    },
                }
            },
        }
    }

    /// Begins the checks of a request with the given method, public key and
    /// data, whose public key has the given key type (empty when none could
    /// be determined).
    pub fn start(method: &String, public_key: &String, data: &String, key_type: &String) -> (r: SendCheck)
        ensures
            r@ == start_spec(method@, public_key@, data@, key_type@),
            r.key_type@ == key_type@,
            r.public_key@ == public_key@,
    {
        let mut error: Option<ServiceError> = None;
        if !known_method(method) {
            error = Some(ServiceError::InvalidMethod(
                String::from_str("invalid method: ").concat(method.as_str()),
            ));
        }
        if key_type.as_str().is_empty() {
            error = Some(ServiceError::InvalidEncryption(public_key.clone()));
        }
        let is_metadata = *method == METHOD_METADATA.to_owned();
        let is_contract = *method == METHOD_CONTRACT.to_owned();
        let mut service_id = String::new();
        if error.is_none() && is_contract {
            service_id = data.clone();
        }
        let s = SendCheck {
            error,
            service_id,
            stage: SendStage::Done,
            public_key: public_key.clone(),
            key_type: key_type.clone(),
        };
        if s.error.is_some() {
            s
        } else if is_metadata {
            SendCheck { stage: SendStage::AwaitOwner, ..s }
        } else {
            s.settle_owner(None)
        }
    }

    /// Goes on with what the lookup of the signer's metadata found.
    pub fn on_owner(self, lookup: Result<Metadata, ServiceError>) -> (r: SendCheck)
        requires
            self.stage == SendStage::AwaitOwner,
        ensures
            r@ == owner_step_spec(self@, lookup),
            r.key_type@ == self.key_type@,
            r.public_key@ == self.public_key@,
            r.service_id@ == self.service_id@,
    {
        let owner = match lookup {
            Ok(metadata) => {
                if metadata.public_key != self.public_key {
                    Some(ServiceError::InvalidOwner(not_owner_message(&self.public_key)))
                } else {
                    None
                }
            },
            Err(e) => {
                if e.is_not_found() {
                    None
                } else {
                    Some(e)
                }
            },
        };
        self.settle_owner(owner)
    }

    /// Ends the checks with what the signature check said.
    pub fn on_signature(self, valid: bool) -> (r: SendCheck)
        requires
            self.stage == SendStage::AwaitSignature,
        ensures
            r@ == signature_step_spec(self@, valid),
            r.key_type@ == self.key_type@,
            r.public_key@ == self.public_key@,
            r.service_id@ == self.service_id@,
    {
        let error = if valid {
            None
        } else {
            Some(ServiceError::InvalidSignature(not_owner_message(&self.public_key)))
        };
        SendCheck { error, stage: SendStage::Done, ..self }
    }
}

/// The status a transaction with status `status` has once the checks, which
/// ended in `error`, are recorded in it.
pub open spec fn recorded_status(status: i64, error: Option<ErrorView>) -> i64 {
    if error is Some { STATUS_FAILED } else { status }
}

/// Records the outcome of the checks in the transaction: a refused request
/// is marked failed with the refusal's text; an accepted one is left as it was.
pub fn record_outcome(tx: &mut Transaction, error: Option<ServiceError>)
    ensures
        final(tx).status == recorded_status(old(tx).status, error_opt_view(error)),
        (match error {
            Some(e) => final(tx).error_text@ == error_text(e@),
            None => final(tx).error_text == old(tx).error_text,
        }),
        final(tx).hash == old(tx).hash,
        final(tx).method == old(tx).method,
        final(tx).meta_contract_id == old(tx).meta_contract_id,
        final(tx).data_key == old(tx).data_key,
        final(tx).token_key == old(tx).token_key,
        final(tx).data == old(tx).data,
        final(tx).public_key == old(tx).public_key,
        final(tx).alias == old(tx).alias,
        final(tx).timestamp == old(tx).timestamp,
        final(tx).nonce == old(tx).nonce,
        final(tx).token_id == old(tx).token_id,
        final(tx).from_peer_id == old(tx).from_peer_id,
        final(tx).host_id == old(tx).host_id,
{
    if let Some(e) = error {
        tx.error_text = e.message();
        tx.status = STATUS_FAILED;
    }
}


/// The step-by-step checks end in the answer that `send_refusal` gives for the
/// whole request, whatever the lookups find: the same refusal, the same meta
/// contract, and nothing left to ask.
pub proof fn checks_decide_request(
    method: Seq<char>,
    public_key: Seq<char>,
    data: Seq<char>,
    key_type: Seq<char>,
    lookup: Result<Metadata, ServiceError>,
    valid: bool,
)
    ensures
        run_checks(method, public_key, data, key_type, lookup, valid).error
            == send_refusal(method, public_key, key_type, lookup, valid),
        run_checks(method, public_key, data, key_type, lookup, valid).service_id
            == send_service_id(method, public_key, key_type, data),
        run_checks(method, public_key, data, key_type, lookup, valid).stage == SendStage::Done,
{
}

/// A new transaction ends up failed exactly when its request is refused, and
/// pending (awaiting its binding or metadata update) exactly when it is accepted.
pub proof fn refused_exactly_when_failed(
    method: Seq<char>,
    public_key: Seq<char>,
    key_type: Seq<char>,
    lookup: Result<Metadata, ServiceError>,
    valid: bool,
)
    ensures
        (recorded_status(STATUS_PENDING, send_refusal(method, public_key, key_type, lookup, valid))
            == STATUS_FAILED) <==> send_refusal(method, public_key, key_type, lookup, valid) is Some,
        (recorded_status(STATUS_PENDING, send_refusal(method, public_key, key_type, lookup, valid))
            == STATUS_PENDING) <==> send_refusal(method, public_key, key_type, lookup, valid) is None,
{
}

/// A request is accepted exactly when its method is known, its public key has
/// a supported key type, a metadata request's signer owns the record (or no
/// record exists yet), and the signature is valid.
pub proof fn accepted_exactly_when_all_checks_pass(
    method: Seq<char>,
    public_key: Seq<char>,
    key_type: Seq<char>,
    lookup: Result<Metadata, ServiceError>,
    valid: bool,
)
    ensures
        send_refusal(method, public_key, key_type, lookup, valid) is None <==> {
            &&& is_known_method(method)
            &&& is_supported_key_type(key_type)
            &&& method == METHOD_METADATA@ ==> owner_refusal(public_key, lookup) is None
            &&& valid
        },
{
    reveal_strlit("secp256k1");
    reveal_strlit("ed25519");
}


/// The checks keep the request's own public key and key type from start to
/// end: the signature is verified with the key type of the request's public
/// key, whatever the lookups find, and the meta contract named at the start
/// stays named.
pub proof fn checks_keep_key_and_key_type(
    method: Seq<char>,
    public_key: Seq<char>,
    data: Seq<char>,
    key_type: Seq<char>,
    lookup: Result<Metadata, ServiceError>,
    valid: bool,
)
    ensures
        start_spec(method, public_key, data, key_type).key_type == key_type,
        start_spec(method, public_key, data, key_type).public_key == public_key,
        owner_step_spec(start_spec(method, public_key, data, key_type), lookup).key_type == key_type,
        owner_step_spec(start_spec(method, public_key, data, key_type), lookup).public_key == public_key,
        owner_step_spec(start_spec(method, public_key, data, key_type), lookup).service_id
            == start_spec(method, public_key, data, key_type).service_id,
        run_checks(method, public_key, data, key_type, lookup, valid).key_type == key_type,
        run_checks(method, public_key, data, key_type, lookup, valid).public_key == public_key,
{
}

/// Every state that awaits the signature check carries the request's own key
/// type, and a valid signature then ends the checks with no refusal.
pub proof fn awaiting_signature_uses_own_key_type(
    method: Seq<char>,
    public_key: Seq<char>,
    data: Seq<char>,
    key_type: Seq<char>,
    lookup: Result<Metadata, ServiceError>,
)
    ensures
        start_spec(method, public_key, data, key_type).stage == SendStage::AwaitSignature ==> {
            &&& start_spec(method, public_key, data, key_type).key_type == key_type
            &&& start_spec(method, public_key, data, key_type).error is None
            &&& signature_step_spec(start_spec(method, public_key, data, key_type), true).error is None
        },
        ({
            let s = owner_step_spec(start_spec(method, public_key, data, key_type), lookup);
            s.stage == SendStage::AwaitSignature ==> s.key_type == key_type && s.error is None
                && signature_step_spec(s, true).error is None
        }),
{
}

/// A contract request with a known, supported key type goes straight to the
/// signature check, names its data as its meta contract, and is accepted
/// exactly when the signature is valid.
pub proof fn contract_request_awaits_signature(public_key: Seq<char>, data: Seq<char>, key_type: Seq<char>, valid: bool)
    requires
        key_type == "ed25519"@ || key_type == "secp256k1"@,
    ensures
        start_spec("contract"@, public_key, data, key_type).stage == SendStage::AwaitSignature,
        start_spec("contract"@, public_key, data, key_type).key_type == key_type,
        start_spec("contract"@, public_key, data, key_type).service_id == data,
        signature_step_spec(start_spec("contract"@, public_key, data, key_type), valid).error is None <==> valid,
{
    reveal_strlit("contract");
    reveal_strlit("metadata");
    reveal_strlit("ed25519");
    reveal_strlit("secp256k1");
    assert("contract"@[0] != "metadata"@[0]);
}

/// A metadata lookup that finds a record lets the request through exactly
/// when the record's public key is the signer's; any other key is refused as
/// not the owner, with the signer's key in the text.
pub proof fn only_the_record_owner_passes(public_key: Seq<char>, m: Metadata)
    ensures
        owner_refusal(public_key, Ok(m)) is None <==> m.public_key@ == public_key,
        m.public_key@ != public_key ==> owner_refusal(public_key, Ok(m)) == Some(
            ErrorView::InvalidOwner("not owner of data_key: "@ + public_key),
        ),
{
}

/// After a metadata request's lookup found someone else's record, the checks
/// end refused as not the owner, whatever the signature.
pub proof fn foreign_record_refuses_request(
    public_key: Seq<char>,
    data: Seq<char>,
    key_type: Seq<char>,
    m: Metadata,
    valid: bool,
)
    requires
        key_type.len() > 0,
        m.public_key@ != public_key,
    ensures
        owner_step_spec(start_spec("metadata"@, public_key, data, key_type), Ok(m)).stage == SendStage::Done,
        run_checks("metadata"@, public_key, data, key_type, Ok(m), valid).error == Some(
            ErrorView::InvalidOwner("not owner of data_key: "@ + public_key),
        ),
{
    reveal_strlit("contract");
    reveal_strlit("metadata");
    assert("contract"@[0] != "metadata"@[0]);
}

/// The refusals of the separate checks, stated on their inputs: a missing key
/// type refuses with the public key; a known method with a key type passes the
/// first checks; an unknown one is refused with its name; only the two
/// signature schemes pass the key-type check; and a signature check refuses
/// exactly an invalid signature.
pub proof fn separate_checks(method: Seq<char>, public_key: Seq<char>, key_type: Seq<char>, valid: bool)
    ensures
        key_type.len() == 0 ==> early_refusal(method, public_key, key_type) == Some(
            ErrorView::InvalidEncryption(public_key),
        ),
        key_type.len() > 0 ==> (early_refusal(method, public_key, key_type) is None <==> (method == "contract"@
            || method == "metadata"@)),
        key_type.len() > 0 && method != "contract"@ && method != "metadata"@ ==> early_refusal(
            method,
            public_key,
            key_type,
        ) == Some(ErrorView::InvalidMethod("invalid method: "@ + method)),
        key_type_refusal(key_type) is None <==> (key_type == "secp256k1"@ || key_type == "ed25519"@),
        key_type.len() > 0 && key_type != "secp256k1"@ && key_type != "ed25519"@ ==> key_type_refusal(key_type)
            == Some(ErrorView::NotSupportedEncryptionType(key_type)),
        valid ==> signature_refusal(public_key, valid) is None,
        !valid ==> signature_refusal(public_key, valid) == Some(
            ErrorView::InvalidSignature("not owner of data_key: "@ + public_key),
        ),
{
    reveal_strlit("secp256k1");
    reveal_strlit("ed25519");
}


/// Only a contract request that passes the first checks names a meta
/// contract (its data); a metadata request, or a request refused at once,
/// names none.
pub proof fn only_contract_requests_name_a_contract(
    method: Seq<char>,
    public_key: Seq<char>,
    data: Seq<char>,
    key_type: Seq<char>,
)
    ensures
        method == "metadata"@ ==> start_spec(method, public_key, data, key_type).service_id.len() == 0,
        key_type.len() == 0 ==> start_spec(method, public_key, data, key_type).service_id.len() == 0,
        method == "contract"@ && key_type.len() > 0 ==> start_spec(method, public_key, data, key_type).service_id
            == data,
        method == "metadata"@ && key_type.len() > 0 ==> start_spec(method, public_key, data, key_type).stage
            == SendStage::AwaitOwner,
{
    reveal_strlit("contract");
    reveal_strlit("metadata");
    assert("contract"@[0] != "metadata"@[0]);
}

} // verus!
