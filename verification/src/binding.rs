use vstd::prelude::*;

use crate::defaults::{STATUS_FAILED, STATUS_SUCCESS};
use crate::error::{ErrorView, ServiceError, error_opt_view, error_text};
use crate::records::{MetaContract, Transaction};

verus! {

/// What binding a transaction's token to a meta contract comes to.
#[derive(Debug)]
pub enum BindAction {
    /// Nothing is written; the transaction fails with this error.
    Refuse(ServiceError),
    /// The token has no meta contract yet: this binding is written.
    Create(MetaContract),
    /// The token's meta contract is replaced by the given one.
    Rebind { token_key: String, meta_contract_id: String },
}

/// A `BindAction` taken as plain values.
pub enum BindActionView {
    Refuse(ErrorView),
    Create { token_key: Seq<char>, meta_contract_id: Seq<char>, public_key: Seq<char> },
    Rebind { token_key: Seq<char>, meta_contract_id: Seq<char> },
}

impl View for BindAction {
    type V = BindActionView;

    open spec fn view(&self) -> BindActionView {
        match self {
            BindAction::Refuse(e) => BindActionView::Refuse(e@),
            BindAction::Create(c) => BindActionView::Create {
                token_key: c.token_key@,
                meta_contract_id: c.meta_contract_id@,
                public_key: c.public_key@,
            },
            BindAction::Rebind { token_key, meta_contract_id } => BindActionView::Rebind {
                token_key: token_key@,
                meta_contract_id: meta_contract_id@,
            },
        }
    }
}

/// What binding `tx` comes to when the lookup of its token's meta contract
/// found `lookup`: only the current binding's owner may rebind, and to the
/// contract the transaction's data names; an unbound token is bound to the
/// transaction's meta contract on behalf of its signer.
pub open spec fn bind_plan(tx: Transaction, lookup: Result<MetaContract, ServiceError>) -> BindActionView {
    match lookup {
        Ok(contract) => if tx.public_key@ != contract.public_key@ {
            BindActionView::Refuse(ErrorView::InvalidOwner(tx.public_key@))
        } else {
            BindActionView::Rebind { token_key: tx.token_key@, meta_contract_id: tx.data@ }
        },
        Err(e) => if e@ is RecordNotFound {
            BindActionView::Create {
                token_key: tx.token_key@,
                meta_contract_id: tx.meta_contract_id@,
                public_key: tx.public_key@,
            }
        } else {
            BindActionView::Refuse(e@)
        },
    }
}

/// Decides what binding `tx` comes to, given what the lookup of its token's
/// meta contract found.
pub fn plan_binding(tx: &Transaction, lookup: Result<MetaContract, ServiceError>) -> (r: BindAction)
    ensures
        r@ == bind_plan(*tx, lookup),
{
    match lookup {
        Ok(contract) => {
            if tx.public_key != contract.public_key {
                BindAction::Refuse(ServiceError::InvalidOwner(tx.public_key.clone()))
            } else {
                BindAction::Rebind { token_key: tx.token_key.clone(), meta_contract_id: tx.data.clone() }
            }
        },
        Err(e) => {
            if e.is_not_found() {
                BindAction::Create(MetaContract {
                    token_key: tx.token_key.clone(),
                    meta_contract_id: tx.meta_contract_id.clone(),
                    public_key: tx.public_key.clone(),
                })
            } else {
                BindAction::Refuse(e)
            }
        },
    }
}

/// The status and error text that settle a transaction: failed with the
/// error's text, or successful with no text.
pub open spec fn settled(error: Option<ErrorView>) -> (i64, Seq<char>) {
    match error {
        Some(e) => (STATUS_FAILED, error_text(e)),
        None => (STATUS_SUCCESS, Seq::empty()),
    }
}

/// The status and error text that settle a transaction which met `error`.
pub fn settle_status(error: Option<ServiceError>) -> (r: (i64, String))
    ensures
        (r.0, r.1@) == settled(error_opt_view(error)),
{
    match error {
        Some(e) => (STATUS_FAILED, e.message()),
        None => (STATUS_SUCCESS, String::new()),
    }
}

/// The error a binding ends with, given its plan and, for a plan that
/// writes, what the write returned.
pub open spec fn bind_error(plan: BindActionView, write: Result<(), ErrorView>) -> Option<ErrorView> {
    match plan {
        BindActionView::Refuse(e) => Some(e),
        _ => match write {
            Ok(()) => None,
            Err(e) => Some(e),
        },
    }
}

/// Settles a binding whose plan wrote and got `write` back.
pub fn settle_write(write: Result<(), ServiceError>) -> (r: (i64, String))
    ensures
        (r.0, r.1@) == settled(match write {
            Ok(()) => None,
            Err(e) => Some(e@),
        }),
{
    match write {
        Ok(()) => settle_status(None),
        Err(e) => settle_status(Some(e)),
    }
}

/// Only the signer who owns a token's binding can change it: when the
/// binding exists and the transaction's signer is someone else, nothing is
/// written and the transaction fails.
pub proof fn foreign_signer_never_rebinds(tx: Transaction, contract: MetaContract, write: Result<(), ErrorView>)
    requires
        tx.public_key@ != contract.public_key@,
    ensures
        bind_plan(tx, Ok(contract)) is Refuse,
        settled(bind_error(bind_plan(tx, Ok(contract)), write)).0 == STATUS_FAILED,
{
}

/// A binding succeeds exactly when its plan writes and the write succeeds;
/// every other binding fails.
pub proof fn binding_succeeds_exactly_when_written(
    tx: Transaction,
    lookup: Result<MetaContract, ServiceError>,
    write: Result<(), ErrorView>,
)
    ensures
        (settled(bind_error(bind_plan(tx, lookup), write)).0 == STATUS_SUCCESS) <==> (
            !(bind_plan(tx, lookup) is Refuse) && write is Ok),
        settled(bind_error(bind_plan(tx, lookup), write)).0 == STATUS_SUCCESS
            || settled(bind_error(bind_plan(tx, lookup), write)).0 == STATUS_FAILED,
{
}


/// When the signer owns the token's existing binding, the binding is replaced
/// by the contract that the transaction's data names, for the same token,
/// whatever contract it had before.
pub proof fn owner_rebinds_to_transaction_data(tx: Transaction, contract: MetaContract)
    requires
        tx.public_key@ == contract.public_key@,
    ensures
        bind_plan(tx, Ok(contract)) == (BindActionView::Rebind {
            token_key: tx.token_key@,
            meta_contract_id: tx.data@,
        }),
{
}

/// A token with no binding is bound to the transaction's meta contract, for
/// the transaction's token and on behalf of its signer; any other failed
/// lookup refuses the binding with that lookup's error; and a foreign signer
/// is refused with its own public key.
pub proof fn binding_plan_by_lookup(tx: Transaction, contract: MetaContract, e: ServiceError)
    ensures
        e@ is RecordNotFound ==> bind_plan(tx, Err(e)) == (BindActionView::Create {
            token_key: tx.token_key@,
            meta_contract_id: tx.meta_contract_id@,
            public_key: tx.public_key@,
        }),
        !(e@ is RecordNotFound) ==> bind_plan(tx, Err(e)) == BindActionView::Refuse(e@),
        tx.public_key@ != contract.public_key@ ==> bind_plan(tx, Ok(contract)) == BindActionView::Refuse(
            ErrorView::InvalidOwner(tx.public_key@),
        ),
{
}

/// Settling a transaction: an error fails it with that error's text; no error
/// makes it successful with an empty text.
pub proof fn settling_fails_exactly_on_error(error: Option<ErrorView>)
    ensures
        error is None ==> settled(error).0 == STATUS_SUCCESS && settled(error).1.len() == 0,
        error matches Some(e) ==> settled(error).0 == STATUS_FAILED && settled(error).1 == error_text(e),
{
}

} // verus!
