use vstd::prelude::*;

use crate::defaults::{STATUS_FAILED, STATUS_SUCCESS};
use crate::error::{ServiceError, error_text};
use crate::records::{FinalMetadata, Metadata, Transaction, TransactionSubset};

verus! {

/// The status and error text that a metadata update gives its transaction.
#[derive(Debug)]
pub struct MetadataOutcome {
    pub status: i64,
    pub error_text: String,
}

/// A `MetadataOutcome` taken as plain values.
pub struct OutcomeView {
    pub status: i64,
    pub error_text: Seq<char>,
}

impl View for MetadataOutcome {
    type V = OutcomeView;

    open spec fn view(&self) -> OutcomeView {
        OutcomeView { status: self.status, error_text: self.error_text@ }
    }
}

/// The text recorded when a meta contract refuses an update without saying why.
pub open spec fn not_updateable_text() -> Seq<char> {
    "Metadata not updateable"@
}

/// Where an update starts: a refused update fails with the meta contract's
/// message (or a default one); an accepted one keeps the transaction's state.
pub open spec fn begin_spec(tx: Transaction, accepted: bool, final_error_msg: Seq<char>) -> OutcomeView {
    if accepted {
        OutcomeView { status: tx.status, error_text: tx.error_text@ }
    } else {
        OutcomeView {
            status: STATUS_FAILED,
            error_text: if final_error_msg.len() == 0 { not_updateable_text() } else { final_error_msg },
        }
    }
}

/// True when a metadata lookup failed for a reason other than a missing record.
pub open spec fn lookup_refused(lookup: Result<Metadata, ServiceError>) -> bool {
    lookup matches Err(e) && !(e@ is RecordNotFound)
}

/// The outcome after one entry whose metadata lookup found `lookup`.
pub open spec fn step_spec(o: OutcomeView, lookup: Result<Metadata, ServiceError>) -> OutcomeView {
    match lookup {
        Err(e) => if e@ is RecordNotFound {
            OutcomeView { status: STATUS_SUCCESS, ..o }
        } else {
            OutcomeView { status: STATUS_FAILED, error_text: error_text(e@) }
        },
        Ok(_) => OutcomeView { status: STATUS_SUCCESS, ..o },
    }
}

/// The outcome after entries whose lookups found `lookups`, in order.
pub open spec fn fold_outcome(o: OutcomeView, lookups: Seq<Result<Metadata, ServiceError>>) -> OutcomeView
    decreases lookups.len(),
{
    if lookups.len() == 0 {
        o
    } else {
        step_spec(fold_outcome(o, lookups.drop_last()), lookups.last())
    }
}

/// The text of the last refused lookup among `lookups`, if any was refused.
pub open spec fn last_refusal_text(lookups: Seq<Result<Metadata, ServiceError>>) -> Option<Seq<char>>
    decreases lookups.len(),
{
    if lookups.len() == 0 {
        None
    } else {
        match lookups.last() {
            Err(e) => if e@ is RecordNotFound {
                last_refusal_text(lookups.drop_last())
            } else {
                Some(error_text(e@))
            },
            Ok(_) => last_refusal_text(lookups.drop_last()),
        }
    }
}

/// What to do with one accepted metadata entry.
#[derive(Debug)]
pub enum ItemAction {
    /// Store the content as a new block after `previous_cid`, then point the
    /// record of (`data_key`, `public_key`) at the new block.
    Append {
        content: String,
        previous_cid: String,
        subset: TransactionSubset,
        data_key: String,
        public_key: String,
    },
    /// Store the content as a first block, then write a new record of
    /// (`data_key`, `alias`, `public_key`) that points at it.
    Create {
        content: String,
        subset: TransactionSubset,
        data_key: String,
        alias: String,
        public_key: String,
    },
    /// Store nothing: the lookup failed.
    Skip,
}

/// An `ItemAction` taken as plain values; the transaction part is given as
/// (hash, timestamp, meta contract).
pub enum ItemActionView {
    Append {
        content: Seq<char>,
        previous_cid: Seq<char>,
        subset: (Seq<char>, u64, Seq<char>),
        data_key: Seq<char>,
        public_key: Seq<char>,
    },
    Create {
        content: Seq<char>,
        subset: (Seq<char>, u64, Seq<char>),
        data_key: Seq<char>,
        alias: Seq<char>,
        public_key: Seq<char>,
    },
    Skip,
}

/// The plain values of a transaction subset.
pub open spec fn subset_view(s: TransactionSubset) -> (Seq<char>, u64, Seq<char>) {
    (s.hash@, s.timestamp, s.meta_contract_id@)
}

impl View for ItemAction {
    type V = ItemActionView;

    open spec fn view(&self) -> ItemActionView {
        match self {
            ItemAction::Append { content, previous_cid, subset, data_key, public_key } => ItemActionView::Append {
                content: content@,
                previous_cid: previous_cid@,
                subset: subset_view(*subset),
                data_key: data_key@,
                public_key: public_key@,
            },
            ItemAction::Create { content, subset, data_key, alias, public_key } => ItemActionView::Create {
                content: content@,
                subset: subset_view(*subset),
                data_key: data_key@,
                alias: alias@,
                public_key: public_key@,
            },
            ItemAction::Skip => ItemActionView::Skip,
        }
    }
}

/// What to do with `item`, an entry of transaction `tx` accepted by meta
/// contract `meta_contract_id`, when the lookup of its record found `lookup`:
/// an existing record gets a new block chained after its current one, a
/// missing record is created with a first block.
pub open spec fn item_plan(
    tx: Transaction,
    meta_contract_id: Seq<char>,
    item: FinalMetadata,
    lookup: Result<Metadata, ServiceError>,
) -> ItemActionView {
    let subset = (tx.hash@, tx.timestamp, meta_contract_id);
    match lookup {
        Ok(m) => ItemActionView::Append {
            content: item.content@,
            previous_cid: m.cid@,
            subset,
            data_key: m.data_key@,
            public_key: m.public_key@,
        },
        Err(e) => if e@ is RecordNotFound {
            ItemActionView::Create {
                content: item.content@,
                subset,
                data_key: tx.data_key@,
                alias: item.alias@,
                public_key: item.public_key@,
            }
        } else {
            ItemActionView::Skip
        },
    }
}

fn transaction_subset(tx: &Transaction, meta_contract_id: &String) -> (r: TransactionSubset)
    ensures
        subset_view(r) == (tx.hash@, tx.timestamp, meta_contract_id@),
{
    TransactionSubset {
        hash: tx.hash.clone(),
        timestamp: tx.timestamp,
        meta_contract_id: meta_contract_id.clone(),
    }
}

impl MetadataOutcome {
    /// Begins the update of transaction `tx`, which the meta contract
    /// accepted or refused with `final_error_msg`.
    pub fn begin(tx: &Transaction, accepted: bool, final_error_msg: String) -> (r: MetadataOutcome)
        ensures
            r@ == begin_spec(*tx, accepted, final_error_msg@),
    {
        if accepted {
            MetadataOutcome { status: tx.status, error_text: tx.error_text.clone() }
        } else {
            let error_text = if final_error_msg.as_str().is_empty() {
                String::from_str("Metadata not updateable")
            } else {
                final_error_msg
            };
            MetadataOutcome { status: STATUS_FAILED, error_text }
        }
    }

    /// Takes in one accepted entry whose record lookup found `lookup`, and
    /// says what to store for it.
    pub fn step(
        &mut self,
        tx: &Transaction,
        meta_contract_id: &String,
        item: FinalMetadata,
        lookup: Result<Metadata, ServiceError>,
    ) -> (r: ItemAction)
        ensures
            final(self)@ == step_spec(old(self)@, lookup),
            r@ == item_plan(*tx, meta_contract_id@, item, lookup),
    {
        match lookup {
            Ok(metadata) => {
                self.status = STATUS_SUCCESS;
                let subset = transaction_subset(tx, meta_contract_id);
                ItemAction::Append {
                    content: item.content,
                    previous_cid: metadata.cid,
                    subset,
                    data_key: metadata.data_key,
                    public_key: metadata.public_key,
                }
            },
            Err(e) => {
                if e.is_not_found() {
                    self.status = STATUS_SUCCESS;
                    let subset = transaction_subset(tx, meta_contract_id);
                    ItemAction::Create {
                        content: item.content,
                        subset,
                        data_key: tx.data_key.clone(),
                        alias: item.alias,
                        public_key: item.public_key,
                    }
                } else {
                    self.error_text = e.message();
                    self.status = STATUS_FAILED;
                    ItemAction::Skip
                }
            },
        }
    }
}

/// After an accepted update with at least one entry, the transaction's status
/// is that of the last entry alone (failed exactly when its lookup was
/// refused), and its error text is that of the last refused lookup, or the
/// one it had before when no lookup was refused.
pub proof fn last_entry_decides_status(o: OutcomeView, lookups: Seq<Result<Metadata, ServiceError>>)
    ensures
        lookups.len() > 0 ==> fold_outcome(o, lookups).status == (if lookup_refused(lookups.last()) {
            STATUS_FAILED
        } else {
            STATUS_SUCCESS
        }),
        lookups.len() == 0 ==> fold_outcome(o, lookups) == o,
        fold_outcome(o, lookups).error_text == (match last_refusal_text(lookups) {
            Some(t) => t,
            None => o.error_text,
        }),
    decreases lookups.len(),
{
    if lookups.len() > 0 {
        last_entry_decides_status(o, lookups.drop_last());
    }
}


/// Every block planned for an entry carries the entry's content and the
/// transaction's own hash and timestamp, with the meta contract that accepted
/// it; an existing record gets its block chained after the record's current
/// block and keeps its keys; a missing record is created under the
/// transaction's data key with the entry's alias and public key; a failed
/// lookup stores nothing.
pub proof fn planned_blocks_belong_to_transaction(
    tx: Transaction,
    meta_contract_id: Seq<char>,
    item: FinalMetadata,
    lookup: Result<Metadata, ServiceError>,
)
    ensures
        (match item_plan(tx, meta_contract_id, item, lookup) {
            ItemActionView::Append { content, previous_cid, subset, data_key, public_key } => {
                &&& lookup matches Ok(m) && previous_cid == m.cid@ && data_key == m.data_key@
                    && public_key == m.public_key@
                &&& content == item.content@
                &&& subset == (tx.hash@, tx.timestamp, meta_contract_id)
            },
            ItemActionView::Create { content, subset, data_key, alias, public_key } => {
                &&& lookup matches Err(e) && e@ is RecordNotFound
                &&& content == item.content@
                &&& subset == (tx.hash@, tx.timestamp, meta_contract_id)
                &&& data_key == tx.data_key@
                &&& alias == item.alias@
                &&& public_key == item.public_key@
            },
            ItemActionView::Skip => lookup_refused(lookup),
        }),
        lookup is Ok ==> item_plan(tx, meta_contract_id, item, lookup) is Append,
        (lookup matches Err(e) && e@ is RecordNotFound) ==> item_plan(tx, meta_contract_id, item, lookup) is Create,
{
}

/// One entry settles the status: successful when its lookup found the record
/// or no record, failed with the lookup's error text otherwise; a successful
/// entry leaves the error text as it was.
pub proof fn entry_settles_status(o: OutcomeView, lookup: Result<Metadata, ServiceError>)
    ensures
        !lookup_refused(lookup) ==> step_spec(o, lookup).status == STATUS_SUCCESS
            && step_spec(o, lookup).error_text == o.error_text,
        (match lookup {
            Err(e) => !(e@ is RecordNotFound) ==> step_spec(o, lookup).status == STATUS_FAILED
                && step_spec(o, lookup).error_text == error_text(e@),
            Ok(_) => true,
        }),
{
}

/// An update the meta contract refused fails with the contract's message, or
/// "Metadata not updateable" when it gave none; an accepted one starts from
/// the transaction's own status and error text.
pub proof fn update_begins_by_verdict(tx: Transaction, accepted: bool, final_error_msg: Seq<char>)
    ensures
        !accepted ==> begin_spec(tx, accepted, final_error_msg).status == STATUS_FAILED,
        !accepted && final_error_msg.len() > 0 ==> begin_spec(tx, accepted, final_error_msg).error_text
            == final_error_msg,
        !accepted && final_error_msg.len() == 0 ==> begin_spec(tx, accepted, final_error_msg).error_text
            == "Metadata not updateable"@,
        accepted ==> begin_spec(tx, accepted, final_error_msg).status == tx.status
            && begin_spec(tx, accepted, final_error_msg).error_text == tx.error_text@,
{
}

} // verus!
