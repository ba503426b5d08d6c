use vstd::prelude::*;

use crate::error::{ServiceError, error_text};
use crate::records::{MetaContract, Metadata, Transaction};

verus! {

/// The error text that a result record carries for `result`: empty on success.
pub open spec fn outcome_text<T>(result: Result<T, ServiceError>) -> Seq<char> {
    match result {
        Ok(_) => Seq::empty(),
        Err(e) => error_text(e@),
    }
}

/// Runs `func` once and hands back what it returned.
pub fn wrapped_try<F, T>(func: F) -> (r: T) where F: FnOnce() -> T
    requires
        func.requires(()),
    ensures
        func.ensures((), r),
{
    func()
}

/// The answer to a request that recorded a transaction.
#[derive(Debug)]
pub struct FdbResult {
    pub transaction_hash: String,
}

/// A point in time, in milliseconds.
#[derive(Debug)]
pub struct FdbClock {
    pub timestamp: i64,
}

/// The answer to a lookup of one transaction.
#[derive(Debug)]
pub struct FdbTransactionResult {
    pub success: bool,
    pub err_msg: String,
    pub transaction: Transaction,
}

impl FdbTransactionResult {
    /// The answer for a lookup that found `result`.
    pub fn from(result: Result<Transaction, ServiceError>) -> (r: Self)
        ensures
            r.success == result is Ok,
            r.err_msg@ == outcome_text(result),
            (match result {
                Ok(t) => r.transaction == t,
                Err(_) => r.transaction.is_blank(),
            }),
    {
        match result {
            Ok(transaction) => FdbTransactionResult {
                success: true,
                err_msg: String::new(),
                transaction,
            },
            Err(err) => FdbTransactionResult {
                success: false,
                err_msg: err.message(),
                transaction: Transaction::default(),
            },
        }
    }
}

/// The answer to a lookup of several transactions.
#[derive(Debug)]
pub struct FdbTransactionsResult {
    pub success: bool,
    pub err_msg: String,
    pub transactions: Vec<Transaction>,
}

impl FdbTransactionsResult {
    /// The answer for a lookup that found `result`.
    pub fn from(result: Result<Vec<Transaction>, ServiceError>) -> (r: Self)
        ensures
            r.success == result is Ok,
            r.err_msg@ == outcome_text(result),
            (match result {
                Ok(ts) => r.transactions@ == ts@,
                Err(_) => r.transactions@.len() == 0,
            }),
    {
        match result {
            Ok(transactions) => FdbTransactionsResult {
                success: true,
                err_msg: String::new(),
                transactions,
            },
            Err(err) => FdbTransactionsResult {
                success: false,
                err_msg: err.message(),
                transactions: Vec::new(),
            },
        }
    }
}

/// The answer to a lookup of one metadata record.
#[derive(Debug)]
pub struct FdbMetadataResult {
    pub success: bool,
    pub err_msg: String,
    pub metadata: Metadata,
}

impl FdbMetadataResult {
    /// The answer for a lookup that found `result`.
    pub fn from(result: Result<Metadata, ServiceError>) -> (r: Self)
        ensures
            r.success == result is Ok,
            r.err_msg@ == outcome_text(result),
            (match result {
                Ok(m) => r.metadata == m,
                Err(_) => r.metadata.is_blank(),
            }),
    {
        match result {
            Ok(metadata) => FdbMetadataResult { success: true, err_msg: String::new(), metadata },
            Err(err) => FdbMetadataResult {
                success: false,
                err_msg: err.message(),
                metadata: Metadata::default(),
            },
        }
    }
}

/// The answer to a lookup of several metadata records.
#[derive(Debug)]
pub struct FdbMetadatasResult {
    pub success: bool,
    pub err_msg: String,
    pub metadatas: Vec<Metadata>,
}

impl FdbMetadatasResult {
    /// The answer for a lookup that found `result`.
    pub fn from(result: Result<Vec<Metadata>, ServiceError>) -> (r: Self)
        ensures
            r.success == result is Ok,
            r.err_msg@ == outcome_text(result),
            (match result {
                Ok(ms) => r.metadatas@ == ms@,
                Err(_) => r.metadatas@.len() == 0,
            }),
    {
        match result {
            Ok(metadatas) => FdbMetadatasResult {
                success: true,
                err_msg: String::new(),
                metadatas,
            },
            Err(err) => FdbMetadatasResult {
                success: false,
                err_msg: err.message(),
                metadatas: Vec::new(),
            },
        }
    }
}

/// The answer to a metadata history walk: the current content and the
/// earlier contents, newest first.
#[derive(Debug)]
pub struct FdbMetadataHistoryResult {
    pub success: bool,
    pub err_msg: String,
    pub metadata: String,
    pub history: Vec<String>,
}

impl FdbMetadataHistoryResult {
    /// The answer for a walk that produced `result`; a successful walk holds
    /// at least one content.
    pub fn from(result: Result<Vec<String>, ServiceError>) -> (r: Self)
        requires
            result matches Ok(v) ==> v@.len() > 0,
        ensures
            r.success == result is Ok,
            r.err_msg@ == outcome_text(result),
            (match result {
                Ok(v) => {
                    &&& r.metadata == v@[0]
                    &&& r.history@ == v@.skip(1)
                    &&& seq![r.metadata] + r.history@ == v@
                },
                Err(_) => r.metadata@ == "{}"@ && r.history@.len() == 0,
            }),
    {
        match result {
            Ok(entries) => {
                let first = entries[0].clone();
                let mut history: Vec<String> = Vec::new();
                let n = entries.len();
                let mut i: usize = 1;
                while i < n
                    invariant
                        1 <= i <= n,
                        n == entries@.len(),
                        history@ == entries@.subrange(1, i as int),
                    decreases n - i,
                {
                    history.push(entries[i].clone());
                    i = i + 1;
                }
                assert(seq![first] + history@ =~= entries@);
                FdbMetadataHistoryResult {
                    success: true,
                    err_msg: String::new(),
                    metadata: first,
                    history,
                }
            },
            Err(err) => FdbMetadataHistoryResult {
                success: false,
                err_msg: err.message(),
                metadata: String::from_str("{}"),
                history: Vec::new(),
            },
        }
    }
}

/// The answer to a lookup of a token's meta contract.
#[derive(Debug)]
pub struct FdbMetaContractResult {
    pub success: bool,
    pub err_msg: String,
    pub meta: MetaContract,
}

impl FdbMetaContractResult {
    /// The answer for a lookup that found `result`.
    pub fn from(result: Result<MetaContract, ServiceError>) -> (r: Self)
        ensures
            r.success == result is Ok,
            r.err_msg@ == outcome_text(result),
            (match result {
                Ok(m) => r.meta == m,
                Err(_) => r.meta.is_blank(),
            }),
    {
        match result {
            Ok(meta) => FdbMetaContractResult { success: true, err_msg: String::new(), meta },
            Err(err) => FdbMetaContractResult {
                success: false,
                err_msg: err.message(),
                meta: MetaContract::default(),
            },
        }
    }
}

} // verus!
