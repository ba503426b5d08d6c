use vstd::prelude::*;

use crate::defaults::STATUS_PENDING;

verus! {

/// A request recorded by the service, with its outcome.
#[derive(Debug)]
pub struct Transaction {
    pub hash: String,
    pub method: String,
    pub meta_contract_id: String,
    pub data_key: String,
    pub token_key: String,
    pub data: String,
    pub public_key: String,
    pub alias: String,
    pub timestamp: u64,
    pub nonce: i64,
    pub token_id: String,
    pub from_peer_id: String,
    pub host_id: String,
    pub status: i64,
    pub error_text: String,
}

/// The content address of the metadata that one public key keeps under one data key.
#[derive(Debug)]
pub struct Metadata {
    pub data_key: String,
    pub alias: String,
    pub cid: String,
    pub public_key: String,
}

/// The binding of a token to the meta contract that validates its metadata.
#[derive(Debug)]
pub struct MetaContract {
    pub token_key: String,
    pub meta_contract_id: String,
    pub public_key: String,
}

/// One metadata entry that a meta contract accepted, with its new content.
#[derive(Debug)]
pub struct FinalMetadata {
    pub public_key: String,
    pub alias: String,
    pub content: String,
}

/// The part of a transaction that is stored next to each metadata block.
#[derive(Debug)]
pub struct TransactionSubset {
    pub hash: String,
    pub timestamp: u64,
    pub meta_contract_id: String,
}

impl Transaction {
    /// True when every text field is empty and every number is zero.
    pub open spec fn is_blank(self) -> bool {
        &&& self.hash@.len() == 0
        &&& self.method@.len() == 0
        &&& self.meta_contract_id@.len() == 0
        &&& self.data_key@.len() == 0
        &&& self.token_key@.len() == 0
        &&& self.data@.len() == 0
        &&& self.public_key@.len() == 0
        &&& self.alias@.len() == 0
        &&& self.timestamp == 0
        &&& self.nonce == 0
        &&& self.token_id@.len() == 0
        &&& self.from_peer_id@.len() == 0
        &&& self.host_id@.len() == 0
        &&& self.status == 0
        &&& self.error_text@.len() == 0
    }

    /// A new pending transaction with the given fields and no error.
    pub fn new(
        hash: String,
        token_key: String,
        from_peer_id: String,
        host_id: String,
        data_key: String,
        nonce: i64,
        data: String,
        public_key: String,
        alias: String,
        timestamp: u64,
        meta_contract_id: String,
        method: String,
        token_id: String,
    ) -> (r: Transaction)
        ensures
            r.hash == hash,
            r.token_key == token_key,
            r.from_peer_id == from_peer_id,
            r.host_id == host_id,
            r.data_key == data_key,
            r.nonce == nonce,
            r.data == data,
            r.public_key == public_key,
            r.alias == alias,
            r.timestamp == timestamp,
            r.meta_contract_id == meta_contract_id,
            r.method == method,
            r.token_id == token_id,
            r.status == STATUS_PENDING,
            r.error_text@.len() == 0,
    {
        Transaction {
            hash,
            method,
            meta_contract_id,
            data_key,
            token_key,
            data,
            public_key,
            alias,
            timestamp,
            nonce,
            token_id,
            from_peer_id,
            host_id,
            status: STATUS_PENDING,
            error_text: String::new(),
        }
    }
}

impl Default for Transaction {
    fn default() -> (r: Transaction)
        ensures
            r.is_blank(),
    {
        Transaction {
            hash: String::new(),
            method: String::new(),
            meta_contract_id: String::new(),
            data_key: String::new(),
            token_key: String::new(),
            data: String::new(),
            public_key: String::new(),
            alias: String::new(),
            timestamp: 0,
            nonce: 0,
            token_id: String::new(),
            from_peer_id: String::new(),
            host_id: String::new(),
            status: 0,
            error_text: String::new(),
        }
    }
}

impl Metadata {
    /// True when every field is empty.
    pub open spec fn is_blank(self) -> bool {
        &&& self.data_key@.len() == 0
        &&& self.alias@.len() == 0
        &&& self.cid@.len() == 0
        &&& self.public_key@.len() == 0
    }

    /// A metadata record with the given fields.
    pub fn new(data_key: String, alias: String, cid: String, public_key: String) -> (r: Metadata)
        ensures
            r.data_key == data_key,
            r.alias == alias,
            r.cid == cid,
            r.public_key == public_key,
    {
        Metadata { data_key, alias, cid, public_key }
    }
}

impl Default for Metadata {
    fn default() -> (r: Metadata)
        ensures
            r.is_blank(),
    {
        Metadata {
            data_key: String::new(),
            alias: String::new(),
            cid: String::new(),
            public_key: String::new(),
        }
    }
}

impl MetaContract {
    /// True when every field is empty.
    pub open spec fn is_blank(self) -> bool {
        &&& self.token_key@.len() == 0
        &&& self.meta_contract_id@.len() == 0
        &&& self.public_key@.len() == 0
    }
}

impl Default for MetaContract {
    fn default() -> (r: MetaContract)
        ensures
            r.is_blank(),
    {
        MetaContract {
            token_key: String::new(),
            meta_contract_id: String::new(),
            public_key: String::new(),
        }
    }
}

} // verus!
