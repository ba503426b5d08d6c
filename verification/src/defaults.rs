use vstd::prelude::*;

verus! {

/// Status of a transaction that has been recorded but not yet settled.
pub const STATUS_PENDING: i64 = 0;
/// Status of a transaction whose effect has been applied.
pub const STATUS_SUCCESS: i64 = 1;
/// Status of a transaction that was refused or whose effect failed.
pub const STATUS_FAILED: i64 = 2;

/// Method name of a request that binds a meta contract.
pub const METHOD_CONTRACT: &'static str = "contract";
/// Method name of a request that updates metadata.
pub const METHOD_METADATA: &'static str = "metadata";
/// Method name reserved for cloning requests.
pub const METHOD_CLONE: &'static str = "clone";

/// Key type reported for secp256k1 public keys.
pub const ENCRYPTION_TYPE_SECP256K1: &'static str = "secp256k1";
/// Key type reported for ed25519 public keys.
pub const ENCRYPTION_TYPE_ED25519: &'static str = "ed25519";

/// True when `method` names one of the request methods the service accepts.
pub open spec fn is_known_method(method: Seq<char>) -> bool {
    method == METHOD_CONTRACT@ || method == METHOD_METADATA@
}

/// Tells whether `method` is one of the accepted request methods.
pub fn known_method(method: &String) -> (r: bool)
    ensures
        r == is_known_method(method@),
{
    let contract = METHOD_CONTRACT.to_owned();
    let metadata = METHOD_METADATA.to_owned();
    *method == contract || *method == metadata
}

} // verus!
