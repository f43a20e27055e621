use vstd::prelude::*;

verus! {

/// Failures that callers are expected to branch on.
#[derive(Debug, Clone, PartialEq, Eq, Structural)]
pub enum Error {
    /// A wire message held a key whose encoding is not a valid public key.
    KeyParse,
    /// A wire message lacked a field that must be present, or carried an unknown case.
    FromProtobuf,
    /// An entity identifier's checksum was made for another network.
    BadEntityId { shard: u64, realm: u64, num: u64 },
    /// A transaction was frozen before its transaction identifier was set.
    FreezeUnsetTransactionId,
    /// A transaction was asked to do what only a frozen transaction may do.
    NotFrozen,
}

} // verus!
