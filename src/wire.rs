//! The wire messages of the consensus service's topic creation, one Rust type per message.
use vstd::prelude::*;

verus! {

/// `proto.Key`: one case of the key oneof.
#[derive(Debug, Clone, PartialEq, Eq)]
pub enum ProtoKeyKind {
    Ed25519(Vec<u8>),
    EcdsaSecp256k1(Vec<u8>),
}

/// `proto.Key`.
#[derive(Debug, Clone, PartialEq, Eq)]
pub struct ProtoKey {
    pub key: Option<ProtoKeyKind>,
}

/// `proto.Duration`: a whole number of seconds.
#[derive(Debug, Clone, Copy, PartialEq, Eq, Structural)]
pub struct ProtoDuration {
    pub seconds: i64,
}

/// `proto.AccountID`, in its numbered form.
#[derive(Debug, Clone, Copy, PartialEq, Eq, Structural)]
pub struct ProtoAccountId {
    pub shard_num: u64,
    pub realm_num: u64,
    pub account_num: Option<u64>,
}

/// `proto.Timestamp`.
#[derive(Debug, Clone, Copy, PartialEq, Eq, Structural)]
pub struct ProtoTimestamp {
    pub seconds: i64,
    pub nanos: i32,
}

/// `proto.TransactionID`.
#[derive(Debug, Clone, Copy, PartialEq, Eq, Structural)]
pub struct ProtoTransactionId {
    pub transaction_valid_start: Option<ProtoTimestamp>,
    pub account_id: Option<ProtoAccountId>,
}

/// `proto.ConsensusCreateTopicTransactionBody`.
#[derive(Debug, Clone, PartialEq, Eq)]
pub struct ConsensusCreateTopicTransactionBody {
    pub memo: String,
    pub admin_key: Option<ProtoKey>,
    pub submit_key: Option<ProtoKey>,
    pub auto_renew_period: Option<ProtoDuration>,
    pub auto_renew_account: Option<ProtoAccountId>,
}

/// The `data` oneof of `proto.TransactionBody`.
#[derive(Debug, Clone, PartialEq, Eq)]
pub enum TransactionBodyData {
    ConsensusCreateTopic(ConsensusCreateTopicTransactionBody),
}

/// The `data` oneof of `proto.SchedulableTransactionBody`.
#[derive(Debug, Clone, PartialEq, Eq)]
pub enum SchedulableTransactionBodyData {
    ConsensusCreateTopic(ConsensusCreateTopicTransactionBody),
}

/// `proto.TransactionBody`.
#[derive(Debug, Clone, PartialEq, Eq)]
pub struct TransactionBody {
    pub transaction_id: Option<ProtoTransactionId>,
    pub data: Option<TransactionBodyData>,
}

} // verus!
