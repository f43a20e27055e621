//! Identifiers and value types, with their own wire encodings.
use vstd::prelude::*;

use crate::error::Error;
use crate::transaction::{transaction_id_view, TransactionIdView};
use crate::wire::{ProtoAccountId, ProtoDuration, ProtoKey, ProtoKeyKind, ProtoTimestamp, ProtoTransactionId};

verus! {

/// Returns a copy of `v` that holds the same bytes.
pub fn copy_bytes(v: &Vec<u8>) -> (r: Vec<u8>)
    ensures
        r@ == v@,
{
    let mut r: Vec<u8> = Vec::new();
    let mut i: usize = 0;
    while i < v.len()
        invariant
            i <= v.len(),
            r@ == v@.subrange(0, i as int),
        decreases v.len() - i,
    {
        r.push(v[i]);
        i = i + 1;
        assert(r@ =~= v@.subrange(0, i as int));
    }
    assert(r@ =~= v@);
    r
}

/// Whether two byte vectors hold the same bytes.
pub fn bytes_equal(a: &Vec<u8>, b: &Vec<u8>) -> (r: bool)
    ensures
        r == (a@ == b@),
{
    if a.len() != b.len() {
        return false;
    }
    let mut i: usize = 0;
    while i < a.len()
        invariant
            i <= a.len(),
            a.len() == b.len(),
            forall|j: int| 0 <= j < i ==> a@[j] == b@[j],
        decreases a.len() - i,
    {
        if a[i] != b[i] {
            return false;
        }
        i = i + 1;
    }
    assert(a@ =~= b@);
    true
}

/// The identity of one deployed network (mainnet, testnet, previewnet or another).
#[derive(Debug, Clone, PartialEq, Eq)]
pub struct LedgerId {
    pub bytes: Vec<u8>,
}

impl View for LedgerId {
    type V = Seq<u8>;

    open spec fn view(&self) -> Seq<u8> {
        self.bytes@
    }
}

impl LedgerId {
    pub fn from_bytes(bytes: Vec<u8>) -> (r: LedgerId)
        ensures
            r@ == bytes@,
    {
        LedgerId { bytes }
    }

    pub fn mainnet() -> (r: LedgerId)
        ensures
            r@ == seq![0u8],
    {
        LedgerId { bytes: vec![0u8] }
    }

    pub fn testnet() -> (r: LedgerId)
        ensures
            r@ == seq![1u8],
    {
        LedgerId { bytes: vec![1u8] }
    }

    pub fn previewnet() -> (r: LedgerId)
        ensures
            r@ == seq![2u8],
    {
        LedgerId { bytes: vec![2u8] }
    }

    pub fn same_as(&self, other: &LedgerId) -> (r: bool)
        ensures
            r == (self@ == other@),
    {
        bytes_equal(&self.bytes, &other.bytes)
    }

    pub fn duplicate(&self) -> (r: LedgerId)
        ensures
            r@ == self@,
    {
        LedgerId { bytes: copy_bytes(&self.bytes) }
    }
}

/// A span of time, held as a whole number of seconds, which is what the wire carries.
#[derive(Debug, Clone, Copy, PartialEq, Eq, Structural)]
pub struct Duration {
    pub seconds: i64,
}

pub const SECONDS_PER_DAY: i64 = 86400;

impl Duration {
    pub fn seconds(seconds: i64) -> (r: Duration)
        ensures
            r.seconds == seconds,
    {
        Duration { seconds }
    }

    /// A span of `days` days; `days * 86400` must fit in an `i64`.
    pub fn days(days: i64) -> (r: Duration)
        requires
            i64::MIN <= days * SECONDS_PER_DAY <= i64::MAX,
        ensures
            r.seconds == days * SECONDS_PER_DAY,
    {
        Duration { seconds: days * SECONDS_PER_DAY }
    }

    pub fn whole_seconds(&self) -> (r: i64)
        ensures
            r == self.seconds,
    {
        self.seconds
    }

    pub fn to_protobuf(&self) -> (r: ProtoDuration)
        ensures
            r.seconds == self.seconds,
    {
        ProtoDuration { seconds: self.seconds }
    }

    pub fn from_protobuf(pb: ProtoDuration) -> (r: Duration)
        ensures
            r.seconds == pb.seconds,
    {
        Duration { seconds: pb.seconds }
    }
}

/// The signature scheme of a public key.
#[derive(Debug, Clone, Copy, PartialEq, Eq, Structural)]
pub enum KeyAlgorithm {
    Ed25519,
    EcdsaSecp256k1,
}

/// The length of an encoded public key of each scheme.
pub open spec fn key_length(algorithm: KeyAlgorithm) -> nat {
    match algorithm {
        KeyAlgorithm::Ed25519 => 32,
        KeyAlgorithm::EcdsaSecp256k1 => 33,
    }
}

/// A public key, given by its scheme and its encoded bytes.
#[derive(Debug, Clone, PartialEq, Eq)]
pub struct Key {
    algorithm: KeyAlgorithm,
    bytes: Vec<u8>,
}

impl View for Key {
    type V = (KeyAlgorithm, Seq<u8>);

    closed spec fn view(&self) -> (KeyAlgorithm, Seq<u8>) {
        (self.algorithm, self.bytes@)
    }
}

/// A key value whose bytes have the length its scheme asks for.
pub open spec fn key_wf(k: (KeyAlgorithm, Seq<u8>)) -> bool {
    k.1.len() == key_length(k.0)
}

/// What a wire key holds: its scheme and bytes, or nothing when the oneof is empty.
pub open spec fn proto_key_view(pb: ProtoKey) -> Option<(KeyAlgorithm, Seq<u8>)> {
    match pb.key {
        None => None,
        Some(ProtoKeyKind::Ed25519(b)) => Some((KeyAlgorithm::Ed25519, b@)),
        Some(ProtoKeyKind::EcdsaSecp256k1(b)) => Some((KeyAlgorithm::EcdsaSecp256k1, b@)),
    }
}

impl Key {
    pub open spec fn spec_wf(&self) -> bool {
        key_wf(self@)
    }

    /// Builds a key of the given scheme; fails with `KeyParse` when the length is wrong for it.
    pub fn from_bytes(algorithm: KeyAlgorithm, bytes: Vec<u8>) -> (r: Result<Key, Error>)
        ensures
            bytes@.len() == key_length(algorithm) <==> r.is_ok(),
            r matches Ok(k) ==> k@ == (algorithm, bytes@) && k.spec_wf(),
            r.is_err() ==> r == Err::<Key, Error>(Error::KeyParse),
    {
        let want: usize = match algorithm {
            KeyAlgorithm::Ed25519 => 32,
            KeyAlgorithm::EcdsaSecp256k1 => 33,
        };
        if bytes.len() == want {
            Ok(Key { algorithm, bytes })
        } else {
            Err(Error::KeyParse)
        }
    }

    pub fn from_bytes_ed25519(bytes: Vec<u8>) -> (r: Result<Key, Error>)
        ensures
            bytes@.len() == 32 <==> r.is_ok(),
            r matches Ok(k) ==> k@ == (KeyAlgorithm::Ed25519, bytes@) && k.spec_wf(),
            r.is_err() ==> r == Err::<Key, Error>(Error::KeyParse),
    {
        Key::from_bytes(KeyAlgorithm::Ed25519, bytes)
    }

    pub fn algorithm(&self) -> (r: KeyAlgorithm)
        ensures
            r == self@.0,
    {
        self.algorithm
    }

    pub fn to_bytes(&self) -> (r: Vec<u8>)
        ensures
            r@ == self@.1,
    {
        copy_bytes(&self.bytes)
    }

    pub fn duplicate(&self) -> (r: Key)
        ensures
            r@ == self@,
    {
        Key { algorithm: self.algorithm, bytes: copy_bytes(&self.bytes) }
    }

    pub fn to_protobuf(&self) -> (r: ProtoKey)
        ensures
            proto_key_view(r) == Some(self@),
    {
        let b = copy_bytes(&self.bytes);
        match self.algorithm {
            KeyAlgorithm::Ed25519 => ProtoKey { key: Some(ProtoKeyKind::Ed25519(b)) },
            KeyAlgorithm::EcdsaSecp256k1 => ProtoKey { key: Some(ProtoKeyKind::EcdsaSecp256k1(b)) },
        }
    }

    /// Decodes a wire key: an empty oneof is `FromProtobuf`, bytes of the wrong length `KeyParse`.
    pub fn from_protobuf(pb: ProtoKey) -> (r: Result<Key, Error>)
        ensures
            result_view(r) == key_decode_result(proto_key_view(pb)),
            r matches Ok(k) ==> k.spec_wf(),
    {
        match pb.key {
            None => Err(Error::FromProtobuf),
            Some(ProtoKeyKind::Ed25519(b)) => Key::from_bytes(KeyAlgorithm::Ed25519, b),
            Some(ProtoKeyKind::EcdsaSecp256k1(b)) => Key::from_bytes(KeyAlgorithm::EcdsaSecp256k1, b),
        }
    }
}

/// A result with its success value replaced by that value's view.
pub open spec fn result_view<T: View>(r: Result<T, Error>) -> Result<T::V, Error> {
    match r {
        Ok(t) => Ok(t@),
        Err(e) => Err(e),
    }
}

/// What decoding a wire key gives, over its view.
pub open spec fn key_decode_result(v: Option<(KeyAlgorithm, Seq<u8>)>) -> Result<(KeyAlgorithm, Seq<u8>), Error> {
    match v {
        None => Err(Error::FromProtobuf),
        Some(k) => if key_wf(k) {
            Ok(k)
        } else {
            Err(Error::KeyParse)
        },
    }
}

/// The view of an optional network identity.
pub open spec fn ledger_opt_view(l: Option<LedgerId>) -> Option<Seq<u8>> {
    match l {
        None => None,
        Some(l) => Some(l@),
    }
}

/// The identifier of an account: shard, realm and number, and optionally the network that its
/// checksum was made for.
#[derive(Debug, Clone, PartialEq, Eq)]
pub struct AccountId {
    pub shard: u64,
    pub realm: u64,
    pub num: u64,
    pub checksum: Option<LedgerId>,
}

/// What an account identifier holds: shard, realm, number and the checksum's network.
pub struct AccountIdView {
    pub shard: u64,
    pub realm: u64,
    pub num: u64,
    pub checksum: Option<Seq<u8>>,
}

impl View for AccountId {
    type V = AccountIdView;

    open spec fn view(&self) -> AccountIdView {
        AccountIdView {
            shard: self.shard,
            realm: self.realm,
            num: self.num,
            checksum: ledger_opt_view(self.checksum),
        }
    }
}

/// The wire form of an account identifier; the checksum is not carried.
pub open spec fn account_to_wire(a: AccountIdView) -> ProtoAccountId {
    ProtoAccountId { shard_num: a.shard, realm_num: a.realm, account_num: Some(a.num) }
}

/// The same identifier without a checksum.
pub open spec fn account_unchecked(a: AccountIdView) -> AccountIdView {
    AccountIdView { shard: a.shard, realm: a.realm, num: a.num, checksum: None }
}

/// Whether an identifier passes the checksum check against network `ledger`.
pub open spec fn account_checksum_ok(a: AccountIdView, ledger: Seq<u8>) -> bool {
    match a.checksum {
        None => true,
        Some(c) => c == ledger,
    }
}

impl AccountId {
    pub fn new(shard: u64, realm: u64, num: u64) -> (r: AccountId)
        ensures
            r@ == (AccountIdView { shard, realm, num, checksum: None }),
    {
        AccountId { shard, realm, num, checksum: None }
    }

    /// The same identifier, with a checksum made for network `ledger`.
    pub fn with_checksum_for(&self, ledger: &LedgerId) -> (r: AccountId)
        ensures
            r@ == (AccountIdView { checksum: Some(ledger@), ..self@ }),
    {
        AccountId { shard: self.shard, realm: self.realm, num: self.num, checksum: Some(ledger.duplicate()) }
    }

    pub fn duplicate(&self) -> (r: AccountId)
        ensures
            r@ == self@,
    {
        let checksum = match &self.checksum {
            None => None,
            Some(l) => Some(l.duplicate()),
        };
        AccountId { shard: self.shard, realm: self.realm, num: self.num, checksum }
    }

    pub fn to_protobuf(&self) -> (r: ProtoAccountId)
        ensures
            r == account_to_wire(self@),
    {
        ProtoAccountId { shard_num: self.shard, realm_num: self.realm, account_num: Some(self.num) }
    }

    /// Decodes a wire identifier; one without an account number is `FromProtobuf`.
    pub fn from_protobuf(pb: ProtoAccountId) -> (r: Result<AccountId, Error>)
        ensures
            pb.account_num is Some <==> r.is_ok(),
            r matches Ok(a) ==> a@ == (AccountIdView {
                shard: pb.shard_num,
                realm: pb.realm_num,
                num: pb.account_num->0,
                checksum: None,
            }),
            r.is_err() ==> r == Err::<AccountId, Error>(Error::FromProtobuf),
    {
        match pb.account_num {
            Some(num) => Ok(AccountId { shard: pb.shard_num, realm: pb.realm_num, num, checksum: None }),
            None => Err(Error::FromProtobuf),
        }
    }

    /// Checks the identifier's checksum against network `ledger`; one without a checksum passes.
    pub fn validate_checksum(&self, ledger: &LedgerId) -> (r: Result<(), Error>)
        ensures
            r.is_ok() <==> account_checksum_ok(self@, ledger@),
            r.is_err() ==> r == Err::<(), Error>(
                Error::BadEntityId { shard: self.shard, realm: self.realm, num: self.num },
            ),
    {
        match &self.checksum {
            None => Ok(()),
            Some(c) => if c.same_as(ledger) {
                Ok(())
            } else {
                Err(Error::BadEntityId { shard: self.shard, realm: self.realm, num: self.num })
            },
        }
    }
}

/// A point in time: seconds and nanoseconds since the Unix epoch.
#[derive(Debug, Clone, Copy, PartialEq, Eq, Structural)]
pub struct Timestamp {
    pub seconds: i64,
    pub nanos: i32,
}

/// The identifier of one transaction: the paying account and the start of its validity window.
#[derive(Debug, Clone, PartialEq, Eq)]
pub struct TransactionId {
    pub account_id: AccountId,
    pub valid_start: Timestamp,
}

impl TransactionId {
    pub fn new(account_id: AccountId, valid_start: Timestamp) -> (r: TransactionId)
        ensures
            r.account_id == account_id,
            r.valid_start == valid_start,
    {
        TransactionId { account_id, valid_start }
    }

    pub fn duplicate(&self) -> (r: TransactionId)
        ensures
            r.account_id@ == self.account_id@,
            r.valid_start == self.valid_start,
    {
        TransactionId { account_id: self.account_id.duplicate(), valid_start: self.valid_start }
    }

    pub fn to_protobuf(&self) -> (r: ProtoTransactionId)
        ensures
            r.account_id == Some(account_to_wire(self.account_id@)),
            r.transaction_valid_start == Some(
                ProtoTimestamp { seconds: self.valid_start.seconds, nanos: self.valid_start.nanos },
            ),
    {
        ProtoTransactionId {
            transaction_valid_start: Some(
                ProtoTimestamp { seconds: self.valid_start.seconds, nanos: self.valid_start.nanos },
            ),
            account_id: Some(self.account_id.to_protobuf()),
        }
    }

    /// What decoding a wire transaction identifier gives, when it succeeds.
    pub open spec fn spec_from_protobuf(pb: ProtoTransactionId) -> Option<TransactionIdView> {
        match (pb.transaction_valid_start, pb.account_id) {
            (Some(ts), Some(a)) => match a.account_num {
                Some(num) => Some(
                    TransactionIdView {
                        account_id: AccountIdView {
                            shard: a.shard_num,
                            realm: a.realm_num,
                            num,
                            checksum: None,
                        },
                        valid_start: Timestamp { seconds: ts.seconds, nanos: ts.nanos },
                    },
                ),
                None => None,
            },
            _ => None,
        }
    }

    /// Decodes a wire transaction identifier; both of its fields must be present.
    pub fn from_protobuf(pb: ProtoTransactionId) -> (r: Result<TransactionId, Error>)
        ensures
            r.is_ok() <==> (pb.transaction_valid_start is Some && pb.account_id is Some
                && pb.account_id->0.account_num is Some),
            r matches Ok(t) ==> Some(account_to_wire(t.account_id@)) == pb.account_id
                && t.account_id@.checksum is None
                && Some(ProtoTimestamp { seconds: t.valid_start.seconds, nanos: t.valid_start.nanos })
                == pb.transaction_valid_start,
            r.is_err() ==> r == Err::<TransactionId, Error>(Error::FromProtobuf),
            r matches Ok(t) ==> TransactionId::spec_from_protobuf(pb) == Some(transaction_id_view(t)),
            r.is_err() <==> TransactionId::spec_from_protobuf(pb) is None,
    {
        match (pb.transaction_valid_start, pb.account_id) {
            (Some(ts), Some(a)) => {
                match AccountId::from_protobuf(a) {
                    Ok(account_id) => Ok(TransactionId {
                        account_id,
                        valid_start: Timestamp { seconds: ts.seconds, nanos: ts.nanos },
                    }),
                    Err(e) => Err(e),
                }
            },
            _ => Err(Error::FromProtobuf),
        }
    }
}

} // verus!
