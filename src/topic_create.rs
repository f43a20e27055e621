//! The topic creation payload: its fields, its wire codec and its checksum check.
use vstd::prelude::*;

use crate::error::Error;
use crate::ids::{
    account_checksum_ok, account_to_wire, account_unchecked, key_decode_result, proto_key_view,
    result_view, AccountId, AccountIdView, Duration, Key, KeyAlgorithm, LedgerId,
};
use crate::transaction::{
    transaction_id_to_wire, transaction_id_view, ChunkInfo, Transaction, TransactionIdView,
};
use crate::wire::{
    ConsensusCreateTopicTransactionBody, ProtoAccountId, ProtoDuration, ProtoKey,
    SchedulableTransactionBodyData, TransactionBody, TransactionBodyData,
};

verus! {

/// The renewal period a new topic starts with: ninety days.
pub const DEFAULT_AUTO_RENEW_DAYS: i64 = 90;

/// The parameters of a topic creation.
#[derive(Debug, Clone, PartialEq, Eq)]
pub struct TopicCreateTransactionData {
    /// Short publicly visible memo about the topic. No guarantee of uniqueness.
    pub topic_memo: String,
    /// Access control for updating and deleting the topic.
    pub admin_key: Option<Key>,
    /// Access control for submitting messages to the topic.
    pub submit_key: Option<Key>,
    /// The topic's initial lifetime, and the span by which it is extended when it expires.
    pub auto_renew_period: Option<Duration>,
    /// The account that pays for extending the topic's life.
    pub auto_renew_account_id: Option<AccountId>,
}

/// The view of an optional key.
pub open spec fn key_opt_view(k: Option<Key>) -> Option<(KeyAlgorithm, Seq<u8>)> {
    match k {
        None => None,
        Some(k) => Some(k@),
    }
}

/// The view of an optional account identifier.
pub open spec fn account_opt_view(a: Option<AccountId>) -> Option<AccountIdView> {
    match a {
        None => None,
        Some(a) => Some(a@),
    }
}

/// What a topic creation payload holds.
pub struct TopicCreateView {
    pub memo: Seq<char>,
    pub admin_key: Option<(KeyAlgorithm, Seq<u8>)>,
    pub submit_key: Option<(KeyAlgorithm, Seq<u8>)>,
    pub auto_renew_period: Option<Duration>,
    pub auto_renew_account_id: Option<AccountIdView>,
}

impl View for TopicCreateTransactionData {
    type V = TopicCreateView;

    open spec fn view(&self) -> TopicCreateView {
        TopicCreateView {
            memo: self.topic_memo@,
            admin_key: key_opt_view(self.admin_key),
            submit_key: key_opt_view(self.submit_key),
            auto_renew_period: self.auto_renew_period,
            auto_renew_account_id: account_opt_view(self.auto_renew_account_id),
        }
    }
}

/// What a wire topic creation body holds; a key is `Some(None)` when present with an empty oneof.
pub struct CreateTopicBodyView {
    pub memo: Seq<char>,
    pub admin_key: Option<Option<(KeyAlgorithm, Seq<u8>)>>,
    pub submit_key: Option<Option<(KeyAlgorithm, Seq<u8>)>>,
    pub auto_renew_period: Option<ProtoDuration>,
    pub auto_renew_account: Option<ProtoAccountId>,
}

pub open spec fn proto_key_opt_view(k: Option<ProtoKey>) -> Option<Option<(KeyAlgorithm, Seq<u8>)>> {
    match k {
        None => None,
        Some(k) => Some(proto_key_view(k)),
    }
}

pub open spec fn body_view(b: ConsensusCreateTopicTransactionBody) -> CreateTopicBodyView {
    CreateTopicBodyView {
        memo: b.memo@,
        admin_key: proto_key_opt_view(b.admin_key),
        submit_key: proto_key_opt_view(b.submit_key),
        auto_renew_period: b.auto_renew_period,
        auto_renew_account: b.auto_renew_account,
    }
}

pub open spec fn key_opt_to_wire(k: Option<(KeyAlgorithm, Seq<u8>)>) -> Option<Option<(KeyAlgorithm, Seq<u8>)>> {
    match k {
        None => None,
        Some(k) => Some(Some(k)),
    }
}

pub open spec fn duration_opt_to_wire(d: Option<Duration>) -> Option<ProtoDuration> {
    match d {
        None => None,
        Some(d) => Some(ProtoDuration { seconds: d.seconds }),
    }
}

pub open spec fn account_opt_to_wire(a: Option<AccountIdView>) -> Option<ProtoAccountId> {
    match a {
        None => None,
        Some(a) => Some(account_to_wire(a)),
    }
}

/// The wire body of a payload: absent fields stay absent.
pub open spec fn topic_to_wire(d: TopicCreateView) -> CreateTopicBodyView {
    CreateTopicBodyView {
        memo: d.memo,
        admin_key: key_opt_to_wire(d.admin_key),
        submit_key: key_opt_to_wire(d.submit_key),
        auto_renew_period: duration_opt_to_wire(d.auto_renew_period),
        auto_renew_account: account_opt_to_wire(d.auto_renew_account_id),
    }
}

/// The wire body sent to the network: as `topic_to_wire`, with the paying account standing in
/// for an unset renewal account.
pub open spec fn topic_to_wire_paid_by(d: TopicCreateView, payer: AccountIdView) -> CreateTopicBodyView {
    let w = topic_to_wire(d);
    match d.auto_renew_account_id {
        Some(_) => w,
        None => CreateTopicBodyView { auto_renew_account: Some(account_to_wire(payer)), ..w },
    }
}

/// Decoding an optional wire key: absent stays absent, a malformed one is an error.
pub open spec fn key_opt_from_wire(k: Option<Option<(KeyAlgorithm, Seq<u8>)>>) -> Result<
    Option<(KeyAlgorithm, Seq<u8>)>,
    Error,
> {
    match k {
        None => Ok(None),
        Some(v) => match key_decode_result(v) {
            Ok(k) => Ok(Some(k)),
            Err(e) => Err(e),
        },
    }
}

pub open spec fn account_opt_from_wire(a: Option<ProtoAccountId>) -> Result<Option<AccountIdView>, Error> {
    match a {
        None => Ok(None),
        Some(pb) => match pb.account_num {
            None => Err(Error::FromProtobuf),
            Some(num) => Ok(
                Some(AccountIdView { shard: pb.shard_num, realm: pb.realm_num, num, checksum: None }),
            ),
        },
    }
}

pub open spec fn duration_opt_from_wire(d: Option<ProtoDuration>) -> Option<Duration> {
    match d {
        None => None,
        Some(d) => Some(Duration { seconds: d.seconds }),
    }
}

/// The payload a wire body decodes to, or the first failure among admin key, submit key and
/// renewal account, in that order.
pub open spec fn topic_from_wire(b: CreateTopicBodyView) -> Result<TopicCreateView, Error> {
    match key_opt_from_wire(b.admin_key) {
        Err(e) => Err(e),
        Ok(admin_key) => match key_opt_from_wire(b.submit_key) {
            Err(e) => Err(e),
            Ok(submit_key) => match account_opt_from_wire(b.auto_renew_account) {
                Err(e) => Err(e),
                Ok(auto_renew_account_id) => Ok(
                    TopicCreateView {
                        memo: b.memo,
                        admin_key,
                        submit_key,
                        auto_renew_period: duration_opt_from_wire(b.auto_renew_period),
                        auto_renew_account_id,
                    },
                ),
            },
        },
    }
}

/// A payload whose keys are well formed.
pub open spec fn topic_wf(d: TopicCreateView) -> bool {
    (d.admin_key matches Some(k) ==> crate::ids::key_wf(k))
    && (d.submit_key matches Some(k) ==> crate::ids::key_wf(k))
}

/// The payload with the renewal account's checksum dropped: what the wire can carry.
pub open spec fn topic_unchecked(d: TopicCreateView) -> TopicCreateView {
    TopicCreateView {
        auto_renew_account_id: match d.auto_renew_account_id {
            None => None,
            Some(a) => Some(account_unchecked(a)),
        },
        ..d
    }
}

/// Whether every identifier of the payload passes the checksum check against `ledger`.
pub open spec fn topic_checksums_ok(d: TopicCreateView, ledger: Seq<u8>) -> bool {
    match d.auto_renew_account_id {
        None => true,
        Some(a) => account_checksum_ok(a, ledger),
    }
}

fn key_opt_to_protobuf(k: &Option<Key>) -> (r: Option<ProtoKey>)
    ensures
        proto_key_opt_view(r) == key_opt_to_wire(key_opt_view(*k)),
{
    match k {
        None => None,
        Some(k) => Some(k.to_protobuf()),
    }
}

fn key_opt_from_protobuf(k: Option<ProtoKey>) -> (r: Result<Option<Key>, Error>)
    ensures
        match (r, key_opt_from_wire(proto_key_opt_view(k))) {
            (Ok(a), Ok(b)) => key_opt_view(a) == b,
            (Err(e1), Err(e2)) => e1 == e2,
            _ => false,
        },
        r matches Ok(Some(key)) ==> key.spec_wf(),
{
    match k {
        None => Ok(None),
        Some(pb) => match Key::from_protobuf(pb) {
            Ok(key) => Ok(Some(key)),
            Err(e) => Err(e),
        },
    }
}

impl TopicCreateTransactionData {
    /// A payload with an empty memo, no keys, no renewal account and a renewal period of ninety
    /// days (7776000 seconds).
    pub fn new() -> (r: TopicCreateTransactionData)
        ensures
            r@ == (TopicCreateView {
                memo: Seq::empty(),
                admin_key: None,
                submit_key: None,
                auto_renew_period: Some(Duration { seconds: 7776000 }),
                auto_renew_account_id: None,
            }),
    {
        let r = TopicCreateTransactionData {
            topic_memo: String::new(),
            admin_key: None,
            submit_key: None,
            auto_renew_period: Some(Duration::days(DEFAULT_AUTO_RENEW_DAYS)),
            auto_renew_account_id: None,
        };
        assert(r.topic_memo@ =~= Seq::<char>::empty());
        r
    }

    /// Encodes the payload; absent fields are absent on the wire.
    pub fn to_protobuf(&self) -> (r: ConsensusCreateTopicTransactionBody)
        ensures
            body_view(r) == topic_to_wire(self@),
    {
        let auto_renew_account = match &self.auto_renew_account_id {
            None => None,
            Some(a) => Some(a.to_protobuf()),
        };
        let auto_renew_period = match self.auto_renew_period {
            None => None,
            Some(d) => Some(d.to_protobuf()),
        };
        ConsensusCreateTopicTransactionBody {
            memo: self.topic_memo.clone(),
            admin_key: key_opt_to_protobuf(&self.admin_key),
            submit_key: key_opt_to_protobuf(&self.submit_key),
            auto_renew_period,
            auto_renew_account,
        }
    }

    /// Decodes a wire body; a malformed key or identifier is an error, never a default.
    pub fn from_protobuf(pb: ConsensusCreateTopicTransactionBody) -> (r: Result<
        TopicCreateTransactionData,
        Error,
    >)
        ensures
            result_view(r) == topic_from_wire(body_view(pb)),
            r matches Ok(d) ==> topic_wf(d@),
    {
        let admin_key = match key_opt_from_protobuf(pb.admin_key) {
            Ok(k) => k,
            Err(e) => {
                return Err(e);
            },
        };
        let submit_key = match key_opt_from_protobuf(pb.submit_key) {
            Ok(k) => k,
            Err(e) => {
                return Err(e);
            },
        };
        let auto_renew_account_id = match pb.auto_renew_account {
            None => None,
            Some(a) => match AccountId::from_protobuf(a) {
                Ok(a) => Some(a),
                Err(e) => {
                    return Err(e);
                },
            },
        };
        let auto_renew_period = match pb.auto_renew_period {
            None => None,
            Some(d) => Some(Duration::from_protobuf(d)),
        };
        Ok(TopicCreateTransactionData {
            topic_memo: pb.memo,
            admin_key,
            submit_key,
            auto_renew_period,
            auto_renew_account_id,
        })
    }

    /// Checks every identifier of the payload against network `ledger`; an unset one passes.
    pub fn validate_checksums(&self, ledger: &LedgerId) -> (r: Result<(), Error>)
        ensures
            r.is_ok() <==> topic_checksums_ok(self@, ledger@),
            r matches Err(e) ==> e == (Error::BadEntityId {
                shard: self.auto_renew_account_id->0.shard,
                realm: self.auto_renew_account_id->0.realm,
                num: self.auto_renew_account_id->0.num,
            }),
    {
        match &self.auto_renew_account_id {
            None => Ok(()),
            Some(a) => a.validate_checksum(ledger),
        }
    }
}

impl Default for TopicCreateTransactionData {
    fn default() -> (r: TopicCreateTransactionData)
        ensures
            r@ == (TopicCreateView {
                memo: Seq::empty(),
                admin_key: None,
                submit_key: None,
                auto_renew_period: Some(Duration { seconds: 7776000 }),
                auto_renew_account_id: None,
            }),
    {
        TopicCreateTransactionData::new()
    }
}

impl TopicCreateTransactionData {
    /// The body sent to the network. An unset renewal account is filled, in the encoding only,
    /// with the account that pays for the current transaction.
    pub fn to_transaction_data_protobuf(&self, chunk_info: &ChunkInfo) -> (r: TransactionBodyData)
        requires
            chunk_info.is_single(),
        ensures
            r matches TransactionBodyData::ConsensusCreateTopic(b) && body_view(b)
                == topic_to_wire_paid_by(self@, chunk_info.current_transaction_id.account_id@),
    {
        let id = chunk_info.assert_single_transaction();
        let mut protobuf_data = self.to_protobuf();
        if protobuf_data.auto_renew_account.is_none() {
            protobuf_data.auto_renew_account = Some(id.account_id.to_protobuf());
        }
        TransactionBodyData::ConsensusCreateTopic(protobuf_data)
    }

    /// The body used when the operation is scheduled: no payer is filled in.
    pub fn to_schedulable_transaction_data_protobuf(&self) -> (r: SchedulableTransactionBodyData)
        ensures
            r matches SchedulableTransactionBodyData::ConsensusCreateTopic(b) && body_view(b)
                == topic_to_wire(self@),
    {
        SchedulableTransactionBodyData::ConsensusCreateTopic(self.to_protobuf())
    }
}

/// A transaction that creates a topic.
pub type TopicCreateTransaction = Transaction<TopicCreateTransactionData>;

impl Transaction<TopicCreateTransactionData> {
    /// A topic creation in the building state, with the payload of `TopicCreateTransactionData::new`.
    pub fn new() -> (r: TopicCreateTransaction)
        ensures
            r.spec_data()@ == (TopicCreateView {
                memo: Seq::empty(),
                admin_key: None,
                submit_key: None,
                auto_renew_period: Some(Duration { seconds: 7776000 }),
                auto_renew_account_id: None,
            }),
            r.spec_transaction_id() is None,
            !r.spec_frozen(),
    {
        Transaction::with_data(TopicCreateTransactionData::new())
    }

    /// Returns the short, publicly visible, memo about the topic.
    pub fn get_topic_memo(&self) -> (r: &str)
        ensures
            r@ == self.spec_data().topic_memo@,
    {
        self.data().topic_memo.as_str()
    }

    /// Sets the short publicly visible memo about the topic.
    pub fn topic_memo(&mut self, memo: String) -> (r: &mut Self)
        requires
            !old(self).spec_frozen(),
        ensures
            r.spec_data() == (TopicCreateTransactionData { topic_memo: memo, ..old(self).spec_data() }),
            r.spec_transaction_id() == old(self).spec_transaction_id(),
            r.spec_state() == old(self).spec_state(),
            *final(self) == *final(r),
    {
        self.data_mut().topic_memo = memo;
        self
    }

    /// Returns the key that may update and delete the topic.
    pub fn get_admin_key(&self) -> (r: Option<&Key>)
        ensures
            r is None <==> self.spec_data().admin_key is None,
            r matches Some(k) ==> self.spec_data().admin_key == Some(*k),
    {
        match &self.data().admin_key {
            Some(k) => Some(k),
            None => None,
        }
    }

    /// Sets the key that may update and delete the topic.
    pub fn admin_key(&mut self, key: Key) -> (r: &mut Self)
        requires
            !old(self).spec_frozen(),
        ensures
            r.spec_data() == (TopicCreateTransactionData { admin_key: Some(key), ..old(self).spec_data() }),
            r.spec_transaction_id() == old(self).spec_transaction_id(),
            r.spec_state() == old(self).spec_state(),
            *final(self) == *final(r),
    {
        self.data_mut().admin_key = Some(key);
        self
    }

    /// Returns the key that may submit messages to the topic.
    pub fn get_submit_key(&self) -> (r: Option<&Key>)
        ensures
            r is None <==> self.spec_data().submit_key is None,
            r matches Some(k) ==> self.spec_data().submit_key == Some(*k),
    {
        match &self.data().submit_key {
            Some(k) => Some(k),
            None => None,
        }
    }

    /// Sets the key that may submit messages to the topic.
    pub fn submit_key(&mut self, key: Key) -> (r: &mut Self)
        requires
            !old(self).spec_frozen(),
        ensures
            r.spec_data() == (TopicCreateTransactionData { submit_key: Some(key), ..old(self).spec_data() }),
            r.spec_transaction_id() == old(self).spec_transaction_id(),
            r.spec_state() == old(self).spec_state(),
            *final(self) == *final(r),
    {
        self.data_mut().submit_key = Some(key);
        self
    }

    /// Returns the topic's initial lifetime and the span by which it is extended.
    pub fn get_auto_renew_period(&self) -> (r: Option<Duration>)
        ensures
            r == self.spec_data().auto_renew_period,
    {
        self.data().auto_renew_period
    }

    /// Sets the topic's initial lifetime and the span by which it is extended.
    pub fn auto_renew_period(&mut self, period: Duration) -> (r: &mut Self)
        requires
            !old(self).spec_frozen(),
        ensures
            r.spec_data() == (TopicCreateTransactionData {
                auto_renew_period: Some(period),
                ..old(self).spec_data()
            }),
            r.spec_transaction_id() == old(self).spec_transaction_id(),
            r.spec_state() == old(self).spec_state(),
            *final(self) == *final(r),
    {
        self.data_mut().auto_renew_period = Some(period);
        self
    }

    /// Returns the account that pays for extending the topic's life.
    pub fn get_auto_renew_account_id(&self) -> (r: Option<AccountId>)
        ensures
            account_opt_view(r) == account_opt_view(self.spec_data().auto_renew_account_id),
    {
        match &self.data().auto_renew_account_id {
            Some(a) => Some(a.duplicate()),
            None => None,
        }
    }

    /// Sets the account that pays for extending the topic's life.
    pub fn auto_renew_account_id(&mut self, id: AccountId) -> (r: &mut Self)
        requires
            !old(self).spec_frozen(),
        ensures
            r.spec_data() == (TopicCreateTransactionData {
                auto_renew_account_id: Some(id),
                ..old(self).spec_data()
            }),
            r.spec_transaction_id() == old(self).spec_transaction_id(),
            r.spec_state() == old(self).spec_state(),
            *final(self) == *final(r),
    {
        self.data_mut().auto_renew_account_id = Some(id);
        self
    }
}

/// Whether `b` is the body sent to the network for payload `d` in transaction `id`.
pub open spec fn is_topic_transaction_body(b: TransactionBody, d: TopicCreateView, id: TransactionIdView) -> bool {
    b.transaction_id == Some(transaction_id_to_wire(id)) && match b.data {
        Some(TransactionBodyData::ConsensusCreateTopic(w)) => body_view(w) == topic_to_wire_paid_by(
            d,
            id.account_id,
        ),
        None => false,
    }
}

impl Transaction<TopicCreateTransactionData> {
    /// The transaction body sent to the network. Only a frozen transaction is encoded.
    pub fn to_transaction_body(&self) -> (r: Result<TransactionBody, Error>)
        ensures
            !self.spec_frozen() ==> r == Err::<TransactionBody, Error>(Error::NotFrozen),
            self.spec_frozen() && self.spec_transaction_id() is None ==> r == Err::<
                TransactionBody,
                Error,
            >(Error::FreezeUnsetTransactionId),
            self.spec_frozen() && self.spec_transaction_id() is Some ==> (r matches Ok(b)
                && is_topic_transaction_body(
                b,
                self.spec_data()@,
                transaction_id_view(self.spec_transaction_id()->0),
            )),
    {
        if !self.is_frozen() {
            return Err(Error::NotFrozen);
        }
        match self.get_transaction_id() {
            None => Err(Error::FreezeUnsetTransactionId),
            Some(id) => {
                let chunk_info = ChunkInfo::single(id.duplicate());
                let data = self.data().to_transaction_data_protobuf(&chunk_info);
                Ok(TransactionBody { transaction_id: Some(id.to_protobuf()), data: Some(data) })
            },
        }
    }

    /// Checks every identifier of the payload against network `ledger`.
    pub fn validate_checksums(&self, ledger: &LedgerId) -> (r: Result<(), Error>)
        ensures
            r.is_ok() <==> topic_checksums_ok(self.spec_data()@, ledger@),
    {
        self.data().validate_checksums(ledger)
    }
}

} // verus!
