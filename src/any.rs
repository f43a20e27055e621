//! The closed set of payload kinds: decoding a transaction of unknown kind, and choosing the
//! service method that carries each kind.
use vstd::prelude::*;

use crate::error::Error;
use crate::ids::{result_view, LedgerId, TransactionId};
use crate::topic_create::{
    body_view, is_topic_transaction_body, topic_checksums_ok, topic_from_wire, topic_to_wire,
    TopicCreateTransactionData, TopicCreateView,
};
use crate::transaction::{transaction_id_view, ChunkInfo, FreezeState, Transaction, TransactionIdView};
use crate::wire::{SchedulableTransactionBodyData, TransactionBody, TransactionBodyData};

verus! {

/// A payload of any kind.
#[derive(Debug, Clone, PartialEq, Eq)]
pub enum AnyTransactionData {
    TopicCreate(TopicCreateTransactionData),
}

/// What a payload of any kind holds.
pub enum AnyTransactionView {
    TopicCreate(TopicCreateView),
}

impl View for AnyTransactionData {
    type V = AnyTransactionView;

    open spec fn view(&self) -> AnyTransactionView {
        match self {
            AnyTransactionData::TopicCreate(d) => AnyTransactionView::TopicCreate(d@),
        }
    }
}

impl From<TopicCreateTransactionData> for AnyTransactionData {
    fn from(transaction: TopicCreateTransactionData) -> (r: AnyTransactionData) {
        AnyTransactionData::TopicCreate(transaction)
    }
}

impl vstd::std_specs::convert::FromSpecImpl<TopicCreateTransactionData> for AnyTransactionData {
    open spec fn obeys_from_spec() -> bool {
        true
    }

    open spec fn from_spec(transaction: TopicCreateTransactionData) -> AnyTransactionData {
        AnyTransactionData::TopicCreate(transaction)
    }
}

/// The remote procedures of the network's services.
#[derive(Debug, Clone, Copy, PartialEq, Eq, Structural)]
pub enum ServiceMethod {
    /// `ConsensusService.createTopic`.
    ConsensusCreateTopic,
}

/// The service method that carries each payload kind.
pub open spec fn service_method_of(d: AnyTransactionView) -> ServiceMethod {
    match d {
        AnyTransactionView::TopicCreate(_) => ServiceMethod::ConsensusCreateTopic,
    }
}

/// What decoding a wire payload of any kind gives.
pub open spec fn any_from_wire(data: TransactionBodyData) -> Result<AnyTransactionView, Error> {
    match data {
        TransactionBodyData::ConsensusCreateTopic(b) => match topic_from_wire(body_view(b)) {
            Ok(d) => Ok(AnyTransactionView::TopicCreate(d)),
            Err(e) => Err(e),
        },
    }
}

/// Whether `b` is the body sent to the network for payload `d` in transaction `id`.
pub open spec fn is_any_transaction_body(b: TransactionBody, d: AnyTransactionView, id: TransactionIdView) -> bool {
    match d {
        AnyTransactionView::TopicCreate(t) => is_topic_transaction_body(b, t, id),
    }
}

impl AnyTransactionData {
    /// The service method to call with a transaction of this payload.
    pub fn service_method(&self) -> (r: ServiceMethod)
        ensures
            r == service_method_of(self@),
    {
        match self {
            AnyTransactionData::TopicCreate(_) => ServiceMethod::ConsensusCreateTopic,
        }
    }

    /// Decodes a wire payload, choosing the decoder by the case it carries.
    pub fn from_protobuf(data: TransactionBodyData) -> (r: Result<AnyTransactionData, Error>)
        ensures
            result_view(r) == any_from_wire(data),
    {
        match data {
            TransactionBodyData::ConsensusCreateTopic(b) => match TopicCreateTransactionData::from_protobuf(b) {
                Ok(d) => Ok(AnyTransactionData::TopicCreate(d)),
                Err(e) => Err(e),
            },
        }
    }

    pub fn to_transaction_data_protobuf(&self, chunk_info: &ChunkInfo) -> (r: TransactionBodyData)
        requires
            chunk_info.is_single(),
        ensures
            match self@ {
                AnyTransactionView::TopicCreate(t) => r matches TransactionBodyData::ConsensusCreateTopic(b)
                    && body_view(b) == crate::topic_create::topic_to_wire_paid_by(
                    t,
                    chunk_info.current_transaction_id.account_id@,
                ),
            },
    {
        match self {
            AnyTransactionData::TopicCreate(d) => d.to_transaction_data_protobuf(chunk_info),
        }
    }

    pub fn to_schedulable_transaction_data_protobuf(&self) -> (r: SchedulableTransactionBodyData)
        ensures
            match self@ {
                AnyTransactionView::TopicCreate(t) => r matches SchedulableTransactionBodyData::ConsensusCreateTopic(b)
                    && body_view(b) == topic_to_wire(t),
            },
    {
        match self {
            AnyTransactionData::TopicCreate(d) => d.to_schedulable_transaction_data_protobuf(),
        }
    }

    pub fn validate_checksums(&self, ledger: &LedgerId) -> (r: Result<(), Error>)
        ensures
            match self@ {
                AnyTransactionView::TopicCreate(t) => r.is_ok() <==> topic_checksums_ok(t, ledger@),
            },
    {
        match self {
            AnyTransactionData::TopicCreate(d) => d.validate_checksums(ledger),
        }
    }
}

/// A transaction whose payload kind is known only at run time.
pub type AnyTransaction = Transaction<AnyTransactionData>;

impl Transaction<AnyTransactionData> {
    /// Reads a transaction back from its wire body. The result is frozen, as a transaction
    /// taken from the wire may not change. A body without a transaction identifier or without a
    /// payload is `FromProtobuf`; a malformed payload gives its decoding error.
    pub fn from_body(body: TransactionBody) -> (r: Result<AnyTransaction, Error>)
        ensures
            body.transaction_id is None ==> r == Err::<AnyTransaction, Error>(Error::FromProtobuf),
            body.transaction_id matches Some(pb) ==> match TransactionId::spec_from_protobuf(pb) {
                None => r == Err::<AnyTransaction, Error>(Error::FromProtobuf),
                Some(id) => match body.data {
                    None => r == Err::<AnyTransaction, Error>(Error::FromProtobuf),
                    Some(data) => match any_from_wire(data) {
                        Err(e) => r == Err::<AnyTransaction, Error>(e),
                        Ok(d) => r matches Ok(t) && t.spec_frozen() && t.spec_data()@ == d
                            && t.spec_transaction_id() is Some && transaction_id_view(
                            t.spec_transaction_id()->0,
                        ) == id,
                    },
                },
            },
    {
        let id = match body.transaction_id {
            None => {
                return Err(Error::FromProtobuf);
            },
            Some(pb) => match TransactionId::from_protobuf(pb) {
                Ok(id) => id,
                Err(e) => {
                    return Err(e);
                },
            },
        };
        let data = match body.data {
            None => {
                return Err(Error::FromProtobuf);
            },
            Some(data) => match AnyTransactionData::from_protobuf(data) {
                Ok(d) => d,
                Err(e) => {
                    return Err(e);
                },
            },
        };
        Ok(Transaction::from_parts(data, Some(id), FreezeState::Frozen))
    }

    /// The transaction body sent to the network. Only a frozen transaction is encoded.
    pub fn to_transaction_body(&self) -> (r: Result<TransactionBody, Error>)
        ensures
            !self.spec_frozen() ==> r == Err::<TransactionBody, Error>(Error::NotFrozen),
            self.spec_frozen() && self.spec_transaction_id() is None ==> r == Err::<
                TransactionBody,
                Error,
            >(Error::FreezeUnsetTransactionId),
            self.spec_frozen() && self.spec_transaction_id() is Some ==> (r matches Ok(b)
                && is_any_transaction_body(
                b,
                self.spec_data()@,
                transaction_id_view(self.spec_transaction_id()->0),
            )),
    {
        if !self.is_frozen() {
            return Err(Error::NotFrozen);
        }
        match self.get_transaction_id() {
            None => Err(Error::FreezeUnsetTransactionId),
            Some(id) => {
                let chunk_info = ChunkInfo::single(id.duplicate());
                let data = self.data().to_transaction_data_protobuf(&chunk_info);
                Ok(TransactionBody { transaction_id: Some(id.to_protobuf()), data: Some(data) })
            },
        }
    }

    pub fn validate_checksums(&self, ledger: &LedgerId) -> (r: Result<(), Error>)
        ensures
            match self.spec_data()@ {
                AnyTransactionView::TopicCreate(t) => r.is_ok() <==> topic_checksums_ok(t, ledger@),
            },
    {
        self.data().validate_checksums(ledger)
    }
}

impl Transaction<TopicCreateTransactionData> {
    /// The same transaction, with its payload kind erased.
    pub fn into_any(self) -> (r: AnyTransaction)
        ensures
            r.spec_data() == AnyTransactionData::TopicCreate(self.spec_data()),
            r.spec_transaction_id() == self.spec_transaction_id(),
            r.spec_state() == self.spec_state(),
    {
        let (data, id, state) = self.into_parts();
        Transaction::from_parts(AnyTransactionData::TopicCreate(data), id, state)
    }
}

} // verus!
