//! The transaction wrapper: a payload, the transaction's identity, and the freeze state machine.
use vstd::prelude::*;

use crate::error::Error;
use crate::ids::{account_to_wire, AccountIdView, Timestamp, TransactionId};
use crate::wire::{ProtoTimestamp, ProtoTransactionId};

verus! {

/// Where a transaction stands: payload and metadata may change only while `Building`.
#[derive(Debug, Clone, Copy, PartialEq, Eq, Structural)]
pub enum FreezeState {
    Building,
    Frozen,
}

/// A transaction of payload `D`: the payload, the identifier of the transaction, and its state.
#[derive(Debug, Clone)]
pub struct Transaction<D> {
    data: D,
    transaction_id: Option<TransactionId>,
    state: FreezeState,
}

/// What a transaction identifier holds.
pub struct TransactionIdView {
    pub account_id: AccountIdView,
    pub valid_start: Timestamp,
}

pub open spec fn transaction_id_view(t: TransactionId) -> TransactionIdView {
    TransactionIdView { account_id: t.account_id@, valid_start: t.valid_start }
}

pub open spec fn transaction_id_opt_view(t: Option<TransactionId>) -> Option<TransactionIdView> {
    match t {
        None => None,
        Some(t) => Some(transaction_id_view(t)),
    }
}

/// The wire form of a transaction identifier.
pub open spec fn transaction_id_to_wire(t: TransactionIdView) -> ProtoTransactionId {
    ProtoTransactionId {
        transaction_valid_start: Some(
            ProtoTimestamp { seconds: t.valid_start.seconds, nanos: t.valid_start.nanos },
        ),
        account_id: Some(account_to_wire(t.account_id)),
    }
}

impl<D> Transaction<D> {
    pub closed spec fn spec_data(&self) -> D {
        self.data
    }

    pub closed spec fn spec_transaction_id(&self) -> Option<TransactionId> {
        self.transaction_id
    }

    pub closed spec fn spec_state(&self) -> FreezeState {
        self.state
    }

    pub open spec fn spec_frozen(&self) -> bool {
        self.spec_state() == FreezeState::Frozen
    }

    /// A transaction in the building state around `data`, with no identifier yet.
    pub fn with_data(data: D) -> (r: Transaction<D>)
        ensures
            r.spec_data() == data,
            r.spec_transaction_id() is None,
            !r.spec_frozen(),
    {
        Transaction { data, transaction_id: None, state: FreezeState::Building }
    }

    /// A transaction made of the given parts.
    pub fn from_parts(data: D, transaction_id: Option<TransactionId>, state: FreezeState) -> (r: Transaction<D>)
        ensures
            r.spec_data() == data,
            r.spec_transaction_id() == transaction_id,
            r.spec_state() == state,
    {
        Transaction { data, transaction_id, state }
    }

    /// The parts of the transaction: payload, identifier and state.
    pub fn into_parts(self) -> (r: (D, Option<TransactionId>, FreezeState))
        ensures
            r == (self.spec_data(), self.spec_transaction_id(), self.spec_state()),
    {
        (self.data, self.transaction_id, self.state)
    }

    pub fn data(&self) -> (r: &D)
        ensures
            *r == self.spec_data(),
    {
        &self.data
    }

    /// Hands out the payload for change; the one place that holds mutation to the building state.
    pub fn data_mut(&mut self) -> (r: &mut D)
        requires
            !old(self).spec_frozen(),
        ensures
            *r == old(self).spec_data(),
            final(self).spec_data() == *final(r),
            final(self).spec_transaction_id() == old(self).spec_transaction_id(),
            final(self).spec_state() == old(self).spec_state(),
    {
        &mut self.data
    }

    pub fn is_frozen(&self) -> (r: bool)
        ensures
            r == self.spec_frozen(),
    {
        match self.state {
            FreezeState::Frozen => true,
            FreezeState::Building => false,
        }
    }

    pub fn get_transaction_id(&self) -> (r: &Option<TransactionId>)
        ensures
            *r == self.spec_transaction_id(),
    {
        &self.transaction_id
    }

    /// Sets the transaction's identifier, whose account pays for it.
    pub fn transaction_id(&mut self, id: TransactionId) -> (r: &mut Self)
        requires
            !old(self).spec_frozen(),
        ensures
            r.spec_transaction_id() == Some(id),
            r.spec_data() == old(self).spec_data(),
            r.spec_state() == old(self).spec_state(),
            *final(self) == *final(r),
    {
        self.transaction_id = Some(id);
        self
    }

    /// Makes the transaction immutable. Fails, and changes nothing, while no transaction
    /// identifier is set. Freezing a frozen transaction changes nothing.
    pub fn freeze(&mut self) -> (r: Result<(), Error>)
        ensures
            r.is_ok() <==> old(self).spec_transaction_id() is Some,
            r.is_err() ==> r == Err::<(), Error>(Error::FreezeUnsetTransactionId),
            final(self).spec_data() == old(self).spec_data(),
            final(self).spec_transaction_id() == old(self).spec_transaction_id(),
            final(self).spec_frozen() == (r.is_ok() || old(self).spec_frozen()),
    {
        if self.transaction_id.is_none() {
            return Err(Error::FreezeUnsetTransactionId);
        }
        self.state = FreezeState::Frozen;
        Ok(())
    }
}

/// How one transaction is split into wire transactions. Topic creation is always one chunk.
#[derive(Debug, Clone)]
pub struct ChunkInfo {
    pub current_transaction_id: TransactionId,
    pub initial_transaction_id: TransactionId,
    pub total_chunks: usize,
}

impl ChunkInfo {
    /// The chunk metadata of a transaction sent as one wire transaction.
    pub fn single(id: TransactionId) -> (r: ChunkInfo)
        ensures
            r.is_single(),
            transaction_id_view(r.current_transaction_id) == transaction_id_view(id),
    {
        let initial_transaction_id = id.duplicate();
        ChunkInfo { current_transaction_id: id, initial_transaction_id, total_chunks: 1 }
    }

    pub open spec fn is_single(&self) -> bool {
        self.total_chunks == 1 && transaction_id_view(self.initial_transaction_id)
            == transaction_id_view(self.current_transaction_id)
    }

    /// The identifier of the one wire transaction; the metadata must describe a single chunk.
    pub fn assert_single_transaction(&self) -> (r: &TransactionId)
        requires
            self.is_single(),
        ensures
            *r == self.current_transaction_id,
    {
        &self.current_transaction_id
    }
}

} // verus!
