//! Laws that relate the encoders, the decoders and the checksum check.
use vstd::prelude::*;

use crate::any::{any_from_wire, AnyTransactionView};
use crate::error::Error;
use crate::transaction::{transaction_id_to_wire, TransactionIdView};
use crate::wire::TransactionBody;
use crate::ids::{account_to_wire, account_unchecked, AccountIdView, TransactionId};
use crate::topic_create::{
    topic_checksums_ok, topic_from_wire, topic_to_wire, topic_to_wire_paid_by, topic_unchecked,
    topic_wf, is_topic_transaction_body, TopicCreateView,
};

verus! {

/// Decoding the encoding of a payload gives the payload back, but for the checksum of the
/// renewal account, which the wire does not carry. This is also the law of the schedulable
/// encoding, which is `topic_to_wire` itself: no payer appears in what it decodes to.
pub proof fn law_payload_round_trip(d: TopicCreateView)
    requires
        topic_wf(d),
    ensures
        topic_from_wire(topic_to_wire(d)) == Ok::<TopicCreateView, Error>(topic_unchecked(d)),
{
}

/// The body sent to the network decodes to the payload with the payer standing in for an
/// unset renewal account.
pub proof fn law_sent_payload_round_trip(d: TopicCreateView, payer: AccountIdView)
    requires
        topic_wf(d),
    ensures
        topic_from_wire(topic_to_wire_paid_by(d, payer)) == Ok::<TopicCreateView, Error>(
            topic_unchecked(
                match d.auto_renew_account_id {
                    Some(_) => d,
                    None => TopicCreateView { auto_renew_account_id: Some(payer), ..d },
                },
            ),
        ),
{
}

/// Encoding what a sent body decodes to, for the same payer, gives the same body again.
pub proof fn law_sent_body_stable(d: TopicCreateView, payer: AccountIdView)
    requires
        topic_wf(d),
    ensures
        topic_from_wire(topic_to_wire_paid_by(d, payer)) matches Ok(d2) && topic_to_wire_paid_by(
            d2,
            payer,
        ) == topic_to_wire_paid_by(d, payer),
{
}

/// An unset renewal account is sent as the payer's; a set one is sent as itself, never as the
/// payer's (unless the two are the same account).
pub proof fn law_renewal_account_default(d: TopicCreateView, payer: AccountIdView)
    ensures
        d.auto_renew_account_id is None ==> topic_to_wire_paid_by(d, payer).auto_renew_account
            == Some(account_to_wire(payer)),
        d.auto_renew_account_id matches Some(a) ==> topic_to_wire_paid_by(
            d,
            payer,
        ).auto_renew_account == Some(account_to_wire(a)),
        topic_to_wire(d).auto_renew_account is None <==> d.auto_renew_account_id is None,
{
}

/// The checksum check passes when the renewal account is unset or carries no checksum, and
/// otherwise exactly when its checksum was made for the given network.
pub proof fn law_checksum_validation(d: TopicCreateView, ledger: Seq<u8>)
    ensures
        d.auto_renew_account_id is None ==> topic_checksums_ok(d, ledger),
        d.auto_renew_account_id matches Some(a) ==> (topic_checksums_ok(d, ledger) <==> (
        a.checksum is None || a.checksum == Some(ledger))),
{
}

/// A body sent to the network, read back through the registry of payload kinds, gives a
/// transaction whose identifier and payload encode to that same body again.
pub proof fn law_sent_body_registry_round_trip(b: TransactionBody, d: TopicCreateView, id: TransactionIdView)
    requires
        topic_wf(d),
        is_topic_transaction_body(b, d, id),
    ensures
        b.transaction_id matches Some(pb) && TransactionId::spec_from_protobuf(pb) matches Some(id2)
            && transaction_id_to_wire(id2) == transaction_id_to_wire(id)
            && id2.account_id == account_unchecked(id.account_id),
        b.data matches Some(data) && any_from_wire(data) matches Ok(AnyTransactionView::TopicCreate(d2))
            && topic_to_wire_paid_by(d2, account_unchecked(id.account_id)) == topic_to_wire_paid_by(
            d,
            id.account_id,
        ),
{
    law_sent_payload_round_trip(d, id.account_id);
}

} // verus!
