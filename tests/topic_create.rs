use topic_create::any::{AnyTransaction, AnyTransactionData, ServiceMethod};
use topic_create::error::Error;
use topic_create::ids::{AccountId, Duration, Key, KeyAlgorithm, LedgerId, Timestamp, TransactionId};
use topic_create::topic_create::{TopicCreateTransaction, TopicCreateTransactionData};
use topic_create::transaction::ChunkInfo;
use topic_create::wire::{
    ConsensusCreateTopicTransactionBody, ProtoAccountId, ProtoDuration, ProtoKey, ProtoKeyKind,
    SchedulableTransactionBodyData, TransactionBody, TransactionBodyData,
};

const KEY_BYTES: [u8; 32] = [
    224, 200, 236, 39, 88, 165, 135, 159, 250, 194, 38, 161, 60, 12, 81, 107, 121, 158, 114, 227,
    81, 65, 160, 221, 130, 143, 148, 211, 121, 136, 164, 183,
];

fn key() -> Key {
    Key::from_bytes_ed25519(KEY_BYTES.to_vec()).unwrap()
}

fn proto_key() -> ProtoKey {
    ProtoKey { key: Some(ProtoKeyKind::Ed25519(KEY_BYTES.to_vec())) }
}

fn auto_renew_account_id() -> AccountId {
    AccountId::new(0, 0, 5007)
}

fn auto_renew_period() -> Duration {
    Duration::days(1)
}

fn test_transaction_id() -> TransactionId {
    TransactionId::new(AccountId::new(0, 0, 5006), Timestamp { seconds: 1554158542, nanos: 0 })
}

fn make_transaction() -> TopicCreateTransaction {
    let mut tx = TopicCreateTransaction::new();
    tx.transaction_id(test_transaction_id())
        .submit_key(key())
        .admin_key(key())
        .auto_renew_account_id(auto_renew_account_id())
        .auto_renew_period(auto_renew_period());
    tx.freeze().unwrap();
    tx
}

fn expected_body() -> ConsensusCreateTopicTransactionBody {
    ConsensusCreateTopicTransactionBody {
        memo: String::new(),
        admin_key: Some(proto_key()),
        submit_key: Some(proto_key()),
        auto_renew_period: Some(ProtoDuration { seconds: 86400 }),
        auto_renew_account: Some(ProtoAccountId { shard_num: 0, realm_num: 0, account_num: Some(5007) }),
    }
}

#[test]
fn serialize() {
    let tx = make_transaction();
    let body = tx.to_transaction_body().unwrap();
    assert_eq!(body.data, Some(TransactionBodyData::ConsensusCreateTopic(expected_body())));
    assert_eq!(body.transaction_id, Some(test_transaction_id().to_protobuf()));
}

#[test]
fn to_from_bytes() {
    let tx = make_transaction();
    let body = tx.to_transaction_body().unwrap();
    let tx2 = AnyTransaction::from_body(body.clone()).unwrap();
    assert_eq!(body, tx2.to_transaction_body().unwrap());
}

#[test]
fn from_proto_body() {
    let tx = TopicCreateTransactionData::from_protobuf(expected_body()).unwrap();

    assert_eq!(tx.admin_key, Some(key()));
    assert_eq!(tx.submit_key, Some(key()));
    assert_eq!(tx.auto_renew_period, Some(auto_renew_period()));
    assert_eq!(tx.auto_renew_account_id, Some(auto_renew_account_id()));
}

#[test]
fn get_set_admin_key() {
    let mut tx = TopicCreateTransaction::new();
    tx.admin_key(key());

    assert_eq!(tx.get_admin_key(), Some(&key()));
}

#[test]
fn get_set_submit_key() {
    let mut tx = TopicCreateTransaction::new();
    tx.submit_key(key());

    assert_eq!(tx.get_submit_key(), Some(&key()));
}

#[test]
fn get_set_auto_renew_period() {
    let mut tx = TopicCreateTransaction::new();
    tx.auto_renew_period(auto_renew_period());

    assert_eq!(tx.get_auto_renew_period(), Some(auto_renew_period()));
}

#[test]
fn get_set_auto_renew_account_id() {
    let mut tx = TopicCreateTransaction::new();
    tx.auto_renew_account_id(auto_renew_account_id());

    assert_eq!(tx.get_auto_renew_account_id(), Some(auto_renew_account_id()));
}

#[test]
fn getters_after_freeze_return_last_set_values() {
    let mut tx = TopicCreateTransaction::new();
    tx.transaction_id(test_transaction_id())
        .topic_memo("first".to_string())
        .topic_memo("second".to_string())
        .auto_renew_period(Duration::seconds(10))
        .auto_renew_period(Duration::seconds(20));
    tx.freeze().unwrap();
    assert!(tx.is_frozen());
    assert_eq!(tx.get_topic_memo(), "second");
    assert_eq!(tx.get_auto_renew_period(), Some(Duration::seconds(20)));
    assert_eq!(tx.get_admin_key(), None);
    assert_eq!(tx.get_auto_renew_account_id(), None);
}

#[test]
fn new_transaction_defaults() {
    let tx = TopicCreateTransaction::new();
    assert!(!tx.is_frozen());
    assert_eq!(tx.get_topic_memo(), "");
    assert_eq!(tx.get_auto_renew_period(), Some(Duration::seconds(7776000)));
    assert_eq!(tx.get_submit_key(), None);
}

#[test]
fn freeze_without_transaction_id_fails() {
    let mut tx = TopicCreateTransaction::new();
    assert_eq!(tx.freeze(), Err(Error::FreezeUnsetTransactionId));
    assert!(!tx.is_frozen());
    assert_eq!(tx.to_transaction_body(), Err(Error::NotFrozen));
}

#[test]
fn payload_round_trip_all_absent() {
    let data = TopicCreateTransactionData {
        topic_memo: "memo".to_string(),
        admin_key: None,
        submit_key: None,
        auto_renew_period: None,
        auto_renew_account_id: None,
    };
    let pb = data.to_protobuf();
    assert_eq!(pb.auto_renew_account, None);
    assert_eq!(pb.auto_renew_period, None);
    assert_eq!(TopicCreateTransactionData::from_protobuf(pb), Ok(data));
}

#[test]
fn payload_round_trip_all_present() {
    let mut data = TopicCreateTransactionData::new();
    data.topic_memo = "a topic".to_string();
    data.admin_key = Some(key());
    data.submit_key = Some(Key::from_bytes(KeyAlgorithm::EcdsaSecp256k1, vec![2u8; 33]).unwrap());
    data.auto_renew_account_id = Some(AccountId::new(1, 2, 3));
    let pb = data.to_protobuf();
    assert_eq!(TopicCreateTransactionData::from_protobuf(pb), Ok(data));
}

#[test]
fn round_trip_drops_checksum() {
    let mut data = TopicCreateTransactionData::new();
    data.auto_renew_account_id = Some(AccountId::new(0, 0, 9).with_checksum_for(&LedgerId::testnet()));
    let back = TopicCreateTransactionData::from_protobuf(data.to_protobuf()).unwrap();
    assert_eq!(back.auto_renew_account_id, Some(AccountId::new(0, 0, 9)));
}

#[test]
fn unset_renewal_account_defaults_to_payer() {
    let mut tx = TopicCreateTransaction::new();
    tx.transaction_id(TransactionId::new(AccountId::new(0, 0, 2), Timestamp { seconds: 5, nanos: 6 }))
        .admin_key(key())
        .submit_key(key())
        .auto_renew_period(Duration::days(1));
    tx.freeze().unwrap();
    let body = tx.to_transaction_body().unwrap();
    match body.data {
        Some(TransactionBodyData::ConsensusCreateTopic(b)) => {
            assert_eq!(b.auto_renew_account, Some(ProtoAccountId { shard_num: 0, realm_num: 0, account_num: Some(2) }));
        },
        None => panic!("no payload"),
    }
    let SchedulableTransactionBodyData::ConsensusCreateTopic(s) =
        tx.data().to_schedulable_transaction_data_protobuf();
    assert_eq!(s.auto_renew_account, None);
    assert_eq!(tx.get_auto_renew_account_id(), None);
}

#[test]
fn set_renewal_account_is_never_replaced_by_payer() {
    let data = make_transaction();
    let chunk = ChunkInfo::single(TransactionId::new(AccountId::new(0, 0, 2), Timestamp { seconds: 0, nanos: 0 }));
    let TransactionBodyData::ConsensusCreateTopic(b) = data.data().to_transaction_data_protobuf(&chunk);
    assert_eq!(b.auto_renew_account, Some(ProtoAccountId { shard_num: 0, realm_num: 0, account_num: Some(5007) }));
}

#[test]
fn checksum_validation() {
    let mut tx = TopicCreateTransaction::new();
    assert_eq!(tx.validate_checksums(&LedgerId::mainnet()), Ok(()));
    tx.auto_renew_account_id(AccountId::new(0, 0, 7).with_checksum_for(&LedgerId::testnet()));
    assert_eq!(tx.validate_checksums(&LedgerId::testnet()), Ok(()));
    assert_eq!(
        tx.validate_checksums(&LedgerId::mainnet()),
        Err(Error::BadEntityId { shard: 0, realm: 0, num: 7 })
    );
    let mut plain = TopicCreateTransaction::new();
    plain.auto_renew_account_id(AccountId::new(0, 0, 7));
    assert_eq!(plain.validate_checksums(&LedgerId::previewnet()), Ok(()));
}

#[test]
fn decode_malformed_key_fails() {
    let mut body = expected_body();
    body.admin_key = Some(ProtoKey { key: Some(ProtoKeyKind::Ed25519(vec![1u8, 2, 3])) });
    assert_eq!(TopicCreateTransactionData::from_protobuf(body), Err(Error::KeyParse));
    let mut empty = expected_body();
    empty.submit_key = Some(ProtoKey { key: None });
    assert_eq!(TopicCreateTransactionData::from_protobuf(empty), Err(Error::FromProtobuf));
}

#[test]
fn decode_account_without_number_fails() {
    let mut body = expected_body();
    body.auto_renew_account = Some(ProtoAccountId { shard_num: 0, realm_num: 0, account_num: None });
    assert_eq!(TopicCreateTransactionData::from_protobuf(body), Err(Error::FromProtobuf));
}

#[test]
fn from_body_without_payload_fails() {
    let body = TransactionBody { transaction_id: Some(test_transaction_id().to_protobuf()), data: None };
    assert_eq!(AnyTransaction::from_body(body).err(), Some(Error::FromProtobuf));
    let no_id = TransactionBody { transaction_id: None, data: Some(TransactionBodyData::ConsensusCreateTopic(expected_body())) };
    assert_eq!(AnyTransaction::from_body(no_id).err(), Some(Error::FromProtobuf));
}

#[test]
fn registry_dispatch_and_conversion() {
    let any: AnyTransactionData = TopicCreateTransactionData::new().into();
    assert_eq!(any.service_method(), ServiceMethod::ConsensusCreateTopic);
    let tx = make_transaction().into_any();
    assert!(tx.is_frozen());
    assert_eq!(tx.data().service_method(), ServiceMethod::ConsensusCreateTopic);
}

#[test]
fn key_length_is_checked() {
    assert_eq!(Key::from_bytes_ed25519(vec![0u8; 31]), Err(Error::KeyParse));
    assert_eq!(Key::from_bytes(KeyAlgorithm::EcdsaSecp256k1, vec![0u8; 32]), Err(Error::KeyParse));
    assert_eq!(key().to_bytes(), KEY_BYTES.to_vec());
}

#[test]
fn duration_days() {
    assert_eq!(Duration::days(90).whole_seconds(), 7776000);
    assert_eq!(Duration::days(1).to_protobuf(), ProtoDuration { seconds: 86400 });
}
