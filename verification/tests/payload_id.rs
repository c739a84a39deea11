use redstone_sequencer::attributes::{
    payload_id, payload_id_from_digest, preimage, AttributesError, RedstonePayloadAttributes,
    RedstonePayloadBuilderAttributes,
};
use redstone_sequencer::primitives::{Address, PayloadId, B256};
use redstone_sequencer::transaction::{Transaction, TxKind, TxType, Withdrawal};

fn forced(hash_byte: u8) -> Transaction {
    Transaction {
        hash: B256::new([hash_byte; 32]),
        nonce: 0,
        tx_type: TxType::Deposit,
        signer: Some(Address::new([0xdd; 20])),
        to: TxKind::Call(Address::new([0xee; 20])),
        blob_gas_used: None,
    }
}

fn attributes() -> RedstonePayloadAttributes {
    RedstonePayloadAttributes {
        timestamp: 0x1000,
        prev_randao: B256::new([0x33; 32]),
        suggested_fee_recipient: Address::new([0x44; 20]),
        withdrawals: Some(vec![]),
        parent_beacon_block_root: None,
        no_tx_pool: Some(true),
        gas_limit: Some(30_000_000),
    }
}

fn header_bytes() -> Vec<u8> {
    let mut expected = vec![0x11u8; 32];
    expected.extend_from_slice(&[0, 0, 0, 0, 0, 0, 0x10, 0]);
    expected.extend_from_slice(&[0x33; 32]);
    expected.extend_from_slice(&[0x44; 20]);
    expected
}

#[test]
fn payload_id_is_stable() {
    let parent = B256::new([0x11; 32]);
    let id = payload_id(&parent, &attributes(), &vec![forced(0x22)]);
    assert_eq!(
        id,
        PayloadId::new([0x3f, 0xb4, 0xaf, 0x53, 0xfc, 0x4b, 0x5f, 0x27])
    );
    let again = payload_id(&parent, &attributes(), &vec![forced(0x22)]);
    assert_eq!(id, again);
}

#[test]
fn preimage_lists_every_part_in_order() {
    let parent = B256::new([0x11; 32]);
    let bytes = preimage(&parent, &attributes(), &vec![forced(0x22)]);

    let mut expected = header_bytes();
    expected.push(0xc0);
    expected.push(0x01);
    expected.extend_from_slice(&[0, 0, 0, 0, 0, 0, 0, 1]);
    expected.extend_from_slice(&[0x22; 32]);
    expected.extend_from_slice(&30_000_000u64.to_be_bytes());
    assert_eq!(bytes, expected);
    assert_eq!(bytes.len(), 142);
}

#[test]
fn optional_parts_are_left_out() {
    let parent = B256::new([0x11; 32]);
    let mut attrs = attributes();
    attrs.withdrawals = None;
    attrs.no_tx_pool = None;
    attrs.gas_limit = None;

    let bytes = preimage(&parent, &attrs, &vec![]);
    assert_eq!(bytes, header_bytes());
    assert_eq!(
        payload_id(&parent, &attrs, &vec![]),
        PayloadId::new([0xdd, 0x6f, 0xb7, 0x65, 0x98, 0x89, 0xae, 0x4a])
    );
}

#[test]
fn forced_transactions_count_even_with_the_pool_allowed() {
    let parent = B256::new([0x11; 32]);
    let mut attrs = attributes();
    attrs.withdrawals = None;
    attrs.no_tx_pool = Some(false);
    attrs.gas_limit = None;

    let bytes = preimage(&parent, &attrs, &vec![forced(0x22), forced(0x23)]);
    let mut expected = header_bytes();
    expected.push(0x00);
    expected.extend_from_slice(&[0, 0, 0, 0, 0, 0, 0, 2]);
    expected.extend_from_slice(&[0x22; 32]);
    expected.extend_from_slice(&[0x23; 32]);
    assert_eq!(bytes, expected);
}

#[test]
fn beacon_root_follows_the_withdrawals() {
    let parent = B256::new([0x11; 32]);
    let mut attrs = attributes();
    attrs.withdrawals = None;
    attrs.parent_beacon_block_root = Some(B256::new([0x55; 32]));

    assert_eq!(
        payload_id(&parent, &attrs, &vec![forced(0x22)]),
        PayloadId::new([0xac, 0x3f, 0xa6, 0x73, 0x65, 0x44, 0x32, 0x9f])
    );
}

#[test]
fn withdrawals_enter_as_rlp() {
    let parent = B256::new([0x11; 32]);
    let mut attrs = attributes();
    attrs.withdrawals = Some(vec![Withdrawal {
        index: 1,
        validator_index: 2,
        address: Address::new([0x66; 20]),
        amount: 1000,
    }]);
    attrs.no_tx_pool = None;
    attrs.gas_limit = None;

    let bytes = preimage(&parent, &attrs, &vec![]);
    let mut expected = header_bytes();
    expected.extend_from_slice(&[0xdb, 0xda, 0x01, 0x02, 0x94]);
    expected.extend_from_slice(&[0x66; 20]);
    expected.extend_from_slice(&[0x82, 0x03, 0xe8]);
    assert_eq!(bytes, expected);
    assert_eq!(
        payload_id(&parent, &attrs, &vec![]),
        PayloadId::new([0x3d, 0x5b, 0x8f, 0x21, 0xe0, 0x7a, 0xeb, 0x19])
    );
}

#[test]
fn every_field_of_the_header_part_changes_the_id() {
    let parent = B256::new([0x11; 32]);
    let base = payload_id(&parent, &attributes(), &vec![forced(0x22)]);

    assert_ne!(
        payload_id(&B256::new([0x12; 32]), &attributes(), &vec![forced(0x22)]),
        base
    );
    let mut attrs = attributes();
    attrs.timestamp += 1;
    assert_ne!(payload_id(&parent, &attrs, &vec![forced(0x22)]), base);
    let mut attrs = attributes();
    attrs.prev_randao = B256::new([0x34; 32]);
    assert_ne!(payload_id(&parent, &attrs, &vec![forced(0x22)]), base);
    let mut attrs = attributes();
    attrs.suggested_fee_recipient = Address::new([0x45; 20]);
    assert_ne!(payload_id(&parent, &attrs, &vec![forced(0x22)]), base);
    let mut attrs = attributes();
    attrs.gas_limit = Some(30_000_001);
    assert_ne!(payload_id(&parent, &attrs, &vec![forced(0x22)]), base);
    let mut attrs = attributes();
    attrs.no_tx_pool = Some(false);
    assert_ne!(payload_id(&parent, &attrs, &vec![forced(0x22)]), base);
    assert_ne!(payload_id(&parent, &attributes(), &vec![forced(0x23)]), base);
}

#[test]
fn a_missing_pool_flag_counts_as_false() {
    let parent = B256::new([0x11; 32]);
    let mut missing = attributes();
    missing.no_tx_pool = None;
    let mut allowed = attributes();
    allowed.no_tx_pool = Some(false);
    assert_eq!(
        payload_id(&parent, &missing, &vec![]),
        payload_id(&parent, &allowed, &vec![])
    );
    assert_eq!(
        payload_id(&parent, &missing, &vec![forced(0x22)]),
        payload_id(&parent, &allowed, &vec![forced(0x22)])
    );
}

#[test]
fn the_id_is_the_front_of_the_digest() {
    let mut digest = [0u8; 32];
    for (i, byte) in digest.iter_mut().enumerate() {
        *byte = i as u8 + 1;
    }
    assert_eq!(
        payload_id_from_digest(&digest),
        PayloadId::new([1, 2, 3, 4, 5, 6, 7, 8])
    );
}

#[test]
fn builder_attributes_take_over_the_fields() {
    let parent = B256::new([0x11; 32]);
    let built = RedstonePayloadBuilderAttributes::try_new(parent, attributes(), vec![forced(0x22)]);

    assert_eq!(
        built.payload_id(),
        PayloadId::new([0x3f, 0xb4, 0xaf, 0x53, 0xfc, 0x4b, 0x5f, 0x27])
    );
    assert_eq!(built.parent, parent);
    assert_eq!(built.timestamp, 0x1000);
    assert_eq!(built.prev_randao, B256::new([0x33; 32]));
    assert_eq!(built.suggested_fee_recipient, Address::new([0x44; 20]));
    assert!(built.withdrawals.is_empty());
    assert_eq!(built.parent_beacon_block_root, None);
    assert!(built.no_tx_pool);
    assert_eq!(built.transactions.len(), 1);
    assert_eq!(built.gas_limit, Some(30_000_000));

    let mut attrs = attributes();
    attrs.no_tx_pool = None;
    attrs.withdrawals = None;
    let built = RedstonePayloadBuilderAttributes::try_new(parent, attrs, vec![]);
    assert!(!built.no_tx_pool);
    assert!(built.withdrawals.is_empty());
}

#[test]
fn attributes_of_a_rollup_need_a_gas_limit() {
    let mut attrs = attributes();
    assert!(attrs
        .ensure_well_formed_attributes(true, Ok::<(), String>(()))
        .is_ok());
    attrs.gas_limit = None;
    assert!(matches!(
        attrs.ensure_well_formed_attributes(true, Ok::<(), String>(())),
        Err(AttributesError::MissingGasLimit)
    ));
    assert!(attrs
        .ensure_well_formed_attributes(false, Ok::<(), String>(()))
        .is_ok());
    assert!(matches!(
        attrs.ensure_well_formed_attributes(false, Err("no withdrawals".to_string())),
        Err(AttributesError::VersionSpecific(reason)) if reason == "no withdrawals"
    ));
}
