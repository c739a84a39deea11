use redstone_sequencer::attributes::RedstonePayloadAttributes;
use redstone_sequencer::block::{Bloom, Header};
use redstone_sequencer::chain::{BlockEnv, ChainSpec, ParentBlock};
use redstone_sequencer::engine::{
    balance, block_number, create, decode_all, forkchoice_applied, new_payload, new_updated,
    process_forkchoice_updated, state_invalid, Args, BlockchainEvent, Engine, EthApiError,
    ForkchoiceAction, ForkchoicePhase, ForkchoiceState, FoundParent, InvalidParams, ParentLookup,
    PayloadStatusEnum, ValidationError,
};
use redstone_sequencer::payload_builder::{
    BlockRoots, Execution, ExecutionOutcome, PayloadBuilderError, PreBlock, SealedParts, Sealing,
};
use redstone_sequencer::primitives::{Address, PayloadId, B256};
use redstone_sequencer::receipt::TransactionMeta;
use redstone_sequencer::transaction::{Receipt, Transaction, TxKind, TxType};
use redstone_sequencer::tx_pool::PoolError;
use redstone_sequencer::u256::U256;

fn engine(cancun: Option<u64>) -> Engine {
    create(Args {
        chain_spec: ChainSpec {
            chain_id: 690,
            genesis_hash: B256::new([0x01; 32]),
            optimism: true,
            regolith_time: Some(0),
            canyon_time: Some(0),
            cancun_time: cancun,
        },
        payload_extradata: vec![0xca, 0xfe],
    })
}

fn head() -> B256 {
    B256::new([0x11; 32])
}

fn forkchoice() -> ForkchoiceState {
    ForkchoiceState {
        head_block_hash: head(),
        safe_block_hash: B256::new([0x12; 32]),
        finalized_block_hash: B256::new([0x13; 32]),
    }
}

fn attributes(timestamp: u64) -> RedstonePayloadAttributes {
    RedstonePayloadAttributes {
        timestamp,
        prev_randao: B256::new([0x33; 32]),
        suggested_fee_recipient: Address::new([0x44; 20]),
        withdrawals: Some(vec![]),
        parent_beacon_block_root: Some(B256::new([0x55; 32])),
        no_tx_pool: None,
        gas_limit: Some(30_000_000),
    }
}

fn found(outcomes: Vec<ExecutionOutcome>) -> ParentLookup {
    ParentLookup::Found(FoundParent {
        parent: ParentBlock {
            hash: head(),
            number: 41,
            timestamp: 900,
            excess_blob_gas: Some(0),
            blob_gas_used: Some(0),
        },
        block_env: BlockEnv {
            number: 42,
            coinbase: Address::new([0x44; 20]),
            gas_limit: U256::from_u64(30_000_000),
            basefee: 7,
        },
        pre_block: PreBlock::Committed,
        outcomes,
    })
}

fn deposit(hash_byte: u8) -> Transaction {
    Transaction {
        hash: B256::new([hash_byte; 32]),
        nonce: 0,
        tx_type: TxType::Deposit,
        signer: Some(Address::new([0xdd; 20])),
        to: TxKind::Call(Address::new([0xee; 20])),
        blob_gas_used: None,
    }
}

fn user(signer: u8, nonce: u64) -> Transaction {
    let mut hash = [signer; 32];
    hash[31] = nonce as u8;
    Transaction {
        hash: B256::new(hash),
        nonce,
        tx_type: TxType::Eip1559,
        signer: Some(Address::new([signer; 20])),
        to: TxKind::Call(Address::new([0xee; 20])),
        blob_gas_used: None,
    }
}

fn ran(gas_used: u64, tip: Option<u128>) -> ExecutionOutcome {
    ExecutionOutcome::Executed(Execution {
        gas_used,
        success: true,
        logs: vec![],
        depositor_nonce: 0,
        effective_tip: tip,
    })
}

fn computed() -> Sealing {
    Sealing::Computed(SealedParts {
        withdrawals: Some(vec![]),
        withdrawals_root: Some(B256::new([0xa5; 32])),
        roots: BlockRoots {
            state_root: B256::new([0xa1; 32]),
            transactions_root: B256::new([0xa2; 32]),
            receipts_root: B256::new([0xa3; 32]),
            logs_bloom: Bloom { bytes: [0; 256] },
        },
    })
}

fn seal(header: &Header) -> B256 {
    let mut hash = [0xbb; 32];
    hash[0] = header.number as u8;
    B256::new(hash)
}

fn nonce_in_state(nonce: u64) -> impl FnOnce(Address) -> Result<Option<u64>, ()> {
    move |_| Ok(Some(nonce))
}

#[test]
fn a_zero_head_is_invalid() {
    let state = ForkchoiceState {
        head_block_hash: B256::zero(),
        ..forkchoice()
    };
    let (phase, action) =
        process_forkchoice_updated(state, ForkchoicePhase::Start, BlockchainEvent::Started);
    assert_eq!(phase, ForkchoicePhase::Done);
    match action {
        ForkchoiceAction::ReplyInvalid(updated) => {
            assert_eq!(
                updated.payload_status.status,
                PayloadStatusEnum::Invalid {
                    validation_error: ValidationError::HeadBlockHashIsZero
                }
            );
            assert_eq!(updated.payload_status.latest_valid_hash, None);
            assert_eq!(updated.payload_id, None);
        }
        _ => panic!("the fork choice went on"),
    }
    assert_eq!(
        ValidationError::HeadBlockHashIsZero.message(),
        "head-block-hash is zero"
    );
}

#[test]
fn a_fork_choice_walks_through_the_blockchain() {
    let state = forkchoice();
    let (phase, action) =
        process_forkchoice_updated(state, ForkchoicePhase::Start, BlockchainEvent::Started);
    assert_eq!(phase, ForkchoicePhase::MakingCanonical);
    assert!(matches!(action, ForkchoiceAction::MakeCanonical(hash) if hash == head()));

    let (phase, action) = process_forkchoice_updated(state, phase, BlockchainEvent::Canonical);
    assert_eq!(phase, ForkchoicePhase::FindingFinalized);
    assert!(matches!(
        action,
        ForkchoiceAction::SetCanonicalHeadAndFind(hash) if hash == B256::new([0x13; 32])
    ));

    let (phase, action) =
        process_forkchoice_updated(state, phase, BlockchainEvent::BlockFound { number: 30 });
    assert_eq!(phase, ForkchoicePhase::FindingSafe);
    assert!(matches!(
        action,
        ForkchoiceAction::FinalizeAndFind { number: 30, finalized, find }
            if finalized == B256::new([0x13; 32]) && find == B256::new([0x12; 32])
    ));

    let (phase, action) =
        process_forkchoice_updated(state, phase, BlockchainEvent::BlockFound { number: 35 });
    assert_eq!(phase, ForkchoicePhase::Done);
    assert!(matches!(
        action,
        ForkchoiceAction::SetSafeAndProceed(hash) if hash == B256::new([0x12; 32])
    ));

    let updated = forkchoice_applied(state, Some(PayloadId::new([7; 8])));
    assert_eq!(updated.payload_status.status, PayloadStatusEnum::Valid);
    assert_eq!(updated.payload_status.latest_valid_hash, Some(head()));
    assert_eq!(updated.payload_id, Some(PayloadId::new([7; 8])));
    assert_eq!(forkchoice_applied(state, None).payload_id, None);
}

#[test]
fn a_fork_choice_fails_where_the_blockchain_does() {
    let state = forkchoice();
    let (phase, action) = process_forkchoice_updated(
        state,
        ForkchoicePhase::MakingCanonical,
        BlockchainEvent::CanonicalFailed,
    );
    assert_eq!(phase, ForkchoicePhase::Done);
    assert!(matches!(
        action,
        ForkchoiceAction::Fail(EthApiError::MakeCanonicalFailed)
    ));

    for phase in [ForkchoicePhase::FindingFinalized, ForkchoicePhase::FindingSafe] {
        let (next, action) = process_forkchoice_updated(state, phase, BlockchainEvent::BlockUnknown);
        assert_eq!(next, ForkchoicePhase::Done);
        assert!(matches!(
            action,
            ForkchoiceAction::Fail(EthApiError::UnknownBlockHash(hash))
                if hash == B256::new([0x13; 32])
        ));
        let (next, action) = process_forkchoice_updated(state, phase, BlockchainEvent::LookupFailed);
        assert_eq!(next, ForkchoicePhase::Done);
        assert!(matches!(action, ForkchoiceAction::Fail(EthApiError::Provider)));
    }
}

#[test]
fn answers_are_put_together_from_their_parts() {
    let status = state_invalid(ValidationError::HeadBlockHashIsZero);
    let updated = new_updated(status, Some(head()), None);
    assert_eq!(updated.payload_status.status, status);
    assert_eq!(updated.payload_status.latest_valid_hash, Some(head()));
    assert_eq!(updated.payload_id, None);
}

#[test]
fn full_build_round_trip() {
    let mut engine = engine(Some(0));
    let d = deposit(0xd0);
    let u = user(0xaa, 5);

    let payload_id = engine
        .process_payload_attributes(
            forkchoice(),
            attributes(1000),
            vec![Some(d)],
            found(vec![ran(60_000, None)]),
        )
        .unwrap();
    assert!(engine.contains_payload(&payload_id));
    assert_eq!(engine.payload_count(), 1);

    let admitted = engine
        .send_raw_transaction(Some(u), nonce_in_state(5))
        .unwrap();
    assert_eq!(admitted.tx_hash, u.hash);
    assert_eq!(admitted.target, Some(payload_id));
    assert_eq!(admitted.drained.len(), 1);
    assert_eq!(admitted.drained[0].hash, u.hash);
    assert_eq!(engine.scheduled_count(), 0);
    engine.process_drained(payload_id, &admitted.drained, vec![ran(21_000, Some(3))]);

    let envelope = engine.process_get_payload(payload_id, computed(), seal).unwrap();
    assert!(!engine.contains_payload(&payload_id));

    let inner = &envelope.execution_payload.payload_inner.payload_inner;
    let body: Vec<B256> = inner.transactions.iter().map(|tx| tx.hash).collect();
    assert_eq!(body, vec![d.hash, u.hash]);
    assert_eq!(inner.block_number, 42);
    assert_eq!(inner.parent_hash, head());
    assert_eq!(envelope.parent_beacon_block_root, B256::new([0x55; 32]));
    assert_ne!(inner.block_hash, B256::zero());
    assert_eq!(inner.block_hash.bytes[0], 42);
    assert_eq!(envelope.block_value, U256::from_u64(63_000));
    assert!(!envelope.should_override_builder);
    assert_eq!(inner.gas_used, 81_000);
    assert_eq!(inner.gas_limit, 30_000_000);
    assert_eq!(inner.timestamp, 1000);
    assert_eq!(inner.fee_recipient, Address::new([0x44; 20]));
    assert_eq!(inner.prev_randao, B256::new([0x33; 32]));
    assert_eq!(inner.state_root, B256::new([0xa1; 32]));
    assert_eq!(inner.receipts_root, B256::new([0xa3; 32]));
    assert_eq!(inner.extra_data, vec![0xca, 0xfe]);
    assert_eq!(inner.base_fee_per_gas, U256::from_u64(7));
    assert!(envelope.execution_payload.payload_inner.withdrawals.is_empty());
    assert_eq!(envelope.execution_payload.blob_gas_used, 0);
    assert_eq!(envelope.execution_payload.excess_blob_gas, 0);
    assert!(envelope.blobs_bundle.blobs.is_empty());

    let verdict = new_payload(Some(inner.block_hash), true).unwrap();
    assert_eq!(verdict.status, PayloadStatusEnum::Valid);
    assert_eq!(verdict.latest_valid_hash, Some(inner.block_hash));
}

#[test]
fn the_beacon_root_is_zero_before_cancun() {
    let mut engine = engine(None);
    let payload_id = engine
        .process_payload_attributes(forkchoice(), attributes(1000), vec![], found(vec![]))
        .unwrap();
    let envelope = engine.process_get_payload(payload_id, computed(), seal).unwrap();
    assert_eq!(envelope.parent_beacon_block_root, B256::zero());
    assert_eq!(envelope.execution_payload.excess_blob_gas, 0);
    assert_eq!(envelope.block_value, U256::zero());
    assert_eq!(
        envelope.execution_payload.payload_inner.payload_inner.gas_used,
        0
    );
}

#[test]
fn an_unknown_payload_id_is_invalid() {
    let mut engine = engine(None);
    let unknown = PayloadId::new([9; 8]);
    assert!(matches!(
        engine.process_get_payload(unknown, computed(), seal),
        Err(EthApiError::InvalidParams(InvalidParams::UnknownPayloadId(id))) if id == unknown
    ));
}

#[test]
fn a_payload_that_cannot_be_sealed_is_gone() {
    let mut engine = engine(None);
    let payload_id = engine
        .process_payload_attributes(forkchoice(), attributes(1000), vec![], found(vec![]))
        .unwrap();
    assert!(matches!(
        engine.process_get_payload(payload_id, Sealing::StateRootFailed, seal),
        Err(EthApiError::InvalidParams(InvalidParams::Build(
            PayloadBuilderError::Internal
        )))
    ));
    assert_eq!(engine.payload_count(), 0);
}

#[test]
fn payload_attributes_fail_without_leaving_a_payload() {
    let mut engine = engine(None);

    assert!(matches!(
        engine.process_payload_attributes(
            forkchoice(),
            attributes(1000),
            vec![Some(deposit(1)), None],
            found(vec![ran(1, None), ran(1, None)]),
        ),
        Err(EthApiError::InvalidParams(
            InvalidParams::UndecodableTransaction
        ))
    ));
    assert!(matches!(
        engine.process_payload_attributes(
            forkchoice(),
            attributes(1000),
            vec![],
            ParentLookup::Unknown
        ),
        Err(EthApiError::UnknownBlockHash(hash)) if hash == head()
    ));
    assert!(matches!(
        engine.process_payload_attributes(
            forkchoice(),
            attributes(1000),
            vec![],
            ParentLookup::Failed
        ),
        Err(EthApiError::Provider)
    ));
    let mut blob = deposit(2);
    blob.tx_type = TxType::Eip4844;
    assert!(matches!(
        engine.process_payload_attributes(
            forkchoice(),
            attributes(1000),
            vec![Some(deposit(1)), Some(blob)],
            found(vec![ran(1, None), ran(1, None)]),
        ),
        Err(EthApiError::InvalidParams(InvalidParams::Build(
            PayloadBuilderError::BlobTransactionRejected
        )))
    ));
    let failed_before = ParentLookup::Found(FoundParent {
        parent: ParentBlock {
            hash: head(),
            number: 41,
            timestamp: 900,
            excess_blob_gas: None,
            blob_gas_used: None,
        },
        block_env: BlockEnv {
            number: 42,
            coinbase: Address::new([0x44; 20]),
            gas_limit: U256::from_u64(30_000_000),
            basefee: 7,
        },
        pre_block: PreBlock::Create2DeployerFailed,
        outcomes: vec![],
    });
    assert!(matches!(
        engine.process_payload_attributes(forkchoice(), attributes(1000), vec![], failed_before),
        Err(EthApiError::InvalidParams(InvalidParams::Build(
            PayloadBuilderError::ForceCreate2DeployerFail
        )))
    ));
    assert_eq!(engine.payload_count(), 0);
}

#[test]
fn nothing_is_drained_without_exactly_one_payload() {
    let mut engine = engine(None);
    let admitted = engine
        .send_raw_transaction(Some(user(0xaa, 0)), nonce_in_state(0))
        .unwrap();
    assert_eq!(admitted.target, None);
    assert!(admitted.drained.is_empty());
    assert_eq!(engine.scheduled_count(), 1);

    let first = engine
        .process_payload_attributes(forkchoice(), attributes(1000), vec![], found(vec![]))
        .unwrap();
    let second = engine
        .process_payload_attributes(forkchoice(), attributes(1001), vec![], found(vec![]))
        .unwrap();
    assert_ne!(first, second);
    assert_eq!(engine.payload_count(), 2);

    let admitted = engine
        .send_raw_transaction(Some(user(0xaa, 1)), nonce_in_state(77))
        .unwrap();
    assert_eq!(admitted.target, None);
    assert!(admitted.drained.is_empty());
    assert_eq!(engine.scheduled_count(), 2);

    engine.process_get_payload(second, computed(), seal).unwrap();
    let admitted = engine
        .send_raw_transaction(Some(user(0xaa, 2)), nonce_in_state(77))
        .unwrap();
    assert_eq!(admitted.target, Some(first));
    let nonces: Vec<u64> = admitted.drained.iter().map(|tx| tx.nonce).collect();
    assert_eq!(nonces, vec![0, 1, 2]);
    assert_eq!(engine.scheduled_count(), 0);
}

#[test]
fn the_same_attributes_replace_the_payload() {
    let mut engine = engine(None);
    let first = engine
        .process_payload_attributes(forkchoice(), attributes(1000), vec![], found(vec![]))
        .unwrap();
    let again = engine
        .process_payload_attributes(
            forkchoice(),
            attributes(1000),
            vec![],
            found(vec![]),
        )
        .unwrap();
    assert_eq!(first, again);
    assert_eq!(engine.payload_count(), 1);
}

#[test]
fn transactions_that_cannot_be_taken_are_refused() {
    let mut engine = engine(None);
    assert!(matches!(
        engine.send_raw_transaction(None, nonce_in_state(0)),
        Err(EthApiError::InvalidParams(
            InvalidParams::UndecodableTransaction
        ))
    ));
    let mut unsigned = user(0xaa, 0);
    unsigned.signer = None;
    assert!(matches!(
        engine.send_raw_transaction(Some(unsigned), nonce_in_state(0)),
        Err(EthApiError::TxTypeNotSupported)
    ));
    assert!(matches!(
        engine.send_raw_transaction(Some(user(0xaa, 0)), |_| Err::<Option<u64>, ()>(())),
        Err(EthApiError::Internal)
    ));
    assert!(matches!(
        engine.send_raw_transaction(Some(user(0xaa, 4)), nonce_in_state(5)),
        Err(EthApiError::InvalidParams(InvalidParams::Pool(
            PoolError::DuplicateNonce
        )))
    ));
    assert!(matches!(
        engine.send_raw_transaction(Some(user(0xaa, u64::MAX)), nonce_in_state(5)),
        Err(EthApiError::InvalidParams(InvalidParams::NonceTooHigh))
    ));
    assert_eq!(engine.scheduled_count(), 0);
}

#[test]
fn an_account_that_the_state_does_not_know_starts_at_zero() {
    let mut engine = engine(None);
    engine
        .send_raw_transaction(Some(user(0xaa, 0)), |_| Ok::<Option<u64>, ()>(None))
        .unwrap();
    assert_eq!(engine.scheduled_count(), 1);
}

#[test]
fn the_transaction_count_prefers_the_pool() {
    let mut engine = engine(None);
    let a = Address::new([0xaa; 20]);

    let count = engine.transaction_count(a, |_| Ok::<Option<u64>, ()>(Some(5)));
    assert_eq!(count, Ok(U256::from_u64(5)));
    let count = engine.transaction_count(a, |_| Ok::<Option<u64>, ()>(None));
    assert_eq!(count, Ok(U256::zero()));
    let count = engine.transaction_count(a, |_| Err::<Option<u64>, u8>(3));
    assert_eq!(count, Err(3));

    engine
        .send_raw_transaction(Some(user(0xaa, 5)), nonce_in_state(5))
        .unwrap();
    engine
        .send_raw_transaction(Some(user(0xaa, 6)), nonce_in_state(5))
        .unwrap();
    let mut asked = false;
    let count = engine.transaction_count(a, |_| {
        asked = true;
        Ok::<Option<u64>, ()>(Some(5))
    });
    assert_eq!(count, Ok(U256::from_u64(7)));
    assert!(!asked);
}

#[test]
fn a_failing_drained_transaction_does_not_stop_the_others() {
    let mut engine = engine(None);
    let payload_id = engine
        .process_payload_attributes(forkchoice(), attributes(1000), vec![], found(vec![]))
        .unwrap();
    let drained = vec![user(0xaa, 0), user(0xaa, 1), user(0xaa, 2)];
    engine.process_drained(
        payload_id,
        &drained,
        vec![ran(10, Some(1)), ExecutionOutcome::Fatal, ran(20, Some(2))],
    );
    let envelope = engine.process_get_payload(payload_id, computed(), seal).unwrap();
    let inner = &envelope.execution_payload.payload_inner.payload_inner;
    let nonces: Vec<u64> = inner.transactions.iter().map(|tx| tx.nonce).collect();
    assert_eq!(nonces, vec![0, 2]);
    assert_eq!(inner.gas_used, 30);
    assert_eq!(envelope.block_value, U256::from_u64(50));
}

#[test]
fn receipts_are_found_in_the_chain_first_then_in_the_payloads() {
    let mut engine = engine(None);
    let d = deposit(0xd0);
    engine
        .process_payload_attributes(
            forkchoice(),
            attributes(1000),
            vec![Some(d)],
            found(vec![ran(60_000, None)]),
        )
        .unwrap();

    let (tx, receipt) = engine.from_builder(d.hash).unwrap();
    assert_eq!(tx.hash, d.hash);
    assert_eq!(receipt.cumulative_gas_used, 60_000);
    assert_eq!(receipt.deposit_nonce, Some(0));
    assert!(engine.from_builder(B256::new([0x99; 32])).is_none());

    let (tx, meta, receipt) = engine
        .transaction_receipt(d.hash, Ok(None))
        .unwrap()
        .unwrap();
    assert_eq!(tx.hash, d.hash);
    assert_eq!(meta.index, 0);
    assert_eq!(meta.block_hash, B256::zero());
    assert_eq!(meta.base_fee, None);
    assert_eq!(receipt.cumulative_gas_used, 60_000);

    let stored_meta = TransactionMeta {
        tx_hash: d.hash,
        index: 4,
        block_hash: B256::new([0x21; 32]),
        block_number: 20,
        base_fee: Some(7),
        excess_blob_gas: None,
        timestamp: 500,
    };
    let stored_receipt = Receipt {
        tx_type: TxType::Deposit,
        success: false,
        cumulative_gas_used: 1,
        logs: vec![],
        deposit_nonce: None,
        deposit_receipt_version: None,
    };
    let (_, meta, receipt) = engine
        .transaction_receipt(d.hash, Ok(Some((d, stored_meta, stored_receipt))))
        .unwrap()
        .unwrap();
    assert_eq!(meta.block_number, 20);
    assert_eq!(receipt.cumulative_gas_used, 1);

    assert!(matches!(
        engine.transaction_receipt(B256::new([0x99; 32]), Ok(None)),
        Ok(None)
    ));
    assert!(matches!(
        engine.transaction_receipt(d.hash, Err(())),
        Err(EthApiError::Provider)
    ));
}

#[test]
fn a_block_that_was_not_taken_is_invalid() {
    assert!(matches!(
        new_payload(None, true),
        Err(EthApiError::InvalidParams(InvalidParams::UndecodableBlock))
    ));
    assert!(matches!(
        new_payload(Some(head()), false),
        Err(EthApiError::InvalidParams(InvalidParams::BlockRejected))
    ));
}

#[test]
fn read_through_answers_default_to_zero() {
    let engine = engine(None);
    assert_eq!(engine.chain_id(), Some(690));
    assert_eq!(engine.estimate_gas(), U256::zero());
    assert_eq!(balance(Ok(Some(U256::from_u64(9)))).unwrap(), U256::from_u64(9));
    assert_eq!(balance(Ok(None)).unwrap(), U256::zero());
    assert!(matches!(balance(Err(())), Err(EthApiError::Internal)));
    assert_eq!(block_number(Ok(Some(12))).unwrap(), U256::from_u64(12));
    assert_eq!(block_number(Ok(None)).unwrap(), U256::zero());
    assert!(matches!(block_number(Err(())), Err(EthApiError::Internal)));
    assert_eq!(decode_all(&vec![Some(deposit(1)), Some(deposit(2))]).unwrap().len(), 2);
    assert!(decode_all(&vec![Some(deposit(1)), None]).is_none());
}
