use redstone_sequencer::attributes::{RedstonePayloadAttributes, RedstonePayloadBuilderAttributes};
use redstone_sequencer::block::{empty_ommer_root_hash, Bloom, Header};
use redstone_sequencer::chain::{BlockEnv, ChainSpec, ParentBlock};
use redstone_sequencer::payload_builder::{
    build_payload, on_missing_payload, BlockRoots, Execution, ExecutionOutcome,
    PayloadBuilderError, PayloadConfig, PreBlock, RedstonePayloadBuilder, SealedParts, Sealing,
};
use redstone_sequencer::primitives::{Address, B256};
use redstone_sequencer::transaction::{Log, Transaction, TxKind, TxType, Withdrawal};
use redstone_sequencer::u256::U256;

fn chain(regolith: Option<u64>, canyon: Option<u64>, cancun: Option<u64>) -> ChainSpec {
    ChainSpec {
        chain_id: 690,
        genesis_hash: B256::new([0x01; 32]),
        optimism: true,
        regolith_time: regolith,
        canyon_time: canyon,
        cancun_time: cancun,
    }
}

fn parent() -> ParentBlock {
    ParentBlock {
        hash: B256::new([0x11; 32]),
        number: 41,
        timestamp: 900,
        excess_blob_gas: None,
        blob_gas_used: None,
    }
}

fn env() -> BlockEnv {
    BlockEnv {
        number: 42,
        coinbase: Address::new([0x44; 20]),
        gas_limit: U256::from_u64(30_000_000),
        basefee: 7,
    }
}

fn attributes(forced: Vec<Transaction>) -> RedstonePayloadBuilderAttributes {
    RedstonePayloadBuilderAttributes::try_new(
        B256::new([0x11; 32]),
        RedstonePayloadAttributes {
            timestamp: 1000,
            prev_randao: B256::new([0x33; 32]),
            suggested_fee_recipient: Address::new([0x44; 20]),
            withdrawals: None,
            parent_beacon_block_root: Some(B256::new([0x55; 32])),
            no_tx_pool: Some(true),
            gas_limit: Some(30_000_000),
        },
        forced,
    )
}

fn builder(chain_spec: ChainSpec) -> RedstonePayloadBuilder {
    RedstonePayloadBuilder::init(
        attributes(vec![]),
        chain_spec,
        parent(),
        env(),
        vec![0xca, 0xfe],
        PreBlock::Committed,
    )
    .unwrap()
}

fn tx(tx_type: TxType, hash_byte: u8) -> Transaction {
    Transaction {
        hash: B256::new([hash_byte; 32]),
        nonce: 0,
        tx_type,
        signer: Some(Address::new([0xaa; 20])),
        to: TxKind::Call(Address::new([0xee; 20])),
        blob_gas_used: None,
    }
}

fn ran(gas_used: u64, tip: Option<u128>) -> ExecutionOutcome {
    ExecutionOutcome::Executed(Execution {
        gas_used,
        success: true,
        logs: vec![Log {
            address: Address::new([0x77; 20]),
            topics: vec![B256::new([0x78; 32])],
            data: vec![1, 2, 3],
        }],
        depositor_nonce: 9,
        effective_tip: tip,
    })
}

fn roots() -> BlockRoots {
    BlockRoots {
        state_root: B256::new([0xa1; 32]),
        transactions_root: B256::new([0xa2; 32]),
        receipts_root: B256::new([0xa3; 32]),
        logs_bloom: Bloom { bytes: [0xa4; 256] },
    }
}

fn computed() -> Sealing {
    Sealing::Computed(SealedParts {
        withdrawals: Some(vec![]),
        withdrawals_root: Some(B256::new([0xa5; 32])),
        roots: roots(),
    })
}

fn seal(header: &Header) -> B256 {
    let mut hash = [0xbb; 32];
    hash[0] = header.number as u8;
    B256::new(hash)
}

#[test]
fn a_new_builder_is_empty() {
    let builder = builder(chain(None, None, None));
    assert_eq!(builder.cumulative_gas_used, 0);
    assert_eq!(builder.total_fees, U256::zero());
    assert!(builder.transactions.is_empty());
    assert!(builder.receipts.is_empty());
    assert_eq!(builder.extra_data, vec![0xca, 0xfe]);
}

#[test]
fn a_failure_before_the_first_transaction_ends_the_build() {
    for (pre_block, create2) in [
        (PreBlock::StateUnavailable, false),
        (PreBlock::BeaconRootCallFailed, false),
        (PreBlock::Create2DeployerFailed, true),
    ] {
        let started = RedstonePayloadBuilder::init(
            attributes(vec![]),
            chain(None, None, None),
            parent(),
            env(),
            vec![],
            pre_block,
        );
        match started {
            Err(PayloadBuilderError::ForceCreate2DeployerFail) => assert!(create2),
            Err(PayloadBuilderError::Internal) => assert!(!create2),
            _ => panic!("the build went on"),
        }
    }
}

#[test]
fn blob_transactions_are_rejected() {
    let mut builder = builder(chain(Some(0), Some(0), Some(0)));
    builder
        .process_transaction(tx(TxType::Eip1559, 1), false, ran(21_000, Some(2)))
        .unwrap();

    let refused = builder.process_transaction(tx(TxType::Eip4844, 2), false, ran(21_000, Some(2)));
    assert!(matches!(
        refused,
        Err(PayloadBuilderError::BlobTransactionRejected)
    ));
    assert_eq!(builder.transactions.len(), 1);
    assert_eq!(builder.receipts.len(), 1);
    assert_eq!(builder.cumulative_gas_used, 21_000);
    assert_eq!(builder.total_fees, U256::from_u64(42_000));
    assert!(matches!(
        builder.execution_request(&tx(TxType::Eip4844, 2)),
        Err(PayloadBuilderError::BlobTransactionRejected)
    ));
}

#[test]
fn a_transaction_that_the_evm_refuses_is_skipped() {
    let mut builder = builder(chain(Some(0), Some(0), Some(0)));
    builder
        .process_transaction(tx(TxType::Legacy, 1), false, ran(50_000, Some(3)))
        .unwrap();

    let skipped = builder.process_transaction(
        tx(TxType::Legacy, 2),
        false,
        ExecutionOutcome::InvalidTransaction,
    );
    assert!(matches!(skipped, Ok(None)));
    assert_eq!(builder.transactions.len(), 1);
    assert_eq!(builder.transactions[0].hash, B256::new([1; 32]));
    assert_eq!(builder.receipts.len(), 1);
    assert_eq!(builder.cumulative_gas_used, 50_000);
    assert_eq!(builder.total_fees, U256::from_u64(150_000));
}

#[test]
fn failures_leave_the_builder_as_it_was() {
    let mut builder = builder(chain(Some(0), Some(0), Some(0)));
    let mut unsigned = tx(TxType::Legacy, 1);
    unsigned.signer = None;

    assert!(matches!(
        builder.process_transaction(unsigned, false, ran(1, Some(1))),
        Err(PayloadBuilderError::TransactionEcRecoverFailed)
    ));
    assert!(matches!(
        builder.process_transaction(tx(TxType::Deposit, 2), true, ExecutionOutcome::AccountLoadFailed),
        Err(PayloadBuilderError::AccountLoadFailed(address)) if address == Address::new([0xaa; 20])
    ));
    assert!(matches!(
        builder.process_transaction(tx(TxType::Legacy, 3), false, ExecutionOutcome::Fatal),
        Err(PayloadBuilderError::EvmExecutionError)
    ));
    assert!(builder.transactions.is_empty());
    assert!(builder.receipts.is_empty());
    assert_eq!(builder.cumulative_gas_used, 0);
    assert_eq!(builder.total_fees, U256::zero());
}

#[test]
fn every_success_adds_a_receipt_with_the_running_gas_total() {
    let mut builder = builder(chain(None, None, None));
    let gas = [21_000u64, 0, 100_000, 55_555];
    let mut total = 0;
    for (k, gas_used) in gas.iter().enumerate() {
        let receipt = builder
            .process_transaction(tx(TxType::Eip1559, k as u8), true, ran(*gas_used, None))
            .unwrap()
            .unwrap();
        total += gas_used;
        assert_eq!(receipt.cumulative_gas_used, total);
        assert_eq!(builder.receipts.len(), k + 1);
        assert_eq!(builder.transactions.len(), k + 1);
        assert_eq!(builder.cumulative_gas_used, total);
        assert_eq!(
            builder.receipts.last().unwrap().cumulative_gas_used,
            builder.cumulative_gas_used
        );
    }
    let totals: Vec<u64> = builder
        .receipts
        .iter()
        .map(|receipt| receipt.cumulative_gas_used)
        .collect();
    assert_eq!(totals, vec![21_000, 21_000, 121_000, 176_555]);
    assert_eq!(builder.total_fees, U256::zero());
}

#[test]
fn fees_are_the_tip_times_the_gas() {
    let mut builder = builder(chain(None, None, None));
    builder
        .process_transaction(tx(TxType::Eip1559, 1), false, ran(21_000, Some(1_000_000_007)))
        .unwrap();
    assert_eq!(builder.total_fees, U256::from_u128(21_000_000_147_000));

    builder
        .process_transaction(tx(TxType::Deposit, 2), true, ran(1_000_000, Some(5)))
        .unwrap();
    assert_eq!(builder.total_fees, U256::from_u128(21_000_000_147_000));

    builder
        .process_transaction(tx(TxType::Eip1559, 3), false, ran(u64::MAX - 1_021_000, Some(u128::MAX)))
        .unwrap();
    let product = U256 {
        l0: 1_021_001,
        l1: u64::MAX,
        l2: u64::MAX - 1_021_001,
        l3: 0,
    };
    assert_eq!(product.l3, 0);
    let expected = U256 {
        l0: 1_021_001 + 21_000_000_147_000,
        l1: u64::MAX,
        l2: u64::MAX - 1_021_001,
        l3: 0,
    };
    assert_eq!(builder.total_fees, expected);
}

#[test]
fn deposit_receipts_follow_the_forks() {
    let mut before = builder(chain(None, None, None));
    let receipt = before
        .process_transaction(tx(TxType::Deposit, 1), true, ran(10, None))
        .unwrap()
        .unwrap();
    assert_eq!(receipt.deposit_nonce, None);
    assert_eq!(receipt.deposit_receipt_version, None);
    assert!(!before.execution_request(&tx(TxType::Deposit, 1)).unwrap().load_depositor);

    let mut regolith = builder(chain(Some(1000), Some(1001), None));
    let receipt = regolith
        .process_transaction(tx(TxType::Deposit, 1), true, ran(10, None))
        .unwrap()
        .unwrap();
    assert_eq!(receipt.deposit_nonce, Some(9));
    assert_eq!(receipt.deposit_receipt_version, None);
    assert_eq!(receipt.tx_type, TxType::Deposit);
    assert!(receipt.success);
    assert_eq!(receipt.logs.len(), 1);
    let request = regolith.execution_request(&tx(TxType::Deposit, 1)).unwrap();
    assert!(request.load_depositor);
    assert_eq!(request.signer, Address::new([0xaa; 20]));
    assert!(!regolith.execution_request(&tx(TxType::Legacy, 1)).unwrap().load_depositor);

    let mut canyon = builder(chain(Some(0), Some(1000), None));
    let receipt = canyon
        .process_transaction(tx(TxType::Legacy, 1), true, ran(10, None))
        .unwrap()
        .unwrap();
    assert_eq!(receipt.deposit_nonce, None);
    assert_eq!(receipt.deposit_receipt_version, Some(1));
}

#[test]
fn a_fresh_builder_seals_to_an_empty_block() {
    let payload = builder(chain(Some(0), Some(0), None))
        .into_payload(computed(), seal)
        .unwrap();

    let header = &payload.block.header;
    assert_eq!(header.gas_used, 0);
    assert_eq!(header.transactions_root, B256::new([0xa2; 32]));
    assert_eq!(header.receipts_root, B256::new([0xa3; 32]));
    assert!(payload.block.body.is_empty());
    assert_eq!(payload.fees, U256::zero());
    assert!(payload.sidecars.is_empty());
    assert!(payload.block.ommers.is_empty());
}

#[test]
fn the_header_is_assembled_from_the_builder() {
    let mut builder = builder(chain(Some(0), Some(0), None));
    builder
        .process_transaction(tx(TxType::Eip1559, 1), false, ran(21_000, Some(2)))
        .unwrap();
    let id = builder.attributes.id;
    let payload = builder.into_payload(computed(), seal).unwrap();

    let header = &payload.block.header;
    assert_eq!(header.parent_hash, B256::new([0x11; 32]));
    assert_eq!(header.ommers_hash, empty_ommer_root_hash());
    assert_eq!(header.ommers_hash.bytes[..4], [0x1d, 0xcc, 0x4d, 0xe8]);
    assert_eq!(header.beneficiary, Address::new([0x44; 20]));
    assert_eq!(header.state_root, B256::new([0xa1; 32]));
    assert_eq!(header.transactions_root, B256::new([0xa2; 32]));
    assert_eq!(header.receipts_root, B256::new([0xa3; 32]));
    assert_eq!(header.withdrawals_root, Some(B256::new([0xa5; 32])));
    assert_eq!(header.logs_bloom.bytes, [0xa4; 256]);
    assert_eq!(header.timestamp, 1000);
    assert_eq!(header.mix_hash, B256::new([0x33; 32]));
    assert_eq!(header.nonce, 0);
    assert_eq!(header.base_fee_per_gas, Some(7));
    assert_eq!(header.number, 42);
    assert_eq!(header.gas_limit, 30_000_000);
    assert_eq!(header.difficulty, U256::zero());
    assert_eq!(header.extra_data, vec![0xca, 0xfe]);
    assert_eq!(header.parent_beacon_block_root, Some(B256::new([0x55; 32])));
    assert_eq!(header.blob_gas_used, None);
    assert_eq!(header.excess_blob_gas, None);
    assert_eq!(header.gas_used, 21_000);

    assert_eq!(payload.id, id);
    assert_eq!(payload.block.hash.bytes[0], 42);
    assert_eq!(payload.block.hash.bytes[1], 0xbb);
    assert_eq!(payload.block.body.len(), 1);
    assert_eq!(payload.block.withdrawals.as_ref().map(|w| w.len()), Some(0));
    assert_eq!(payload.fees, U256::from_u64(42_000));
    assert_eq!(payload.block().hash, payload.block.hash);
    assert_eq!(payload.fees(), U256::from_u64(42_000));
    assert_eq!(payload.chain_spec.chain_id, 690);
}

#[test]
fn a_gas_limit_beyond_u64_is_capped() {
    let started = RedstonePayloadBuilder::init(
        attributes(vec![]),
        chain(None, None, None),
        parent(),
        BlockEnv {
            gas_limit: U256 { l0: 5, l1: 1, l2: 0, l3: 0 },
            ..env()
        },
        vec![],
        PreBlock::Committed,
    )
    .unwrap();
    let payload = started.into_payload(computed(), seal).unwrap();
    assert_eq!(payload.block.header.gas_limit, u64::MAX);
}

fn sealed_blob_fields(cancun: Option<u64>, parent: ParentBlock) -> (Option<u64>, Option<u64>) {
    let started = RedstonePayloadBuilder::init(
        attributes(vec![]),
        chain(Some(0), Some(0), cancun),
        parent,
        env(),
        vec![],
        PreBlock::Committed,
    )
    .unwrap();
    let payload = started.into_payload(computed(), seal).unwrap();
    (
        payload.block.header.excess_blob_gas,
        payload.block.header.blob_gas_used,
    )
}

#[test]
fn blob_gas_fields_follow_cancun() {
    assert_eq!(sealed_blob_fields(None, parent()), (None, None));
    assert_eq!(sealed_blob_fields(Some(1001), parent()), (None, None));
    // Cancun starts with this block: the parent, at 900, is before it.
    assert_eq!(sealed_blob_fields(Some(1000), parent()), (Some(0), Some(0)));
    // Cancun was active in the parent already.
    assert_eq!(sealed_blob_fields(Some(900), parent()), (Some(0), Some(0)));
    let busy = ParentBlock {
        excess_blob_gas: Some(500_000),
        blob_gas_used: Some(393_216 + 131_072),
        ..parent()
    };
    assert_eq!(
        sealed_blob_fields(Some(900), busy),
        (Some(500_000 + 131_072), Some(0))
    );
    let quiet = ParentBlock {
        excess_blob_gas: Some(100),
        blob_gas_used: Some(131_072),
        ..parent()
    };
    assert_eq!(sealed_blob_fields(Some(900), quiet), (Some(0), Some(0)));
    let half = ParentBlock {
        excess_blob_gas: None,
        blob_gas_used: Some(393_217),
        ..parent()
    };
    assert_eq!(sealed_blob_fields(Some(900), half), (Some(1), Some(0)));
}

#[test]
fn sealing_fails_where_the_state_failed() {
    for sealing in [Sealing::WithdrawalsFailed, Sealing::StateRootFailed] {
        let built = builder(chain(None, None, None)).into_payload(sealing, seal);
        assert!(matches!(built, Err(PayloadBuilderError::Internal)));
    }
}

#[test]
fn withdrawals_of_the_sealing_enter_the_block() {
    let withdrawal = Withdrawal {
        index: 3,
        validator_index: 4,
        address: Address::new([0x66; 20]),
        amount: 5,
    };
    let sealing = Sealing::Computed(SealedParts {
        withdrawals: Some(vec![withdrawal]),
        withdrawals_root: None,
        roots: roots(),
    });
    let payload = builder(chain(None, None, None))
        .into_payload(sealing, seal)
        .unwrap();
    let withdrawals = payload.block.withdrawals.unwrap();
    assert_eq!(withdrawals.len(), 1);
    assert_eq!(withdrawals[0].index, 3);
    assert_eq!(withdrawals[0].amount, 5);
    assert_eq!(payload.block.header.withdrawals_root, None);
}

#[test]
fn a_strict_run_ends_at_the_first_failure() {
    let mut builder = builder(chain(None, None, None));
    let txs = vec![
        tx(TxType::Legacy, 1),
        tx(TxType::Legacy, 2),
        tx(TxType::Eip4844, 3),
        tx(TxType::Legacy, 4),
    ];
    let outcomes = vec![
        ran(10, None),
        ExecutionOutcome::InvalidTransaction,
        ran(10, None),
        ran(10, None),
    ];
    let processed = builder.process_each(&txs, outcomes, true, false);
    assert!(matches!(
        processed,
        Err(PayloadBuilderError::BlobTransactionRejected)
    ));
    assert_eq!(builder.transactions.len(), 1);
    assert_eq!(builder.cumulative_gas_used, 10);
}

#[test]
fn a_lenient_run_passes_over_failures() {
    let mut builder = builder(chain(None, None, None));
    let txs = vec![
        tx(TxType::Legacy, 1),
        tx(TxType::Eip4844, 2),
        tx(TxType::Legacy, 3),
        tx(TxType::Legacy, 4),
        tx(TxType::Legacy, 5),
    ];
    let outcomes = vec![
        ran(10, Some(1)),
        ran(10, Some(1)),
        ExecutionOutcome::Fatal,
        ExecutionOutcome::InvalidTransaction,
        ran(30, Some(2)),
    ];
    let processed = builder.process_each(&txs, outcomes, false, true);
    assert!(processed.is_ok());
    let hashes: Vec<u8> = builder.transactions.iter().map(|tx| tx.hash.bytes[0]).collect();
    assert_eq!(hashes, vec![1, 5]);
    assert_eq!(builder.cumulative_gas_used, 40);
    assert_eq!(builder.total_fees, U256::from_u64(70));
    let (last, receipt) = builder.transaction_with_receipt(1);
    assert_eq!(last.hash, B256::new([5; 32]));
    assert_eq!(receipt.cumulative_gas_used, 40);
}

fn config(forced: Vec<Transaction>) -> PayloadConfig {
    PayloadConfig {
        initialized_block_env: env(),
        parent_block: parent(),
        attributes: attributes(forced),
        chain_spec: chain(Some(0), Some(0), None),
        extra_data: vec![0x0e],
    }
}

#[test]
fn a_payload_is_built_in_one_go() {
    let built = build_payload(
        config(vec![tx(TxType::Deposit, 1), tx(TxType::Deposit, 2)]),
        PreBlock::Committed,
        vec![ran(100, None), ExecutionOutcome::InvalidTransaction],
        vec![tx(TxType::Legacy, 3)],
        vec![ran(50, Some(4))],
        computed(),
        seal,
    )
    .unwrap();

    let hashes: Vec<u8> = built.block.body.iter().map(|tx| tx.hash.bytes[0]).collect();
    assert_eq!(hashes, vec![1, 3]);
    assert_eq!(built.block.header.gas_used, 150);
    assert_eq!(built.block.header.number, 42);
    assert_eq!(built.block.header.extra_data, vec![0x0e]);
    assert_eq!(built.fees, U256::zero());
    assert_eq!(built.attributes.transactions.len(), 2);
}

#[test]
fn a_build_in_one_go_ends_at_the_first_failure() {
    let failed = build_payload(
        config(vec![tx(TxType::Deposit, 1)]),
        PreBlock::Committed,
        vec![ExecutionOutcome::Fatal],
        vec![tx(TxType::Legacy, 3)],
        vec![ran(50, Some(4))],
        computed(),
        seal,
    );
    assert!(matches!(failed, Err(PayloadBuilderError::EvmExecutionError)));

    let failed = build_payload(
        config(vec![]),
        PreBlock::BeaconRootCallFailed,
        vec![],
        vec![],
        vec![],
        computed(),
        seal,
    );
    assert!(matches!(failed, Err(PayloadBuilderError::Internal)));

    let failed = build_payload(
        config(vec![]),
        PreBlock::Committed,
        vec![],
        vec![tx(TxType::Eip4844, 3)],
        vec![ran(50, Some(4))],
        computed(),
        seal,
    );
    assert!(matches!(
        failed,
        Err(PayloadBuilderError::BlobTransactionRejected)
    ));
}

#[test]
fn a_missing_payload_is_built_only_without_the_pool() {
    let mut calls = 0;
    let none = on_missing_payload(false, || {
        calls += 1;
        builder(chain(None, None, None)).into_payload(computed(), seal)
    });
    assert!(none.is_none());
    assert_eq!(calls, 0);

    let some = on_missing_payload(true, || {
        builder(chain(None, None, None)).into_payload(computed(), seal)
    });
    assert_eq!(some.unwrap().block.header.number, 42);

    let failed = on_missing_payload(true, || {
        builder(chain(None, None, None)).into_payload(Sealing::StateRootFailed, seal)
    });
    assert!(failed.is_none());
}

#[test]
fn errors_say_what_happened() {
    assert_eq!(
        PayloadBuilderError::BlobTransactionRejected.message(),
        "blob transaction included in sequencer block"
    );
    assert_eq!(
        PayloadBuilderError::MissingParentBlock(B256::zero()).message(),
        "missing parent block"
    );
}
