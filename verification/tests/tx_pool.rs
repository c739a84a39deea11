use redstone_sequencer::nonces::Nonces;
use redstone_sequencer::primitives::{Address, B256};
use redstone_sequencer::transaction::{Transaction, TxKind, TxType};
use redstone_sequencer::tx_pool::{PoolError, TxPool};

fn account(byte: u8) -> Address {
    Address::new([byte; 20])
}

fn transfer(signer: Address, nonce: u64) -> Transaction {
    let mut hash = [0u8; 32];
    hash[0] = signer.bytes[0];
    hash[24..].copy_from_slice(&nonce.to_be_bytes());
    Transaction {
        hash: B256::new(hash),
        nonce,
        tx_type: TxType::Eip1559,
        signer: Some(signer),
        to: TxKind::Call(account(0xee)),
        blob_gas_used: None,
    }
}

fn known(accounts: &[(Address, u64)]) -> Nonces {
    let mut nonces = Nonces::new();
    for (address, nonce) in accounts {
        let nonce = *nonce;
        nonces
            .ensure_for_address(*address, |_| Ok::<u64, String>(nonce))
            .unwrap();
    }
    nonces
}

#[test]
fn gap_fill_schedules_in_nonce_order() {
    let a = account(0xaa);
    let mut nonces = known(&[(a, 5)]);
    let mut pool = TxPool::new();

    assert_eq!(pool.add(&mut nonces, transfer(a, 7)), Ok(()));
    assert_eq!(pool.add(&mut nonces, transfer(a, 6)), Ok(()));
    assert_eq!(pool.scheduled_count(), 0);
    assert_eq!(pool.pending_count(), 2);
    assert_eq!(nonces.get(&a), Some(5));

    assert_eq!(pool.add(&mut nonces, transfer(a, 5)), Ok(()));
    assert_eq!(pool.scheduled_count(), 3);
    assert_eq!(pool.pending_count(), 0);
    assert_eq!(nonces.get(&a), Some(8));

    let drained: Vec<u64> = pool.scheduled_drain().iter().map(|tx| tx.nonce).collect();
    assert_eq!(drained, vec![5, 6, 7]);
    assert_eq!(pool.scheduled_count(), 0);
}

#[test]
fn duplicate_nonce_is_refused_and_changes_nothing() {
    let a = account(0xaa);
    let mut nonces = known(&[(a, 10)]);
    let mut pool = TxPool::new();

    assert_eq!(
        pool.add(&mut nonces, transfer(a, 9)),
        Err(PoolError::DuplicateNonce)
    );
    assert_eq!(pool.scheduled_count(), 0);
    assert_eq!(pool.pending_count(), 0);
    assert_eq!(nonces.get(&a), Some(10));
}

#[test]
fn unrecoverable_signer_is_refused() {
    let a = account(0xaa);
    let mut nonces = known(&[(a, 0)]);
    let mut pool = TxPool::new();
    let mut tx = transfer(a, 0);
    tx.signer = None;

    assert_eq!(pool.add(&mut nonces, tx), Err(PoolError::BadSignature));
    assert_eq!(pool.scheduled_count(), 0);
    assert_eq!(PoolError::BadSignature.message(), "couldn't recover signer");
}

#[test]
fn unknown_account_is_refused() {
    let a = account(0xaa);
    let b = account(0xbb);
    let mut nonces = known(&[(a, 0)]);
    let mut pool = TxPool::new();

    assert_eq!(
        pool.add(&mut nonces, transfer(b, 0)),
        Err(PoolError::UnknownNonce)
    );
    assert_eq!(nonces.get(&b), None);
    assert_eq!(pool.pending_count(), 0);
}

#[test]
fn senders_are_ordered_independently() {
    let a = account(0xaa);
    let b = account(0xbb);
    let mut nonces = known(&[(a, 3), (b, 100)]);
    let mut pool = TxPool::new();

    for tx in [
        transfer(b, 101),
        transfer(a, 4),
        transfer(b, 100),
        transfer(a, 3),
        transfer(a, 6),
        transfer(b, 102),
        transfer(a, 5),
    ] {
        assert_eq!(pool.add(&mut nonces, tx), Ok(()));
    }
    assert_eq!(nonces.get(&a), Some(7));
    assert_eq!(nonces.get(&b), Some(103));
    assert_eq!(pool.pending_count(), 0);

    let drained = pool.scheduled_drain();
    let of_a: Vec<u64> = drained
        .iter()
        .filter(|tx| tx.signer == Some(a))
        .map(|tx| tx.nonce)
        .collect();
    let of_b: Vec<u64> = drained
        .iter()
        .filter(|tx| tx.signer == Some(b))
        .map(|tx| tx.nonce)
        .collect();
    assert_eq!(of_a, vec![3, 4, 5, 6]);
    assert_eq!(of_b, vec![100, 101, 102]);

    let order: Vec<(u8, u64)> = drained
        .iter()
        .map(|tx| (tx.signer.unwrap().bytes[0], tx.nonce))
        .collect();
    assert_eq!(
        order,
        vec![
            (0xbb, 100),
            (0xbb, 101),
            (0xaa, 3),
            (0xaa, 4),
            (0xbb, 102),
            (0xaa, 5),
            (0xaa, 6)
        ]
    );
}

#[test]
fn promotion_stops_at_a_gap() {
    let a = account(0xaa);
    let mut nonces = known(&[(a, 0)]);
    let mut pool = TxPool::new();

    assert_eq!(pool.add(&mut nonces, transfer(a, 1)), Ok(()));
    assert_eq!(pool.add(&mut nonces, transfer(a, 3)), Ok(()));
    assert_eq!(pool.add(&mut nonces, transfer(a, 0)), Ok(()));

    assert_eq!(pool.scheduled_count(), 2);
    assert_eq!(pool.pending_count(), 1);
    assert_eq!(nonces.get(&a), Some(2));
}

#[test]
fn a_held_nonce_that_is_offered_twice_is_promoted_once() {
    let a = account(0xaa);
    let mut nonces = known(&[(a, 0)]);
    let mut pool = TxPool::new();

    assert_eq!(pool.add(&mut nonces, transfer(a, 1)), Ok(()));
    assert_eq!(pool.add(&mut nonces, transfer(a, 1)), Ok(()));
    assert_eq!(pool.pending_count(), 2);
    assert_eq!(pool.add(&mut nonces, transfer(a, 0)), Ok(()));

    assert_eq!(nonces.get(&a), Some(2));
    assert_eq!(pool.pending_count(), 1);
    let drained: Vec<u64> = pool.scheduled_drain().iter().map(|tx| tx.nonce).collect();
    assert_eq!(drained, vec![0, 1]);
}

#[test]
fn pop_takes_the_oldest_scheduled_transaction() {
    let a = account(0xaa);
    let mut nonces = known(&[(a, 0)]);
    let mut pool = TxPool::new();
    assert_eq!(pool.scheduled_pop().map(|tx| tx.nonce), None);

    assert_eq!(pool.add(&mut nonces, transfer(a, 0)), Ok(()));
    assert_eq!(pool.add(&mut nonces, transfer(a, 1)), Ok(()));

    assert_eq!(pool.scheduled_pop().map(|tx| tx.nonce), Some(0));
    assert_eq!(pool.scheduled_count(), 1);
    assert_eq!(pool.scheduled_pop().map(|tx| tx.nonce), Some(1));
    assert_eq!(pool.scheduled_pop().map(|tx| tx.nonce), None);
}

#[test]
fn a_drain_resumes_where_the_last_one_ended() {
    let a = account(0xaa);
    let mut nonces = known(&[(a, 20)]);
    let mut pool = TxPool::new();

    assert_eq!(pool.add(&mut nonces, transfer(a, 20)), Ok(()));
    let first: Vec<u64> = pool.scheduled_drain().iter().map(|tx| tx.nonce).collect();
    assert_eq!(pool.add(&mut nonces, transfer(a, 21)), Ok(()));
    assert_eq!(pool.add(&mut nonces, transfer(a, 22)), Ok(()));
    let second: Vec<u64> = pool.scheduled_drain().iter().map(|tx| tx.nonce).collect();

    assert_eq!(first, vec![20]);
    assert_eq!(second, vec![21, 22]);
}
