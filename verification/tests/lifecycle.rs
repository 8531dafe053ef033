use std::collections::hash_map::DefaultHasher;
use std::collections::HashMap;
use std::hash::{Hash, Hasher};
use transaction_processor::books::Outcome;
use transaction_processor::client_account::ClientAccount;
use transaction_processor::processor::Proccessor;
use transaction_processor::shard::shard_index;
use transaction_processor::transaction::{
    DisputeStatus, Transaction, TransactionState, TransactionType,
};

type Accounts = Vec<HashMap<u16, ClientAccount>>;
type Ledger = Vec<HashMap<u32, TransactionState>>;

fn record(transaction_type: TransactionType, client: u16, tx: u32, amount: Option<u64>) -> Transaction {
    Transaction { transaction_type, client, tx, amount }
}

fn deposit(client: u16, tx: u32, amount: u64) -> Transaction {
    record(TransactionType::Deposit, client, tx, Some(amount))
}

fn withdrawal(client: u16, tx: u32, amount: u64) -> Transaction {
    record(TransactionType::Withdrawal, client, tx, Some(amount))
}

fn dispute(client: u16, tx: u32) -> Transaction {
    record(TransactionType::Dispute, client, tx, None)
}

fn resolve(client: u16, tx: u32) -> Transaction {
    record(TransactionType::Resolve, client, tx, None)
}

fn chargeback(client: u16, tx: u32) -> Transaction {
    record(TransactionType::Chargeback, client, tx, None)
}

fn books(shards: usize) -> (Accounts, Ledger) {
    (Proccessor::new_sharded_db(shards), Proccessor::new_sharded_db(shards))
}

fn run(shards: usize, records: &[Transaction]) -> (Accounts, Ledger, Vec<Outcome>) {
    let mut processor = Proccessor::new();
    let (mut accounts, mut ledger) = books(shards);
    let mut outcomes = Vec::new();
    for r in records {
        outcomes.push(processor.process_transaction(*r, &mut accounts, &mut ledger));
    }
    (accounts, ledger, outcomes)
}

fn entries(ledger: &Ledger) -> usize {
    ledger.iter().map(|shard| shard.len()).sum()
}

fn entry(ledger: &Ledger, tx: u32) -> Option<TransactionState> {
    ledger.iter().find_map(|shard| shard.get(&tx).copied())
}

fn balances(client: u16, available: i64, held: i64, total: i64, locked: bool) -> ClientAccount {
    ClientAccount { client, available, held, total, locked }
}

#[test]
fn new_sharded_db_has_the_shards_asked_for_all_empty() {
    let db: Vec<HashMap<u16, ClientAccount>> = Proccessor::new_sharded_db(16);
    assert_eq!(db.len(), 16);
    assert!(db.iter().all(|shard| shard.is_empty()));
    let none: Vec<HashMap<u32, TransactionState>> = Proccessor::new_sharded_db(0);
    assert!(none.is_empty());
}

#[test]
fn shard_index_is_the_default_hash_modulo_the_shard_count() {
    for client in [0u16, 1, 2, 7, 255, 256, 4_242, 65_535] {
        for shards in [1usize, 2, 3, 16, 1_000] {
            let mut hasher = DefaultHasher::new();
            client.hash(&mut hasher);
            let expected = (hasher.finish() % shards as u64) as usize;
            assert_eq!(shard_index(client, shards), expected);
            assert!(shard_index(client, shards) < shards);
        }
        assert_eq!(shard_index(client, 1), 0);
    }
}

#[test]
fn shard_index_depends_on_the_client() {
    let first = shard_index(0, 16);
    assert!((1..=999u16).any(|client| shard_index(client, 16) != first));
    let empty_hash = (DefaultHasher::new().finish() % 16) as usize;
    assert!((0..=999u16).any(|client| shard_index(client, 16) != empty_hash));
}

#[test]
fn deposit_creates_the_account_and_records_the_transaction() {
    let (accounts, ledger, outcomes) = run(4, &[deposit(5, 10, 12_345)]);
    assert_eq!(outcomes, vec![Outcome::Applied]);
    let processor = Proccessor::new();
    assert_eq!(
        processor.get_client_account(5, &accounts),
        balances(5, 12_345, 0, 12_345, false)
    );
    assert_eq!(entries(&ledger), 1);
    assert_eq!(
        entry(&ledger, 10),
        Some(TransactionState { client: 5, amount: Some(12_345), status: DisputeStatus::Recorded })
    );
}

#[test]
fn records_go_to_the_shards_of_their_client_only() {
    let (accounts, ledger, _) = run(16, &[deposit(5, 10, 100), withdrawal(5, 11, 30)]);
    let home = shard_index(5, 16);
    for (i, shard) in accounts.iter().enumerate() {
        assert_eq!(shard.len(), if i == home { 1 } else { 0 });
    }
    for (i, shard) in ledger.iter().enumerate() {
        assert_eq!(shard.len(), if i == home { 2 } else { 0 });
    }
    assert_eq!(accounts[home][&5], balances(5, 70, 0, 70, false));
}

#[test]
fn account_and_ledger_may_have_different_shard_counts() {
    let mut processor = Proccessor::new();
    let mut accounts: Accounts = Proccessor::new_sharded_db(3);
    let mut ledger: Ledger = Proccessor::new_sharded_db(5);
    processor.process_transaction(deposit(9, 1, 50), &mut accounts, &mut ledger);
    processor.process_transaction(dispute(9, 1), &mut accounts, &mut ledger);
    assert_eq!(accounts[shard_index(9, 3)][&9], balances(9, 0, 50, 50, false));
    assert_eq!(ledger[shard_index(9, 5)][&1].status, DisputeStatus::Disputed);
}

#[test]
fn withdrawal_from_a_new_account_is_applied() {
    let (accounts, ledger, outcomes) = run(1, &[withdrawal(2, 1, 30_000)]);
    assert_eq!(outcomes, vec![Outcome::Applied]);
    assert_eq!(accounts[0][&2], balances(2, -30_000, 0, -30_000, false));
    assert_eq!(entries(&ledger), 1);
}

#[test]
fn withdrawal_beyond_available_leaves_a_negative_balance() {
    let (accounts, _, outcomes) = run(1, &[deposit(2, 1, 10_000), withdrawal(2, 2, 25_000)]);
    assert_eq!(outcomes, vec![Outcome::Applied, Outcome::Applied]);
    assert_eq!(accounts[0][&2], balances(2, -15_000, 0, -15_000, false));
}

#[test]
fn absent_amount_counts_as_zero() {
    let (accounts, ledger, outcomes) = run(
        1,
        &[
            record(TransactionType::Deposit, 3, 1, None),
            record(TransactionType::Withdrawal, 3, 2, None),
            dispute(3, 1),
        ],
    );
    assert_eq!(outcomes, vec![Outcome::Applied, Outcome::Applied, Outcome::Applied]);
    assert_eq!(accounts[0][&3], balances(3, 0, 0, 0, false));
    assert_eq!(
        entry(&ledger, 1),
        Some(TransactionState { client: 3, amount: None, status: DisputeStatus::Disputed })
    );
}

#[test]
fn dispute_holds_the_recorded_amount_not_its_own() {
    let (accounts, _, outcomes) = run(
        1,
        &[deposit(1, 1, 20_000), record(TransactionType::Dispute, 1, 1, Some(5))],
    );
    assert_eq!(outcomes, vec![Outcome::Applied, Outcome::Applied]);
    assert_eq!(accounts[0][&1], balances(1, 0, 20_000, 20_000, false));
}

#[test]
fn dispute_of_a_withdrawal_moves_its_amount_to_held() {
    let (accounts, _, outcomes) =
        run(1, &[deposit(1, 1, 50), withdrawal(1, 2, 20), dispute(1, 2)]);
    assert_eq!(outcomes, vec![Outcome::Applied; 3]);
    assert_eq!(accounts[0][&1], balances(1, 10, 20, 30, false));
}

#[test]
fn replayed_deposit_is_recorded_once() {
    let (accounts, ledger, outcomes) = run(8, &[deposit(1, 1, 20_000), deposit(1, 1, 20_000)]);
    assert_eq!(outcomes, vec![Outcome::Applied, Outcome::Applied]);
    assert_eq!(entries(&ledger), 1);
    assert_eq!(
        entry(&ledger, 1),
        Some(TransactionState { client: 1, amount: Some(20_000), status: DisputeStatus::Recorded })
    );
    let processor = Proccessor::new();
    assert_eq!(
        processor.get_client_account(1, &accounts),
        balances(1, 40_000, 0, 40_000, false)
    );
}

#[test]
fn first_record_of_an_identifier_is_never_overwritten() {
    let (accounts, ledger, outcomes) = run(
        1,
        &[deposit(1, 1, 100), dispute(1, 1), withdrawal(1, 1, 7), deposit(1, 1, 900)],
    );
    assert_eq!(outcomes, vec![Outcome::Applied; 4]);
    assert_eq!(entries(&ledger), 1);
    assert_eq!(
        entry(&ledger, 1),
        Some(TransactionState { client: 1, amount: Some(100), status: DisputeStatus::Disputed })
    );
    assert_eq!(accounts[0][&1], balances(1, 893, 100, 993, false));
}

#[test]
fn dispute_after_resolve_has_no_effect() {
    let (accounts, ledger, outcomes) = run(
        1,
        &[deposit(1, 1, 20_000), dispute(1, 1), resolve(1, 1), dispute(1, 1)],
    );
    assert_eq!(
        outcomes,
        vec![Outcome::Applied, Outcome::Applied, Outcome::Applied, Outcome::UnknownTransaction]
    );
    assert_eq!(accounts[0][&1], balances(1, 20_000, 0, 20_000, false));
    assert_eq!(entries(&ledger), 0);
}

#[test]
fn chargeback_after_resolve_has_no_effect() {
    let (accounts, _, outcomes) = run(
        1,
        &[deposit(1, 1, 20_000), dispute(1, 1), resolve(1, 1), chargeback(1, 1)],
    );
    assert_eq!(outcomes[3], Outcome::UnknownTransaction);
    assert_eq!(accounts[0][&1], balances(1, 20_000, 0, 20_000, false));
}

#[test]
fn unknown_reference_changes_nothing() {
    for shards in [1usize, 16] {
        let (accounts, ledger, outcomes) = run(shards, &[dispute(1, 999)]);
        assert_eq!(outcomes, vec![Outcome::UnknownTransaction]);
        assert!(accounts.iter().all(|shard| shard.is_empty()));
        assert!(ledger.iter().all(|shard| shard.is_empty()));
        assert!(Proccessor::new().snapshot(&accounts).is_empty());
    }
}

#[test]
fn unknown_reference_leaves_existing_accounts_alone() {
    let (accounts, ledger, outcomes) = run(
        1,
        &[deposit(1, 1, 500), dispute(1, 999), resolve(1, 999), chargeback(1, 999)],
    );
    assert_eq!(
        outcomes,
        vec![
            Outcome::Applied,
            Outcome::UnknownTransaction,
            Outcome::UnknownTransaction,
            Outcome::UnknownTransaction
        ]
    );
    assert_eq!(accounts[0].len(), 1);
    assert_eq!(accounts[0][&1], balances(1, 500, 0, 500, false));
    assert_eq!(entries(&ledger), 1);
}

#[test]
fn reference_to_another_clients_transaction_is_dropped() {
    let (accounts, ledger, outcomes) = run(
        1,
        &[deposit(1, 1, 500), deposit(2, 2, 300), dispute(2, 1), resolve(2, 1), chargeback(2, 1)],
    );
    assert_eq!(
        outcomes,
        vec![
            Outcome::Applied,
            Outcome::Applied,
            Outcome::ClientMismatch,
            Outcome::ClientMismatch,
            Outcome::ClientMismatch
        ]
    );
    assert_eq!(accounts[0][&1], balances(1, 500, 0, 500, false));
    assert_eq!(accounts[0][&2], balances(2, 300, 0, 300, false));
    assert_eq!(entry(&ledger, 1).map(|e| e.status), Some(DisputeStatus::Recorded));
}

#[test]
fn second_dispute_is_dropped() {
    let (accounts, ledger, outcomes) =
        run(1, &[deposit(1, 1, 20_000), dispute(1, 1), dispute(1, 1)]);
    assert_eq!(
        outcomes,
        vec![Outcome::Applied, Outcome::Applied, Outcome::InvalidTransition]
    );
    assert_eq!(accounts[0][&1], balances(1, 0, 20_000, 20_000, false));
    assert_eq!(entry(&ledger, 1).map(|e| e.status), Some(DisputeStatus::Disputed));
}

#[test]
fn resolve_or_chargeback_without_dispute_is_dropped() {
    let (accounts, ledger, outcomes) =
        run(1, &[deposit(1, 1, 20_000), resolve(1, 1), chargeback(1, 1)]);
    assert_eq!(
        outcomes,
        vec![Outcome::Applied, Outcome::InvalidTransition, Outcome::InvalidTransition]
    );
    assert_eq!(accounts[0][&1], balances(1, 20_000, 0, 20_000, false));
    assert_eq!(entry(&ledger, 1).map(|e| e.status), Some(DisputeStatus::Recorded));
}

#[test]
fn charged_back_transaction_stays_in_the_ledger_and_is_final() {
    let (accounts, ledger, outcomes) = run(
        1,
        &[
            deposit(1, 1, 20_000),
            dispute(1, 1),
            chargeback(1, 1),
            chargeback(1, 1),
            dispute(1, 1),
            resolve(1, 1),
        ],
    );
    assert_eq!(
        outcomes,
        vec![
            Outcome::Applied,
            Outcome::Applied,
            Outcome::Applied,
            Outcome::InvalidTransition,
            Outcome::InvalidTransition,
            Outcome::InvalidTransition
        ]
    );
    assert_eq!(accounts[0][&1], balances(1, 0, 0, 0, true));
    assert_eq!(
        entry(&ledger, 1),
        Some(TransactionState {
            client: 1,
            amount: Some(20_000),
            status: DisputeStatus::ChargedBack
        })
    );
}

#[test]
fn locked_account_still_takes_deposits() {
    let (accounts, _, outcomes) = run(
        1,
        &[deposit(1, 1, 20_000), dispute(1, 1), chargeback(1, 1), deposit(1, 2, 700)],
    );
    assert_eq!(outcomes, vec![Outcome::Applied; 4]);
    assert_eq!(accounts[0][&1], balances(1, 700, 0, 700, true));
}

#[test]
fn deposit_out_of_range_is_dropped_whole() {
    let (accounts, ledger, outcomes) = run(4, &[deposit(1, 1, u64::MAX)]);
    assert_eq!(outcomes, vec![Outcome::OutOfRange]);
    assert!(accounts.iter().all(|shard| shard.is_empty()));
    assert_eq!(entries(&ledger), 0);

    let (accounts, ledger, outcomes) =
        run(1, &[deposit(1, 1, i64::MAX as u64), deposit(1, 2, 1), withdrawal(1, 3, 1)]);
    assert_eq!(outcomes, vec![Outcome::Applied, Outcome::OutOfRange, Outcome::Applied]);
    assert_eq!(accounts[0][&1], balances(1, i64::MAX - 1, 0, i64::MAX - 1, false));
    assert_eq!(entry(&ledger, 2), None);
    assert_eq!(entries(&ledger), 2);
}

#[test]
fn dispute_out_of_range_is_dropped_whole() {
    let (accounts, ledger, outcomes) = run(
        1,
        &[
            deposit(1, 1, i64::MAX as u64),
            dispute(1, 1),
            withdrawal(1, 2, 5),
            deposit(1, 3, 5),
            deposit(1, 4, 5),
            dispute(1, 4),
        ],
    );
    assert_eq!(
        outcomes,
        vec![
            Outcome::Applied,
            Outcome::Applied,
            Outcome::Applied,
            Outcome::Applied,
            Outcome::OutOfRange,
            Outcome::UnknownTransaction
        ]
    );
    assert_eq!(accounts[0][&1], balances(1, 0, i64::MAX, i64::MAX, false));
    let (accounts, ledger2, outcomes) = run(
        1,
        &[deposit(1, 1, i64::MAX as u64), dispute(1, 1), withdrawal(1, 2, 5), dispute(1, 2)],
    );
    assert_eq!(outcomes[3], Outcome::OutOfRange);
    assert_eq!(accounts[0][&1], balances(1, -5, i64::MAX, i64::MAX - 5, false));
    assert_eq!(entry(&ledger2, 2).map(|e| e.status), Some(DisputeStatus::Recorded));
    assert_eq!(entries(&ledger), 3);
}

#[test]
fn apply_works_on_one_account_shard_and_one_ledger_shard() {
    let mut processor = Proccessor::new();
    let mut accounts: HashMap<u16, ClientAccount> = HashMap::new();
    let mut ledger: HashMap<u32, TransactionState> = HashMap::new();
    assert_eq!(processor.apply(&deposit(4, 1, 900), &mut accounts, &mut ledger), Outcome::Applied);
    assert_eq!(processor.apply(&dispute(4, 1), &mut accounts, &mut ledger), Outcome::Applied);
    assert_eq!(accounts[&4], balances(4, 0, 900, 900, false));
    assert_eq!(processor.apply(&resolve(4, 1), &mut accounts, &mut ledger), Outcome::Applied);
    assert_eq!(accounts[&4], balances(4, 900, 0, 900, false));
    assert!(ledger.is_empty());
    assert_eq!(
        processor.apply(&resolve(4, 1), &mut accounts, &mut ledger),
        Outcome::UnknownTransaction
    );
}

#[test]
fn apply_creates_a_missing_account_for_a_known_transaction() {
    let mut processor = Proccessor::new();
    let mut accounts: HashMap<u16, ClientAccount> = HashMap::new();
    let mut ledger: HashMap<u32, TransactionState> = HashMap::new();
    ledger.insert(
        1,
        TransactionState { client: 4, amount: Some(30), status: DisputeStatus::Recorded },
    );
    assert_eq!(processor.apply(&dispute(4, 1), &mut accounts, &mut ledger), Outcome::Applied);
    assert_eq!(accounts[&4], balances(4, -30, 30, 0, false));
}

#[test]
fn snapshot_lists_every_account_by_ascending_client() {
    let (accounts, _, _) = run(
        16,
        &[
            deposit(300, 1, 10),
            deposit(2, 2, 20),
            deposit(65_535, 3, 30),
            deposit(0, 4, 40),
            withdrawal(2, 5, 5),
            dispute(300, 1),
        ],
    );
    let processor = Proccessor::new();
    assert_eq!(
        processor.snapshot(&accounts),
        vec![
            balances(0, 40, 0, 40, false),
            balances(2, 15, 0, 15, false),
            balances(300, 0, 10, 10, false),
            balances(65_535, 30, 0, 30, false),
        ]
    );
    assert_eq!(processor.get_client_account(300, &accounts), balances(300, 0, 10, 10, false));
}

#[test]
fn snapshot_of_no_shards_is_empty() {
    let none: Accounts = Proccessor::new_sharded_db(0);
    assert!(Proccessor::new().snapshot(&none).is_empty());
}

fn mixed_records() -> Vec<Transaction> {
    let mut records = Vec::new();
    let mut tx: u32 = 0;
    for client in 1..=40u16 {
        let base = tx;
        records.push(deposit(client, base + 1, 1_000 + client as u64));
        records.push(deposit(client, base + 2, 50));
        records.push(withdrawal(client, base + 3, 2_000));
        records.push(dispute(client, base + 1));
        if client % 3 == 0 {
            records.push(resolve(client, base + 1));
        }
        if client % 3 == 1 {
            records.push(chargeback(client, base + 1));
        }
        records.push(dispute(client, base + 1));
        records.push(dispute(client, base + 3));
        records.push(dispute(client + 1, base + 2));
        records.push(resolve(client, 900_000));
        records.push(deposit(client, base + 2, 50));
        tx += 3;
    }
    records
}

#[test]
fn shard_count_does_not_show_in_the_snapshot() {
    let records = mixed_records();
    let processor = Proccessor::new();
    let (one, _, _) = run(1, &records);
    let expected = processor.snapshot(&one);
    assert_eq!(expected.len(), 40);
    for shards in [2usize, 3, 16, 64] {
        let (many, _, _) = run(shards, &records);
        assert_eq!(processor.snapshot(&many), expected);
        assert!(many.iter().filter(|shard| !shard.is_empty()).count() > 1);
    }
    assert_eq!(expected[0], balances(1, -3_900, 2_000, -1_900, true));
    assert_eq!(expected[1], balances(2, -3_900, 3_002, -898, false));
    assert_eq!(expected[2], balances(3, -2_897, 2_000, -897, false));
}

#[test]
fn every_account_is_balanced_after_any_run() {
    let (accounts, _, _) = run(16, &mixed_records());
    for account in Proccessor::new().snapshot(&accounts) {
        assert_eq!(account.total, account.available + account.held);
    }
}
