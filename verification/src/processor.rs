use crate::books::{
    account_or_fresh, accounts_below, listing, recorded, snapshot, valid_amount, views, Books,
    Outcome, ShardedBooks,
};
use crate::client_account::ClientAccount;
use crate::laws::{
    lemma_apply_keeps_balanced, lemma_apply_keeps_homed, lemma_sharded_apply_keeps_balanced,
};
use crate::shard::shard_index;
use crate::transaction::{DisputeStatus, Transaction, TransactionState, TransactionType};
use std::collections::HashMap;
use vstd::prelude::*;

verus! {

broadcast use vstd::std_specs::hash::group_hash_axioms;

/// Applies transaction records to sharded accounts and a sharded ledger.
///
/// The processor keeps nothing between records: all state is in the maps
/// that it is handed. It takes them by `&mut`, so a caller is their only
/// user for the length of a call. Callers that share the maps between
/// threads keep them behind locks of their own. With one lock for each
/// sharded map, hold both for a call of `process_transaction`. With one lock
/// for each shard, find the two shards of a record's client with
/// `shard_index`, lock the account shard, then the ledger shard, and call
/// `apply` on the two. Records of one client must arrive in their order.
pub struct Proccessor();

/// The books that are held in account shards and ledger shards.
pub open spec fn sharded_books(
    accounts_map: Seq<HashMap<u16, ClientAccount>>,
    transactions_map: Seq<HashMap<u32, TransactionState>>,
) -> ShardedBooks {
    ShardedBooks { accounts: views(accounts_map), ledger: views(transactions_map) }
}

/// The account of `client` in one account shard, or a new one.
fn account_or_new(accounts_map: &HashMap<u16, ClientAccount>, client: u16) -> (account:
    ClientAccount)
    ensures
        account == account_or_fresh(accounts_map@, client),
{
    match accounts_map.get(&client) {
        Some(account) => *account,
        None => ClientAccount::new(client),
    }
}

impl Proccessor {
    /// A processor. It holds nothing, so any two are alike.
    pub fn new() -> (processor: Self)
        ensures
            processor == Proccessor(),
    {
        Proccessor()
    }

    /// A sharded map of `num_shards` empty shards.
    pub fn new_sharded_db<T, V>(num_shards: usize) -> (db: Vec<HashMap<T, V>>)
        ensures
            db@.len() == num_shards,
            views(db@) == Seq::new(num_shards as nat, |i: int| Map::<T, V>::empty()),
    {
        let mut db: Vec<HashMap<T, V>> = Vec::with_capacity(num_shards);
        let mut made: usize = 0;
        while made < num_shards
            invariant
                made <= num_shards,
                db@.len() == made,
                forall|i: int| 0 <= i < made ==> (#[trigger] db@[i])@ == Map::<T, V>::empty(),
            decreases num_shards - made,
        {
            db.push(HashMap::new());
            made = made + 1;
        }
        assert(views(db@) =~= Seq::new(num_shards as nat, |i: int| Map::<T, V>::empty()));
        db
    }

    /// Records a deposit or withdrawal in a ledger shard, unless its
    /// identifier is recorded there already.
    fn insert_transaction_history(
        &mut self,
        transaction: &Transaction,
        transactions_map: &mut HashMap<u32, TransactionState>,
    )
        ensures
            final(transactions_map)@ == recorded(old(transactions_map)@, *transaction),
    {
        if !transactions_map.contains_key(&transaction.tx) {
            transactions_map.insert(
                transaction.tx,
                TransactionState {
                    client: transaction.client,
                    amount: transaction.amount,
                    status: DisputeStatus::Recorded,
                },
            );
        }
    }

    /// The amount to work with: zero where none is given.
    fn check_valid_amount(&self, amount: Option<u64>) -> (value: u64)
        ensures
            value == valid_amount(amount),
    {
        if let Some(value) = amount {
            value
        } else {
            0
        }
    }

    /// Deposits the amount of `transaction` into the account of its client
    /// in an account shard; the account is created where the shard has none.
    /// Returns whether the deposit was made; if not, the shard is unchanged.
    fn insert_deposit_transaction_into_account(
        &mut self,
        transaction: &Transaction,
        accounts_map: &mut HashMap<u16, ClientAccount>,
    ) -> (applied: bool)
        ensures
            applied == account_or_fresh(old(accounts_map)@, transaction.client).can_deposit(
                valid_amount(transaction.amount),
            ),
            final(accounts_map)@ == (if applied {
                old(accounts_map)@.insert(
                    transaction.client,
                    account_or_fresh(old(accounts_map)@, transaction.client).deposited(
                        valid_amount(transaction.amount),
                    ),
                )
            } else {
                old(accounts_map)@
            }),
    {
        let amount = self.check_valid_amount(transaction.amount);
        let mut account = account_or_new(accounts_map, transaction.client);
        let applied = account.deposit(amount);
        if applied {
            accounts_map.insert(transaction.client, account);
        }
        applied
    }

    /// Withdraws the amount of `transaction` from the account of its client
    /// in an account shard; the account is created where the shard has none.
    /// Returns whether the withdrawal was made; if not, the shard is
    /// unchanged.
    fn insert_withdrawl_transaction_into_account(
        &mut self,
        transaction: &Transaction,
        accounts_map: &mut HashMap<u16, ClientAccount>,
    ) -> (applied: bool)
        ensures
            applied == account_or_fresh(old(accounts_map)@, transaction.client).can_withdraw(
                valid_amount(transaction.amount),
            ),
            final(accounts_map)@ == (if applied {
                old(accounts_map)@.insert(
                    transaction.client,
                    account_or_fresh(old(accounts_map)@, transaction.client).withdrawn(
                        valid_amount(transaction.amount),
                    ),
                )
            } else {
                old(accounts_map)@
            }),
    {
        let amount = self.check_valid_amount(transaction.amount);
        let mut account = account_or_new(accounts_map, transaction.client);
        let applied = account.withdraw(amount);
        if applied {
            accounts_map.insert(transaction.client, account);
        }
        applied
    }

    /// Handles a dispute, a resolve or a chargeback against one account
    /// shard and one ledger shard.
    ///
    /// The record is applied when the ledger shard holds the transaction it
    /// names, the same client made that transaction, the transaction is at
    /// the right point of its lifecycle (recorded for a dispute, disputed
    /// for a resolve or chargeback) and the balances stay in range.
    fn handle_dipsute_transactions(
        &mut self,
        transaction: &Transaction,
        accounts_map: &mut HashMap<u16, ClientAccount>,
        transactions_map: &mut HashMap<u32, TransactionState>,
    ) -> (outcome: Outcome)
        requires
            !transaction.is_recording(),
        ensures
            outcome == (Books {
                accounts: old(accounts_map)@,
                ledger: old(transactions_map)@,
            }).outcome(*transaction),
            final(accounts_map)@ == (Books {
                accounts: old(accounts_map)@,
                ledger: old(transactions_map)@,
            }).apply(*transaction).accounts,
            final(transactions_map)@ == (Books {
                accounts: old(accounts_map)@,
                ledger: old(transactions_map)@,
            }).apply(*transaction).ledger,
    {
        let state = match transactions_map.get(&transaction.tx) {
            Some(state) => *state,
            None => {
                return Outcome::UnknownTransaction;
            },
        };
        if state.client != transaction.client {
            return Outcome::ClientMismatch;
        }
        let open = match (transaction.transaction_type, state.status) {
            (TransactionType::Dispute, DisputeStatus::Recorded) => true,
            (TransactionType::Resolve, DisputeStatus::Disputed) => true,
            (TransactionType::Chargeback, DisputeStatus::Disputed) => true,
            _ => false,
        };
        if !open {
            return Outcome::InvalidTransition;
        }
        let amount = self.check_valid_amount(state.amount);
        let mut account = account_or_new(accounts_map, transaction.client);
        let applied = match transaction.transaction_type {
            TransactionType::Dispute => account.dispute(amount),
            TransactionType::Resolve => account.resolve(amount),
            _ => account.chargeback(amount),
        };
        if !applied {
            return Outcome::OutOfRange;
        }
        accounts_map.insert(transaction.client, account);
        match transaction.transaction_type {
            TransactionType::Dispute => {
                transactions_map.insert(
                    transaction.tx,
                    TransactionState {
                        client: state.client,
                        amount: state.amount,
                        status: DisputeStatus::Disputed,
                    },
                );
            },
            TransactionType::Resolve => {
                transactions_map.remove(&transaction.tx);
            },
            _ => {
                transactions_map.insert(
                    transaction.tx,
                    TransactionState {
                        client: state.client,
                        amount: state.amount,
                        status: DisputeStatus::ChargedBack,
                    },
                );
            },
        }
        Outcome::Applied
    }

    /// Processes one record against the account shard and the ledger shard
    /// of its client.
    ///
    /// A deposit or withdrawal changes the balance of the client's account,
    /// which is created where the client has none, and is recorded in the
    /// ledger under its identifier unless that identifier is recorded
    /// already. Recording does not make the balance change conditional: a
    /// record whose identifier was seen before changes the balance again.
    /// A dispute, resolve or chargeback acts on the transaction that it
    /// names, as far as that transaction's owner and lifecycle allow.
    ///
    /// A record that cannot be applied is dropped: the outcome says why, and
    /// both shards are as they were.
    pub fn apply(
        &mut self,
        transaction: &Transaction,
        accounts_map: &mut HashMap<u16, ClientAccount>,
        transactions_map: &mut HashMap<u32, TransactionState>,
    ) -> (outcome: Outcome)
        ensures
            outcome == (Books {
                accounts: old(accounts_map)@,
                ledger: old(transactions_map)@,
            }).outcome(*transaction),
            final(accounts_map)@ == (Books {
                accounts: old(accounts_map)@,
                ledger: old(transactions_map)@,
            }).apply(*transaction).accounts,
            final(transactions_map)@ == (Books {
                accounts: old(accounts_map)@,
                ledger: old(transactions_map)@,
            }).apply(*transaction).ledger,
            !(outcome is Applied) ==> final(accounts_map)@ == old(accounts_map)@,
            !(outcome is Applied) ==> final(transactions_map)@ == old(transactions_map)@,
            (Books { accounts: old(accounts_map)@, ledger: old(transactions_map)@ }).balanced()
                ==> (Books {
                accounts: final(accounts_map)@,
                ledger: final(transactions_map)@,
            }).balanced(),
    {
        proof {
            let before = Books { accounts: old(accounts_map)@, ledger: old(transactions_map)@ };
            if before.balanced() {
                lemma_apply_keeps_balanced(before, *transaction);
            }
        }
        match transaction.transaction_type {
            TransactionType::Deposit => {
                if self.insert_deposit_transaction_into_account(transaction, accounts_map) {
                    self.insert_transaction_history(transaction, transactions_map);
                    Outcome::Applied
                } else {
                    Outcome::OutOfRange
                }
            },
            TransactionType::Withdrawal => {
                if self.insert_withdrawl_transaction_into_account(transaction, accounts_map) {
                    self.insert_transaction_history(transaction, transactions_map);
                    Outcome::Applied
                } else {
                    Outcome::OutOfRange
                }
            },
            _ => self.handle_dipsute_transactions(transaction, accounts_map, transactions_map),
        }
    }

    /// Processes one record against sharded accounts and a sharded ledger.
    ///
    /// The hash of the record's client selects one account shard and one
    /// ledger shard. The record is processed against these two as `apply`
    /// says; every other shard is left as it was.
    pub fn process_transaction(
        &mut self,
        transaction: Transaction,
        accounts_map: &mut Vec<HashMap<u16, ClientAccount>>,
        transactions_map: &mut Vec<HashMap<u32, TransactionState>>,
    ) -> (outcome: Outcome)
        requires
            old(accounts_map).len() > 0,
            old(transactions_map).len() > 0,
        ensures
            final(accounts_map)@.len() == old(accounts_map)@.len(),
            final(transactions_map)@.len() == old(transactions_map)@.len(),
            outcome == sharded_books(old(accounts_map)@, old(transactions_map)@).outcome(
                transaction,
            ),
            sharded_books(final(accounts_map)@, final(transactions_map)@) == sharded_books(
                old(accounts_map)@,
                old(transactions_map)@,
            ).apply(transaction),
            sharded_books(old(accounts_map)@, old(transactions_map)@).balanced()
                ==> sharded_books(final(accounts_map)@, final(transactions_map)@).balanced(),
            sharded_books(old(accounts_map)@, old(transactions_map)@).homed() ==> sharded_books(
                final(accounts_map)@,
                final(transactions_map)@,
            ).homed(),
    {
        let key = transaction.client;
        let transaction_shard = shard_index(key, transactions_map.len());
        let account_shard = shard_index(key, accounts_map.len());
        let db_transaction_shard = &mut transactions_map[transaction_shard];
        let db_account_shard = &mut accounts_map[account_shard];
        let outcome = self.apply(&transaction, db_account_shard, db_transaction_shard);
        proof {
            let before = sharded_books(old(accounts_map)@, old(transactions_map)@);
            let after = sharded_books(accounts_map@, transactions_map@);
            assert(after.accounts =~= before.apply(transaction).accounts);
            assert(after.ledger =~= before.apply(transaction).ledger);
            if before.balanced() {
                lemma_sharded_apply_keeps_balanced(before, transaction);
            }
            if before.homed() {
                lemma_apply_keeps_homed(before, transaction);
            }
        }
        outcome
    }

    /// The account of `client`, which the account shards must hold.
    pub fn get_client_account(
        &self,
        client: u16,
        accounts_map: &Vec<HashMap<u16, ClientAccount>>,
    ) -> (account: ClientAccount)
        requires
            accounts_map.len() > 0,
            snapshot(views(accounts_map@)).contains_key(client),
        ensures
            account == snapshot(views(accounts_map@))[client],
    {
        let shard = &accounts_map[shard_index(client, accounts_map.len())];
        match shard.get(&client) {
            Some(account) => *account,
            None => unreached(),
        }
    }

    /// All accounts, by ascending client identifier; none where there is no
    /// shard.
    ///
    /// An account is looked for in the shard of its client, where
    /// `process_transaction` keeps it.
    pub fn snapshot(&self, accounts_map: &Vec<HashMap<u16, ClientAccount>>) -> (accounts: Vec<
        ClientAccount,
    >)
        ensures
            accounts@ == (if accounts_map.len() > 0 {
                listing(snapshot(views(accounts_map@)))
            } else {
                Seq::empty()
            }),
    {
        if accounts_map.len() == 0 {
            return Vec::new();
        }
        let mut accounts: Vec<ClientAccount> = Vec::new();
        let mut next: u32 = 0;
        while next < 65536
            invariant
                next <= 65536,
                accounts_map.len() > 0,
                accounts@ == accounts_below(snapshot(views(accounts_map@)), next as nat),
            decreases 65536 - next,
        {
            let client = next as u16;
            let shard = &accounts_map[shard_index(client, accounts_map.len())];
            match shard.get(&client) {
                Some(account) => {
                    accounts.push(*account);
                },
                None => {},
            }
            next = next + 1;
        }
        accounts
    }
}

} // verus!
