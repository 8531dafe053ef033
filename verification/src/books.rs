use crate::client_account::ClientAccount;
use crate::shard::shard_of;
use crate::transaction::{DisputeStatus, Transaction, TransactionState, TransactionType};
use std::collections::HashMap;
use vstd::prelude::*;

verus! {

/// How the processing of one record ended. With any outcome but `Applied`
/// the record was dropped and nothing has changed.
#[derive(Clone, Copy, Debug, PartialEq, Eq)]
pub enum Outcome {
    /// The record took effect.
    Applied,
    /// A dispute, resolve or chargeback names a transaction that the ledger
    /// shard of its client does not hold: one that was never recorded, that a
    /// resolve has closed, or that a client of another shard made.
    UnknownTransaction,
    /// A dispute, resolve or chargeback names a transaction that the ledger
    /// shard of its client holds for another client.
    ClientMismatch,
    /// A dispute of a transaction that is disputed or charged back already,
    /// or a resolve or chargeback of one that is not disputed.
    InvalidTransition,
    /// A balance would have left the range of `i64`.
    OutOfRange,
}

/// The amount that a record stands for: its own, or zero where it has none.
pub open spec fn valid_amount(amount: Option<u64>) -> u64 {
    match amount {
        Some(value) => value,
        None => 0,
    }
}

/// The status that a ledger entry must have for a record of type `kind` to
/// act on it.
pub open spec fn status_before(kind: TransactionType) -> DisputeStatus {
    match kind {
        TransactionType::Dispute => DisputeStatus::Recorded,
        _ => DisputeStatus::Disputed,
    }
}

/// The account of `client` among `accounts`: the stored one, or a fresh one
/// where none is stored.
pub open spec fn account_or_fresh(accounts: Map<u16, ClientAccount>, client: u16) -> ClientAccount {
    if accounts.contains_key(client) {
        accounts[client]
    } else {
        ClientAccount::fresh(client)
    }
}

/// The ledger once `t` is recorded: an identifier that is present keeps its
/// entry.
pub open spec fn recorded(ledger: Map<u32, TransactionState>, t: Transaction) -> Map<
    u32,
    TransactionState,
> {
    if ledger.contains_key(t.tx) {
        ledger
    } else {
        ledger.insert(t.tx, t.entry())
    }
}

/// The ledger after a dispute, resolve or chargeback of type `kind` has acted
/// on the entry of `tx`: a dispute marks it as disputed, a resolve removes
/// it, a chargeback marks it as charged back.
pub open spec fn settled(ledger: Map<u32, TransactionState>, kind: TransactionType, tx: u32) -> Map<
    u32,
    TransactionState,
> {
    let entry = ledger[tx];
    match kind {
        TransactionType::Resolve => ledger.remove(tx),
        TransactionType::Chargeback => ledger.insert(
            tx,
            TransactionState {
                client: entry.client,
                amount: entry.amount,
                status: DisputeStatus::ChargedBack,
            },
        ),
        _ => ledger.insert(
            tx,
            TransactionState {
                client: entry.client,
                amount: entry.amount,
                status: DisputeStatus::Disputed,
            },
        ),
    }
}

/// Whether the balances of `account` stay in range under a record of type
/// `kind` for `amount`.
pub open spec fn in_range(account: ClientAccount, kind: TransactionType, amount: u64) -> bool {
    match kind {
        TransactionType::Deposit => account.can_deposit(amount),
        TransactionType::Withdrawal => account.can_withdraw(amount),
        TransactionType::Dispute => account.can_dispute(amount),
        TransactionType::Resolve => account.can_resolve(amount),
        TransactionType::Chargeback => account.can_chargeback(amount),
    }
}

/// `account` after a record of type `kind` for `amount`.
pub open spec fn moved(account: ClientAccount, kind: TransactionType, amount: u64) -> ClientAccount {
    match kind {
        TransactionType::Deposit => account.deposited(amount),
        TransactionType::Withdrawal => account.withdrawn(amount),
        TransactionType::Dispute => account.disputed(amount),
        TransactionType::Resolve => account.resolved(amount),
        TransactionType::Chargeback => account.charged_back(amount),
    }
}

/// The accounts and the ledger that one client's records are processed
/// against: the contents of one account shard and of one ledger shard.
pub struct Books {
    pub accounts: Map<u16, ClientAccount>,
    pub ledger: Map<u32, TransactionState>,
}

impl Books {
    /// No account and no ledger entry.
    pub open spec fn empty() -> Books {
        Books { accounts: Map::empty(), ledger: Map::empty() }
    }

    /// The account of `client`: the stored one, or a fresh one where none
    /// is stored.
    pub open spec fn account(self, client: u16) -> ClientAccount {
        account_or_fresh(self.accounts, client)
    }

    /// The amount that `t` moves: its own for a deposit or withdrawal, that
    /// of the ledger entry it names for the others.
    pub open spec fn amount(self, t: Transaction) -> u64 {
        if t.is_recording() {
            valid_amount(t.amount)
        } else {
            valid_amount(self.ledger[t.tx].amount)
        }
    }

    /// How processing `t` ends.
    pub open spec fn outcome(self, t: Transaction) -> Outcome {
        if !t.is_recording() && !self.ledger.contains_key(t.tx) {
            Outcome::UnknownTransaction
        } else if !t.is_recording() && self.ledger[t.tx].client != t.client {
            Outcome::ClientMismatch
        } else if !t.is_recording() && self.ledger[t.tx].status != status_before(
            t.transaction_type,
        ) {
            Outcome::InvalidTransition
        } else if !in_range(self.account(t.client), t.transaction_type, self.amount(t)) {
            Outcome::OutOfRange
        } else {
            Outcome::Applied
        }
    }

    /// The books after `t` was processed.
    ///
    /// A record that is applied moves its amount in the account of its
    /// client, which is created where the client has none. A deposit or
    /// withdrawal is then recorded in the ledger; the others act on the
    /// entry they name. A record that is not applied changes nothing.
    pub open spec fn apply(self, t: Transaction) -> Books {
        if self.outcome(t) is Applied {
            Books {
                accounts: self.accounts.insert(
                    t.client,
                    moved(self.account(t.client), t.transaction_type, self.amount(t)),
                ),
                ledger: if t.is_recording() {
                    recorded(self.ledger, t)
                } else {
                    settled(self.ledger, t.transaction_type, t.tx)
                },
            }
        } else {
            self
        }
    }

    /// The books after the records of `txs` were processed in order.
    pub open spec fn run(self, txs: Seq<Transaction>) -> Books
        decreases txs.len(),
    {
        if txs.len() == 0 {
            self
        } else {
            self.run(txs.drop_last()).apply(txs.last())
        }
    }

    /// Every account is balanced.
    pub open spec fn balanced(self) -> bool {
        forall|client: u16| #[trigger]
            self.accounts.contains_key(client) ==> self.accounts[client].balanced()
    }
}

/// What each shard of a sharded map holds.
pub open spec fn views<K, V>(shards: Seq<HashMap<K, V>>) -> Seq<Map<K, V>> {
    Seq::new(shards.len(), |i: int| shards[i]@)
}

/// The accounts by client that account shards hold: for each client what
/// the shard of the client holds under the client's identifier.
pub open spec fn snapshot(accounts: Seq<Map<u16, ClientAccount>>) -> Map<u16, ClientAccount> {
    Map::new(
        |client: u16| accounts[shard_of(client, accounts.len())].contains_key(client),
        |client: u16| accounts[shard_of(client, accounts.len())][client],
    )
}

/// The accounts of `accounts` whose client identifier is below `bound`, by
/// ascending identifier.
pub open spec fn accounts_below(accounts: Map<u16, ClientAccount>, bound: nat) -> Seq<ClientAccount>
    decreases bound,
{
    if bound == 0 {
        Seq::empty()
    } else {
        let client = (bound - 1) as u16;
        let before = accounts_below(accounts, (bound - 1) as nat);
        if accounts.contains_key(client) {
            before.push(accounts[client])
        } else {
            before
        }
    }
}

/// All accounts of `accounts`, by ascending client identifier.
pub open spec fn listing(accounts: Map<u16, ClientAccount>) -> Seq<ClientAccount> {
    accounts_below(accounts, 65536)
}

/// Accounts and ledger, each spread over shards. Everything about a client
/// is in the shards that the client's hash selects.
pub struct ShardedBooks {
    pub accounts: Seq<Map<u16, ClientAccount>>,
    pub ledger: Seq<Map<u32, TransactionState>>,
}

impl ShardedBooks {
    /// Empty shards, in the numbers given.
    pub open spec fn empty(account_shards: nat, ledger_shards: nat) -> ShardedBooks {
        ShardedBooks {
            accounts: Seq::new(account_shards, |i: int| Map::empty()),
            ledger: Seq::new(ledger_shards, |i: int| Map::empty()),
        }
    }

    /// There is at least one account shard and one ledger shard.
    pub open spec fn sharded(self) -> bool {
        self.accounts.len() > 0 && self.ledger.len() > 0
    }

    /// The index of the account shard of `client`.
    pub open spec fn account_shard(self, client: u16) -> int {
        shard_of(client, self.accounts.len())
    }

    /// The index of the ledger shard of `client`.
    pub open spec fn ledger_shard(self, client: u16) -> int {
        shard_of(client, self.ledger.len())
    }

    /// The books that the records of `client` are processed against.
    pub open spec fn shard(self, client: u16) -> Books {
        Books {
            accounts: self.accounts[self.account_shard(client)],
            ledger: self.ledger[self.ledger_shard(client)],
        }
    }

    /// How processing `t` ends.
    pub open spec fn outcome(self, t: Transaction) -> Outcome {
        self.shard(t.client).outcome(t)
    }

    /// The books after `t` was processed: the two shards of its client are
    /// as `Books::apply` leaves them, the others as they were.
    pub open spec fn apply(self, t: Transaction) -> ShardedBooks {
        let after = self.shard(t.client).apply(t);
        ShardedBooks {
            accounts: self.accounts.update(self.account_shard(t.client), after.accounts),
            ledger: self.ledger.update(self.ledger_shard(t.client), after.ledger),
        }
    }

    /// The books after the records of `txs` were processed in order.
    pub open spec fn run(self, txs: Seq<Transaction>) -> ShardedBooks
        decreases txs.len(),
    {
        if txs.len() == 0 {
            self
        } else {
            self.run(txs.drop_last()).apply(txs.last())
        }
    }

    /// The accounts by client.
    pub open spec fn snapshot(self) -> Map<u16, ClientAccount> {
        snapshot(self.accounts)
    }

    /// Every account in every shard is balanced.
    pub open spec fn balanced(self) -> bool {
        forall|i: int, client: u16|
            0 <= i < self.accounts.len() && #[trigger] self.accounts[i].contains_key(client)
                ==> self.accounts[i][client].balanced()
    }

    /// Everything is in the shards of its client: every account, under the
    /// identifier that it carries, and every ledger entry.
    pub open spec fn homed(self) -> bool {
        &&& forall|i: int, client: u16|
            0 <= i < self.accounts.len() && #[trigger] self.accounts[i].contains_key(client)
                ==> i == self.account_shard(client) && self.accounts[i][client].client == client
        &&& forall|i: int, tx: u32|
            0 <= i < self.ledger.len() && #[trigger] self.ledger[i].contains_key(tx) ==> i
                == self.ledger_shard(self.ledger[i][tx].client)
    }
}

} // verus!
