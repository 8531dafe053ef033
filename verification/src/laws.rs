use crate::books::{accounts_below, listing, Books, Outcome, ShardedBooks};
use crate::client_account::ClientAccount;
use crate::shard::shard_of;
use crate::transaction::Transaction;
use vstd::prelude::*;

verus! {

/// Balanced accounts stay balanced: if available and held funds add up to the
/// total in every account, they still do after any record was processed.
pub proof fn lemma_apply_keeps_balanced(books: Books, t: Transaction)
    requires
        books.balanced(),
    ensures
        books.apply(t).balanced(),
{
}

/// Balanced accounts stay balanced under any sequence of records.
pub proof fn lemma_run_keeps_balanced(books: Books, txs: Seq<Transaction>)
    requires
        books.balanced(),
    ensures
        books.run(txs).balanced(),
    decreases txs.len(),
{
    if txs.len() > 0 {
        lemma_run_keeps_balanced(books, txs.drop_last());
        lemma_apply_keeps_balanced(books.run(txs.drop_last()), txs.last());
    }
}

/// In sharded books, balanced accounts stay balanced when a record is
/// processed.
pub proof fn lemma_sharded_apply_keeps_balanced(books: ShardedBooks, t: Transaction)
    requires
        books.sharded(),
        books.balanced(),
    ensures
        books.apply(t).balanced(),
{
    let shard = books.shard(t.client);
    assert(shard.balanced());
    lemma_apply_keeps_balanced(shard, t);
}

/// Whatever records are processed, starting from empty shards: in every
/// account, available and held funds add up to the total.
pub proof fn lemma_accounts_are_always_balanced(
    account_shards: nat,
    ledger_shards: nat,
    txs: Seq<Transaction>,
)
    requires
        account_shards > 0,
        ledger_shards > 0,
    ensures
        ShardedBooks::empty(account_shards, ledger_shards).run(txs).sharded(),
        ShardedBooks::empty(account_shards, ledger_shards).run(txs).balanced(),
    decreases txs.len(),
{
    if txs.len() > 0 {
        lemma_accounts_are_always_balanced(account_shards, ledger_shards, txs.drop_last());
        lemma_sharded_apply_keeps_balanced(
            ShardedBooks::empty(account_shards, ledger_shards).run(txs.drop_last()),
            txs.last(),
        );
    }
}

/// Recording is idempotent. A deposit or withdrawal whose identifier the
/// ledger holds leaves the ledger as it is, so the first entry under an
/// identifier is never overwritten; and processing the same deposit or
/// withdrawal a second time leaves the ledger as the first time left it.
pub proof fn lemma_replay_records_once(books: Books, t: Transaction)
    requires
        t.is_recording(),
    ensures
        books.ledger.contains_key(t.tx) ==> books.apply(t).ledger == books.ledger,
        books.apply(t).apply(t).ledger == books.apply(t).ledger,
{
}

/// In sharded books too, processing the same deposit or withdrawal a second
/// time leaves every ledger shard as the first time left it.
pub proof fn lemma_sharded_replay_records_once(books: ShardedBooks, t: Transaction)
    requires
        books.sharded(),
        t.is_recording(),
    ensures
        books.apply(t).apply(t).ledger == books.apply(t).ledger,
{
    let once = books.apply(t);
    lemma_replay_records_once(books.shard(t.client), t);
    assert(once.shard(t.client).ledger == books.shard(t.client).apply(t).ledger);
    assert(once.apply(t).ledger =~= once.ledger);
}

/// No dispute, resolve or chargeback takes effect twice in a row: processing
/// the same one again right away changes nothing. A second dispute does not
/// hold the amount again, and a second chargeback does not take it again.
pub proof fn lemma_settling_twice_changes_nothing(books: Books, t: Transaction)
    requires
        !t.is_recording(),
    ensures
        !(books.apply(t).outcome(t) is Applied),
        books.apply(t).apply(t) == books.apply(t),
{
}

/// A resolve that is applied closes its transaction for good: the ledger no
/// longer holds it, so that a later dispute, resolve or chargeback of it is
/// dropped as unknown.
pub proof fn lemma_resolve_closes(books: Books, t: Transaction, later: Transaction)
    requires
        t.transaction_type is Resolve,
        books.outcome(t) is Applied,
        !later.is_recording(),
        later.tx == t.tx,
    ensures
        !books.apply(t).ledger.contains_key(t.tx),
        books.apply(t).outcome(later) == Outcome::UnknownTransaction,
        books.apply(t).apply(later) == books.apply(t),
{
}

/// A dispute, resolve or chargeback that names a transaction unknown to the
/// ledger shard of its client is dropped: nothing changes.
pub proof fn lemma_unknown_reference_changes_nothing(books: ShardedBooks, t: Transaction)
    requires
        books.sharded(),
        !t.is_recording(),
        !books.shard(t.client).ledger.contains_key(t.tx),
    ensures
        books.outcome(t) == Outcome::UnknownTransaction,
        books.apply(t) == books,
{
    assert(books.apply(t).accounts =~= books.accounts);
    assert(books.apply(t).ledger =~= books.ledger);
}

/// Accounts and ledger entries stay in the shards of their client when a
/// record is processed, and each account keeps the identifier under which it
/// is stored.
pub proof fn lemma_apply_keeps_homed(books: ShardedBooks, t: Transaction)
    requires
        books.sharded(),
        books.homed(),
    ensures
        books.apply(t).homed(),
{
    let a = books.account_shard(t.client);
    let l = books.ledger_shard(t.client);
    assert(books.accounts[a].contains_key(t.client) ==> books.accounts[a][t.client].client
        == t.client);
    assert(books.ledger[l].contains_key(t.tx) ==> l == books.ledger_shard(
        books.ledger[l][t.tx].client,
    ));
}

/// Whatever records are processed, starting from empty shards: every account
/// and every ledger entry is in the shards of its client.
pub proof fn lemma_books_are_always_homed(
    account_shards: nat,
    ledger_shards: nat,
    txs: Seq<Transaction>,
)
    requires
        account_shards > 0,
        ledger_shards > 0,
    ensures
        ShardedBooks::empty(account_shards, ledger_shards).run(txs).sharded(),
        ShardedBooks::empty(account_shards, ledger_shards).run(txs).homed(),
    decreases txs.len(),
{
    if txs.len() > 0 {
        lemma_books_are_always_homed(account_shards, ledger_shards, txs.drop_last());
        lemma_apply_keeps_homed(
            ShardedBooks::empty(account_shards, ledger_shards).run(txs.drop_last()),
            txs.last(),
        );
    }
}

/// Where every account is in the shard of its client, the snapshot misses
/// none: it holds each account of each shard.
pub proof fn lemma_snapshot_is_complete(books: ShardedBooks)
    requires
        books.sharded(),
        books.homed(),
    ensures
        forall|i: int, client: u16|
            0 <= i < books.accounts.len() && #[trigger] books.accounts[i].contains_key(client)
                ==> books.snapshot().contains_key(client) && books.snapshot()[client]
                == books.accounts[i][client],
{
}

proof fn lemma_accounts_below(accounts: Map<u16, ClientAccount>, bound: nat)
    requires
        bound <= 65536,
        forall|client: u16| #[trigger]
            accounts.contains_key(client) ==> accounts[client].client == client,
    ensures
        forall|client: u16|
            client < bound && #[trigger] accounts.contains_key(client) ==> accounts_below(
                accounts,
                bound,
            ).contains(accounts[client]),
        forall|i: int|
            0 <= i < accounts_below(accounts, bound).len() ==> {
                let account = #[trigger] accounts_below(accounts, bound)[i];
                account.client < bound && accounts.contains_key(account.client)
                    && accounts[account.client] == account
            },
        forall|i: int, j: int|
            0 <= i < j < accounts_below(accounts, bound).len() ==> (#[trigger] accounts_below(
                accounts,
                bound,
            )[i]).client < (#[trigger] accounts_below(accounts, bound)[j]).client,
    decreases bound,
{
    if bound > 0 {
        let before = accounts_below(accounts, (bound - 1) as nat);
        let last = (bound - 1) as u16;
        lemma_accounts_below(accounts, (bound - 1) as nat);
        assert forall|client: u16|
            client < bound && #[trigger] accounts.contains_key(client) implies accounts_below(
            accounts,
            bound,
        ).contains(accounts[client]) by {
            if client == last {
                assert(accounts_below(accounts, bound)[before.len() as int] == accounts[client]);
            } else {
                let i = choose|i: int| 0 <= i < before.len() && before[i] == accounts[client];
                assert(accounts_below(accounts, bound)[i] == accounts[client]);
            }
        }
    }
}

/// The listing of accounts that are stored under their own identifiers holds
/// each of them once, and nothing else, by ascending client identifier.
pub proof fn lemma_listing_is_exact(accounts: Map<u16, ClientAccount>)
    requires
        forall|client: u16| #[trigger]
            accounts.contains_key(client) ==> accounts[client].client == client,
    ensures
        forall|client: u16| #[trigger]
            accounts.contains_key(client) ==> listing(accounts).contains(accounts[client]),
        forall|i: int|
            0 <= i < listing(accounts).len() ==> {
                let account = #[trigger] listing(accounts)[i];
                accounts.contains_key(account.client) && accounts[account.client] == account
            },
        forall|i: int, j: int|
            0 <= i < j < listing(accounts).len() ==> (#[trigger] listing(accounts)[i]).client < (
            #[trigger] listing(accounts)[j]).client,
{
    lemma_accounts_below(accounts, 65536);
}

/// Every identifier is used by one client: any two deposits or withdrawals
/// of `txs` with the same identifier are of the same client.
pub open spec fn single_owner(txs: Seq<Transaction>) -> bool {
    forall|i: int, j: int|
        0 <= i < txs.len() && 0 <= j < txs.len() && (#[trigger] txs[i]).is_recording()
            && (#[trigger] txs[j]).is_recording() && txs[i].tx == txs[j].tx ==> txs[i].client
            == txs[j].client
}

/// The client that uses identifier `tx` in `txs`.
spec fn owner_in(txs: Seq<Transaction>, tx: u32) -> u16 {
    let i = choose|i: int|
        0 <= i < txs.len() && (#[trigger] txs[i]).is_recording() && txs[i].tx == tx;
    txs[i].client
}

/// Sharded books hold what unsharded books hold: the same accounts, and each
/// ledger entry once, in the ledger shard of the client that made it.
spec fn mirrors(sharded: ShardedBooks, flat: Books, txs: Seq<Transaction>) -> bool {
    &&& sharded.sharded()
    &&& sharded.snapshot() == flat.accounts
    &&& forall|tx: u32| #[trigger]
        flat.ledger.contains_key(tx) ==> flat.ledger[tx].client == owner_in(txs, tx)
    &&& forall|j: int, tx: u32|
        0 <= j < sharded.ledger.len() ==> (#[trigger] sharded.ledger[j].contains_key(tx) <==> (
        flat.ledger.contains_key(tx) && j == shard_of(
            flat.ledger[tx].client,
            sharded.ledger.len(),
        )))
    &&& forall|j: int, tx: u32|
        0 <= j < sharded.ledger.len() && #[trigger] sharded.ledger[j].contains_key(tx)
            ==> sharded.ledger[j][tx] == flat.ledger[tx]
}

proof fn lemma_apply_mirrors(
    sharded: ShardedBooks,
    flat: Books,
    txs: Seq<Transaction>,
    t: Transaction,
)
    requires
        mirrors(sharded, flat, txs),
        t.is_recording() ==> owner_in(txs, t.tx) == t.client,
    ensures
        mirrors(sharded.apply(t), flat.apply(t), txs),
{
    let l = sharded.ledger_shard(t.client);
    let n = sharded.ledger.len();
    assert(sharded.snapshot().contains_key(t.client) == flat.accounts.contains_key(t.client));
    assert(sharded.ledger[l].contains_key(t.tx) ==> flat.ledger.contains_key(t.tx));
    let after = sharded.apply(t);
    let flat_after = flat.apply(t);
    assert(after.snapshot() =~= flat_after.accounts) by {
        assert forall|client: u16|
            after.snapshot().contains_key(client) == flat_after.accounts.contains_key(
                client,
            ) by {
            assert(sharded.snapshot().contains_key(client) == flat.accounts.contains_key(client));
        }
    }
    assert forall|j: int, tx: u32| 0 <= j < after.ledger.len() implies (
    #[trigger] after.ledger[j].contains_key(tx) <==> (flat_after.ledger.contains_key(tx) && j
        == shard_of(flat_after.ledger[tx].client, after.ledger.len()))) by {
        assert(sharded.ledger[j].contains_key(tx) <==> (flat.ledger.contains_key(tx) && j
            == shard_of(flat.ledger[tx].client, n)));
    }
    assert forall|j: int, tx: u32|
        0 <= j < after.ledger.len() && #[trigger] after.ledger[j].contains_key(
            tx,
        ) implies after.ledger[j][tx] == flat_after.ledger[tx] by {
        assert(sharded.ledger[j].contains_key(tx) <==> (flat.ledger.contains_key(tx) && j
            == shard_of(flat.ledger[tx].client, n)));
    }
}

proof fn lemma_run_mirrors(sharded: ShardedBooks, flat: Books, txs: Seq<Transaction>, k: int)
    requires
        mirrors(sharded, flat, txs),
        single_owner(txs),
        0 <= k <= txs.len(),
    ensures
        mirrors(sharded.run(txs.take(k)), flat.run(txs.take(k)), txs),
    decreases k,
{
    if k > 0 {
        lemma_run_mirrors(sharded, flat, txs, k - 1);
        let t = txs[k - 1];
        assert(txs.take(k).drop_last() == txs.take(k - 1));
        assert(txs.take(k).last() == t);
        lemma_apply_mirrors(sharded.run(txs.take(k - 1)), flat.run(txs.take(k - 1)), txs, t);
    }
}

/// Sharding does not show in the result. When every identifier is used by
/// one client, processing `txs` from empty shards leaves the accounts that
/// processing them against one unsharded map of accounts and one unsharded
/// ledger leaves, whatever the numbers of shards.
pub proof fn lemma_sharding_is_transparent(
    txs: Seq<Transaction>,
    account_shards: nat,
    ledger_shards: nat,
)
    requires
        account_shards > 0,
        ledger_shards > 0,
        single_owner(txs),
    ensures
        ShardedBooks::empty(account_shards, ledger_shards).run(txs).snapshot()
            == Books::empty().run(txs).accounts,
{
    let sharded = ShardedBooks::empty(account_shards, ledger_shards);
    assert(sharded.snapshot() =~= Books::empty().accounts);
    lemma_run_mirrors(sharded, Books::empty(), txs, txs.len() as int);
    assert(txs.take(txs.len() as int) == txs);
}

/// The numbers of shards do not show in the result. When every identifier is
/// used by one client, processing `txs` from empty shards leaves the same
/// accounts under any two choices of how many account shards and how many
/// ledger shards there are.
pub proof fn lemma_shard_counts_agree(
    txs: Seq<Transaction>,
    account_shards: nat,
    ledger_shards: nat,
    other_account_shards: nat,
    other_ledger_shards: nat,
)
    requires
        account_shards > 0,
        ledger_shards > 0,
        other_account_shards > 0,
        other_ledger_shards > 0,
        single_owner(txs),
    ensures
        ShardedBooks::empty(account_shards, ledger_shards).run(txs).snapshot()
            == ShardedBooks::empty(other_account_shards, other_ledger_shards).run(txs).snapshot(),
{
    lemma_sharding_is_transparent(txs, account_shards, ledger_shards);
    lemma_sharding_is_transparent(txs, other_account_shards, other_ledger_shards);
}

} // verus!
