use std::collections::hash_map::DefaultHasher;
use std::hash::Hash;
use std::hash::Hasher;
use vstd::prelude::*;
use vstd::std_specs::hash::DefaultHasherAdditionalSpecFns;

verus! {

/// The writes by which a client identifier feeds a hasher.
///
/// This names what `u16`'s implementation of `std::hash::Hash` hands to a
/// hasher. Nothing is said of the bytes themselves: only that a client
/// identifier is always fed in the same way.
pub uninterp spec fn hashed_writes(client: u16) -> Seq<Seq<u8>>;

/// Feeds `client` to `hasher` by `std::hash::Hash::hash`.
///
/// Trusted, not proved: the hasher receives the writes that `hashed_writes`
/// names, after those it had received before. `Hash` asks that equal values
/// feed a hasher equally; what is written is otherwise left open.
#[verifier::external_body]
fn feed_client(client: u16, hasher: &mut DefaultHasher)
    ensures
        final(hasher)@ == old(hasher)@ + hashed_writes(client),
{
    client.hash(hasher)
}

/// The hash of a client identifier: what a new `DefaultHasher` returns after
/// it was fed the identifier.
pub open spec fn client_hash(client: u16) -> u64 {
    DefaultHasher::spec_finish(hashed_writes(client))
}

/// The shard that holds everything about `client` in a store of `shards`
/// shards: the client's hash modulo the number of shards.
pub open spec fn shard_of(client: u16, shards: nat) -> int {
    client_hash(client) as int % shards as int
}

/// Computes the shard of `client` among `shards` shards.
pub fn shard_index(client: u16, shards: usize) -> (index: usize)
    requires
        shards > 0,
    ensures
        index == shard_of(client, shards as nat),
        index < shards,
{
    let mut hasher = DefaultHasher::new();
    feed_client(client, &mut hasher);
    assert(hasher@ =~= hashed_writes(client));
    let hash: u64 = hasher.finish();
    (hash % (shards as u64)) as usize
}

} // verus!
