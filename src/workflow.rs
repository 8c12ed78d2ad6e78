//! The decisions of the multi-hop demonstration: which mints pair into pools,
//! which swaps chain through them, which addresses go into the lookup table
//! and in what batches, and the check that the final message uses the table.
use crate::sdk::{
    associated_token_address, associated_token_address_of, create_lookup_table_data_of, create_lookup_table_ix, extend_data_of,
    extend_lookup_table_ix, is_compiled_v0, loadable, loaded_keys, resolved_keys, resolves_to, lookup_table_address_of, lookup_table_addresses,
    lookup_table_addresses_of, lookup_table_program_key, message_keys, mint_to_ix, readonly,
    same_key, system_program_key, table_loads, token_program_id, try_compile_v0, writable,
};
use crate::token_helpers::{create_ata, creates_associated_account, creates_mint, initialize_mint};
use crate::token_swap_harness::{
    is_swap_instruction, mints_to, pool_keys_of, pool_state_of, HarnessError, TokenSwapPoolHarness,
};
use solana_sdk::instruction::Instruction;
use solana_sdk::message::v0::Message;
use solana_sdk::pubkey::Pubkey;
use spl_token_swap::instruction::Swap;
use vstd::prelude::*;

verus! {

/// Mints the demonstration creates.
pub const NUMBER_OF_MINTS: usize = 26;

/// Addresses appended to the lookup table per transaction.
pub const EXTEND_BATCH: usize = 20;

/// Amount put into the first hop of the swap chain.
pub const FIRST_HOP_AMOUNT: u64 = 1000;

/// How much less each later hop puts in, leaving room for the curve's price.
pub const HOP_DECAY: u64 = 10;

/// Reserve each pool starts with on both sides.
pub const INITIAL_RESERVE: u64 = 1_000_000;

/// Amount of the first mint given to the funder before the swaps.
pub const SEED_AMOUNT: u64 = 1000;

/// Two mints joined by a pool: side A, then side B.
#[derive(Clone, Copy, Debug)]
pub struct MintPair {
    pub token_a_mint: Pubkey,
    pub token_b_mint: Pubkey,
}

/// The pools over `mints` form a line: pool `i` joins mint `i` to mint `i + 1`.
pub open spec fn chains(mints: Seq<Pubkey>, pairs: Seq<MintPair>) -> bool {
    &&& pairs.len() == if mints.len() == 0 { 0 } else { mints.len() - 1 }
    &&& forall|i: int|
        0 <= i < pairs.len() ==> #[trigger] pairs[i] == (MintPair { token_a_mint: mints[i], token_b_mint: mints[i + 1] })
}

/// The pools to create over `mints`, each joining a mint to the next.
pub fn pool_pairs(mints: &Vec<Pubkey>) -> (r: Vec<MintPair>)
    ensures
        chains(mints@, r@),
{
    let mut r: Vec<MintPair> = Vec::new();
    if mints.len() == 0 {
        return r;
    }
    let mut i: usize = 0;
    while i + 1 < mints.len()
        invariant
            mints.len() >= 1,
            i + 1 <= mints.len(),
            r@.len() == i,
            forall|j: int|
                0 <= j < i ==> #[trigger] r@[j] == (MintPair { token_a_mint: mints@[j], token_b_mint: mints@[j + 1] }),
        decreases mints.len() - i,
    {
        r.push(MintPair { token_a_mint: mints[i], token_b_mint: mints[i + 1] });
        i = i + 1;
    }
    r
}

/// One pool for every two neighbouring mints: `n` mints give `n - 1` pools,
/// and the pools link the first mint to the last through every other one.
pub proof fn lemma_pools_chain_all_mints(mints: Seq<Pubkey>, pairs: Seq<MintPair>)
    requires
        mints.len() >= 2,
        chains(mints, pairs),
    ensures
        pairs.len() == mints.len() - 1,
        pairs[0].token_a_mint == mints[0],
        pairs[pairs.len() - 1].token_b_mint == mints[mints.len() - 1],
        forall|i: int| 0 <= i < pairs.len() - 1 ==> #[trigger] pairs[i].token_b_mint == pairs[i + 1].token_a_mint,
{
    assert(pairs[0] == (MintPair { token_a_mint: mints[0], token_b_mint: mints[1] }));
    assert(pairs[pairs.len() - 1] == (MintPair {
        token_a_mint: mints[pairs.len() - 1],
        token_b_mint: mints[pairs.len() - 1 + 1],
    }));
    assert forall|i: int| 0 <= i < pairs.len() - 1 implies #[trigger] pairs[i].token_b_mint == pairs[i + 1].token_a_mint by {
        assert(pairs[i] == (MintPair { token_a_mint: mints[i], token_b_mint: mints[i + 1] }));
        assert(pairs[i + 1] == (MintPair { token_a_mint: mints[i + 1], token_b_mint: mints[i + 1 + 1] }));
    }
}

/// The swap of hop `hop` of the chain: each hop puts in a little less than the
/// one before, with no minimum out.
pub open spec fn hop_swap_of(hop: int) -> Swap {
    Swap { amount_in: (FIRST_HOP_AMOUNT - HOP_DECAY * hop) as u64, minimum_amount_out: 0 }
}

/// The swap of hop `hop` of the chain.
pub fn hop_swap(hop: usize) -> (r: Swap)
    requires
        hop <= 100,
    ensures
        r == hop_swap_of(hop as int),
        r.amount_in == FIRST_HOP_AMOUNT - HOP_DECAY * hop,
{
    Swap { amount_in: FIRST_HOP_AMOUNT - HOP_DECAY * (hop as u64), minimum_amount_out: 0 }
}

/// Adds `key` to `keys` unless it is there already.
pub fn insert_key(keys: &mut Vec<Pubkey>, key: Pubkey)
    requires
        old(keys)@.no_duplicates(),
    ensures
        final(keys)@.no_duplicates(),
        forall|k: Pubkey| final(keys)@.contains(k) <==> (old(keys)@.contains(k) || k == key),
{
    let mut i: usize = 0;
    let mut found = false;
    while i < keys.len()
        invariant
            i <= keys.len(),
            found <==> exists|j: int| 0 <= j < i && keys@[j] == key,
        decreases keys.len() - i,
    {
        if same_key(&keys[i], &key) {
            found = true;
        }
        i = i + 1;
    }
    if !found {
        keys.push(key);
        assert forall|k: Pubkey| keys@.contains(k) <==> (old(keys)@.contains(k) || k == key) by {
            if old(keys)@.contains(k) {
                let j = choose|j: int| 0 <= j < old(keys)@.len() && #[trigger] old(keys)@[j] == k;
                assert(keys@[j] == k);
            }
            if k == key {
                assert(keys@[keys@.len() - 1] == k);
            }
        }
    }
}

/// Adds to `keys` each of `new_keys` that is not there already.
pub fn add_keys(keys: &mut Vec<Pubkey>, new_keys: &Vec<Pubkey>)
    requires
        old(keys)@.no_duplicates(),
    ensures
        final(keys)@.no_duplicates(),
        forall|k: Pubkey| final(keys)@.contains(k) <==> (old(keys)@.contains(k) || new_keys@.contains(k)),
{
    let mut i: usize = 0;
    while i < new_keys.len()
        invariant
            i <= new_keys.len(),
            keys@.no_duplicates(),
            forall|k: Pubkey|
                keys@.contains(k) <==> (old(keys)@.contains(k) || new_keys@.subrange(0, i as int).contains(k)),
        decreases new_keys.len() - i,
    {
        insert_key(keys, new_keys[i]);
        assert forall|k: Pubkey|
            new_keys@.subrange(0, i + 1).contains(k) <==> (new_keys@.subrange(0, i as int).contains(k)
                || k == new_keys@[i as int]) by {
            if new_keys@.subrange(0, i + 1).contains(k) {
                let j = choose|j: int| 0 <= j < i + 1 && #[trigger] new_keys@.subrange(0, i + 1)[j] == k;
                if j < i {
                    assert(new_keys@.subrange(0, i as int)[j] == k);
                }
            }
            if new_keys@.subrange(0, i as int).contains(k) {
                let j = choose|j: int| 0 <= j < i && #[trigger] new_keys@.subrange(0, i as int)[j] == k;
                assert(new_keys@.subrange(0, i + 1)[j] == k);
            }
            if k == new_keys@[i as int] {
                assert(new_keys@.subrange(0, i + 1)[i as int] == k);
            }
        }
        i = i + 1;
    }
    assert(new_keys@.subrange(0, new_keys@.len() as int) =~= new_keys@);
}

/// `key` stands in one of `lists`.
pub open spec fn in_some(lists: Seq<Seq<Pubkey>>, key: Pubkey) -> bool {
    exists|i: int| 0 <= i < lists.len() && #[trigger] lists[i].contains(key)
}

/// The addresses of each pool, read from its account data, in that order.
pub open spec fn pool_key_lists(pools: Seq<TokenSwapPoolHarness>, pool_data: Seq<Vec<u8>>) -> Seq<Seq<Pubkey>> {
    Seq::new(pools.len(), |i: int| pool_keys_of(pools[i].pool_key, pool_state_of(pool_data[i]@)->0))
}

/// Every pool's data decodes.
pub open spec fn all_decode(pool_data: Seq<Vec<u8>>) -> bool {
    forall|i: int| 0 <= i < pool_data.len() ==> (#[trigger] pool_state_of(pool_data[i]@)) is Some
}

/// The addresses to store in the lookup table: the union, without repeats, of
/// each pool's addresses (`get_keys`), given each pool's account data.
pub fn lookup_table_keys(pools: &Vec<TokenSwapPoolHarness>, pool_data: &Vec<Vec<u8>>) -> (r: Result<Vec<Pubkey>, HarnessError>)
    requires
        pools@.len() == pool_data@.len(),
    ensures
        !all_decode(pool_data@) ==> r == Err::<Vec<Pubkey>, HarnessError>(HarnessError::InvalidPoolState),
        all_decode(pool_data@) ==> r is Ok,
        r is Ok ==> r->Ok_0@.no_duplicates(),
        r is Ok ==> forall|k: Pubkey|
            r->Ok_0@.contains(k) <==> in_some(pool_key_lists(pools@, pool_data@), k),
{
    let mut keys: Vec<Pubkey> = Vec::new();
    let mut i: usize = 0;
    let ghost lists = pool_key_lists(pools@, pool_data@);
    while i < pools.len()
        invariant
            i <= pools.len(),
            pools@.len() == pool_data@.len(),
            lists == pool_key_lists(pools@, pool_data@),
            all_decode(pool_data@.subrange(0, i as int)),
            keys@.no_duplicates(),
            forall|k: Pubkey| keys@.contains(k) <==> in_some(lists.subrange(0, i as int), k),
        decreases pools.len() - i,
    {
        let pool_keys = match pools[i].try_get_keys(pool_data[i].as_slice()) {
            Ok(v) => v,
            Err(e) => {
                assert(!all_decode(pool_data@)) by {
                    assert(pool_state_of(pool_data@[i as int]@) is None);
                }
                return Err(e);
            }
        };
        add_keys(&mut keys, &pool_keys);
        assert(pool_keys@ == lists[i as int]);
        assert forall|k: Pubkey| keys@.contains(k) <==> in_some(lists.subrange(0, i + 1), k) by {
            if in_some(lists.subrange(0, i + 1), k) {
                let j = choose|j: int| 0 <= j < i + 1 && #[trigger] lists.subrange(0, i + 1)[j].contains(k);
                if j < i {
                    assert(lists.subrange(0, i as int)[j] == lists[j]);
                    assert(in_some(lists.subrange(0, i as int), k));
                }
            }
            if in_some(lists.subrange(0, i as int), k) {
                let j = choose|j: int| 0 <= j < i && #[trigger] lists.subrange(0, i as int)[j].contains(k);
                assert(lists.subrange(0, i + 1)[j] == lists[j]);
            }
            if pool_keys@.contains(k) {
                assert(lists.subrange(0, i + 1)[i as int] == lists[i as int]);
            }
        }
        assert forall|j: int| 0 <= j < i + 1 implies (#[trigger] pool_state_of(pool_data@.subrange(0, i + 1)[j]@)) is Some by {
            if j < i {
                assert(pool_data@.subrange(0, i as int)[j] == pool_data@[j]);
            }
        }
        i = i + 1;
    }
    assert(lists.subrange(0, i as int) =~= lists);
    assert(pool_data@.subrange(0, i as int) =~= pool_data@);
    Ok(keys)
}

/// The keys of `chunks` in order, one chunk after another.
pub open spec fn flatten(chunks: Seq<Seq<Pubkey>>) -> Seq<Pubkey>
    decreases chunks.len(),
{
    if chunks.len() == 0 {
        Seq::empty()
    } else {
        flatten(chunks.drop_last()) + chunks.last()
    }
}

/// The views of a list of key lists.
pub open spec fn views(chunks: Seq<Vec<Pubkey>>) -> Seq<Seq<Pubkey>> {
    Seq::new(chunks.len(), |i: int| chunks[i]@)
}

/// `chunks` cuts `keys` in order into batches of `size`, the last one possibly
/// shorter, none empty.
pub open spec fn is_chunking(chunks: Seq<Seq<Pubkey>>, keys: Seq<Pubkey>, size: nat) -> bool {
    &&& flatten(chunks) == keys
    &&& forall|i: int| 0 <= i < chunks.len() ==> 1 <= (#[trigger] chunks[i]).len() <= size
    &&& forall|i: int| 0 <= i < chunks.len() - 1 ==> (#[trigger] chunks[i]).len() == size
}

/// Cuts `keys` in order into batches of `size`, the last one possibly shorter.
pub fn chunk_keys(keys: &Vec<Pubkey>, size: usize) -> (r: Vec<Vec<Pubkey>>)
    requires
        size > 0,
    ensures
        is_chunking(views(r@), keys@, size as nat),
{
    let mut chunks: Vec<Vec<Pubkey>> = Vec::new();
    let mut current: Vec<Pubkey> = Vec::new();
    let mut i: usize = 0;
    while i < keys.len()
        invariant
            size > 0,
            i <= keys.len(),
            current@.len() < size,
            flatten(views(chunks@)) + current@ == keys@.subrange(0, i as int),
            forall|j: int| 0 <= j < chunks@.len() ==> (#[trigger] chunks@[j])@.len() == size,
        decreases keys.len() - i,
    {
        current.push(keys[i]);
        assert(keys@.subrange(0, i + 1) =~= keys@.subrange(0, i as int).push(keys@[i as int]));
        if current.len() == size {
            let ghost before = views(chunks@);
            let full = current;
            current = Vec::new();
            chunks.push(full);
            assert(views(chunks@).drop_last() =~= before);
            assert(flatten(views(chunks@)) == flatten(before) + full@);
        }
        i = i + 1;
    }
    assert(keys@.subrange(0, i as int) =~= keys@);
    if current.len() > 0 {
        let ghost before = views(chunks@);
        let last = current;
        chunks.push(last);
        assert(views(chunks@).drop_last() =~= before);
        assert(flatten(views(chunks@)) == flatten(before) + last@);
    } else {
        assert(flatten(views(chunks@)) + Seq::<Pubkey>::empty() =~= flatten(views(chunks@)));
    }
    chunks
}

/// A key is in the concatenation of chunks exactly when it is in one of them.
pub proof fn lemma_flatten_contains(chunks: Seq<Seq<Pubkey>>, key: Pubkey)
    ensures
        flatten(chunks).contains(key) <==> in_some(chunks, key),
    decreases chunks.len(),
{
    if chunks.len() > 0 {
        let init = chunks.drop_last();
        lemma_flatten_contains(init, key);
        let f = flatten(init);
        let l = chunks.last();
        if (f + l).contains(key) {
            let j = choose|j: int| 0 <= j < (f + l).len() && #[trigger] (f + l)[j] == key;
            if j < f.len() {
                assert(f[j] == key);
                let c = choose|c: int| 0 <= c < init.len() && #[trigger] init[c].contains(key);
                assert(chunks[c] == init[c]);
            } else {
                assert(l[j - f.len()] == key);
                assert(chunks[chunks.len() - 1].contains(key));
            }
        }
        if in_some(chunks, key) {
            let c = choose|c: int| 0 <= c < chunks.len() && #[trigger] chunks[c].contains(key);
            if c < chunks.len() - 1 {
                assert(init[c] == chunks[c]);
                assert(f.contains(key));
                let j = choose|j: int| 0 <= j < f.len() && #[trigger] f[j] == key;
                assert((f + l)[j] == key);
            } else {
                let j = choose|j: int| 0 <= j < l.len() && #[trigger] l[j] == key;
                assert((f + l)[f.len() + j] == key);
            }
        }
    }
}

/// Appending the batches one after another stores every key, and nothing
/// else: the keys in some batch are exactly the keys cut up.
pub proof fn lemma_chunking_keeps_keys(chunks: Seq<Seq<Pubkey>>, keys: Seq<Pubkey>, size: nat)
    requires
        is_chunking(chunks, keys, size),
    ensures
        forall|k: Pubkey| keys.contains(k) <==> in_some(chunks, k),
        keys.len() > 0 ==> chunks.len() > 0,
{
    assert forall|k: Pubkey| keys.contains(k) <==> in_some(chunks, k) by {
        lemma_flatten_contains(chunks, k);
    }
}

/// `ix` appends `new_addresses` to the table `table`, authorised by `authority`
/// and paid by `payer`.
pub open spec fn extends_table(ix: Instruction, table: Pubkey, authority: Pubkey, payer: Pubkey, new_addresses: Seq<Pubkey>) -> bool {
    &&& ix.program_id == lookup_table_program_key()
    &&& ix.accounts@ == seq![
        writable(table, false),
        readonly(authority, true),
        writable(payer, true),
        readonly(system_program_key(), false),
    ]
    &&& ix.data@ == extend_data_of(new_addresses)
}

/// One instruction per batch that appends it to the table `table`.
pub fn extend_instructions(table: &Pubkey, authority: &Pubkey, payer: &Pubkey, chunks: &Vec<Vec<Pubkey>>) -> (r: Vec<Instruction>)
    ensures
        r@.len() == chunks@.len(),
        forall|i: int| 0 <= i < r@.len() ==> extends_table(#[trigger] r@[i], *table, *authority, *payer, chunks@[i]@),
{
    let mut r: Vec<Instruction> = Vec::new();
    let mut i: usize = 0;
    while i < chunks.len()
        invariant
            i <= chunks.len(),
            r@.len() == i,
            forall|j: int| 0 <= j < i ==> extends_table(#[trigger] r@[j], *table, *authority, *payer, chunks@[j]@),
        decreases chunks.len() - i,
    {
        let chunk = &chunks[i];
        let mut batch: Vec<Pubkey> = Vec::new();
        let mut j: usize = 0;
        while j < chunk.len()
            invariant
                j <= chunk.len(),
                batch@ == chunk@.subrange(0, j as int),
            decreases chunk.len() - j,
        {
            batch.push(chunk[j]);
            j = j + 1;
            assert(batch@ =~= chunk@.subrange(0, j as int));
        }
        assert(batch@ =~= chunk@);
        r.push(extend_lookup_table_ix(*table, *authority, *payer, batch));
        i = i + 1;
    }
    r
}

/// Each instruction of `ixs` is the swap of its hop through the pool of the
/// same rank, from side A to side B, for `user` signing for itself.
pub open spec fn is_swap_chain(
    ixs: Seq<Instruction>,
    pools: Seq<TokenSwapPoolHarness>,
    pool_data: Seq<Vec<u8>>,
    user: Pubkey,
) -> bool {
    &&& ixs.len() == pools.len()
    &&& forall|i: int|
        0 <= i < ixs.len() ==> is_swap_instruction(
            #[trigger] ixs[i],
            pools[i].pool_key,
            pool_state_of(pool_data[i]@)->0,
            user,
            user,
            true,
            hop_swap_of(i),
        )
}

/// The swaps that carry `user`'s tokens through every pool in order, given
/// each pool's account data: hop `i` swaps through pool `i` from side A to
/// side B.
pub fn swap_chain(pools: &Vec<TokenSwapPoolHarness>, pool_data: &Vec<Vec<u8>>, user: &Pubkey) -> (r: Result<Vec<Instruction>, HarnessError>)
    requires
        pools@.len() == pool_data@.len(),
        pools@.len() <= 101,
    ensures
        !all_decode(pool_data@) ==> r == Err::<Vec<Instruction>, HarnessError>(HarnessError::InvalidPoolState),
        all_decode(pool_data@) ==> r is Ok && is_swap_chain(r->Ok_0@, pools@, pool_data@, *user),
{
    let mut ixs: Vec<Instruction> = Vec::new();
    let mut i: usize = 0;
    while i < pools.len()
        invariant
            i <= pools.len(),
            pools@.len() == pool_data@.len(),
            pools@.len() <= 101,
            all_decode(pool_data@.subrange(0, i as int)),
            is_swap_chain(ixs@, pools@.subrange(0, i as int), pool_data@.subrange(0, i as int), *user),
        decreases pools.len() - i,
    {
        let ix = match pools[i].try_create_swap_instruction(user, user, true, hop_swap(i), pool_data[i].as_slice()) {
            Ok(ix) => ix,
            Err(e) => {
                assert(!all_decode(pool_data@)) by {
                    assert(pool_state_of(pool_data@[i as int]@) is None);
                }
                return Err(e);
            }
        };
        ixs.push(ix);
        assert forall|j: int| 0 <= j < i + 1 implies (#[trigger] pool_state_of(pool_data@.subrange(0, i + 1)[j]@)) is Some by {
            if j < i {
                assert(pool_data@.subrange(0, i as int)[j] == pool_data@[j]);
            }
        }
        assert forall|j: int| 0 <= j < i + 1 implies is_swap_instruction(
            #[trigger] ixs@[j],
            pools@.subrange(0, i + 1)[j].pool_key,
            pool_state_of(pool_data@.subrange(0, i + 1)[j]@)->0,
            *user,
            *user,
            true,
            hop_swap_of(j),
        ) by {
            if j < i {
                assert(pools@.subrange(0, i as int)[j] == pools@[j]);
                assert(pool_data@.subrange(0, i as int)[j] == pool_data@[j]);
            }
        }
        i = i + 1;
    }
    assert(pools@.subrange(0, i as int) =~= pools@);
    assert(pool_data@.subrange(0, i as int) =~= pool_data@);
    Ok(ixs)
}

/// Why the final message could not be built.
#[derive(Clone, Copy, Debug, PartialEq, Eq, Structural)]
pub enum WorkflowError {
    /// The message compiler refused the instructions or the table.
    Compile,
    /// The compiled message does not use the lookup table.
    NoTableLookups,
    /// The lookup table account's data does not decode.
    InvalidTable,
}

/// Some key that the message may load from a table is in `table_addresses`.
pub open spec fn table_serves(payer: Pubkey, ixs: Seq<Instruction>, table_addresses: Seq<Pubkey>) -> bool {
    exists|k: Pubkey| #[trigger] table_loads(payer, ixs, table_addresses, k)
}

/// Every count and index of the message fits a byte: at most 255 keys in
/// all, and a table of at most 256 entries.
pub open spec fn compile_fits(payer: Pubkey, ixs: Seq<Instruction>, table_addresses: Seq<Pubkey>) -> bool {
    &&& table_addresses.len() <= 256
    &&& message_keys(payer, ixs).finite()
    &&& message_keys(payer, ixs).len() <= 255
}

/// What compiling `ixs` against a table holding `table_addresses` gives: the
/// v0 message, where it fits and uses the table; `NoTableLookups` where it fits
/// but would not use the table; `Compile` only where it does not fit.
pub open spec fn compile_result(
    r: Result<Message, WorkflowError>,
    payer: Pubkey,
    ixs: Seq<Instruction>,
    table_key: Pubkey,
    table_addresses: Seq<Pubkey>,
    blockhash: solana_sdk::hash::Hash,
) -> bool {
    &&& r is Ok ==> is_compiled_v0(r->Ok_0, payer, ixs, table_key, table_addresses, blockhash)
    &&& r is Ok ==> r->Ok_0.address_table_lookups@.len() == 1
    &&& r is Ok ==> table_serves(payer, ixs, table_addresses)
    &&& compile_fits(payer, ixs, table_addresses) && table_serves(payer, ixs, table_addresses) ==> r is Ok
    &&& compile_fits(payer, ixs, table_addresses) && !table_serves(payer, ixs, table_addresses) ==> r
        == Err::<Message, WorkflowError>(WorkflowError::NoTableLookups)
    &&& r == Err::<Message, WorkflowError>(WorkflowError::Compile) ==> !compile_fits(payer, ixs, table_addresses)
    &&& r is Err ==> r->Err_0 == WorkflowError::Compile || r->Err_0 == WorkflowError::NoTableLookups
    &&& table_addresses.len() == 0 ==> r is Err
}

/// Compiles `instructions`, paid by `payer`, into a v0 message that loads
/// addresses from the lookup table `address_lookup_table_key` holding
/// `table_addresses`. A message that would not use the table is refused.
pub fn compile_with_lookup_table(
    payer: &Pubkey,
    instructions: &Vec<Instruction>,
    address_lookup_table_key: Pubkey,
    table_addresses: Vec<Pubkey>,
    blockhash: solana_sdk::hash::Hash,
) -> (r: Result<Message, WorkflowError>)
    ensures
        compile_result(r, *payer, instructions@, address_lookup_table_key, table_addresses@, blockhash),
{
    let compiled = try_compile_v0(payer, instructions.as_slice(), address_lookup_table_key, table_addresses, blockhash);
    let message = match compiled {
        Ok(m) => m,
        Err(_) => return Err(WorkflowError::Compile),
    };
    if message.address_table_lookups.len() == 0 {
        return Err(WorkflowError::NoTableLookups);
    }
    Ok(message)
}

/// Decimals of the mints the demonstration creates.
pub const MINT_DECIMALS: u8 = 6;

/// The instructions that create `mint` with `payer` as its authority, and
/// `payer`'s associated account for it; `rent_exempt_threshold` funds the mint.
pub fn provision_mint(payer: &Pubkey, mint: &Pubkey, rent_exempt_threshold: u64) -> (r: Vec<Instruction>)
    ensures
        r@.len() == 3,
        creates_mint(r@.subrange(0, 2), *payer, *mint, *payer, MINT_DECIMALS, rent_exempt_threshold),
        creates_associated_account(r@[2], *payer, *mint, *payer),
{
    let mut ixs = initialize_mint(payer, mint, payer, MINT_DECIMALS, rent_exempt_threshold);
    let ghost created = ixs@;
    let (_ata, ix) = create_ata(payer, mint, payer);
    ixs.push(ix);
    assert(ixs@.subrange(0, 2) =~= created);
    ixs
}

/// The instruction that gives `payer` the first hop's tokens: it mints the
/// seed amount of `first_mint` into `payer`'s associated account.
pub fn seed_instruction(payer: &Pubkey, first_mint: &Pubkey) -> (r: Instruction)
    ensures
        mints_to(r, *first_mint, associated_token_address_of(*payer, *first_mint), *payer, SEED_AMOUNT),
{
    let ata = associated_token_address(payer, first_mint);
    mint_to_ix(&token_program_id(), first_mint, &ata, payer, SEED_AMOUNT).unwrap()
}

/// The instruction that creates a lookup table under `payer`'s authority,
/// bound to `recent_slot`, and the table's address.
pub fn create_lookup_table(payer: &Pubkey, recent_slot: u64) -> (r: (Instruction, Pubkey))
    ensures
        r.1 == lookup_table_address_of(*payer, recent_slot),
        r.0.program_id == lookup_table_program_key(),
        r.0.data@ == create_lookup_table_data_of(*payer, recent_slot),
        r.0.accounts@ == seq![
            writable(r.1, false),
            readonly(*payer, false),
            writable(*payer, true),
            readonly(system_program_key(), false),
        ],
{
    create_lookup_table_ix(*payer, *payer, recent_slot)
}

/// Compiles `instructions`, paid by `payer`, into a v0 message that loads
/// addresses from the lookup table `address_lookup_table_key`, given the
/// table account's data. A message that would not use the table is refused.
pub fn create_tx_with_address_lookup_table(
    payer: &Pubkey,
    instructions: &Vec<Instruction>,
    address_lookup_table_key: Pubkey,
    table_account_data: &[u8],
    blockhash: solana_sdk::hash::Hash,
) -> (r: Result<Message, WorkflowError>)
    ensures
        lookup_table_addresses_of(table_account_data@) is None ==> r == Err::<Message, WorkflowError>(
            WorkflowError::InvalidTable,
        ),
        lookup_table_addresses_of(table_account_data@) is Some ==> compile_result(
            r,
            *payer,
            instructions@,
            address_lookup_table_key,
            lookup_table_addresses_of(table_account_data@)->0,
            blockhash,
        ),
{
    let addresses = match lookup_table_addresses(table_account_data) {
        Some(a) => a,
        None => return Err(WorkflowError::InvalidTable),
    };
    compile_with_lookup_table(payer, instructions, address_lookup_table_key, addresses, blockhash)
}

/// Compiling against a table that holds a key the message may load from it
/// succeeds wherever the indexes fit, and the message then loads that key
/// through its single lookup of the table instead of listing it statically.
pub proof fn lemma_table_keys_are_loaded(
    r: Result<Message, WorkflowError>,
    payer: Pubkey,
    ixs: Seq<Instruction>,
    table_key: Pubkey,
    table_addresses: Seq<Pubkey>,
    blockhash: solana_sdk::hash::Hash,
    key: Pubkey,
)
    requires
        compile_result(r, payer, ixs, table_key, table_addresses, blockhash),
        compile_fits(payer, ixs, table_addresses),
        table_loads(payer, ixs, table_addresses, key),
    ensures
        r is Ok,
        r->Ok_0.address_table_lookups@.len() == 1,
        r->Ok_0.address_table_lookups@[0].account_key == table_key,
        loaded_keys(r->Ok_0, table_addresses).contains(key),
        !r->Ok_0.account_keys@.contains(key),
{
    assert(table_serves(payer, ixs, table_addresses));
    let m = r->Ok_0;
    assert(loaded_keys(m, table_addresses).contains(key) <==> table_loads(payer, ixs, table_addresses, key));
    assert(m.account_keys@.contains(key) <==> (message_keys(payer, ixs).contains(key) && !table_loads(
        payer,
        ixs,
        table_addresses,
        key,
    )));
}

/// The multi-hop message: compiled against a table holding exactly the pools'
/// addresses, where none of those addresses is the payer, a program or a
/// signer, the message is built, loads exactly the table's addresses through
/// its one lookup, keeps the payer first among its static keys, and holds one
/// compiled swap per pool, in pool order, each resolving to that pool's swap.
pub proof fn lemma_chain_loads_pool_keys(
    r: Result<Message, WorkflowError>,
    payer: Pubkey,
    pools: Seq<TokenSwapPoolHarness>,
    pool_data: Seq<Vec<u8>>,
    ixs: Seq<Instruction>,
    table_key: Pubkey,
    table_addresses: Seq<Pubkey>,
    blockhash: solana_sdk::hash::Hash,
)
    requires
        pools.len() >= 1,
        pools.len() == pool_data.len(),
        all_decode(pool_data),
        is_swap_chain(ixs, pools, pool_data, payer),
        forall|k: Pubkey| table_addresses.contains(k) <==> in_some(pool_key_lists(pools, pool_data), k),
        forall|k: Pubkey| #[trigger] table_addresses.contains(k) ==> loadable(payer, ixs, k),
        compile_fits(payer, ixs, table_addresses),
        compile_result(r, payer, ixs, table_key, table_addresses, blockhash),
    ensures
        r is Ok,
        r->Ok_0.address_table_lookups@.len() == 1,
        r->Ok_0.address_table_lookups@[0].account_key == table_key,
        forall|k: Pubkey| loaded_keys(r->Ok_0, table_addresses).contains(k) <==> table_addresses.contains(k),
        r->Ok_0.account_keys@[0] == payer,
        r->Ok_0.instructions@.len() == pools.len(),
        forall|i: int|
            0 <= i < pools.len() ==> resolves_to(
                #[trigger] r->Ok_0.instructions@[i],
                resolved_keys(r->Ok_0, table_addresses),
                ixs[i],
            ),
{
    let first = pools[0].pool_key;
    let lists = pool_key_lists(pools, pool_data);
    assert(lists[0][0] == first);
    assert(lists[0].contains(first));
    assert(in_some(lists, first));
    assert(table_addresses.contains(first));
    assert(table_loads(payer, ixs, table_addresses, first));
    assert(table_serves(payer, ixs, table_addresses));
    let m = r->Ok_0;
    assert forall|k: Pubkey| loaded_keys(m, table_addresses).contains(k) <==> table_addresses.contains(k) by {
        assert(loaded_keys(m, table_addresses).contains(k) <==> table_loads(payer, ixs, table_addresses, k));
    }
}

} // verus!
