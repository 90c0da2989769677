use vstd::prelude::*;

use rand::RngCore;
use rand::SeedableRng;
use sha2::Digest;

use crate::asset::PairInfoRaw;
use crate::asset::PairInfoRawV;
use crate::error::PairError;

verus! {

/// Width of the entropy pool in bytes: the size of a 256-bit digest.
pub const ENTROPY_POOL_BYTES: usize = 32;

/// The pair contract's persisted context: its two singleton slots, each
/// absent until first written and live for the contract's lifetime. Passed
/// explicitly into every operation; the host commits it between calls.
pub struct PairStorage {
    /// The persisted pair-metadata record.
    pub pair_info: Option<PairInfoRaw>,
    /// The persisted 32-byte entropy pool.
    pub entropy_pool: Option<Vec<u8>>,
}

impl PairStorage {
    /// The pool slot, when present, holds exactly 32 bytes.
    pub open spec fn wf(&self) -> bool {
        self.entropy_pool matches Some(p) ==> p@.len() == ENTROPY_POOL_BYTES
    }

    /// Storage in which nothing has ever been written.
    pub fn new() -> (r: PairStorage)
        ensures
            r.pair_info is None,
            r.entropy_pool is None,
            r.wf(),
    {
        PairStorage { pair_info: None, entropy_pool: None }
    }
}

/// The all-zero seed the pool presents before any entropy was supplied: a
/// known initial state, not a security property.
pub open spec fn initial_pool() -> Seq<u8> {
    Seq::new(ENTROPY_POOL_BYTES as nat, |i: int| 0u8)
}

/// The pool value the storage presents: the stored bytes, or the all-zero
/// seed if none were ever stored.
pub open spec fn pool_view(s: PairStorage) -> Seq<u8> {
    match s.entropy_pool {
        Some(p) => p@,
        None => initial_pool(),
    }
}

/// The record a read of the pair-info slot reports, if any.
pub open spec fn stored_pair_info(s: PairStorage) -> Option<PairInfoRawV> {
    match s.pair_info {
        Some(p) => Some(p@),
        None => None,
    }
}

/// The 256-bit cryptographic digest the entropy mixer folds the pool with.
pub uninterp spec fn sha256_of(data: Seq<u8>) -> Seq<u8>;

/// Relies on `sha2::Sha256::digest`: a pure 32-byte digest of the input
/// bytes.
#[verifier::external_body]
fn sha256(data: &Vec<u8>) -> (r: Vec<u8>)
    ensures
        r@ == sha256_of(data@),
        r@.len() == 32,
{
    sha2::Sha256::digest(data.as_slice()).to_vec()
}

/// The first 64-bit word of keystream of the stream cipher keyed with a
/// 32-byte seed.
pub uninterp spec fn chacha_u64_of(seed: Seq<u8>) -> u64;

/// Relies on `rand_chacha::ChaChaRng::from_seed` and
/// `rand::RngCore::next_u64`: the cipher is portable and reproducible, so
/// the first word drawn is a pure function of the seed.
#[verifier::external_body]
fn chacha_first_u64(seed: &Vec<u8>) -> (r: u64)
    requires
        seed@.len() == 32,
    ensures
        r == chacha_u64_of(seed@),
{
    let mut arr = [0u8; 32];
    arr.copy_from_slice(seed.as_slice());
    let mut rng = rand_chacha::ChaChaRng::from_seed(arr);
    rng.next_u64()
}

/// Persist the pair-metadata record in its slot.
pub fn store_pair_info(storage: &mut PairStorage, data: &PairInfoRaw) -> (r: Result<
    (),
    PairError,
>)
    ensures
        r is Ok,
        stored_pair_info(*final(storage)) == Some(data@),
        final(storage).entropy_pool == old(storage).entropy_pool,
        old(storage).wf() ==> final(storage).wf(),
{
    storage.pair_info = Some(data.clone());
    Ok(())
}

/// Load the pair-metadata record; reports `NotFound` exactly when none was
/// ever stored.
pub fn read_pair_info(storage: &PairStorage) -> (r: Result<PairInfoRaw, PairError>)
    ensures
        r is Ok <==> stored_pair_info(*storage) is Some,
        r matches Ok(p) ==> stored_pair_info(*storage) == Some(p@),
        r matches Err(e) ==> e == PairError::NotFound,
{
    match &storage.pair_info {
        Some(p) => Ok(p.clone()),
        None => Err(PairError::NotFound),
    }
}

/// The current pool: the stored 32 bytes, or the all-zero seed if the slot
/// was never written.
pub fn get_current_entropy_pool(storage: &PairStorage) -> (r: Vec<u8>)
    requires
        storage.wf(),
    ensures
        r@ == pool_view(*storage),
        r@.len() == 32,
{
    let mut pool: Vec<u8> = Vec::new();
    match &storage.entropy_pool {
        Some(p) => {
            let n = p.len();
            let mut i: usize = 0;
            while i < n
                invariant
                    i <= n,
                    n == p@.len(),
                    pool@ == p@.subrange(0, i as int),
                decreases n - i,
            {
                pool.push(p[i]);
                i += 1;
            }
            proof {
                assert(pool@ =~= p@);
            }
        },
        None => {
            let mut i: usize = 0;
            while i < ENTROPY_POOL_BYTES
                invariant
                    i <= ENTROPY_POOL_BYTES,
                    pool@.len() == i,
                    forall|j: int| 0 <= j < i ==> pool@[j] == 0u8,
                decreases ENTROPY_POOL_BYTES - i,
            {
                pool.push(0u8);
                i += 1;
            }
            proof {
                assert(pool@ =~= initial_pool());
            }
        },
    }
    pool
}

/// Mix new entropy into the pool: the new pool is the 256-bit digest of the
/// prior pool followed by the supplied bytes. An irreversible one-way step:
/// the prior pool is always folded in, so no caller, however it chooses its
/// bytes, forces the pool to a value it fully controls.
pub fn supply_more_entropy(storage: &mut PairStorage, additional_entropy: &[u8]) -> (r: Result<
    (),
    PairError,
>)
    requires
        old(storage).wf(),
    ensures
        r is Ok,
        final(storage).wf(),
        final(storage).pair_info == old(storage).pair_info,
        pool_view(*final(storage)) == sha256_of(pool_view(*old(storage)) + additional_entropy@),
{
    let mut source = get_current_entropy_pool(storage);
    proof {
        assert(pool_view(*storage) + additional_entropy@.subrange(0, 0) =~= pool_view(*storage));
    }
    let n = additional_entropy.len();
    let mut i: usize = 0;
    while i < n
        invariant
            i <= n,
            n == additional_entropy@.len(),
            source@ == pool_view(*storage) + additional_entropy@.subrange(0, i as int),
            storage.wf(),
        decreases n - i,
    {
        source.push(additional_entropy[i]);
        proof {
            assert((pool_view(*storage) + additional_entropy@.subrange(0, i as int)).push(
                additional_entropy@[i as int],
            ) =~= pool_view(*storage) + additional_entropy@.subrange(0, i as int + 1));
        }
        i += 1;
    }
    proof {
        assert(pool_view(*storage) + additional_entropy@.subrange(0, n as int) =~= pool_view(
            *storage,
        ) + additional_entropy@);
    }
    let new_pool = sha256(&source);
    storage.entropy_pool = Some(new_pool);
    Ok(())
}

/// Derive a pseudorandom 64-bit integer from the current pool. Read-only: a
/// pure function of the persisted pool, so two calls with no intervening
/// `supply_more_entropy` return the same value.
pub fn get_random_number(storage: &PairStorage) -> (r: u64)
    requires
        storage.wf(),
    ensures
        r == chacha_u64_of(pool_view(*storage)),
{
    let entropy_pool = get_current_entropy_pool(storage);
    chacha_first_u64(&entropy_pool)
}

/// Mixing hides no randomness: the prior pool and the supplied bytes alone
/// determine the next pool.
pub proof fn lemma_mix_deterministic(pool1: Seq<u8>, e1: Seq<u8>, pool2: Seq<u8>, e2: Seq<u8>)
    requires
        pool1 == pool2,
        e1 == e2,
    ensures
        sha256_of(pool1 + e1) == sha256_of(pool2 + e2),
{
}

/// Supplying entropy twice folds both inputs into the pool, in order.
pub proof fn lemma_mix_accumulates(
    s0: PairStorage,
    s1: PairStorage,
    s2: PairStorage,
    e1: Seq<u8>,
    e2: Seq<u8>,
)
    requires
        pool_view(s1) == sha256_of(pool_view(s0) + e1),
        pool_view(s2) == sha256_of(pool_view(s1) + e2),
    ensures
        pool_view(s2) == sha256_of(sha256_of(pool_view(s0) + e1) + e2),
{
}

/// A record is reported back exactly as stored, and nothing is reported
/// before a first store.
pub proof fn lemma_pair_info_persistence(before: PairStorage, after: PairStorage, data: PairInfoRaw)
    requires
        before.pair_info is None,
        stored_pair_info(after) == Some(data@),
    ensures
        stored_pair_info(before) is None,
        stored_pair_info(after) matches Some(p) && p == data@,
{
}

} // verus!
