use secretswap::asset::{AssetInfoRaw, Factory, PairInfoRaw, Uint128};
use secretswap::address::{CanonicalAddr, HumanAddr};
use secretswap::error::PairError;
use secretswap::state::{
    get_current_entropy_pool, get_random_number, read_pair_info, store_pair_info,
    supply_more_entropy, PairStorage,
};

use rand::RngCore;
use rand::SeedableRng;
use sha2::Digest;

fn sample_pair_info(tag: &str) -> PairInfoRaw {
    PairInfoRaw {
        asset_infos: [
            AssetInfoRaw::Token {
                contract_addr: CanonicalAddr(b"asset0000".to_vec()),
                token_code_hash: "hash0".to_string(),
                viewing_key: "vk0".to_string(),
            },
            AssetInfoRaw::Token {
                contract_addr: CanonicalAddr(b"asset1111".to_vec()),
                token_code_hash: "hash1".to_string(),
                viewing_key: "vk1".to_string(),
            },
        ],
        contract_addr: CanonicalAddr(format!("pair-{}", tag).into_bytes()),
        liquidity_token: CanonicalAddr(b"liquidity0000".to_vec()),
        token_code_hash: "lp-hash".to_string(),
        asset0_volume: Uint128(10),
        asset1_volume: Uint128(20),
        factory: Factory {
            address: HumanAddr("factory0000".to_string()),
            code_hash: "factory-hash".to_string(),
        },
    }
}

#[test]
fn fresh_pool_is_all_zero() {
    let storage = PairStorage::new();
    assert_eq!(get_current_entropy_pool(&storage), vec![0u8; 32]);
}

#[test]
fn supply_entropy_hashes_pool_and_input() {
    let mut storage = PairStorage::new();
    supply_more_entropy(&mut storage, b"tx-data").unwrap();
    let mut source = vec![0u8; 32];
    source.extend_from_slice(b"tx-data");
    let expected: Vec<u8> = sha2::Sha256::digest(&source).to_vec();
    assert_eq!(get_current_entropy_pool(&storage), expected);
}

#[test]
fn supply_entropy_folds_prior_pool() {
    // Supplying e1 then e2 differs from supplying either alone, and from a
    // pool that saw e2 then e1.
    let mut chained = PairStorage::new();
    supply_more_entropy(&mut chained, b"e1").unwrap();
    supply_more_entropy(&mut chained, b"e2").unwrap();

    let mut only_first = PairStorage::new();
    supply_more_entropy(&mut only_first, b"e1").unwrap();

    let mut only_second = PairStorage::new();
    supply_more_entropy(&mut only_second, b"e2").unwrap();

    let mut reversed = PairStorage::new();
    supply_more_entropy(&mut reversed, b"e2").unwrap();
    supply_more_entropy(&mut reversed, b"e1").unwrap();

    let chained_pool = get_current_entropy_pool(&chained);
    assert_ne!(chained_pool, get_current_entropy_pool(&only_first));
    assert_ne!(chained_pool, get_current_entropy_pool(&only_second));
    assert_ne!(chained_pool, get_current_entropy_pool(&reversed));
}

#[test]
fn supply_entropy_is_deterministic() {
    let mut a = PairStorage::new();
    supply_more_entropy(&mut a, b"e1").unwrap();
    supply_more_entropy(&mut a, b"e2").unwrap();

    let mut b = PairStorage::new();
    supply_more_entropy(&mut b, b"e1").unwrap();
    supply_more_entropy(&mut b, b"e2").unwrap();

    assert_eq!(get_current_entropy_pool(&a), get_current_entropy_pool(&b));
    assert_eq!(get_random_number(&a), get_random_number(&b));
}

#[test]
fn random_number_is_pure_function_of_pool() {
    let mut storage = PairStorage::new();
    supply_more_entropy(&mut storage, b"seed material").unwrap();
    let first = get_random_number(&storage);
    let second = get_random_number(&storage);
    assert_eq!(first, second);
}

#[test]
fn random_number_is_first_cipher_word_of_pool() {
    let mut storage = PairStorage::new();
    supply_more_entropy(&mut storage, b"seed material").unwrap();
    let pool = get_current_entropy_pool(&storage);
    let mut seed = [0u8; 32];
    seed.copy_from_slice(&pool);
    let mut rng = rand_chacha::ChaChaRng::from_seed(seed);
    assert_eq!(get_random_number(&storage), rng.next_u64());
}

#[test]
fn random_number_changes_after_new_entropy() {
    let mut storage = PairStorage::new();
    let before = get_random_number(&storage);
    supply_more_entropy(&mut storage, b"fresh entropy").unwrap();
    assert_ne!(get_random_number(&storage), before);
}

#[test]
fn read_before_store_reports_not_found() {
    let storage = PairStorage::new();
    assert_eq!(read_pair_info(&storage).unwrap_err(), PairError::NotFound);
}

#[test]
fn read_after_store_returns_exactly_stored_record() {
    let mut storage = PairStorage::new();
    let data = sample_pair_info("a");
    store_pair_info(&mut storage, &data).unwrap();
    assert_eq!(read_pair_info(&storage).unwrap(), data);
}

#[test]
fn store_overwrites_previous_record() {
    let mut storage = PairStorage::new();
    let first = sample_pair_info("a");
    let second = sample_pair_info("b");
    store_pair_info(&mut storage, &first).unwrap();
    store_pair_info(&mut storage, &second).unwrap();
    assert_eq!(read_pair_info(&storage).unwrap(), second);
}

#[test]
fn slots_are_independent() {
    let mut storage = PairStorage::new();
    supply_more_entropy(&mut storage, b"e").unwrap();
    let pool = get_current_entropy_pool(&storage);
    store_pair_info(&mut storage, &sample_pair_info("a")).unwrap();
    assert_eq!(get_current_entropy_pool(&storage), pool);
    supply_more_entropy(&mut storage, b"more").unwrap();
    assert_eq!(read_pair_info(&storage).unwrap(), sample_pair_info("a"));
}
