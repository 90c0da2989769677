use secretswap::address::{AddressApi, CanonicalAddr, HumanAddr, Utf8Api};
use secretswap::asset::{
    Asset, AssetInfo, AssetInfoRaw, AssetRaw, Factory, PairInfoRaw, Uint128,
};
use secretswap::error::PairError;
use secretswap::msg::{CosmosMsg, WasmMsg};
use secretswap::querier::{LedgerEntry, LedgerQuerier};

fn token(addr: &str, hash: &str, key: &str) -> AssetInfo {
    AssetInfo::Token {
        contract_addr: HumanAddr(addr.to_string()),
        token_code_hash: hash.to_string(),
        viewing_key: key.to_string(),
    }
}

#[test]
fn equal_ignores_code_hash_and_viewing_key() {
    let a = token("asset0000", "hash-a", "key-a");
    let b = token("asset0000", "hash-b", "key-b");
    assert!(a.equal(&b));
    assert!(b.equal(&a));
}

#[test]
fn equal_is_reflexive() {
    let a = token("asset0000", "hash-a", "key-a");
    assert!(a.equal(&a));
}

#[test]
fn equal_distinguishes_addresses() {
    let a = token("asset0000", "hash", "key");
    let b = token("asset1111", "hash", "key");
    assert!(!a.equal(&b));
    assert!(!b.equal(&a));
}

#[test]
fn raw_equal_compares_canonical_bytes_only() {
    let a = AssetInfoRaw::Token {
        contract_addr: CanonicalAddr(b"asset0000".to_vec()),
        token_code_hash: "hash-a".to_string(),
        viewing_key: "key-a".to_string(),
    };
    let b = AssetInfoRaw::Token {
        contract_addr: CanonicalAddr(b"asset0000".to_vec()),
        token_code_hash: "hash-b".to_string(),
        viewing_key: "key-b".to_string(),
    };
    let c = AssetInfoRaw::Token {
        contract_addr: CanonicalAddr(b"asset1111".to_vec()),
        token_code_hash: "hash-a".to_string(),
        viewing_key: "key-a".to_string(),
    };
    assert!(a.equal(&b));
    assert!(a.equal(&a));
    assert!(!a.equal(&c));
}

#[test]
fn no_asset_is_a_native_token() {
    let info = token("asset0000", "hash", "key");
    assert!(!info.is_native_token());
    let asset = Asset { info, amount: Uint128(5) };
    assert!(!asset.is_native_token());
}

#[test]
fn compute_tax_is_always_zero() {
    let rich = Asset { info: token("asset0000", "hash", "key"), amount: Uint128(u128::MAX) };
    let poor = Asset { info: token("asset1111", "hash", "key"), amount: Uint128(0) };
    assert_eq!(rich.compute_tax().unwrap(), Uint128::zero());
    assert_eq!(poor.compute_tax().unwrap(), Uint128::zero());
}

#[test]
fn deduct_tax_always_reports_unsupported() {
    let some = Asset { info: token("asset0000", "hash", "key"), amount: Uint128(123) };
    let zero = Asset { info: token("asset0000", "hash", "key"), amount: Uint128(0) };
    assert_eq!(some.deduct_tax().unwrap_err(), PairError::UnsupportedOperation);
    assert_eq!(zero.deduct_tax().unwrap_err(), PairError::UnsupportedOperation);
}

#[test]
fn native_balance_check_always_passes() {
    let asset = Asset { info: token("asset0000", "hash", "key"), amount: Uint128(7) };
    assert!(asset.assert_sent_native_token_balance().is_ok());
}

#[test]
fn to_raw_canonicalizes_address_and_keeps_credentials() {
    let api = Utf8Api;
    let info = token("asset0000", "hash", "key");
    let raw = info.to_raw(&api).unwrap();
    match &raw {
        AssetInfoRaw::Token { contract_addr, token_code_hash, viewing_key } => {
            assert_eq!(contract_addr.0, b"asset0000".to_vec());
            assert_eq!(token_code_hash, "hash");
            assert_eq!(viewing_key, "key");
        }
    }
    assert_eq!(raw.as_bytes(), b"asset0000");
}

#[test]
fn to_raw_rejects_empty_and_overlong_addresses() {
    let api = Utf8Api;
    let empty = token("", "hash", "key");
    assert_eq!(empty.to_raw(&api).unwrap_err(), PairError::Address);
    let long = "a".repeat(91);
    let overlong = token(&long, "hash", "key");
    assert_eq!(overlong.to_raw(&api).unwrap_err(), PairError::Address);
}

#[test]
fn to_normal_rejects_malformed_canonical_bytes() {
    let api = Utf8Api;
    let raw = AssetInfoRaw::Token {
        contract_addr: CanonicalAddr(vec![0xff, 0xfe]),
        token_code_hash: "hash".to_string(),
        viewing_key: "key".to_string(),
    };
    assert_eq!(raw.to_normal(&api).unwrap_err(), PairError::Address);
}

#[test]
fn asset_info_round_trips_through_raw() {
    let api = Utf8Api;
    let info = token("asset0000", "hash", "key");
    let back = info.to_raw(&api).unwrap().to_normal(&api).unwrap();
    assert_eq!(back, info);
}

#[test]
fn asset_round_trips_through_raw() {
    let api = Utf8Api;
    let asset = Asset { info: token("asset0000", "hash", "key"), amount: Uint128(42) };
    let raw: AssetRaw = asset.to_raw(&api).unwrap();
    assert_eq!(raw.amount, Uint128(42));
    let back = raw.to_normal(&api).unwrap();
    assert_eq!(back, asset);
}

#[test]
fn human_address_inverts_canonical_address() {
    let api = Utf8Api;
    let human = HumanAddr("addr0000".to_string());
    let canon = api.canonical_address(&human).unwrap();
    assert_eq!(api.human_address(&canon).unwrap(), human);
}

#[test]
fn into_msg_builds_token_send_instruction() {
    let asset = Asset { info: token("asset0000", "code-hash", "key"), amount: Uint128(77) };
    let msg = asset
        .into_msg(HumanAddr("pair0000".to_string()), HumanAddr("bob".to_string()))
        .unwrap();
    let expected_payload = secret_cosmwasm_std::to_binary(
        &secret_toolkit::snip20::HandleMsg::Send {
            recipient: secret_cosmwasm_std::HumanAddr("bob".to_string()),
            recipient_code_hash: None,
            amount: secret_cosmwasm_std::Uint128(77),
            msg: None,
            memo: None,
            padding: None,
        },
    )
    .unwrap()
    .0;
    match msg {
        CosmosMsg::Wasm(WasmMsg::Execute { contract_addr, callback_code_hash, msg, send }) => {
            assert_eq!(contract_addr, HumanAddr("asset0000".to_string()));
            assert_eq!(callback_code_hash, "code-hash");
            assert_eq!(msg, expected_payload);
            assert!(send.is_empty());
        }
    }
}

fn ledger() -> LedgerQuerier {
    LedgerQuerier {
        entries: vec![
            LedgerEntry {
                token: HumanAddr("asset1111".to_string()),
                holder: HumanAddr("pair0000".to_string()),
                viewing_key: "vk1".to_string(),
                amount: Uint128(222),
            },
            LedgerEntry {
                token: HumanAddr("asset0000".to_string()),
                holder: HumanAddr("pair0000".to_string()),
                viewing_key: "vk0".to_string(),
                amount: Uint128(111),
            },
        ],
    }
}

#[test]
fn query_pool_reports_ledger_balance() {
    let querier = ledger();
    let info = token("asset0000", "hash", "vk0");
    let balance = info.query_pool(&querier, &HumanAddr("pair0000".to_string())).unwrap();
    assert_eq!(balance, Uint128(111));
}

#[test]
fn query_pool_rejects_bad_viewing_key() {
    let querier = ledger();
    let info = token("asset0000", "hash", "wrong");
    let err = info.query_pool(&querier, &HumanAddr("pair0000".to_string())).unwrap_err();
    assert_eq!(err, PairError::ExternalQuery);
}

#[test]
fn query_pool_rejects_unknown_holder() {
    let querier = ledger();
    let info = token("asset0000", "hash", "vk0");
    let err = info.query_pool(&querier, &HumanAddr("stranger".to_string())).unwrap_err();
    assert_eq!(err, PairError::ExternalQuery);
}

fn sample_pair_raw() -> PairInfoRaw {
    PairInfoRaw {
        asset_infos: [
            AssetInfoRaw::Token {
                contract_addr: CanonicalAddr(b"asset0000".to_vec()),
                token_code_hash: "hash0".to_string(),
                viewing_key: "vk0".to_string(),
            },
            AssetInfoRaw::Token {
                contract_addr: CanonicalAddr(b"asset1111".to_vec()),
                token_code_hash: "hash1".to_string(),
                viewing_key: "vk1".to_string(),
            },
        ],
        contract_addr: CanonicalAddr(b"pair0000".to_vec()),
        liquidity_token: CanonicalAddr(b"liquidity0000".to_vec()),
        token_code_hash: "lp-hash".to_string(),
        asset0_volume: Uint128(10),
        asset1_volume: Uint128(20),
        factory: Factory {
            address: HumanAddr("factory0000".to_string()),
            code_hash: "factory-hash".to_string(),
        },
    }
}

#[test]
fn pair_info_to_normal_humanizes_every_address() {
    let api = Utf8Api;
    let normal = sample_pair_raw().to_normal(&api).unwrap();
    assert_eq!(normal.contract_addr, HumanAddr("pair0000".to_string()));
    assert_eq!(normal.liquidity_token, HumanAddr("liquidity0000".to_string()));
    assert_eq!(normal.token_code_hash, "lp-hash");
    assert_eq!(normal.asset0_volume, Uint128(10));
    assert_eq!(normal.asset1_volume, Uint128(20));
    assert_eq!(normal.factory.address, HumanAddr("factory0000".to_string()));
    assert_eq!(normal.asset_infos[0], token("asset0000", "hash0", "vk0"));
    assert_eq!(normal.asset_infos[1], token("asset1111", "hash1", "vk1"));
}

#[test]
fn query_pools_preserves_stored_asset_order() {
    let api = Utf8Api;
    let querier = ledger();
    let pools = sample_pair_raw()
        .query_pools(&api, &querier, &HumanAddr("pair0000".to_string()))
        .unwrap();
    assert_eq!(pools[0].amount, Uint128(111));
    assert_eq!(pools[0].info, token("asset0000", "hash0", "vk0"));
    assert_eq!(pools[1].amount, Uint128(222));
    assert_eq!(pools[1].info, token("asset1111", "hash1", "vk1"));
}

#[test]
fn query_pools_reports_missing_balance() {
    let api = Utf8Api;
    let querier = LedgerQuerier { entries: vec![] };
    let err = sample_pair_raw()
        .query_pools(&api, &querier, &HumanAddr("pair0000".to_string()))
        .unwrap_err();
    assert_eq!(err, PairError::ExternalQuery);
}
