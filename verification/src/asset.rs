use vstd::prelude::*;
use vstd::array::ArrayAdditionalSpecFns;

use crate::address::AddressApi;
use crate::address::CanonicalAddr;
use crate::address::HumanAddr;
use crate::address::Utf8Api;
use crate::address::lemma_utf8_api_round_trip;
use crate::error::PairError;
use crate::msg::Coin;
use crate::msg::CoinV;
use crate::msg::CosmosMsg;
use crate::msg::CosmosMsgV;
use crate::msg::WasmMsg;
use crate::msg::WasmMsgV;
use crate::msg::encode_send_payload;
use crate::msg::snip20_send_bytes;
use crate::querier::TokenQuerier;

verus! {

/// Amount of a token, in the token's smallest unit.
#[derive(Clone, Copy, Debug, PartialEq, Eq, Hash, Structural)]
pub struct Uint128(pub u128);

impl Uint128 {
    /// The zero amount.
    pub fn zero() -> (r: Uint128)
        ensures
            r.0 == 0,
    {
        Uint128(0)
    }
}

/// Identity of a tradable token in human (display/query) form: the token
/// contract's address, the hash identifying its expected code, and the
/// viewing key authorizing balance queries. A single-variant tagged type, so
/// that a future native-coin variant can be added without reshaping call
/// sites.
#[derive(Debug, PartialEq, Eq)]
pub enum AssetInfo {
    Token { contract_addr: HumanAddr, token_code_hash: String, viewing_key: String },
}

/// Mathematical model of an [`AssetInfo`].
pub struct AssetInfoV {
    pub contract_addr: Seq<char>,
    pub token_code_hash: Seq<char>,
    pub viewing_key: Seq<char>,
}

impl View for AssetInfo {
    type V = AssetInfoV;

    open spec fn view(&self) -> AssetInfoV {
        match self {
            AssetInfo::Token { contract_addr, token_code_hash, viewing_key } => (AssetInfoV {
                contract_addr: contract_addr@,
                token_code_hash: token_code_hash@,
                viewing_key: viewing_key@,
            }),
        }
    }
}

impl Clone for AssetInfo {
    fn clone(&self) -> (r: Self)
        ensures
            r == *self,
    {
        match self {
            AssetInfo::Token { contract_addr, token_code_hash, viewing_key } => AssetInfo::Token {
                contract_addr: contract_addr.clone(),
                token_code_hash: token_code_hash.clone(),
                viewing_key: viewing_key.clone(),
            },
        }
    }
}

/// Identity of a tradable token in canonical (persisted) form.
#[derive(Debug, PartialEq, Eq)]
pub enum AssetInfoRaw {
    Token { contract_addr: CanonicalAddr, token_code_hash: String, viewing_key: String },
}

/// Mathematical model of an [`AssetInfoRaw`].
pub struct AssetInfoRawV {
    pub contract_addr: Seq<u8>,
    pub token_code_hash: Seq<char>,
    pub viewing_key: Seq<char>,
}

impl View for AssetInfoRaw {
    type V = AssetInfoRawV;

    open spec fn view(&self) -> AssetInfoRawV {
        match self {
            AssetInfoRaw::Token { contract_addr, token_code_hash, viewing_key } => (AssetInfoRawV {
                contract_addr: contract_addr@,
                token_code_hash: token_code_hash@,
                viewing_key: viewing_key@,
            }),
        }
    }
}

impl Clone for AssetInfoRaw {
    fn clone(&self) -> (r: Self)
        ensures
            r@ == self@,
    {
        match self {
            AssetInfoRaw::Token { contract_addr, token_code_hash, viewing_key } => {
                AssetInfoRaw::Token {
                    contract_addr: contract_addr.clone(),
                    token_code_hash: token_code_hash.clone(),
                    viewing_key: viewing_key.clone(),
                }
            },
        }
    }
}

/// A token identity together with an amount of it, in human form.
#[derive(Debug, PartialEq, Eq)]
pub struct Asset {
    pub info: AssetInfo,
    pub amount: Uint128,
}

/// Mathematical model of an [`Asset`].
pub struct AssetV {
    pub info: AssetInfoV,
    pub amount: u128,
}

impl View for Asset {
    type V = AssetV;

    open spec fn view(&self) -> AssetV {
        AssetV { info: self.info@, amount: self.amount.0 }
    }
}

impl Clone for Asset {
    fn clone(&self) -> (r: Self)
        ensures
            r@ == self@,
    {
        Asset { info: self.info.clone(), amount: self.amount }
    }
}

/// A token identity together with an amount of it, in canonical form.
#[derive(Debug, PartialEq, Eq)]
pub struct AssetRaw {
    pub info: AssetInfoRaw,
    pub amount: Uint128,
}

/// Mathematical model of an [`AssetRaw`].
pub struct AssetRawV {
    pub info: AssetInfoRawV,
    pub amount: u128,
}

impl View for AssetRaw {
    type V = AssetRawV;

    open spec fn view(&self) -> AssetRawV {
        AssetRawV { info: self.info@, amount: self.amount.0 }
    }
}

impl Clone for AssetRaw {
    fn clone(&self) -> (r: Self)
        ensures
            r@ == self@,
    {
        AssetRaw { info: self.info.clone(), amount: self.amount }
    }
}

/// Reference to the factory contract that instantiated the pair, carried
/// unchanged through every conversion.
#[derive(Debug, PartialEq, Eq)]
pub struct Factory {
    pub address: HumanAddr,
    pub code_hash: String,
}

/// Mathematical model of a [`Factory`].
pub struct FactoryV {
    pub address: Seq<char>,
    pub code_hash: Seq<char>,
}

impl View for Factory {
    type V = FactoryV;

    open spec fn view(&self) -> FactoryV {
        FactoryV { address: self.address@, code_hash: self.code_hash@ }
    }
}

impl Clone for Factory {
    fn clone(&self) -> (r: Self)
        ensures
            r == *self,
    {
        Factory { address: self.address.clone(), code_hash: self.code_hash.clone() }
    }
}

/// Whether two token identities name the same token: by contract address
/// alone; the code hash and the viewing key are no part of identity.
pub open spec fn same_token(a: AssetInfoV, b: AssetInfoV) -> bool {
    a.contract_addr == b.contract_addr
}

/// [`same_token`], for canonical-form identities.
pub open spec fn same_raw_token(a: AssetInfoRawV, b: AssetInfoRawV) -> bool {
    a.contract_addr == b.contract_addr
}

/// The canonical form of a human-form token identity under `api`.
pub open spec fn info_raw_v<A: AddressApi>(api: &A, info: AssetInfoV) -> AssetInfoRawV {
    AssetInfoRawV {
        contract_addr: api.canon_of(info.contract_addr),
        token_code_hash: info.token_code_hash,
        viewing_key: info.viewing_key,
    }
}

/// The human form of a canonical-form token identity under `api`.
pub open spec fn info_normal_v<A: AddressApi>(api: &A, raw: AssetInfoRawV) -> AssetInfoV {
    AssetInfoV {
        contract_addr: api.human_of(raw.contract_addr),
        token_code_hash: raw.token_code_hash,
        viewing_key: raw.viewing_key,
    }
}

/// The canonical form of a human-form asset under `api`.
pub open spec fn asset_raw_v<A: AddressApi>(api: &A, a: AssetV) -> AssetRawV {
    AssetRawV { info: info_raw_v(api, a.info), amount: a.amount }
}

/// The human form of a canonical-form asset under `api`.
pub open spec fn asset_normal_v<A: AddressApi>(api: &A, a: AssetRawV) -> AssetV {
    AssetV { info: info_normal_v(api, a.info), amount: a.amount }
}

/// The instruction [`Asset::into_msg`] builds: execute the token contract,
/// carrying its code-verification hash, with the serialized `Send` payload
/// and no funds attached.
pub open spec fn send_msg_v(asset: AssetV, recipient: Seq<char>) -> CosmosMsgV {
    CosmosMsgV::Wasm(
        WasmMsgV {
            contract_addr: asset.info.contract_addr,
            callback_code_hash: asset.info.token_code_hash,
            msg: snip20_send_bytes(recipient, asset.amount),
            send: Seq::empty(),
        },
    )
}

impl Asset {
    /// Whether the asset is a chain-native coin: no representable asset is.
    pub fn is_native_token(&self) -> (r: bool)
        ensures
            r == false,
    {
        self.info.is_native_token()
    }

    /// The tax charged on moving this asset: zero, unconditionally, since
    /// only contract tokens are modeled and no native-coin tax applies.
    pub fn compute_tax(&self) -> (r: Result<Uint128, PairError>)
        ensures
            r == Ok::<Uint128, PairError>(Uint128(0)),
    {
        Ok(Uint128(0))
    }

    /// Deduct a native-coin tax from the asset: fails unconditionally, since
    /// tax deduction is defined only for native coins, which this contract
    /// does not support. A deliberate hard failure, so no caller can assume a
    /// tax was removed.
    pub fn deduct_tax(&self) -> (r: Result<Coin, PairError>)
        ensures
            r == Err::<Coin, PairError>(PairError::UnsupportedOperation),
    {
        Err(PairError::UnsupportedOperation)
    }

    /// Validation hook for native-coin deposits: a no-op that always
    /// succeeds, kept as an extension point for future native-coin support.
    pub fn assert_sent_native_token_balance(&self) -> (r: Result<(), PairError>)
        ensures
            r is Ok,
    {
        Ok(())
    }

    /// Build the outgoing instruction directing the token contract to send
    /// `amount` to `recipient`, carrying the token's code-verification hash
    /// so the dispatching environment can check the callee's code identity.
    /// Always succeeds — the payload serialization is total — and the
    /// instruction depends on the asset and the recipient alone.
    pub fn into_msg(self, sender: HumanAddr, recipient: HumanAddr) -> (r: Result<
        CosmosMsg,
        PairError,
    >)
        ensures
            r is Ok,
            r matches Ok(m) ==> m@ == send_msg_v(self@, recipient@),
    {
        let _ = sender;
        let amount = self.amount;
        match self.info {
            AssetInfo::Token { contract_addr, token_code_hash, viewing_key: _ } => {
                let payload = encode_send_payload(&recipient, amount.0).unwrap();
                let send: Vec<Coin> = Vec::new();
                proof {
                    assert(Seq::new(send@.len(), |i: int| send@[i]@) =~= Seq::<CoinV>::empty());
                }
                Ok(
                    CosmosMsg::Wasm(
                        WasmMsg::Execute {
                            contract_addr,
                            callback_code_hash: token_code_hash,
                            msg: payload,
                            send,
                        },
                    ),
                )
            },
        }
    }

    /// Convert to canonical form through the address service.
    pub fn to_raw<A: AddressApi>(&self, api: &A) -> (r: Result<AssetRaw, PairError>)
        ensures
            r is Ok <==> api.canon_ok(self@.info.contract_addr),
            r matches Ok(raw) ==> raw@ == asset_raw_v(api, self@),
            r matches Err(e) ==> e == PairError::Address,
    {
        match self.info.to_raw(api) {
            Ok(info) => Ok(AssetRaw { info, amount: self.amount }),
            Err(e) => Err(e),
        }
    }
}

impl AssetInfo {
    /// Convert to canonical form through the address service.
    pub fn to_raw<A: AddressApi>(&self, api: &A) -> (r: Result<AssetInfoRaw, PairError>)
        ensures
            r is Ok <==> api.canon_ok(self@.contract_addr),
            r matches Ok(raw) ==> raw@ == info_raw_v(api, self@),
            r matches Err(e) ==> e == PairError::Address,
    {
        match self {
            AssetInfo::Token { contract_addr, viewing_key, token_code_hash } => {
                match api.canonical_address(contract_addr) {
                    Ok(canon) => Ok(
                        AssetInfoRaw::Token {
                            contract_addr: canon,
                            viewing_key: viewing_key.clone(),
                            token_code_hash: token_code_hash.clone(),
                        },
                    ),
                    Err(e) => Err(e),
                }
            },
        }
    }

    /// Whether the identity names a chain-native coin: no representable
    /// variant does; kept as an extension point.
    pub fn is_native_token(&self) -> (r: bool)
        ensures
            r == false,
    {
        match self {
            AssetInfo::Token { .. } => false,
        }
    }

    /// Query the balance this token holds for `pool_addr`, authenticating
    /// with the token's viewing key.
    pub fn query_pool<Q: TokenQuerier>(&self, querier: &Q, pool_addr: &HumanAddr) -> (r: Result<
        Uint128,
        PairError,
    >)
        ensures
            r is Ok <==> querier.balance_ok(
                self@.contract_addr,
                self@.token_code_hash,
                pool_addr@,
                self@.viewing_key,
            ),
            r matches Ok(b) ==> b.0 == querier.balance_of(self@.contract_addr, pool_addr@),
            r matches Err(e) ==> e == PairError::ExternalQuery,
    {
        match self {
            AssetInfo::Token { contract_addr, viewing_key, token_code_hash } => querier
                .query_token_balance(contract_addr, token_code_hash, pool_addr, viewing_key),
        }
    }

    /// Identity comparison: by contract address only.
    pub fn equal(&self, asset: &AssetInfo) -> (r: bool)
        ensures
            r == same_token(self@, asset@),
    {
        match self {
            AssetInfo::Token { contract_addr, .. } => {
                let self_contract_addr = contract_addr;
                match asset {
                    AssetInfo::Token { contract_addr, .. } => self_contract_addr.0
                        == contract_addr.0,
                }
            },
        }
    }
}

impl AssetRaw {
    /// Convert to human form through the address service.
    pub fn to_normal<A: AddressApi>(&self, api: &A) -> (r: Result<Asset, PairError>)
        ensures
            r is Ok <==> api.human_ok(self@.info.contract_addr),
            r matches Ok(a) ==> a@ == asset_normal_v(api, self@),
            r matches Err(e) ==> e == PairError::Address,
    {
        match self.info.to_normal(api) {
            Ok(info) => Ok(Asset { info, amount: self.amount }),
            Err(e) => Err(e),
        }
    }
}

impl AssetInfoRaw {
    /// Convert to human form through the address service.
    pub fn to_normal<A: AddressApi>(&self, api: &A) -> (r: Result<AssetInfo, PairError>)
        ensures
            r is Ok <==> api.human_ok(self@.contract_addr),
            r matches Ok(n) ==> n@ == info_normal_v(api, self@),
            r matches Err(e) ==> e == PairError::Address,
    {
        match self {
            AssetInfoRaw::Token { contract_addr, viewing_key, token_code_hash } => {
                match api.human_address(contract_addr) {
                    Ok(human) => Ok(
                        AssetInfo::Token {
                            contract_addr: human,
                            viewing_key: viewing_key.clone(),
                            token_code_hash: token_code_hash.clone(),
                        },
                    ),
                    Err(e) => Err(e),
                }
            },
        }
    }

    /// The canonical address bytes identifying the token.
    pub fn as_bytes(&self) -> (r: &[u8])
        ensures
            r@ == self@.contract_addr,
    {
        match self {
            AssetInfoRaw::Token { contract_addr, .. } => contract_addr.as_slice(),
        }
    }

    /// Identity comparison: by contract address only.
    pub fn equal(&self, asset: &AssetInfoRaw) -> (r: bool)
        ensures
            r == same_raw_token(self@, asset@),
    {
        match self {
            AssetInfoRaw::Token { contract_addr, .. } => {
                let self_contract_addr = contract_addr;
                match asset {
                    AssetInfoRaw::Token { contract_addr, .. } => self_contract_addr.same_bytes(
                        contract_addr,
                    ),
                }
            },
        }
    }
}

/// Metadata of the trading pair in human form: the two traded assets, the
/// pair's own and its liquidity token's addresses, the liquidity token's
/// code-verification hash, the running volume of each asset, and the factory
/// that created the pair.
#[derive(Debug, PartialEq, Eq)]
pub struct PairInfo {
    pub asset_infos: [AssetInfo; 2],
    pub contract_addr: HumanAddr,
    pub liquidity_token: HumanAddr,
    pub token_code_hash: String,
    pub asset0_volume: Uint128,
    pub asset1_volume: Uint128,
    pub factory: Factory,
}

/// Mathematical model of a [`PairInfo`].
pub struct PairInfoV {
    pub asset_infos: (AssetInfoV, AssetInfoV),
    pub contract_addr: Seq<char>,
    pub liquidity_token: Seq<char>,
    pub token_code_hash: Seq<char>,
    pub asset0_volume: u128,
    pub asset1_volume: u128,
    pub factory: FactoryV,
}

impl View for PairInfo {
    type V = PairInfoV;

    open spec fn view(&self) -> PairInfoV {
        PairInfoV {
            asset_infos: (self.asset_infos[0]@, self.asset_infos[1]@),
            contract_addr: self.contract_addr@,
            liquidity_token: self.liquidity_token@,
            token_code_hash: self.token_code_hash@,
            asset0_volume: self.asset0_volume.0,
            asset1_volume: self.asset1_volume.0,
            factory: self.factory@,
        }
    }
}

impl Clone for PairInfo {
    fn clone(&self) -> (r: Self)
        ensures
            r@ == self@,
    {
        PairInfo {
            asset_infos: [self.asset_infos[0].clone(), self.asset_infos[1].clone()],
            contract_addr: self.contract_addr.clone(),
            liquidity_token: self.liquidity_token.clone(),
            token_code_hash: self.token_code_hash.clone(),
            asset0_volume: self.asset0_volume,
            asset1_volume: self.asset1_volume,
            factory: self.factory.clone(),
        }
    }
}

/// Metadata of the trading pair in canonical form: the shape persisted in
/// the pair-info storage slot.
#[derive(Debug, PartialEq, Eq)]
pub struct PairInfoRaw {
    pub asset_infos: [AssetInfoRaw; 2],
    pub contract_addr: CanonicalAddr,
    pub liquidity_token: CanonicalAddr,
    pub token_code_hash: String,
    pub asset0_volume: Uint128,
    pub asset1_volume: Uint128,
    pub factory: Factory,
}

/// Mathematical model of a [`PairInfoRaw`].
pub struct PairInfoRawV {
    pub asset_infos: (AssetInfoRawV, AssetInfoRawV),
    pub contract_addr: Seq<u8>,
    pub liquidity_token: Seq<u8>,
    pub token_code_hash: Seq<char>,
    pub asset0_volume: u128,
    pub asset1_volume: u128,
    pub factory: FactoryV,
}

impl View for PairInfoRaw {
    type V = PairInfoRawV;

    open spec fn view(&self) -> PairInfoRawV {
        PairInfoRawV {
            asset_infos: (self.asset_infos[0]@, self.asset_infos[1]@),
            contract_addr: self.contract_addr@,
            liquidity_token: self.liquidity_token@,
            token_code_hash: self.token_code_hash@,
            asset0_volume: self.asset0_volume.0,
            asset1_volume: self.asset1_volume.0,
            factory: self.factory@,
        }
    }
}

impl Clone for PairInfoRaw {
    fn clone(&self) -> (r: Self)
        ensures
            r@ == self@,
    {
        PairInfoRaw {
            asset_infos: [self.asset_infos[0].clone(), self.asset_infos[1].clone()],
            contract_addr: self.contract_addr.clone(),
            liquidity_token: self.liquidity_token.clone(),
            token_code_hash: self.token_code_hash.clone(),
            asset0_volume: self.asset0_volume,
            asset1_volume: self.asset1_volume,
            factory: self.factory.clone(),
        }
    }
}

/// The canonical form of human pair metadata under `api`: addresses
/// canonicalized, everything else carried unchanged.
pub open spec fn pair_raw_v<A: AddressApi>(api: &A, p: PairInfoV) -> PairInfoRawV {
    PairInfoRawV {
        asset_infos: (info_raw_v(api, p.asset_infos.0), info_raw_v(api, p.asset_infos.1)),
        contract_addr: api.canon_of(p.contract_addr),
        liquidity_token: api.canon_of(p.liquidity_token),
        token_code_hash: p.token_code_hash,
        asset0_volume: p.asset0_volume,
        asset1_volume: p.asset1_volume,
        factory: p.factory,
    }
}

/// The human form of canonical pair metadata under `api`: addresses
/// humanized, everything else carried unchanged.
pub open spec fn pair_normal_v<A: AddressApi>(api: &A, p: PairInfoRawV) -> PairInfoV {
    PairInfoV {
        asset_infos: (info_normal_v(api, p.asset_infos.0), info_normal_v(api, p.asset_infos.1)),
        contract_addr: api.human_of(p.contract_addr),
        liquidity_token: api.human_of(p.liquidity_token),
        token_code_hash: p.token_code_hash,
        asset0_volume: p.asset0_volume,
        asset1_volume: p.asset1_volume,
        factory: p.factory,
    }
}

impl PairInfoRaw {
    /// Convert to human form through the address service.
    pub fn to_normal<A: AddressApi>(&self, api: &A) -> (r: Result<PairInfo, PairError>)
        ensures
            r is Ok <==> (api.human_ok(self@.liquidity_token) && api.human_ok(self@.contract_addr)
                && api.human_ok(self@.asset_infos.0.contract_addr) && api.human_ok(
                self@.asset_infos.1.contract_addr,
            )),
            r matches Ok(n) ==> n@ == pair_normal_v(api, self@),
            r matches Err(e) ==> e == PairError::Address,
    {
        let liquidity_token = match api.human_address(&self.liquidity_token) {
            Ok(h) => h,
            Err(e) => {
                return Err(e);
            },
        };
        let contract_addr = match api.human_address(&self.contract_addr) {
            Ok(h) => h,
            Err(e) => {
                return Err(e);
            },
        };
        let info_0 = match self.asset_infos[0].to_normal(api) {
            Ok(n) => n,
            Err(e) => {
                return Err(e);
            },
        };
        let info_1 = match self.asset_infos[1].to_normal(api) {
            Ok(n) => n,
            Err(e) => {
                return Err(e);
            },
        };
        Ok(
            PairInfo {
                liquidity_token,
                contract_addr,
                asset_infos: [info_0, info_1],
                token_code_hash: self.token_code_hash.clone(),
                asset0_volume: self.asset0_volume,
                asset1_volume: self.asset1_volume,
                factory: self.factory.clone(),
            },
        )
    }

    /// Convert both stored token identities to human form and query each
    /// one's balance held for `contract_addr`. The result preserves stored
    /// order: element 0 always reports the first stored asset, element 1 the
    /// second. The two queries are independent reads, not one atomic
    /// snapshot.
    pub fn query_pools<A: AddressApi, Q: TokenQuerier>(
        &self,
        api: &A,
        querier: &Q,
        contract_addr: &HumanAddr,
    ) -> (r: Result<[Asset; 2], PairError>)
        ensures
            ({
                let i0 = self@.asset_infos.0;
                let i1 = self@.asset_infos.1;
                let n0 = info_normal_v(api, i0);
                let n1 = info_normal_v(api, i1);
                let addrs_ok = api.human_ok(i0.contract_addr) && api.human_ok(i1.contract_addr);
                let bal0_ok = querier.balance_ok(
                    n0.contract_addr,
                    n0.token_code_hash,
                    contract_addr@,
                    n0.viewing_key,
                );
                let bal1_ok = querier.balance_ok(
                    n1.contract_addr,
                    n1.token_code_hash,
                    contract_addr@,
                    n1.viewing_key,
                );
                &&& (r is Ok <==> addrs_ok && bal0_ok && bal1_ok)
                &&& !addrs_ok ==> r == Err::<[Asset; 2], PairError>(PairError::Address)
                &&& addrs_ok && !(bal0_ok && bal1_ok) ==> r == Err::<[Asset; 2], PairError>(
                    PairError::ExternalQuery,
                )
                &&& r matches Ok(pools) ==> {
                    &&& pools[0]@ == (AssetV {
                        info: n0,
                        amount: querier.balance_of(n0.contract_addr, contract_addr@),
                    })
                    &&& pools[1]@ == (AssetV {
                        info: n1,
                        amount: querier.balance_of(n1.contract_addr, contract_addr@),
                    })
                }
            }),
    {
        let info_0 = match self.asset_infos[0].to_normal(api) {
            Ok(n) => n,
            Err(e) => {
                return Err(e);
            },
        };
        let info_1 = match self.asset_infos[1].to_normal(api) {
            Ok(n) => n,
            Err(e) => {
                return Err(e);
            },
        };
        let amount_0 = match info_0.query_pool(querier, contract_addr) {
            Ok(a) => a,
            Err(e) => {
                return Err(e);
            },
        };
        let amount_1 = match info_1.query_pool(querier, contract_addr) {
            Ok(a) => a,
            Err(e) => {
                return Err(e);
            },
        };
        Ok([Asset { amount: amount_0, info: info_0 }, Asset { amount: amount_1, info: info_1 }])
    }
}

/// Round trip for pair metadata: canonicalizing and then humanizing yields
/// the original whenever the address service round-trips on each contained
/// address.
pub proof fn lemma_pair_round_trip<A: AddressApi>(api: &A, p: PairInfoV)
    requires
        api.human_of(api.canon_of(p.contract_addr)) == p.contract_addr,
        api.human_of(api.canon_of(p.liquidity_token)) == p.liquidity_token,
        api.human_of(api.canon_of(p.asset_infos.0.contract_addr)) == p.asset_infos.0.contract_addr,
        api.human_of(api.canon_of(p.asset_infos.1.contract_addr)) == p.asset_infos.1.contract_addr,
    ensures
        pair_normal_v(api, pair_raw_v(api, p)) == p,
{
}

/// Identity is reflexive.
pub proof fn lemma_same_token_reflexive(a: AssetInfoV)
    ensures
        same_token(a, a),
{
}

/// Identity is symmetric.
pub proof fn lemma_same_token_symmetric(a: AssetInfoV, b: AssetInfoV)
    ensures
        same_token(a, b) == same_token(b, a),
{
}

/// Identity ignores the code hash and the viewing key: identities with one
/// contract address compare equal whatever their credentials.
pub proof fn lemma_same_token_ignores_credentials(a: AssetInfoV, b: AssetInfoV)
    requires
        a.contract_addr == b.contract_addr,
    ensures
        same_token(a, b),
{
}

/// Round trip: canonicalizing and then humanizing a token identity yields
/// the original, whenever the address service round-trips on its contract
/// address.
pub proof fn lemma_info_round_trip<A: AddressApi>(api: &A, info: AssetInfoV)
    requires
        api.human_of(api.canon_of(info.contract_addr)) == info.contract_addr,
    ensures
        info_normal_v(api, info_raw_v(api, info)) == info,
{
}

/// Round trip for a whole asset: the amount is untouched and the identity
/// returns to the original.
pub proof fn lemma_asset_round_trip<A: AddressApi>(api: &A, a: AssetV)
    requires
        api.human_of(api.canon_of(a.info.contract_addr)) == a.info.contract_addr,
    ensures
        asset_normal_v(api, asset_raw_v(api, a)) == a,
{
}

/// For every address service, a token identity taken to canonical form,
/// humanized, and canonicalized again keeps its canonical form: what the
/// contract persists is stable across the round trip, even where the
/// service normalizes the human spelling.
pub proof fn lemma_info_canonical_stable<A: AddressApi>(api: &A, info: AssetInfoV)
    requires
        api.canon_ok(info.contract_addr),
    ensures
        api.human_ok(info_raw_v(api, info).contract_addr),
        info_raw_v(api, info_normal_v(api, info_raw_v(api, info))) == info_raw_v(api, info),
{
    api.canon_stable(info.contract_addr);
}

/// Canonical stability for whole pair metadata, under every address
/// service: humanizing the persisted record and canonicalizing it again
/// yields the record unchanged.
pub proof fn lemma_pair_canonical_stable<A: AddressApi>(api: &A, p: PairInfoV)
    requires
        api.canon_ok(p.contract_addr),
        api.canon_ok(p.liquidity_token),
        api.canon_ok(p.asset_infos.0.contract_addr),
        api.canon_ok(p.asset_infos.1.contract_addr),
    ensures
        pair_raw_v(api, pair_normal_v(api, pair_raw_v(api, p))) == pair_raw_v(api, p),
{
    api.canon_stable(p.contract_addr);
    api.canon_stable(p.liquidity_token);
    api.canon_stable(p.asset_infos.0.contract_addr);
    api.canon_stable(p.asset_infos.1.contract_addr);
}

/// Under the library's own address service, acceptance of the contract
/// address alone guarantees the round trip.
pub proof fn lemma_info_round_trip_utf8(api: Utf8Api, info: AssetInfoV)
    requires
        api.canon_ok(info.contract_addr),
    ensures
        api.human_ok(info_raw_v(&api, info).contract_addr),
        info_normal_v(&api, info_raw_v(&api, info)) == info,
{
    lemma_utf8_api_round_trip(api, info.contract_addr);
    lemma_info_round_trip(&api, info);
}

} // verus!
