//! State and accounting core of a decentralized-exchange pair contract:
//! an entropy-pool randomness source and the dual human/canonical model of
//! tradable assets and pair metadata.

pub mod address;
pub mod asset;
pub mod error;
pub mod msg;
pub mod querier;
pub mod state;

pub use crate::address::AddressApi;
pub use crate::address::CanonicalAddr;
pub use crate::address::HumanAddr;
pub use crate::address::Utf8Api;
pub use crate::asset::Asset;
pub use crate::asset::AssetInfo;
pub use crate::asset::AssetInfoRaw;
pub use crate::asset::AssetRaw;
pub use crate::asset::Factory;
pub use crate::asset::PairInfo;
pub use crate::asset::PairInfoRaw;
pub use crate::asset::Uint128;
pub use crate::error::PairError;
pub use crate::msg::Coin;
pub use crate::msg::CosmosMsg;
pub use crate::msg::WasmMsg;
pub use crate::querier::LedgerEntry;
pub use crate::querier::LedgerQuerier;
pub use crate::querier::TokenQuerier;
pub use crate::state::PairStorage;
