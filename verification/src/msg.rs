use vstd::prelude::*;

use crate::address::HumanAddr;
use crate::asset::Uint128;

verus! {

/// An amount of a chain-native coin. No asset kind of this contract is a
/// native coin; the type exists for the tax interface, whose operations
/// reject it or report zero.
#[derive(Debug, PartialEq, Eq)]
pub struct Coin {
    pub denom: String,
    pub amount: Uint128,
}

/// Mathematical model of a [`Coin`].
pub struct CoinV {
    pub denom: Seq<char>,
    pub amount: u128,
}

impl View for Coin {
    type V = CoinV;

    open spec fn view(&self) -> CoinV {
        CoinV { denom: self.denom@, amount: self.amount.0 }
    }
}

/// An instruction directing a token contract to execute a message. The
/// code-verification hash lets the dispatching environment check the callee's
/// code identity before the call.
#[derive(Debug, PartialEq, Eq)]
pub enum WasmMsg {
    Execute {
        contract_addr: HumanAddr,
        callback_code_hash: String,
        msg: Vec<u8>,
        send: Vec<Coin>,
    },
}

/// Mathematical model of a [`WasmMsg`].
pub struct WasmMsgV {
    pub contract_addr: Seq<char>,
    pub callback_code_hash: Seq<char>,
    pub msg: Seq<u8>,
    pub send: Seq<CoinV>,
}

impl View for WasmMsg {
    type V = WasmMsgV;

    open spec fn view(&self) -> WasmMsgV {
        match self {
            WasmMsg::Execute { contract_addr, callback_code_hash, msg, send } => (WasmMsgV {
                contract_addr: contract_addr@,
                callback_code_hash: callback_code_hash@,
                msg: msg@,
                send: Seq::new(send@.len(), |i: int| send@[i]@),
            }),
        }
    }
}

/// An outgoing instruction handed back to the host environment for dispatch.
#[derive(Debug, PartialEq, Eq)]
pub enum CosmosMsg {
    Wasm(WasmMsg),
}

/// Mathematical model of a [`CosmosMsg`].
pub enum CosmosMsgV {
    Wasm(WasmMsgV),
}

impl View for CosmosMsg {
    type V = CosmosMsgV;

    open spec fn view(&self) -> CosmosMsgV {
        match self {
            CosmosMsg::Wasm(w) => CosmosMsgV::Wasm(w@),
        }
    }
}

/// The serialized snip20 `Send { recipient, amount }` payload with all
/// optional fields absent: a pure function of the recipient and the amount.
pub uninterp spec fn snip20_send_bytes(recipient: Seq<char>, amount: u128) -> Seq<u8>;

/// Relies on `secret_toolkit::snip20::HandleMsg` and
/// `secret_cosmwasm_std::to_binary`: serializing the `Send` action with the
/// recipient-code-hash, message, memo and padding fields absent is a pure
/// function of the recipient address and the amount. It always succeeds:
/// `to_binary` writes into a growable buffer, and this fixed shape of
/// strings, absent options and a string-rendered amount has no failure path
/// in the serializer.
#[verifier::external_body]
pub(crate) fn encode_send_payload(recipient: &HumanAddr, amount: u128) -> (r: Option<Vec<u8>>)
    ensures
        r is Some,
        r matches Some(b) ==> b@ == snip20_send_bytes(recipient@, amount),
{
    let msg = secret_toolkit::snip20::HandleMsg::Send {
        recipient: secret_cosmwasm_std::HumanAddr(recipient.0.clone()),
        recipient_code_hash: None,
        amount: secret_cosmwasm_std::Uint128(amount),
        msg: None,
        memo: None,
        padding: None,
    };
    secret_cosmwasm_std::to_binary(&msg).map(|b| b.0).ok()
}

} // verus!
