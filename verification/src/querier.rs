use vstd::prelude::*;

use crate::address::HumanAddr;
use crate::asset::Uint128;
use crate::error::PairError;

verus! {

/// The external token-balance query service: it reports the balance a token
/// contract holds for an account, authenticated by a viewing key.
///
/// The host environment supplies the implementation; [`LedgerQuerier`] is the
/// library's own. An implementation is a snapshot of chain state: within one
/// value, a balance is a function of the token and the holder.
pub trait TokenQuerier {
    /// Whether a query for `holder`'s balance at `token`, presenting
    /// `code_hash` and `viewing_key`, succeeds.
    spec fn balance_ok(
        &self,
        token: Seq<char>,
        code_hash: Seq<char>,
        holder: Seq<char>,
        viewing_key: Seq<char>,
    ) -> bool;

    /// The balance reported for `holder` at `token` when a query succeeds.
    spec fn balance_of(&self, token: Seq<char>, holder: Seq<char>) -> u128;

    /// Query `holder`'s balance at the token contract `token`.
    fn query_token_balance(
        &self,
        token: &HumanAddr,
        code_hash: &String,
        holder: &HumanAddr,
        viewing_key: &String,
    ) -> (r: Result<Uint128, PairError>)
        ensures
            r is Ok <==> self.balance_ok(token@, code_hash@, holder@, viewing_key@),
            r matches Ok(b) ==> b.0 == self.balance_of(token@, holder@),
            r matches Err(e) ==> e == PairError::ExternalQuery,
    ;
}

/// One balance record of a [`LedgerQuerier`]: `token` holds `amount` for
/// `holder`, released only to a query presenting `viewing_key`.
#[derive(Debug, PartialEq, Eq)]
pub struct LedgerEntry {
    pub token: HumanAddr,
    pub holder: HumanAddr,
    pub viewing_key: String,
    pub amount: Uint128,
}

/// Mathematical model of a [`LedgerEntry`].
pub struct LedgerEntryV {
    pub token: Seq<char>,
    pub holder: Seq<char>,
    pub viewing_key: Seq<char>,
    pub amount: u128,
}

impl View for LedgerEntry {
    type V = LedgerEntryV;

    open spec fn view(&self) -> LedgerEntryV {
        LedgerEntryV {
            token: self.token@,
            holder: self.holder@,
            viewing_key: self.viewing_key@,
            amount: self.amount.0,
        }
    }
}

/// The first entry for `token` and `holder`, if any.
pub open spec fn find_entry(
    entries: Seq<LedgerEntryV>,
    token: Seq<char>,
    holder: Seq<char>,
) -> Option<LedgerEntryV>
    decreases entries.len(),
{
    if entries.len() == 0 {
        None
    } else if entries[0].token == token && entries[0].holder == holder {
        Some(entries[0])
    } else {
        find_entry(entries.drop_first(), token, holder)
    }
}

/// A balance-query service backed by an explicit table of records. A query
/// succeeds exactly when a record for the token and holder exists and the
/// presented viewing key matches it; the code hash is not checked, since the
/// table identifies a token by its address alone.
pub struct LedgerQuerier {
    pub entries: Vec<LedgerEntry>,
}

impl View for LedgerQuerier {
    type V = Seq<LedgerEntryV>;

    open spec fn view(&self) -> Seq<LedgerEntryV> {
        Seq::new(self.entries@.len(), |i: int| self.entries@[i]@)
    }
}

impl TokenQuerier for LedgerQuerier {
    open spec fn balance_ok(
        &self,
        token: Seq<char>,
        code_hash: Seq<char>,
        holder: Seq<char>,
        viewing_key: Seq<char>,
    ) -> bool {
        match find_entry(self@, token, holder) {
            Some(e) => e.viewing_key == viewing_key,
            None => false,
        }
    }

    open spec fn balance_of(&self, token: Seq<char>, holder: Seq<char>) -> u128 {
        match find_entry(self@, token, holder) {
            Some(e) => e.amount,
            None => 0,
        }
    }

    fn query_token_balance(
        &self,
        token: &HumanAddr,
        code_hash: &String,
        holder: &HumanAddr,
        viewing_key: &String,
    ) -> (r: Result<Uint128, PairError>) {
        let n = self.entries.len();
        let mut i: usize = 0;
        proof {
            assert(self@.skip(0) =~= self@);
        }
        while i < n
            invariant
                i <= n,
                n == self.entries@.len(),
                find_entry(self@, token@, holder@) == find_entry(
                    self@.skip(i as int),
                    token@,
                    holder@,
                ),
            decreases n - i,
        {
            let entry = &self.entries[i];
            proof {
                assert(self@.skip(i as int)[0] == entry@);
            }
            if entry.token.0 == token.0 && entry.holder.0 == holder.0 {
                if entry.viewing_key == *viewing_key {
                    return Ok(entry.amount);
                } else {
                    return Err(PairError::ExternalQuery);
                }
            }
            proof {
                assert(self@.skip(i as int).drop_first() =~= self@.skip(i as int + 1));
            }
            i += 1;
        }
        proof {
            assert(self@.skip(n as int) =~= Seq::<LedgerEntryV>::empty());
        }
        Err(PairError::ExternalQuery)
    }
}

} // verus!
