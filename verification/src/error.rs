use vstd::prelude::*;

verus! {

/// The failure classes of this library.
///
/// Every operation either succeeds or returns one of these; nothing is
/// swallowed and nothing is retried.
#[derive(Clone, Copy, Debug, PartialEq, Eq, Structural)]
pub enum PairError {
    /// A requested record has never been stored.
    NotFound,
    /// The address service rejected an address as malformed.
    Address,
    /// The operation is defined only for an asset kind this contract does not
    /// support (a chain-native coin).
    UnsupportedOperation,
    /// The token-balance collaborator reported a failure: a bad viewing key,
    /// an unknown token contract, or an unknown holder.
    ExternalQuery,
}

} // verus!
