//! Interop with the `bitcoin` crate's chain-parameter type.
//!
//! External collaborators (key derivation, Taproot construction, address
//! handling) consume `bitcoin::Network`. The value is opaque here: the
//! library's own [`Network`] models the selector, and this module holds the
//! one trusted conversion to the outside type.
use vstd::prelude::*;

verus! {

#[verifier::external_type_specification]
#[verifier::external_body]
pub struct ExBitcoinNetwork(bitcoin::Network);

/// The `bitcoin::Network` value that stands for a given selector code.
pub uninterp spec fn bitcoin_network_of(code: int) -> bitcoin::Network;

/// Relies on `bitcoin::Network`'s chain constants `Bitcoin`, `Testnet`,
/// `Signet` and `Regtest`: which constant comes back is a function of the
/// selector alone, one constant per selector.
#[verifier::external_body]
pub fn to_bitcoin_network(n: &crate::vault::NetworkSelector) -> (r: bitcoin::Network)
    ensures
        r == bitcoin_network_of(n.spec_code() as int),
{
    match n {
        crate::vault::NetworkSelector::Mainnet => bitcoin::Network::Bitcoin,
        crate::vault::NetworkSelector::Testnet => bitcoin::Network::Testnet,
        crate::vault::NetworkSelector::Signet => bitcoin::Network::Signet,
        crate::vault::NetworkSelector::Regtest => bitcoin::Network::Regtest,
    }
}

} // verus!
