//! Foundation layer of a Bitcoin vault construction library: the data model
//! for time-locked spending policies, a fixed binary encoding of vault
//! metadata committed into a Taproot script leaf, a closed error taxonomy
//! with stable numeric codes, and the small stateless entry points offered
//! at the host-process boundary.
use vstd::prelude::*;

pub mod bitcoin_net;
pub mod boundary;
pub mod codec;
pub mod decimal;
pub mod error;
pub mod vault;

pub use error::CoreError;
pub use error::CoreResult;
pub use vault::NetworkSelector;
pub use vault::RecoveryType;
pub use vault::VaultMetadata;
pub use vault::VaultMetadataView;
pub use vault::VaultTemplate;

verus! {

/// Default relative timelock, in blocks, of a savings vault template.
pub const SAVINGS_DELAY_BLOCKS: u32 = 1008;

/// Default relative timelock, in blocks, of a spending vault template.
pub const SPENDING_DELAY_BLOCKS: u32 = 144;

} // verus!
