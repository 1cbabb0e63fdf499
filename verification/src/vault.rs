//! Data model for time-locked vaults: the chain-network selector, the
//! closed set of spending-policy templates, the recovery-mechanism tag, and
//! the metadata record committed into a Taproot script leaf.
use vstd::prelude::*;
use vstd::string::StringExecFns;
use vstd::utf8::encode_utf8;

use crate::decimal::i32_to_decimal;
use crate::decimal::signed_decimal_digits;
use crate::error::CoreError;
use crate::SAVINGS_DELAY_BLOCKS;
use crate::SPENDING_DELAY_BLOCKS;

verus! {

/// Bitcoin network selection, represented externally as the integers 0..=3.
#[derive(Debug, Clone, Copy, PartialEq, Eq, Structural)]
pub enum NetworkSelector {
    Mainnet,
    Testnet,
    Signet,
    Regtest,
}

impl NetworkSelector {
    /// The external integer code of this network.
    pub open spec fn spec_code(&self) -> i32 {
        match self {
            NetworkSelector::Mainnet => 0,
            NetworkSelector::Testnet => 1,
            NetworkSelector::Signet => 2,
            NetworkSelector::Regtest => 3,
        }
    }

    /// The external integer code of this network.
    pub fn code(&self) -> (c: i32)
        ensures
            c == self.spec_code(),
    {
        match self {
            NetworkSelector::Mainnet => 0,
            NetworkSelector::Testnet => 1,
            NetworkSelector::Signet => 2,
            NetworkSelector::Regtest => 3,
        }
    }

    /// Partial conversion from an arbitrary integer code: accepts exactly
    /// `0..=3`, and rejects every other value with `InvalidInput` naming it.
    pub fn from_code(value: i32) -> (r: Result<NetworkSelector, CoreError>)
        ensures
            0 <= value <= 3 ==> (r matches Ok(n) && n.spec_code() == value),
            !(0 <= value <= 3) ==> (r matches Err(e) && e matches CoreError::InvalidInput(s)
                && s@ == "Invalid network value: "@ + signed_decimal_digits(value as int)),
    {
        match value {
            0 => Ok(NetworkSelector::Mainnet),
            1 => Ok(NetworkSelector::Testnet),
            2 => Ok(NetworkSelector::Signet),
            3 => Ok(NetworkSelector::Regtest),
            _ => {
                let mut s = String::from_str("Invalid network value: ");
                let d = i32_to_decimal(value);
                s.append(d.as_str());
                Err(CoreError::InvalidInput(s))
            },
        }
    }
}

/// Recovery mechanism of a vault's alternate spending path, represented in
/// the metadata encoding as the bytes 0, 1 and 2.
#[derive(Debug, Clone, Copy, PartialEq, Eq, Structural)]
pub enum RecoveryType {
    EmergencyKey,
    TimelockOnly,
    MultiSig,
}

impl RecoveryType {
    /// The byte this recovery type is encoded as.
    pub open spec fn spec_byte(&self) -> u8 {
        match self {
            RecoveryType::EmergencyKey => 0,
            RecoveryType::TimelockOnly => 1,
            RecoveryType::MultiSig => 2,
        }
    }

    /// The byte this recovery type is encoded as.
    pub fn byte(&self) -> (b: u8)
        ensures
            b == self.spec_byte(),
    {
        match self {
            RecoveryType::EmergencyKey => 0,
            RecoveryType::TimelockOnly => 1,
            RecoveryType::MultiSig => 2,
        }
    }
}

/// Pre-defined vault security templates: savings favors security with a
/// long delay, spending favors convenience with a short one, and custom
/// carries an explicit delay and recovery mechanism. No bound is enforced
/// on a custom delay here; policy checks belong to the vault-creation flow.
#[derive(Debug, Clone, PartialEq, Eq, Structural)]
pub enum VaultTemplate {
    Savings { delay_blocks: u32 },
    Spending { delay_blocks: u32 },
    Custom { delay_blocks: u32, recovery_type: RecoveryType },
}

impl VaultTemplate {
    /// The default savings template.
    pub fn savings() -> (t: Self)
        ensures
            t == (VaultTemplate::Savings { delay_blocks: SAVINGS_DELAY_BLOCKS }),
    {
        VaultTemplate::Savings { delay_blocks: SAVINGS_DELAY_BLOCKS }
    }

    /// The default spending template.
    pub fn spending() -> (t: Self)
        ensures
            t == (VaultTemplate::Spending { delay_blocks: SPENDING_DELAY_BLOCKS }),
    {
        VaultTemplate::Spending { delay_blocks: SPENDING_DELAY_BLOCKS }
    }

    /// The configured relative timelock of any variant.
    pub open spec fn spec_delay_blocks(&self) -> u32 {
        match self {
            VaultTemplate::Savings { delay_blocks } => *delay_blocks,
            VaultTemplate::Spending { delay_blocks } => *delay_blocks,
            VaultTemplate::Custom { delay_blocks, .. } => *delay_blocks,
        }
    }

    /// The configured relative timelock of any variant.
    pub fn delay_blocks(&self) -> (d: u32)
        ensures
            d == self.spec_delay_blocks(),
    {
        match self {
            VaultTemplate::Savings { delay_blocks } => *delay_blocks,
            VaultTemplate::Spending { delay_blocks } => *delay_blocks,
            VaultTemplate::Custom { delay_blocks, .. } => *delay_blocks,
        }
    }

    /// The stable identifier of this template's variant.
    pub open spec fn spec_template_id(&self) -> Seq<char> {
        match self {
            VaultTemplate::Savings { .. } => "savings_v1"@,
            VaultTemplate::Spending { .. } => "spending_v1"@,
            VaultTemplate::Custom { .. } => "custom_v1"@,
        }
    }

    /// The stable identifier of this template's variant, used for
    /// forward-compatible identification once persisted.
    pub fn template_id(&self) -> (id: &str)
        ensures
            id@ == self.spec_template_id(),
    {
        match self {
            VaultTemplate::Savings { .. } => "savings_v1",
            VaultTemplate::Spending { .. } => "spending_v1",
            VaultTemplate::Custom { .. } => "custom_v1",
        }
    }
}

/// Metadata committed into a Taproot script leaf for recovery. Immutable
/// after construction: once encoded, the byte shape for a given `version`
/// is permanent.
#[derive(Debug, Clone, PartialEq)]
pub struct VaultMetadata {
    /// Schema version for future compatibility.
    pub version: u8,
    /// Template identifier.
    pub template_id: String,
    /// Delay in blocks before a spend completes.
    pub delay_blocks: u32,
    /// Indices into an external approved-destinations list.
    pub destination_indices: Vec<u8>,
    /// Recovery mechanism type.
    pub recovery_type: RecoveryType,
    /// Block height at creation.
    pub created_at_block: u32,
    /// Derivation index of this vault.
    pub vault_index: u32,
}

/// The mathematical value of a [`VaultMetadata`]: its text as characters
/// and its destination indices as a byte sequence.
pub struct VaultMetadataView {
    pub version: u8,
    pub template_id: Seq<char>,
    pub delay_blocks: u32,
    pub destination_indices: Seq<u8>,
    pub recovery_type: RecoveryType,
    pub created_at_block: u32,
    pub vault_index: u32,
}

impl VaultMetadataView {
    /// Both variable-length fields fit their one-byte length prefixes.
    pub open spec fn wf(&self) -> bool {
        &&& encode_utf8(self.template_id).len() <= 255
        &&& self.destination_indices.len() <= 255
    }
}

impl View for VaultMetadata {
    type V = VaultMetadataView;

    open spec fn view(&self) -> VaultMetadataView {
        VaultMetadataView {
            version: self.version,
            template_id: self.template_id@,
            delay_blocks: self.delay_blocks,
            destination_indices: self.destination_indices@,
            recovery_type: self.recovery_type,
            created_at_block: self.created_at_block,
            vault_index: self.vault_index,
        }
    }
}

} // verus!
