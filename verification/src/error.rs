//! Closed error taxonomy shared across the library.
//!
//! Every fallible operation returns exactly one of these kinds. Each kind
//! maps to a stable four-digit numeric code, grouped by range (1xxx
//! validation, 2xxx transaction construction and policy, 3xxx derivation and
//! metadata, 4xxx serialization and input). Callers across the process
//! boundary dispatch on the code, never on the message text, so the codes
//! must never be reassigned.
use vstd::prelude::*;
use vstd::string::StringExecFns;

use crate::decimal::decimal_digits;
use crate::decimal::u64_to_decimal;

verus! {

/// Core library errors.
#[derive(Debug, Clone)]
pub enum CoreError {
    InvalidXpub(String),
    InvalidAddress(String),
    NetworkMismatch { expected: String, actual: String },
    PsbtError(String),
    DerivationError(String),
    MetadataError(String),
    InsufficientFunds { needed: u64, available: u64 },
    PolicyViolation(String),
    SerializationError(String),
    InvalidInput(String),
}

/// Result type for core operations.
pub type CoreResult<T> = Result<T, CoreError>;

impl CoreError {
    /// The stable numeric code of each kind.
    pub open spec fn spec_code(&self) -> i32 {
        match self {
            CoreError::InvalidXpub(_) => 1001,
            CoreError::InvalidAddress(_) => 1002,
            CoreError::NetworkMismatch { .. } => 1003,
            CoreError::PsbtError(_) => 2001,
            CoreError::InsufficientFunds { .. } => 2002,
            CoreError::PolicyViolation(_) => 2003,
            CoreError::DerivationError(_) => 3001,
            CoreError::MetadataError(_) => 3002,
            CoreError::SerializationError(_) => 4001,
            CoreError::InvalidInput(_) => 4002,
        }
    }

    /// Get the stable numeric code for boundary responses.
    pub fn code(&self) -> (c: i32)
        ensures
            c == self.spec_code(),
    {
        match self {
            CoreError::InvalidXpub(_) => 1001,
            CoreError::InvalidAddress(_) => 1002,
            CoreError::NetworkMismatch { .. } => 1003,
            CoreError::PsbtError(_) => 2001,
            CoreError::InsufficientFunds { .. } => 2002,
            CoreError::PolicyViolation(_) => 2003,
            CoreError::DerivationError(_) => 3001,
            CoreError::MetadataError(_) => 3002,
            CoreError::SerializationError(_) => 4001,
            CoreError::InvalidInput(_) => 4002,
        }
    }

    /// The human-readable message of each kind: a fixed description of the
    /// kind followed by the data it carries.
    pub open spec fn spec_message(&self) -> Seq<char> {
        match self {
            CoreError::InvalidXpub(s) => "Invalid xpub format: "@ + s@,
            CoreError::InvalidAddress(s) => "Invalid address: "@ + s@,
            CoreError::NetworkMismatch { expected, actual } => "Invalid network: expected "@
                + expected@ + ", got "@ + actual@,
            CoreError::PsbtError(s) => "PSBT building failed: "@ + s@,
            CoreError::DerivationError(s) => "Key derivation failed: "@ + s@,
            CoreError::MetadataError(s) => "Invalid metadata encoding: "@ + s@,
            CoreError::InsufficientFunds { needed, available } => "Insufficient funds: need "@
                + decimal_digits(*needed as nat) + " sats, have "@ + decimal_digits(
                *available as nat,
            ) + " sats"@,
            CoreError::PolicyViolation(s) => "Policy violation: "@ + s@,
            CoreError::SerializationError(s) => "Serialization error: "@ + s@,
            CoreError::InvalidInput(s) => "Invalid input: "@ + s@,
        }
    }

    /// Render the human-readable message.
    pub fn message(&self) -> (m: String)
        ensures
            m@ == self.spec_message(),
    {
        match self {
            CoreError::InvalidXpub(s) => {
                let mut m = String::from_str("Invalid xpub format: ");
                m.append(s.as_str());
                m
            },
            CoreError::InvalidAddress(s) => {
                let mut m = String::from_str("Invalid address: ");
                m.append(s.as_str());
                m
            },
            CoreError::NetworkMismatch { expected, actual } => {
                let mut m = String::from_str("Invalid network: expected ");
                m.append(expected.as_str());
                m.append(", got ");
                m.append(actual.as_str());
                m
            },
            CoreError::PsbtError(s) => {
                let mut m = String::from_str("PSBT building failed: ");
                m.append(s.as_str());
                m
            },
            CoreError::DerivationError(s) => {
                let mut m = String::from_str("Key derivation failed: ");
                m.append(s.as_str());
                m
            },
            CoreError::MetadataError(s) => {
                let mut m = String::from_str("Invalid metadata encoding: ");
                m.append(s.as_str());
                m
            },
            CoreError::InsufficientFunds { needed, available } => {
                let mut m = String::from_str("Insufficient funds: need ");
                let n = u64_to_decimal(*needed);
                m.append(n.as_str());
                m.append(" sats, have ");
                let a = u64_to_decimal(*available);
                m.append(a.as_str());
                m.append(" sats");
                m
            },
            CoreError::PolicyViolation(s) => {
                let mut m = String::from_str("Policy violation: ");
                m.append(s.as_str());
                m
            },
            CoreError::SerializationError(s) => {
                let mut m = String::from_str("Serialization error: ");
                m.append(s.as_str());
                m
            },
            CoreError::InvalidInput(s) => {
                let mut m = String::from_str("Invalid input: ");
                m.append(s.as_str());
                m
            },
        }
    }
}

} // verus!
