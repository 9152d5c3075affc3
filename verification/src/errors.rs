//! Error taxonomy shared by every operation of the registry core.

use vstd::prelude::*;

verus! {

/// Why an operation was rejected. Every check is fail-fast: the first
/// failed check decides the variant and nothing is mutated.
#[derive(Clone, Copy, Debug, PartialEq, Eq, Structural)]
pub enum ErrorCode {
    /// The signer is not the collection owner recorded at creation.
    Unauthorized,
    /// The number of prices does not match the registry's declared size.
    SizeMismatch,
    /// The stored derivation nonce disagrees with the one recomputed from
    /// the record's own seeds: the record is corrupted or spoofed.
    InvalidBump,
    /// A price of zero was supplied.
    InvalidPrice,
    /// A price at or above the ceiling was supplied.
    PriceTooHigh,
    /// An externally supplied tree configuration could not be parsed.
    InvalidTreeConfig,
    /// The tree configuration's delegate is not the authority this
    /// program derives for the collection.
    InvalidMintAuthority,
    /// No registry record exists at the derived address.
    NotFound,
    /// Seeded address derivation found no usable nonce. Statistically
    /// this must not occur in practice; it is surfaced rather than hidden.
    DerivationFailure,
    /// The external tree program rejected the orchestrated call; its own
    /// failure is passed through opaquely.
    ExternalTreeError,
}

impl ErrorCode {
    /// Human-readable description, for hosts that log rejections.
    pub fn message(&self) -> &'static str {
        match self {
            ErrorCode::Unauthorized => "Unauthorized: You are not the collection owner.",
            ErrorCode::SizeMismatch => "Size mismatch: Number of prices does not match expected size.",
            ErrorCode::InvalidBump => "Stored bump does not match derived bump.",
            ErrorCode::InvalidPrice => "Invalid price: Price must be greater than 0.",
            ErrorCode::PriceTooHigh => "Price too high: Price must be less than the ceiling.",
            ErrorCode::InvalidTreeConfig => "Unable to deserialize tree config. invalid Tree Config.",
            ErrorCode::InvalidMintAuthority => "Mint authority mismatch: Mint authority for Merkle Tree must match collection mint authority.",
            ErrorCode::NotFound => "No record exists at the derived address.",
            ErrorCode::DerivationFailure => "Unable to find a viable derivation bump seed.",
            ErrorCode::ExternalTreeError => "The external tree program reported a failure.",
        }
    }
}

} // verus!
