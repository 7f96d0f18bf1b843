//! Consent records with a single-principal reward gate and an escrow release
//! authorised by a keyless, derived vault authority.

pub mod address;
pub mod error;
pub mod registry;
pub mod escrow;
pub mod laws;
