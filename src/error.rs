use vstd::prelude::*;

verus! {

/// Every way an operation of this program can fail. A failed operation has
/// no effect at all.
#[derive(Clone, Copy, Debug, PartialEq, Eq, Structural)]
pub enum PharmaError {
    /// The caller is not the one researcher allowed to release rewards.
    UnauthorizedResearcher,
    /// A consent record already exists at the subject's derived address.
    AddressCollision,
    /// The supplied accounts do not match the address derivation.
    DerivationMismatch,
    /// The token transfer out of the vault cannot be carried out.
    TransferFailure,
}

} // verus!
