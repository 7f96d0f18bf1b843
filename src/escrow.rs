use crate::address::{
    check_rederives, is_authorized, rederives, same_key, vault_authority, vault_authority_of,
    VaultSigner, AUTHORIZED_RESEARCHER,
};
use crate::error::PharmaError;
use crate::registry::{ConsentRecord, ConsentRegistry};
use vstd::prelude::*;

verus! {

/// A token account as a transfer reads it: the identity that may sign for
/// it, and its balance.
#[derive(Clone, Copy, Debug)]
pub struct TokenAccount {
    pub owner: [u8; 32],
    pub amount: u64,
}

/// The accounts of a reward release: the consent record and the subject it
/// belongs to, the vault and the subject's token account, the vault
/// authority, and the caller, who has signed.
#[derive(Clone, Copy, Debug)]
pub struct RewardPatient {
    pub consent_record: [u8; 32],
    pub vault_token_account: TokenAccount,
    pub patient_token_account: TokenAccount,
    pub vault_authority: [u8; 32],
    pub patient_wallet: [u8; 32],
    pub researcher: [u8; 32],
}

/// What a transfer of `amount` from `from` to `to`, signed by `authority`,
/// leaves behind; `None` where it cannot be made: `authority` does not own
/// `from`, `from` holds too little, or `to` would overflow.
pub open spec fn transfer_step(
    from: TokenAccount,
    to: TokenAccount,
    authority: Seq<u8>,
    amount: u64,
) -> Option<(TokenAccount, TokenAccount)> {
    if from.owner@ == authority && amount <= from.amount && to.amount + amount <= u64::MAX {
        Some(
            (
                TokenAccount { amount: (from.amount - amount) as u64, ..from },
                TokenAccount { amount: (to.amount + amount) as u64, ..to },
            ),
        )
    } else {
        None
    }
}

/// What releasing a reward of `amount` does: `Ok` with the new records, vault
/// and subject token account, or the error.
pub open spec fn reward_step(
    records: Map<Seq<u8>, ConsentRecord>,
    ctx: RewardPatient,
    amount: u64,
) -> Result<(Map<Seq<u8>, ConsentRecord>, TokenAccount, TokenAccount), PharmaError> {
    let address = ctx.consent_record@;
    if ctx.researcher@ != AUTHORIZED_RESEARCHER@ {
        Err(PharmaError::UnauthorizedResearcher)
    } else if !records.contains_key(address) || !rederives(
        ctx.patient_wallet@,
        records[address].bump,
        address,
    ) {
        Err(PharmaError::DerivationMismatch)
    } else {
        match vault_authority_of() {
            Some((authority, _)) => {
                if authority != ctx.vault_authority@ {
                    Err(PharmaError::DerivationMismatch)
                } else {
                    match transfer_step(
                        ctx.vault_token_account,
                        ctx.patient_token_account,
                        authority,
                        amount,
                    ) {
                        Some((vault, patient)) => Ok(
                            (
                                records.insert(
                                    address,
                                    ConsentRecord { is_verified: true, ..records[address] },
                                ),
                                vault,
                                patient,
                            ),
                        ),
                        None => Err(PharmaError::TransferFailure),
                    }
                }
            },
            None => Err(PharmaError::DerivationMismatch),
        }
    }
}

/// Moves `amount` tokens from `from` to `to` on the vault's signature, all or
/// nothing.
pub fn transfer(
    from: &mut TokenAccount,
    to: &mut TokenAccount,
    signer: &VaultSigner,
    amount: u64,
) -> (r: Result<(), PharmaError>)
    ensures
        match transfer_step(*old(from), *old(to), signer.address@, amount) {
            Some((f, t)) => r is Ok && *final(from) == f && *final(to) == t,
            None => r == Err::<(), PharmaError>(PharmaError::TransferFailure) && *final(from)
                == *old(from) && *final(to) == *old(to),
        },
{
    if !same_key(&from.owner, &signer.address) || amount > from.amount || to.amount > u64::MAX
        - amount {
        return Err(PharmaError::TransferFailure);
    }
    from.amount = from.amount - amount;
    to.amount = to.amount + amount;
    Ok(())
}

/// Releases a reward of `amount` to the subject of a consent record: only
/// the authorized researcher may call it; it marks the record verified and
/// moves `amount` tokens from the vault to the subject, signed by the derived
/// vault authority. It does so again on a record that is already verified.
pub fn reward_patient(
    registry: &mut ConsentRegistry,
    ctx: &mut RewardPatient,
    amount: u64,
) -> (r: Result<(), PharmaError>)
    requires
        old(registry).wf(),
    ensures
        final(registry).wf(),
        match reward_step(old(registry)@, *old(ctx), amount) {
            Ok((records, vault, patient)) => {
                &&& r is Ok
                &&& final(registry)@ == records
                &&& *final(ctx) == (RewardPatient {
                    vault_token_account: vault,
                    patient_token_account: patient,
                    ..*old(ctx)
                })
            },
            Err(e) => {
                &&& r == Err::<(), PharmaError>(e)
                &&& final(registry)@ == old(registry)@
                &&& *final(ctx) == *old(ctx)
            },
        },
{
    if !is_authorized(&ctx.researcher) {
        return Err(PharmaError::UnauthorizedResearcher);
    }
    let record = match registry.get(&ctx.consent_record) {
        Some(record) => record,
        None => return Err(PharmaError::DerivationMismatch),
    };
    if !check_rederives(&ctx.patient_wallet, record.bump, &ctx.consent_record) {
        return Err(PharmaError::DerivationMismatch);
    }
    let signer = match vault_authority() {
        Some(signer) => signer,
        None => return Err(PharmaError::DerivationMismatch),
    };
    if !same_key(&signer.address, &ctx.vault_authority) {
        return Err(PharmaError::DerivationMismatch);
    }
    transfer(&mut ctx.vault_token_account, &mut ctx.patient_token_account, &signer, amount)?;
    registry.set_verified(&ctx.consent_record);
    Ok(())
}

} // verus!
