use crate::address::{consent_address_of, rederives, vault_authority_of, AUTHORIZED_RESEARCHER};
use crate::error::PharmaError;
use crate::escrow::{reward_step, RewardPatient, TokenAccount};
use crate::registry::{sign_consent_step, ConsentRecord, SignConsent};
use vstd::prelude::*;

verus! {

/// Signing consent for a subject whose record address derives and is free
/// succeeds and records the subject, the hash and "not verified"; signing
/// again for the same subject then collides, whatever the hash.
pub proof fn lemma_sign_consent_once(
    records: Map<Seq<u8>, ConsentRecord>,
    ctx: SignConsent,
    agreement_hash: [u8; 32],
    other_hash: [u8; 32],
)
    requires
        consent_address_of(ctx.patient@) matches Some((address, _)) && address
            == ctx.consent_record@,
        !records.contains_key(ctx.consent_record@),
    ensures
        sign_consent_step(records, ctx, agreement_hash) matches Ok(after) && {
            &&& after.contains_key(ctx.consent_record@)
            &&& after[ctx.consent_record@].patient == ctx.patient
            &&& after[ctx.consent_record@].agreement_hash == agreement_hash
            &&& !after[ctx.consent_record@].is_verified
            &&& sign_consent_step(after, ctx, other_hash) == Err::<
                Map<Seq<u8>, ConsentRecord>,
                PharmaError,
            >(PharmaError::AddressCollision)
        },
{
}

/// Anyone but the authorized researcher is refused, whatever the amount and
/// the records; a refused release changes nothing.
pub proof fn lemma_unauthorized_refused(
    records: Map<Seq<u8>, ConsentRecord>,
    ctx: RewardPatient,
    amount: u64,
)
    requires
        ctx.researcher@ != AUTHORIZED_RESEARCHER@,
    ensures
        reward_step(records, ctx, amount) == Err::<
            (Map<Seq<u8>, ConsentRecord>, TokenAccount, TokenAccount),
            PharmaError,
        >(PharmaError::UnauthorizedResearcher),
{
}

/// Whether the accounts of a release are consistent with the derivations and
/// the vault can pay `amount` to the subject.
pub open spec fn release_possible(
    records: Map<Seq<u8>, ConsentRecord>,
    ctx: RewardPatient,
    amount: u64,
) -> bool {
    &&& records.contains_key(ctx.consent_record@)
    &&& rederives(ctx.patient_wallet@, records[ctx.consent_record@].bump, ctx.consent_record@)
    &&& vault_authority_of() matches Some((authority, _)) && authority == ctx.vault_authority@
    &&& ctx.vault_token_account.owner@ == ctx.vault_authority@
    &&& amount <= ctx.vault_token_account.amount
    &&& ctx.patient_token_account.amount + amount <= u64::MAX
}

/// A release by the authorized researcher on an existing record marks it
/// verified, leaves every other record as it was, and moves exactly `amount`
/// from the vault to the subject: the sum of the two balances is kept.
pub proof fn lemma_authorized_release(
    records: Map<Seq<u8>, ConsentRecord>,
    ctx: RewardPatient,
    amount: u64,
)
    requires
        ctx.researcher@ == AUTHORIZED_RESEARCHER@,
        release_possible(records, ctx, amount),
    ensures
        reward_step(records, ctx, amount) matches Ok((after, vault, patient)) && {
            &&& after == records.insert(
                ctx.consent_record@,
                ConsentRecord { is_verified: true, ..records[ctx.consent_record@] },
            )
            &&& after[ctx.consent_record@].is_verified
            &&& vault.amount == ctx.vault_token_account.amount - amount
            &&& patient.amount == ctx.patient_token_account.amount + amount
            &&& vault.amount + patient.amount == ctx.vault_token_account.amount
                + ctx.patient_token_account.amount
        },
{
}

/// Deriving a subject's record address is repeatable: the same subject gives
/// the same address and bump.
pub proof fn lemma_derivation_repeatable(subject: [u8; 32], again: [u8; 32])
    requires
        subject@ == again@,
    ensures
        consent_address_of(subject@) == consent_address_of(again@),
{
}

/// A second release on a record that the first one verified succeeds as
/// well, and moves the full amount again.
pub proof fn lemma_release_repeats(
    records: Map<Seq<u8>, ConsentRecord>,
    ctx: RewardPatient,
    amount: u64,
)
    requires
        ctx.researcher@ == AUTHORIZED_RESEARCHER@,
        release_possible(records, ctx, amount),
        amount <= ctx.vault_token_account.amount - amount,
        ctx.patient_token_account.amount + 2 * amount <= u64::MAX,
    ensures
        reward_step(records, ctx, amount) matches Ok((after, vault, patient)) && {
            &&& after[ctx.consent_record@].is_verified
            &&& reward_step(
                after,
                RewardPatient {
                    vault_token_account: vault,
                    patient_token_account: patient,
                    ..ctx
                },
                amount,
            ) matches Ok((again, vault2, patient2)) && {
                &&& again == after
                &&& vault2.amount == vault.amount - amount
                &&& patient2.amount == patient.amount + amount
            }
        },
{
    let address = ctx.consent_record@;
    let after = records.insert(address, ConsentRecord { is_verified: true, ..records[address] });
    assert(after[address].bump == records[address].bump);
    assert(after.insert(address, ConsentRecord { is_verified: true, ..after[address] }) =~= after);
}

} // verus!
