use pharma_trace::address::{
    check_rederives, consent_address, is_authorized, key_bytes, same_key, vault_authority,
    AUTHORIZED_RESEARCHER,
};
use pharma_trace::error::PharmaError;
use pharma_trace::escrow::{reward_patient, transfer, RewardPatient, TokenAccount};
use pharma_trace::registry::{sign_consent, ConsentRecord, ConsentRegistry, SignConsent};

const ALICE: [u8; 32] = [0x11; 32];
const BOB: [u8; 32] = [0x22; 32];
const MALLORY: [u8; 32] = [0x33; 32];
const HASH: [u8; 32] = [0xAA; 32];

fn signed(subject: [u8; 32]) -> (ConsentRegistry, [u8; 32]) {
    let mut registry = ConsentRegistry::new();
    let (address, _) = consent_address(&subject).unwrap();
    let ctx = SignConsent { consent_record: address, patient: subject };
    assert_eq!(sign_consent(&mut registry, &ctx, HASH), Ok(()));
    (registry, address)
}

fn reward_ctx(address: [u8; 32], subject: [u8; 32], caller: [u8; 32], vault: u64) -> RewardPatient {
    let signer = vault_authority().unwrap();
    RewardPatient {
        consent_record: address,
        vault_token_account: TokenAccount { owner: signer.address, amount: vault },
        patient_token_account: TokenAccount { owner: subject, amount: 0 },
        vault_authority: signer.address,
        patient_wallet: subject,
        researcher: caller,
    }
}

#[test]
fn alice_signs_and_is_rewarded() {
    let (mut registry, address) = signed(ALICE);
    let record = registry.get(&address).unwrap();
    assert_eq!(record.patient, ALICE);
    assert_eq!(record.agreement_hash, HASH);
    assert!(!record.is_verified);

    let mut ctx = reward_ctx(address, ALICE, AUTHORIZED_RESEARCHER, 5000);
    assert_eq!(reward_patient(&mut registry, &mut ctx, 1000), Ok(()));
    let record = registry.get(&address).unwrap();
    assert_eq!(record.patient, ALICE);
    assert_eq!(record.agreement_hash, HASH);
    assert!(record.is_verified);
    assert_eq!(ctx.vault_token_account.amount, 4000);
    assert_eq!(ctx.patient_token_account.amount, 1000);

    let mut other = ctx;
    other.researcher = MALLORY;
    assert_eq!(
        reward_patient(&mut registry, &mut other, 1000),
        Err(PharmaError::UnauthorizedResearcher)
    );
    assert_eq!(other.vault_token_account.amount, 4000);
    assert_eq!(other.patient_token_account.amount, 1000);
    assert!(registry.get(&address).unwrap().is_verified);
}

#[test]
fn unauthorized_caller_changes_nothing() {
    let (mut registry, address) = signed(ALICE);
    let mut ctx = reward_ctx(address, ALICE, MALLORY, 5000);
    assert_eq!(
        reward_patient(&mut registry, &mut ctx, 1000),
        Err(PharmaError::UnauthorizedResearcher)
    );
    assert_eq!(ctx.vault_token_account.amount, 5000);
    assert_eq!(ctx.patient_token_account.amount, 0);
    assert!(!registry.get(&address).unwrap().is_verified);
}

#[test]
fn second_signature_collides() {
    let (mut registry, address) = signed(ALICE);
    let ctx = SignConsent { consent_record: address, patient: ALICE };
    assert_eq!(
        sign_consent(&mut registry, &ctx, [0x55; 32]),
        Err(PharmaError::AddressCollision)
    );
    assert_eq!(registry.get(&address).unwrap().agreement_hash, HASH);
}

#[test]
fn two_subjects_get_two_records() {
    let (mut registry, alice_address) = signed(ALICE);
    let (bob_address, _) = consent_address(&BOB).unwrap();
    let ctx = SignConsent { consent_record: bob_address, patient: BOB };
    assert_eq!(sign_consent(&mut registry, &ctx, HASH), Ok(()));
    assert!(registry.contains(&alice_address));
    assert!(registry.contains(&bob_address));
    assert_eq!(registry.get(&bob_address).unwrap().patient, BOB);
}

#[test]
fn signature_at_a_wrong_address_is_refused() {
    let mut registry = ConsentRegistry::new();
    let (bob_address, _) = consent_address(&BOB).unwrap();
    let ctx = SignConsent { consent_record: bob_address, patient: ALICE };
    assert_eq!(
        sign_consent(&mut registry, &ctx, HASH),
        Err(PharmaError::DerivationMismatch)
    );
    assert!(!registry.contains(&bob_address));
}

#[test]
fn derivation_is_repeatable() {
    let first = consent_address(&ALICE).unwrap();
    let second = consent_address(&ALICE).unwrap();
    assert_eq!(first, second);
    assert_ne!(first.0, ALICE);
    assert_ne!(consent_address(&BOB).unwrap().0, first.0);
    assert!(check_rederives(&ALICE, first.1, &first.0));
    assert!(!check_rederives(&BOB, first.1, &first.0));
    let a = vault_authority().unwrap();
    let b = vault_authority().unwrap();
    assert_eq!(a.address, b.address);
    assert_eq!(a.bump, b.bump);
    assert_ne!(a.address, first.0);
}

#[test]
fn repeated_release_pays_again() {
    let (mut registry, address) = signed(ALICE);
    let mut ctx = reward_ctx(address, ALICE, AUTHORIZED_RESEARCHER, 5000);
    assert_eq!(reward_patient(&mut registry, &mut ctx, 1000), Ok(()));
    assert_eq!(reward_patient(&mut registry, &mut ctx, 1000), Ok(()));
    assert!(registry.get(&address).unwrap().is_verified);
    assert_eq!(ctx.vault_token_account.amount, 3000);
    assert_eq!(ctx.patient_token_account.amount, 2000);
}

#[test]
fn insufficient_vault_fails_whole() {
    let (mut registry, address) = signed(ALICE);
    let mut ctx = reward_ctx(address, ALICE, AUTHORIZED_RESEARCHER, 999);
    assert_eq!(
        reward_patient(&mut registry, &mut ctx, 1000),
        Err(PharmaError::TransferFailure)
    );
    assert_eq!(ctx.vault_token_account.amount, 999);
    assert_eq!(ctx.patient_token_account.amount, 0);
    assert!(!registry.get(&address).unwrap().is_verified);
}

#[test]
fn whole_vault_can_be_released() {
    let (mut registry, address) = signed(ALICE);
    let mut ctx = reward_ctx(address, ALICE, AUTHORIZED_RESEARCHER, u64::MAX);
    assert_eq!(reward_patient(&mut registry, &mut ctx, u64::MAX), Ok(()));
    assert_eq!(ctx.vault_token_account.amount, 0);
    assert_eq!(ctx.patient_token_account.amount, u64::MAX);
}

#[test]
fn zero_amount_still_verifies() {
    let (mut registry, address) = signed(ALICE);
    let mut ctx = reward_ctx(address, ALICE, AUTHORIZED_RESEARCHER, 10);
    assert_eq!(reward_patient(&mut registry, &mut ctx, 0), Ok(()));
    assert!(registry.get(&address).unwrap().is_verified);
    assert_eq!(ctx.vault_token_account.amount, 10);
}

#[test]
fn mismatched_accounts_are_refused() {
    let (mut registry, address) = signed(ALICE);

    let mut wrong_wallet = reward_ctx(address, ALICE, AUTHORIZED_RESEARCHER, 5000);
    wrong_wallet.patient_wallet = BOB;
    assert_eq!(
        reward_patient(&mut registry, &mut wrong_wallet, 1000),
        Err(PharmaError::DerivationMismatch)
    );

    let (bob_address, _) = consent_address(&BOB).unwrap();
    let mut missing = reward_ctx(bob_address, BOB, AUTHORIZED_RESEARCHER, 5000);
    assert_eq!(
        reward_patient(&mut registry, &mut missing, 1000),
        Err(PharmaError::DerivationMismatch)
    );

    let mut wrong_authority = reward_ctx(address, ALICE, AUTHORIZED_RESEARCHER, 5000);
    wrong_authority.vault_authority = MALLORY;
    assert_eq!(
        reward_patient(&mut registry, &mut wrong_authority, 1000),
        Err(PharmaError::DerivationMismatch)
    );
    assert_eq!(wrong_authority.vault_token_account.amount, 5000);
    assert!(!registry.get(&address).unwrap().is_verified);
}

#[test]
fn vault_not_owned_by_authority_fails() {
    let (mut registry, address) = signed(ALICE);
    let mut ctx = reward_ctx(address, ALICE, AUTHORIZED_RESEARCHER, 5000);
    ctx.vault_token_account.owner = MALLORY;
    assert_eq!(
        reward_patient(&mut registry, &mut ctx, 1000),
        Err(PharmaError::TransferFailure)
    );
    assert!(!registry.get(&address).unwrap().is_verified);
}

#[test]
fn transfer_refuses_overflow() {
    let signer = vault_authority().unwrap();
    let mut from = TokenAccount { owner: signer.address, amount: 10 };
    let mut to = TokenAccount { owner: ALICE, amount: u64::MAX - 5 };
    assert_eq!(transfer(&mut from, &mut to, &signer, 6), Err(PharmaError::TransferFailure));
    assert_eq!(from.amount, 10);
    assert_eq!(transfer(&mut from, &mut to, &signer, 5), Ok(()));
    assert_eq!(from.amount, 5);
    assert_eq!(to.amount, u64::MAX);
}

#[test]
fn only_the_researcher_is_authorized() {
    assert!(is_authorized(&AUTHORIZED_RESEARCHER));
    assert!(!is_authorized(&MALLORY));
    assert!(same_key(&ALICE, &ALICE));
    assert!(!same_key(&ALICE, &BOB));
    assert_eq!(key_bytes(&ALICE), ALICE.to_vec());
}

#[test]
fn loaded_record_can_be_rewarded() {
    let (address, bump) = consent_address(&ALICE).unwrap();
    let record = ConsentRecord { patient: ALICE, agreement_hash: HASH, is_verified: true, bump };
    let mut registry = ConsentRegistry::with_record(address, record);
    assert!(registry.contains(&address));
    assert!(!registry.contains(&BOB));
    let mut ctx = reward_ctx(address, ALICE, AUTHORIZED_RESEARCHER, 100);
    assert_eq!(reward_patient(&mut registry, &mut ctx, 40), Ok(()));
    assert_eq!(ctx.vault_token_account.amount, 60);
    assert_eq!(ctx.patient_token_account.amount, 40);
    let ctx2 = SignConsent { consent_record: address, patient: ALICE };
    assert_eq!(sign_consent(&mut registry, &ctx2, HASH), Err(PharmaError::AddressCollision));
}
