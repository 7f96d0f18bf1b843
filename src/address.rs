use anchor_lang::prelude::Pubkey;
use vstd::prelude::*;

verus! {

/// The address this program is deployed at.
pub const PROGRAM_ID: [u8; 32] = [
    62, 152, 238, 200, 107, 91, 246, 43, 148, 162, 232, 232, 209, 39, 152, 62,
    32, 199, 187, 224, 74, 26, 226, 86, 97, 208, 163, 218, 185, 169, 68, 99,
];

/// The one identity allowed to verify records and release rewards.
pub const AUTHORIZED_RESEARCHER: [u8; 32] = [
    199, 170, 149, 44, 245, 31, 71, 134, 209, 48, 186, 190, 62, 211, 160, 198,
    195, 246, 156, 53, 222, 56, 246, 119, 200, 228, 34, 23, 104, 41, 205, 173,
];

/// The program-derived address and bump that Solana's address search yields
/// for the given seeds under the given program, or `None` where it finds none.
pub uninterp spec fn program_address(seeds: Seq<Seq<u8>>, program: Seq<u8>) -> Option<(Seq<u8>, u8)>;

/// The address that the given seeds (the bump among them) derive under the
/// given program, or `None` where they derive none.
pub uninterp spec fn created_address(seeds: Seq<Seq<u8>>, program: Seq<u8>) -> Option<Seq<u8>>;

/// The byte strings that a list of seeds holds.
pub open spec fn seeds_view(seeds: Seq<Vec<u8>>) -> Seq<Seq<u8>> {
    seeds.map_values(|v: Vec<u8>| v@)
}

/// Relies on `Pubkey::try_find_program_address`: a pure function of the seeds
/// and the program id, which on success returns an address together with the
/// bump under which `Pubkey::create_program_address` yields that very address.
#[verifier::external_body]
fn try_find_address(seeds: &Vec<Vec<u8>>, program: &[u8; 32]) -> (r: Option<([u8; 32], u8)>)
    ensures
        match r {
            Some((a, b)) => program_address(seeds_view(seeds@), program@) == Some((a@, b)),
            None => program_address(seeds_view(seeds@), program@) is None,
        },
        r matches Some((a, b)) ==> created_address(
            seeds_view(seeds@).push(seq![b]),
            program@,
        ) == Some(a@),
{
    let s: Vec<&[u8]> = seeds.iter().map(|v| v.as_slice()).collect();
    Pubkey::try_find_program_address(&s, &Pubkey::new_from_array(*program)).map(
        |(k, b)| (k.to_bytes(), b),
    )
}

/// Relies on `Pubkey::create_program_address`: a pure function of the seeds
/// and the program id; its error is mapped to `None`.
#[verifier::external_body]
fn create_address(seeds: &Vec<Vec<u8>>, program: &[u8; 32]) -> (r: Option<[u8; 32]>)
    ensures
        match r {
            Some(a) => created_address(seeds_view(seeds@), program@) == Some(a@),
            None => created_address(seeds_view(seeds@), program@) is None,
        },
{
    let s: Vec<&[u8]> = seeds.iter().map(|v| v.as_slice()).collect();
    Pubkey::create_program_address(&s, &Pubkey::new_from_array(*program)).ok().map(
        |k| k.to_bytes(),
    )
}

/// The namespace tag of consent records: the bytes of "consent".
pub open spec fn consent_tag() -> Seq<u8> {
    seq![99u8, 111u8, 110u8, 115u8, 101u8, 110u8, 116u8]
}

/// The namespace tag of the vault authority: the bytes of "vault_authority".
pub open spec fn vault_tag() -> Seq<u8> {
    seq![
        118u8, 97u8, 117u8, 108u8, 116u8, 95u8, 97u8, 117u8,
        116u8, 104u8, 111u8, 114u8, 105u8, 116u8, 121u8,
    ]
}

/// The seeds of a subject's consent record.
pub open spec fn consent_seeds(subject: Seq<u8>) -> Seq<Seq<u8>> {
    seq![consent_tag(), subject]
}

/// The seeds of the vault authority.
pub open spec fn vault_seeds() -> Seq<Seq<u8>> {
    seq![vault_tag()]
}

/// Where a subject's consent record lives, and its bump.
pub open spec fn consent_address_of(subject: Seq<u8>) -> Option<(Seq<u8>, u8)> {
    program_address(consent_seeds(subject), PROGRAM_ID@)
}

/// The vault authority's address and bump.
pub open spec fn vault_authority_of() -> Option<(Seq<u8>, u8)> {
    program_address(vault_seeds(), PROGRAM_ID@)
}

/// Whether `address` is what the subject's consent seeds, with the stored
/// bump appended, derive.
pub open spec fn rederives(subject: Seq<u8>, bump: u8, address: Seq<u8>) -> bool {
    created_address(consent_seeds(subject).push(seq![bump]), PROGRAM_ID@) == Some(address)
}

/// The bytes of a key, in a vector.
pub fn key_bytes(k: &[u8; 32]) -> (r: Vec<u8>)
    ensures
        r@ == k@,
{
    let mut r: Vec<u8> = Vec::new();
    let mut i: usize = 0;
    while i < 32
        invariant
            i <= 32,
            k@.len() == 32,
            r@ == k@.subrange(0, i as int),
        decreases 32 - i,
    {
        r.push(k[i]);
        i = i + 1;
        assert(r@ =~= k@.subrange(0, i as int));
    }
    assert(r@ =~= k@);
    r
}

fn consent_tag_bytes() -> (r: Vec<u8>)
    ensures
        r@ == consent_tag(),
{
    let r: Vec<u8> = vec![99u8, 111u8, 110u8, 115u8, 101u8, 110u8, 116u8];
    assert(r@ =~= consent_tag());
    r
}

fn vault_tag_bytes() -> (r: Vec<u8>)
    ensures
        r@ == vault_tag(),
{
    let r: Vec<u8> = vec![
        118u8, 97u8, 117u8, 108u8, 116u8, 95u8, 97u8, 117u8,
        116u8, 104u8, 111u8, 114u8, 105u8, 116u8, 121u8,
    ];
    assert(r@ =~= vault_tag());
    r
}

/// Whether two keys are the same.
pub fn same_key(a: &[u8; 32], b: &[u8; 32]) -> (r: bool)
    ensures
        r == (a@ == b@),
{
    let mut i: usize = 0;
    while i < 32
        invariant
            i <= 32,
            a@.len() == 32,
            b@.len() == 32,
            forall|j: int| 0 <= j < i ==> a@[j] == b@[j],
        decreases 32 - i,
    {
        if a[i] != b[i] {
            return false;
        }
        i = i + 1;
    }
    assert(a@ =~= b@);
    true
}

/// The authorization gate: only the one fixed researcher passes.
pub fn is_authorized(caller: &[u8; 32]) -> (r: bool)
    ensures
        r == (caller@ == AUTHORIZED_RESEARCHER@),
{
    same_key(caller, &AUTHORIZED_RESEARCHER)
}

/// Derives the address of a subject's consent record and its bump.
pub fn consent_address(subject: &[u8; 32]) -> (r: Option<([u8; 32], u8)>)
    ensures
        match r {
            Some((a, b)) => consent_address_of(subject@) == Some((a@, b)) && rederives(
                subject@,
                b,
                a@,
            ),
            None => consent_address_of(subject@) is None,
        },
{
    let mut seeds: Vec<Vec<u8>> = Vec::new();
    seeds.push(consent_tag_bytes());
    seeds.push(key_bytes(subject));
    assert(seeds_view(seeds@) =~= consent_seeds(subject@));
    try_find_address(&seeds, &PROGRAM_ID)
}

/// Checks that the subject's consent seeds with `bump` derive `address`.
pub fn check_rederives(subject: &[u8; 32], bump: u8, address: &[u8; 32]) -> (r: bool)
    ensures
        r == rederives(subject@, bump, address@),
{
    let mut seeds: Vec<Vec<u8>> = Vec::new();
    seeds.push(consent_tag_bytes());
    seeds.push(key_bytes(subject));
    let mut b: Vec<u8> = Vec::new();
    b.push(bump);
    seeds.push(b);
    assert(seeds_view(seeds@) =~= consent_seeds(subject@).push(seq![bump]));
    match create_address(&seeds, &PROGRAM_ID) {
        Some(a) => same_key(&a, address),
        None => false,
    }
}

/// A capability to sign for the vault authority, obtained by re-deriving its
/// address rather than by holding a key.
#[derive(Clone, Copy, Debug)]
pub struct VaultSigner {
    pub address: [u8; 32],
    pub bump: u8,
}

/// Derives the vault authority and the capability to sign for it.
pub fn vault_authority() -> (r: Option<VaultSigner>)
    ensures
        match r {
            Some(s) => vault_authority_of() == Some((s.address@, s.bump)) && created_address(
                vault_seeds().push(seq![s.bump]),
                PROGRAM_ID@,
            ) == Some(s.address@),
            None => vault_authority_of() is None,
        },
{
    let mut seeds: Vec<Vec<u8>> = Vec::new();
    seeds.push(vault_tag_bytes());
    assert(seeds_view(seeds@) =~= vault_seeds());
    match try_find_address(&seeds, &PROGRAM_ID) {
        Some((address, bump)) => Some(VaultSigner { address, bump }),
        None => None,
    }
}

} // verus!
