use crate::address::{consent_address, consent_address_of, same_key};
use crate::error::PharmaError;
use vstd::prelude::*;

verus! {

/// One subject's consent to the agreement identified by a hash, and whether
/// the reward for it has been released.
#[derive(Clone, Copy, Debug)]
pub struct ConsentRecord {
    pub patient: [u8; 32],
    pub agreement_hash: [u8; 32],
    pub is_verified: bool,
    pub bump: u8,
}

/// The accounts of a consent signature: the record's address and the
/// subject, who has signed.
#[derive(Clone, Copy, Debug)]
pub struct SignConsent {
    pub consent_record: [u8; 32],
    pub patient: [u8; 32],
}

/// The consent records, by address. At most one record lives at an address.
pub struct ConsentRegistry {
    entries: Vec<([u8; 32], ConsentRecord)>,
    contents: Ghost<Map<Seq<u8>, ConsentRecord>>,
}

impl View for ConsentRegistry {
    type V = Map<Seq<u8>, ConsentRecord>;

    closed spec fn view(&self) -> Map<Seq<u8>, ConsentRecord> {
        self.contents@
    }
}

/// What signing consent does to the records: `Ok` with the new records, or
/// the error.
pub open spec fn sign_consent_step(
    records: Map<Seq<u8>, ConsentRecord>,
    ctx: SignConsent,
    agreement_hash: [u8; 32],
) -> Result<Map<Seq<u8>, ConsentRecord>, PharmaError> {
    match consent_address_of(ctx.patient@) {
        Some((address, bump)) => {
            if address != ctx.consent_record@ {
                Err(PharmaError::DerivationMismatch)
            } else if records.contains_key(address) {
                Err(PharmaError::AddressCollision)
            } else {
                Ok(
                    records.insert(
                        address,
                        ConsentRecord {
                            patient: ctx.patient,
                            agreement_hash,
                            is_verified: false,
                            bump,
                        },
                    ),
                )
            }
        },
        None => Err(PharmaError::DerivationMismatch),
    }
}

impl ConsentRegistry {
    /// The entries match the records, and no address appears twice.
    pub closed spec fn wf(&self) -> bool {
        &&& forall|i: int|
            0 <= i < self.entries@.len() ==> #[trigger] self.contents@.contains_key(
                self.entries@[i].0@,
            ) && self.contents@[self.entries@[i].0@] == self.entries@[i].1
        &&& forall|a: Seq<u8>| #[trigger]
            self.contents@.contains_key(a) ==> exists|i: int|
                0 <= i < self.entries@.len() && #[trigger] self.entries@[i].0@ == a
        &&& forall|i: int, j: int|
            0 <= i < self.entries@.len() && 0 <= j < self.entries@.len() && i != j
                ==> self.entries@[i].0@ != self.entries@[j].0@
    }

    /// No records.
    pub fn new() -> (r: ConsentRegistry)
        ensures
            r.wf(),
            r@ == Map::<Seq<u8>, ConsentRecord>::empty(),
    {
        ConsentRegistry { entries: Vec::new(), contents: Ghost(Map::empty()) }
    }

    /// The records as they stand where one record lives at `address`.
    pub fn with_record(address: [u8; 32], record: ConsentRecord) -> (r: ConsentRegistry)
        ensures
            r.wf(),
            r@ == Map::<Seq<u8>, ConsentRecord>::empty().insert(address@, record),
    {
        let mut r = ConsentRegistry::new();
        r.add(address, record);
        r
    }

    /// The position of the entry at `address`, if there is one.
    fn position(&self, address: &[u8; 32]) -> (r: Option<usize>)
        requires
            self.wf(),
        ensures
            match r {
                Some(i) => i < self.entries@.len() && self.entries@[i as int].0@ == address@,
                None => !self@.contains_key(address@),
            },
    {
        let mut i: usize = 0;
        while i < self.entries.len()
            invariant
                self.wf(),
                i <= self.entries@.len(),
                forall|j: int| 0 <= j < i ==> self.entries@[j].0@ != address@,
            decreases self.entries@.len() - i,
        {
            if same_key(&self.entries[i].0, address) {
                return Some(i);
            }
            i = i + 1;
        }
        None
    }

    /// Whether a record lives at `address`.
    pub fn contains(&self, address: &[u8; 32]) -> (r: bool)
        requires
            self.wf(),
        ensures
            r == self@.contains_key(address@),
    {
        self.position(address).is_some()
    }

    /// The record at `address`, if there is one.
    pub fn get(&self, address: &[u8; 32]) -> (r: Option<ConsentRecord>)
        requires
            self.wf(),
        ensures
            r == (if self@.contains_key(address@) {
                Some(self@[address@])
            } else {
                None
            }),
    {
        match self.position(address) {
            Some(i) => Some(self.entries[i].1),
            None => None,
        }
    }

    /// Adds a record at an address where none lives.
    fn add(&mut self, address: [u8; 32], record: ConsentRecord)
        requires
            old(self).wf(),
            !old(self)@.contains_key(address@),
        ensures
            final(self).wf(),
            final(self)@ == old(self)@.insert(address@, record),
    {
        let ghost prev = self.entries@;
        self.entries.push((address, record));
        self.contents = Ghost(self.contents@.insert(address@, record));
        assert forall|a: Seq<u8>| #[trigger] self.contents@.contains_key(a) implies exists|i: int|
            0 <= i < self.entries@.len() && #[trigger] self.entries@[i].0@ == a by {
            if a == address@ {
                assert(self.entries@[prev.len() as int].0@ == a);
            } else {
                let i = choose|i: int| 0 <= i < prev.len() && #[trigger] prev[i].0@ == a;
                assert(self.entries@[i].0@ == a);
            }
        }
    }

    /// Marks the record at `address` verified.
    pub(crate) fn set_verified(&mut self, address: &[u8; 32])
        requires
            old(self).wf(),
            old(self)@.contains_key(address@),
        ensures
            final(self).wf(),
            final(self)@ == old(self)@.insert(
                address@,
                ConsentRecord { is_verified: true, ..old(self)@[address@] },
            ),
    {
        match self.position(address) {
            Some(i) => self.mark_verified(i),
            None => {},
        }
    }

    /// Marks the record at position `i` verified.
    fn mark_verified(&mut self, i: usize)
        requires
            old(self).wf(),
            i < old(self).entries@.len(),
        ensures
            final(self).wf(),
            final(self)@ == old(self)@.insert(
                old(self).entries@[i as int].0@,
                ConsentRecord { is_verified: true, ..old(self).entries@[i as int].1 },
            ),
    {
        let ghost prev = self.entries@;
        let (address, record) = self.entries[i];
        let updated = ConsentRecord { is_verified: true, ..record };
        self.entries.set(i, (address, updated));
        self.contents = Ghost(self.contents@.insert(address@, updated));
        assert forall|a: Seq<u8>| #[trigger] self.contents@.contains_key(a) implies exists|j: int|
            0 <= j < self.entries@.len() && #[trigger] self.entries@[j].0@ == a by {
            if a == address@ {
                assert(self.entries@[i as int].0@ == a);
            } else {
                let j = choose|j: int| 0 <= j < prev.len() && #[trigger] prev[j].0@ == a;
                assert(self.entries@[j].0@ == a);
            }
        }
    }
}

/// Records a subject's consent to the agreement with the given hash, at the
/// address derived from the tag "consent" and the subject. Fails with
/// `AddressCollision` where a record already lives there.
pub fn sign_consent(
    registry: &mut ConsentRegistry,
    ctx: &SignConsent,
    agreement_hash: [u8; 32],
) -> (r: Result<(), PharmaError>)
    requires
        old(registry).wf(),
    ensures
        final(registry).wf(),
        match sign_consent_step(old(registry)@, *ctx, agreement_hash) {
            Ok(records) => r is Ok && final(registry)@ == records,
            Err(e) => r == Err::<(), PharmaError>(e) && final(registry)@ == old(registry)@,
        },
{
    match consent_address(&ctx.patient) {
        Some((address, bump)) => {
            if !same_key(&address, &ctx.consent_record) {
                return Err(PharmaError::DerivationMismatch);
            }
            if registry.contains(&address) {
                return Err(PharmaError::AddressCollision);
            }
            let record = ConsentRecord {
                patient: ctx.patient,
                agreement_hash,
                is_verified: false,
                bump,
            };
            registry.add(address, record);
            Ok(())
        },
        None => Err(PharmaError::DerivationMismatch),
    }
}

} // verus!
