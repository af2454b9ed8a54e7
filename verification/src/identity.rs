//! Program-address derivation and verification: a program-controlled identity
//! is computed deterministically from a namespace tag, a bump byte and the
//! deriving program's identity, and a caller-supplied identity is trusted only
//! after it compares equal to the re-derived one.

use vstd::prelude::*;

use crate::error::ValidationError;

verus! {

/// A 32-byte account identity.
#[derive(Clone, Copy, Debug, PartialEq, Eq)]
pub struct Identity {
    pub bytes: [u8; 32],
}

/// Compares two identities byte by byte.
pub fn identity_eq(a: &Identity, b: &Identity) -> (r: bool)
    ensures
        r <==> a == b,
        r <==> a.bytes@ == b.bytes@,
{
    proof {
        broadcast use vstd::array::group_array_axioms;
    }
    let mut i: usize = 0;
    while i < 32
        invariant
            i <= 32,
            forall|j: int| 0 <= j < i ==> a.bytes@[j] == b.bytes@[j],
        decreases 32 - i,
    {
        if a.bytes[i] != b.bytes[i] {
            return false;
        }
        i += 1;
    }
    proof {
        assert(a.bytes =~= b.bytes);
    }
    true
}

/// What the ledger's derivation function returns for one namespace tag, bump
/// byte and deriving program: the derived identity's bytes, or nothing when
/// the tag is over the ledger's seed-length cap or the derived bytes land on
/// the curve (and so could carry a private key).
pub uninterp spec fn derived_identity(tag: Seq<u8>, bump: u8, program: Seq<u8>) -> Option<Seq<u8>>;

/// The derivation of `(tag, bump)` under `program` yields exactly `claimed`.
pub open spec fn derivation_accepts(tag: Seq<u8>, bump: u8, program: Seq<u8>, claimed: Seq<u8>) -> bool {
    derived_identity(tag, bump, program) == Some(claimed)
}

/// Relies on solana_program's `Pubkey::create_program_address` with the seed
/// list `[tag, [bump]]`: a deterministic function of the seed bytes and the
/// program id (a SHA-256-based derivation), returning an error exactly when a
/// seed is over the 32-byte cap or the derived bytes form a valid curve point.
#[verifier::external_body]
pub(crate) fn derive_address(tag: &Vec<u8>, bump: u8, program: &Identity) -> (r: Option<Identity>)
    ensures
        match r {
            Some(id) => derived_identity(tag@, bump, program.bytes@) == Some(id.bytes@),
            None => derived_identity(tag@, bump, program.bytes@) is None,
        },
{
    let program_id = solana_program::pubkey::Pubkey::new_from_array(program.bytes);
    let bump_seed = [bump];
    match solana_program::pubkey::Pubkey::create_program_address(
        &[tag.as_slice(), &bump_seed],
        &program_id,
    ) {
        Ok(derived) => Some(Identity { bytes: derived.to_bytes() }),
        Err(_) => None,
    }
}

/// A verified program address: the identity re-derived from `(tag, bump)` and
/// compared equal to the caller's claim.
#[derive(Clone, Copy, Debug, PartialEq, Eq)]
pub struct DerivedAddress {
    pub identity: Identity,
    pub bump: u8,
}

/// Re-derives the identity for `(namespace_tag, claimed_bump)` under
/// `caller_program_identity` and accepts exactly when it equals
/// `claimed_identity`; any other claim is an `AddressMismatch`.
pub fn derive_and_verify(
    namespace_tag: &Vec<u8>,
    claimed_bump: u8,
    claimed_identity: &Identity,
    caller_program_identity: &Identity,
) -> (r: Result<DerivedAddress, ValidationError>)
    ensures
        r is Ok <==> derivation_accepts(
            namespace_tag@,
            claimed_bump,
            caller_program_identity.bytes@,
            claimed_identity.bytes@,
        ),
        r matches Ok(da) ==> da.identity == *claimed_identity && da.bump == claimed_bump,
        r is Err ==> r == Err::<DerivedAddress, ValidationError>(ValidationError::AddressMismatch),
{
    match derive_address(namespace_tag, claimed_bump, caller_program_identity) {
        Some(derived) => {
            if identity_eq(&derived, claimed_identity) {
                Ok(DerivedAddress { identity: *claimed_identity, bump: claimed_bump })
            } else {
                Err(ValidationError::AddressMismatch)
            }
        },
        None => Err(ValidationError::AddressMismatch),
    }
}

/// Acceptance pins the identity: once `(tag, bump)` derives to `good`, every
/// claim that differs from `good` anywhere — by as little as one bit — is
/// rejected.
pub proof fn lemma_accepts_unique_identity(
    tag: Seq<u8>,
    bump: u8,
    program: Seq<u8>,
    good: Seq<u8>,
    other: Seq<u8>,
)
    requires
        derivation_accepts(tag, bump, program, good),
        other != good,
    ensures
        !derivation_accepts(tag, bump, program, other),
{
}

/// `bump` is the canonical bump for `id` under `(tag, program)`: it derives
/// exactly `id`, and no higher bump derives anything.
pub open spec fn is_canonical_bump(tag: Seq<u8>, program: Seq<u8>, id: Seq<u8>, bump: u8) -> bool {
    derivation_accepts(tag, bump, program, id) && forall|b: u8|
        bump < b ==> derived_identity(tag, b, program) is None
}

/// Some bump is canonical for `id` under `(tag, program)`.
pub open spec fn has_canonical(tag: Seq<u8>, program: Seq<u8>, id: Seq<u8>) -> bool {
    exists|b: u8| is_canonical_bump(tag, program, id, b)
}

/// Searches bump bytes from the highest down for the first that derives an
/// identity; the bump found is the only one at or above it that derives.
pub fn find_bump(namespace_tag: &Vec<u8>, program: &Identity) -> (r: Option<DerivedAddress>)
    ensures
        r matches Some(da) ==> derivation_accepts(
            namespace_tag@,
            da.bump,
            program.bytes@,
            da.identity.bytes@,
        ) && forall|b: u8|
            da.bump < b ==> derived_identity(namespace_tag@, b, program.bytes@) is None,
        r is None ==> forall|b: u8| derived_identity(namespace_tag@, b, program.bytes@) is None,
{
    let mut bump: u8 = 255;
    loop
        invariant
            forall|b: u8| bump < b ==> derived_identity(namespace_tag@, b, program.bytes@) is None,
        decreases bump,
    {
        match derive_address(namespace_tag, bump, program) {
            Some(identity) => {
                return Some(DerivedAddress { identity, bump });
            },
            None => {
                if bump == 0 {
                    return None;
                }
                bump -= 1;
            },
        }
    }
}

} // verus!
