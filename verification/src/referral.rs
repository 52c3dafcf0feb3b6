//! Referral-proof verification and referral reward draining.
//!
//! A wager may name a referrer only together with a proof: a keyed hash over
//! the participant's identity, the referrer's identity and a fixed salt,
//! each identity rendered in base58. The engine recomputes the hash and
//! compares; the hash itself comes from the host's hashing primitives behind
//! the two trusted wrappers below.

use vstd::prelude::*;

use crate::errors::BettingError;
use crate::states::{Identity, UserState};

verus! {

/// The base58 rendering of a 32-byte identity.
pub uninterp spec fn base58_of(b: Seq<u8>) -> Seq<u8>;

/// The SHA-256 digest of a byte string.
pub uninterp spec fn sha256_of(b: Seq<u8>) -> Seq<u8>;

/// Relies on `solana_program::pubkey::Pubkey`'s `Display` impl: it renders
/// the 32-byte identity in base58, a function of the bytes alone.
#[verifier::external_body]
fn identity_base58(id: &Identity) -> (r: Vec<u8>)
    ensures
        r@ == base58_of(id@),
{
    solana_program::pubkey::Pubkey::new_from_array(*id).to_string().into_bytes()
}

/// Relies on `solana_program::hash::hash`: the SHA-256 digest of the input,
/// always 32 bytes long, a function of the input alone.
#[verifier::external_body]
fn sha256_digest(data: &Vec<u8>) -> (r: Vec<u8>)
    ensures
        r@ == sha256_of(data@),
        r@.len() == 32,
{
    solana_program::hash::hash(data.as_slice()).to_bytes().to_vec()
}

/// The fixed domain-separation salt appended to every referral proof:
/// the eight ASCII bytes of `R3fareur`.
pub open spec fn spec_ref_salt() -> Seq<u8> {
    seq![82u8, 51u8, 102u8, 97u8, 114u8, 101u8, 117u8, 114u8]
}

/// The referral proof hash: SHA-256 over the base58 renderings of the
/// participant and the referrer, followed by the fixed salt.
pub open spec fn spec_ref_hash(user: Seq<u8>, referrer: Seq<u8>) -> Seq<u8> {
    sha256_of(base58_of(user) + base58_of(referrer) + spec_ref_salt())
}

/// Verifies a caller-supplied referral proof: recomputes the keyed hash over
/// (participant, referrer, salt) and compares it with the supplied bytes.
/// This stops a caller from naming a referrer they were not referred by.
pub fn assert_ref_hash(user_pk: &Identity, ref_key: &Identity, expected_hash_key: &[u8; 32]) -> (r:
    Result<(), BettingError>)
    ensures
        r is Ok <==> spec_ref_hash(user_pk@, ref_key@) == expected_hash_key@,
        r is Err ==> r->Err_0 == BettingError::InvalidReferrerHash,
{
    let mut data = identity_base58(user_pk);
    let mut ref_part = identity_base58(ref_key);
    data.append(&mut ref_part);
    data.push(82u8);
    data.push(51u8);
    data.push(102u8);
    data.push(97u8);
    data.push(114u8);
    data.push(101u8);
    data.push(117u8);
    data.push(114u8);
    proof {
        assert(data@ =~= base58_of(user_pk@) + base58_of(ref_key@) + spec_ref_salt());
    }
    let digest = sha256_digest(&data);
    let mut i: usize = 0;
    while i < 32
        invariant
            i <= 32,
            digest@.len() == 32,
            digest@ == spec_ref_hash(user_pk@, ref_key@),
            forall|j: int| 0 <= j < i ==> digest@[j] == expected_hash_key@[j],
        decreases 32 - i,
    {
        if digest[i] != expected_hash_key[i] {
            return Err(BettingError::InvalidReferrerHash);
        }
        i = i + 1;
    }
    proof {
        assert(digest@ =~= expected_hash_key@);
    }
    Ok(())
}

/// Drains a participant's referral reward vault: the host transfers the
/// vault's whole balance back to the participant and the pending counter
/// resets to zero.
pub fn claim_referral_reward(user_state: &mut UserState, vault_balance: u64) -> (r: u64)
    ensures
        r == vault_balance,
        *final(user_state) == (UserState { ref_reward: 0, ..*old(user_state) }),
{
    user_state.ref_reward = 0;
    vault_balance
}

} // verus!
