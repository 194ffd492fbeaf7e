//! Keccak-256 hashing, done by the `tiny-keccak` crate.
//!
//! Nothing in this module is proved about the hash itself. The wrappers
//! below state only how the hasher's calls compose: what has been absorbed
//! so far, and that the digest is a function of exactly those bytes.

use vstd::prelude::*;
use tiny_keccak::{Hasher, Keccak};

verus! {

/// The hasher of `tiny-keccak`, opaque to the verifier.
#[verifier::external_type_specification]
#[verifier::external_body]
pub struct ExKeccak(tiny_keccak::Keccak);

/// The 32-byte Keccak-256 digest of `data`.
pub uninterp spec fn keccak256_digest(data: Seq<u8>) -> Seq<u8>;

/// Every byte that `hasher` has absorbed since it was made, in order.
pub uninterp spec fn absorbed(hasher: Keccak) -> Seq<u8>;

/// `Keccak::v256()`: a fresh hasher, which has absorbed nothing.
#[verifier::external_body]
fn hasher_start() -> (hasher: Keccak)
    ensures
        absorbed(hasher) == Seq::<u8>::empty(),
{
    Keccak::v256()
}

/// `Hasher::update`: the hasher absorbs `data` after what it already holds.
/// Trusted: absorbing in pieces is absorbing the concatenation.
#[verifier::external_body]
fn hasher_absorb(hasher: &mut Keccak, data: &[u8])
    ensures
        absorbed(*final(hasher)) == absorbed(*old(hasher)) + data@,
{
    hasher.update(data)
}

/// `Clone::clone` of the hasher. Trusted: the copy has absorbed the same
/// bytes as the hasher it was made from.
#[verifier::external_body]
fn hasher_fork(hasher: &Keccak) -> (copy: Keccak)
    ensures
        absorbed(copy) == absorbed(*hasher),
{
    hasher.clone()
}

/// `Hasher::finalize` into a 32-byte buffer. Trusted: the output is the
/// Keccak-256 digest of what was absorbed, and of nothing else.
#[verifier::external_body]
fn hasher_finish(hasher: Keccak) -> (digest: [u8; 32])
    ensures
        digest@ == keccak256_digest(absorbed(hasher)),
{
    let mut digest: [u8; 32] = [0u8; 32];
    hasher.finalize(&mut digest);
    digest
}

/// The address that a message hashes to: the low 20 bytes of its digest.
pub open spec fn spec_address(message: Seq<u8>) -> Seq<u8> {
    keccak256_digest(message).subrange(12, 32)
}

/// The low 20 bytes of a digest.
fn low_twenty(digest: &[u8; 32]) -> (address: [u8; 20])
    ensures
        address@ == digest@.subrange(12, 32),
{
    let mut address: [u8; 20] = [0u8; 20];
    let mut i: usize = 0;
    while i < 20
        invariant
            i <= 20,
            forall|j: int| 0 <= j < i ==> address@[j] == digest@[12 + j],
        decreases 20 - i,
    {
        address[i] = digest[12 + i];
        i += 1;
    }
    assert(address@ =~= digest@.subrange(12, 32));
    address
}

/// Hashes `message` and returns the address it gives. The result depends
/// on the bytes of `message` alone.
pub fn hash_to_address(message: &[u8]) -> (address: [u8; 20])
    ensures
        address@ == spec_address(message@),
{
    let mut hasher = hasher_start();
    hasher_absorb(&mut hasher, message);
    assert(Seq::<u8>::empty() + message@ =~= message@);
    let digest = hasher_finish(hasher);
    low_twenty(&digest)
}

/// A hasher that has absorbed the start of a message, kept so that each
/// candidate continues from a copy of it instead of hashing the start again.
pub struct HeaderState {
    hasher: Keccak,
}

impl HeaderState {
    /// The bytes that were absorbed when the state was made.
    pub closed spec fn prefix(&self) -> Seq<u8> {
        absorbed(self.hasher)
    }

    /// Absorbs `header` once.
    pub fn new(header: &[u8]) -> (state: HeaderState)
        ensures
            state.prefix() == header@,
    {
        let mut hasher = hasher_start();
        hasher_absorb(&mut hasher, header);
        assert(Seq::<u8>::empty() + header@ =~= header@);
        HeaderState { hasher }
    }

    /// The address of the message made of the absorbed start, then `body`,
    /// then `footer`. The state itself is left as it was: continuing from a
    /// copy gives what hashing the whole message gives.
    pub fn address_with(&self, body: &[u8], footer: &[u8]) -> (address: [u8; 20])
        ensures
            address@ == spec_address(self.prefix() + body@ + footer@),
    {
        let mut hasher = hasher_fork(&self.hasher);
        hasher_absorb(&mut hasher, body);
        hasher_absorb(&mut hasher, footer);
        let digest = hasher_finish(hasher);
        low_twenty(&digest)
    }
}

/// Hashing is a function: the same message bytes give the same address.
pub proof fn lemma_address_deterministic(first: Seq<u8>, second: Seq<u8>)
    requires
        first == second,
    ensures
        spec_address(first) == spec_address(second),
{
}

} // verus!
