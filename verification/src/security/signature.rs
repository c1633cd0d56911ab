//! Quorum of recoverable ECDSA signatures over secp256k1.
//!
//! The evidence is a run of 66-byte records. A record holds a 65-byte
//! signature and, as its last byte, a recovery identifier. The signature's
//! first 64 bytes are the scalars `r` and `s`, big-endian; its own trailing
//! byte takes no part, since the record's last byte selects the key. The
//! signer of a record is the address of the public key recovered from the
//! digest of the data, and the verdict counts each required signer once.

use crate::bytes::Address;
use crate::hash::{keccak256, keccak256_digest};
use crate::security::quorum::{
    check_threshold,
    contains_address,
    lemma_members_push,
    members,
    threshold_fits,
    views,
};
use crate::security::{
    CryptoBackend,
    Evidence,
    SecurityVerifier,
    VerificationContext,
    VerificationError,
};
use vstd::prelude::*;

verus! {

/// The length of the two scalars of a signature.
pub const SCALARS_LEN: usize = 64;

/// The length of a signature inside a record.
pub const SIGNATURE_LEN: usize = 65;

/// The length of one record of the evidence.
pub const SIGNATURE_RECORD_LEN: usize = 66;

/// Are the 64 bytes `scalars` a signature by secp256k1's rules: two
/// big-endian scalars `r` and `s`, each from 1 up to the group order?
pub uninterp spec fn ecdsa_signature_parses(scalars: Seq<u8>) -> bool;

/// The public key that signed `prehash` with the signature `scalars`, by the
/// recovery identifier, as an uncompressed SEC1 point; `None` where there is
/// no such key.
pub uninterp spec fn ecdsa_recovered_key(prehash: Seq<u8>, scalars: Seq<u8>, recovery_id: u8)
    -> Option<Seq<u8>>;

/// Calls `k256::ecdsa::Signature::from_slice`. Trusted: whether it accepts
/// depends on the bytes of `scalars` alone.
#[verifier::external_body]
fn signature_parses(scalars: &[u8]) -> (accepted: bool)
    ensures
        accepted == ecdsa_signature_parses(scalars@),
{
    k256::ecdsa::Signature::from_slice(scalars).is_ok()
}

/// Calls `k256::ecdsa::VerifyingKey::recover_from_prehash` on the signature
/// and recovery identifier that `Signature::from_slice` and
/// `RecoveryId::from_byte` make of the arguments, and encodes the key with
/// `to_encoded_point(false)`. Trusted: the outcome depends on the three
/// arguments alone, and a recovered key is encoded in 65 bytes (a tag byte
/// and two 32-byte coordinates). `None` stands for any refusal on the way.
#[verifier::external_body]
fn recover_key(prehash: &[u8; 32], scalars: &[u8], recovery_id: u8) -> (key: Option<Vec<u8>>)
    ensures
        match key {
            Some(k) => ecdsa_recovered_key(prehash@, scalars@, recovery_id) == Some(k@)
                && k@.len() == 65,
            None => ecdsa_recovered_key(prehash@, scalars@, recovery_id) is None,
        },
{
    let signature = k256::ecdsa::Signature::from_slice(scalars).ok()?;
    let id = k256::ecdsa::RecoveryId::from_byte(recovery_id)?;
    let key = k256::ecdsa::VerifyingKey::recover_from_prehash(prehash, &signature, id).ok()?;
    Some(key.to_encoded_point(false).as_bytes().to_vec())
}

/// The address of an uncompressed public key: the last 20 bytes of the
/// digest of the key without its tag byte.
pub open spec fn key_address(key: Seq<u8>) -> Seq<u8> {
    keccak256_digest(key.subrange(1, key.len() as int)).subrange(12, 32)
}

/// The signer of `message_hash` by a 65-byte signature and a recovery
/// identifier, or the reason why there is none.
pub open spec fn signer_of(message_hash: Seq<u8>, signature: Seq<u8>, recovery_id: u8) -> Result<
    Seq<u8>,
    VerificationError,
> {
    let scalars = signature.subrange(0, SCALARS_LEN as int);
    if signature.len() != SIGNATURE_LEN || !ecdsa_signature_parses(scalars) {
        Err(VerificationError::InvalidSignature)
    } else if recovery_id > 3 {
        Err(VerificationError::InvalidRecoveryId)
    } else {
        match ecdsa_recovered_key(message_hash, scalars, recovery_id) {
            Some(key) => Ok(key_address(key)),
            None => Err(VerificationError::RecoveryFailed),
        }
    }
}

/// The `i`-th record of the evidence.
pub open spec fn record(evidence: Seq<u8>, i: int) -> Seq<u8> {
    evidence.subrange(i * SIGNATURE_RECORD_LEN, i * SIGNATURE_RECORD_LEN + SIGNATURE_RECORD_LEN)
}

/// The signer of the `i`-th record.
pub open spec fn record_signer(message_hash: Seq<u8>, evidence: Seq<u8>, i: int) -> Result<
    Seq<u8>,
    VerificationError,
> {
    let r = record(evidence, i);
    signer_of(message_hash, r.subrange(0, SIGNATURE_LEN as int), r[SIGNATURE_LEN as int])
}

/// The signers of the first `count` records in order, or the error of the
/// first record that has none.
pub open spec fn recovered_signers(message_hash: Seq<u8>, evidence: Seq<u8>, count: nat) -> Result<
    Seq<Seq<u8>>,
    VerificationError,
>
    decreases count,
{
    if count == 0 {
        Ok(Seq::empty())
    } else {
        match recovered_signers(message_hash, evidence, (count - 1) as nat) {
            Err(e) => Err(e),
            Ok(signers) => match record_signer(message_hash, evidence, count - 1) {
                Err(e) => Err(e),
                Ok(signer) => Ok(signers.push(signer)),
            },
        }
    }
}

/// The verdict of the signature strategy on `data`.
///
/// Evidence that is no whole number of records is malformed. Otherwise every
/// record must have a signer, and the verdict says whether at least
/// `threshold` different required signers are among them.
pub open spec fn signature_verdict(
    data: Seq<u8>,
    evidence: Seq<u8>,
    required_signers: Seq<Address>,
    threshold: usize,
) -> Result<bool, VerificationError> {
    if evidence.len() % (SIGNATURE_RECORD_LEN as nat) != 0 {
        Err(VerificationError::MalformedEvidence)
    } else {
        match recovered_signers(
            keccak256_digest(data),
            evidence,
            evidence.len() / (SIGNATURE_RECORD_LEN as nat),
        ) {
            Err(e) => Err(e),
            Ok(signers) => Ok(
                signers.to_set().intersect(members(required_signers)).len() >= threshold,
            ),
        }
    }
}

/// A signer counts once, however often it signs: a further signature of a
/// signer already recovered leaves the set of required signers found as it
/// was.
pub proof fn lemma_repeated_signer_counts_once(
    signers: Seq<Seq<u8>>,
    signer: Seq<u8>,
    required: Set<Seq<u8>>,
)
    requires
        signers.contains(signer),
    ensures
        signers.push(signer).to_set().intersect(required) == signers.to_set().intersect(required),
{
    signers.lemma_push_to_set_commute(signer);
    assert(signers.to_set().insert(signer) =~= signers.to_set());
}

/// Once a record has no signer, no longer run of records has signers.
proof fn lemma_error_sticks(message_hash: Seq<u8>, evidence: Seq<u8>, failed: nat, count: nat)
    requires
        failed <= count,
        recovered_signers(message_hash, evidence, failed) is Err,
    ensures
        recovered_signers(message_hash, evidence, count) == recovered_signers(
            message_hash,
            evidence,
            failed,
        ),
    decreases count,
{
    if failed < count {
        lemma_error_sticks(message_hash, evidence, failed, (count - 1) as nat);
    }
}

/// ECDSA signature verification implementation.
pub struct SignatureVerifier {
    required_signers: Vec<Address>,
    threshold: usize,
}

impl SignatureVerifier {
    /// The signers whose signatures count.
    pub closed spec fn required_signers(&self) -> Seq<Address> {
        self.required_signers@
    }

    /// The number of different signers that the verdict asks for.
    pub closed spec fn threshold(&self) -> usize {
        self.threshold
    }

    #[verifier::type_invariant]
    spec fn well_formed(&self) -> bool {
        threshold_fits(self.required_signers@, self.threshold)
    }

    /// A verifier over `required_signers`, refused where `threshold` is
    /// more than the number of different signers named.
    pub fn new(required_signers: Vec<Address>, threshold: usize) -> (made: Result<
        Self,
        VerificationError,
    >)
        ensures
            made is Ok <==> threshold_fits(required_signers@, threshold),
            made matches Ok(v) ==> v.required_signers() == required_signers@ && v.threshold()
                == threshold,
            made matches Err(e) ==> e == VerificationError::InvalidThreshold,
    {
        match check_threshold(&required_signers, threshold) {
            Ok(()) => Ok(Self { required_signers, threshold }),
            Err(e) => Err(e),
        }
    }

    /// Recovers the address that signed `message_hash`.
    ///
    /// `signature` is the 65-byte signature of a record, `recovery_id` the
    /// record's last byte.
    pub fn recover_signer(message_hash: &[u8; 32], signature: &[u8], recovery_id: u8) -> (signer:
        Result<Address, VerificationError>)
        ensures
            match signer {
                Ok(address) => signer_of(message_hash@, signature@, recovery_id) == Ok::<
                    Seq<u8>,
                    VerificationError,
                >(address@),
                Err(e) => signer_of(message_hash@, signature@, recovery_id) == Err::<
                    Seq<u8>,
                    VerificationError,
                >(e),
            },
    {
        if signature.len() != SIGNATURE_LEN {
            return Err(VerificationError::InvalidSignature);
        }
        let scalars = &signature[0..SCALARS_LEN];
        if !signature_parses(scalars) {
            return Err(VerificationError::InvalidSignature);
        }
        if recovery_id > 3 {
            return Err(VerificationError::InvalidRecoveryId);
        }
        let public_key = match recover_key(message_hash, scalars, recovery_id) {
            Some(key) => key,
            None => {
                return Err(VerificationError::RecoveryFailed);
            },
        };
        let digest = keccak256(&public_key[1..public_key.len()]);
        let mut address: Address = [0u8; 20];
        let mut i: usize = 0;
        while i < 20
            invariant
                i <= 20,
                forall|j: int| 0 <= j < i ==> address@[j] == digest@[12 + j],
            decreases 20 - i,
        {
            address[i] = digest[12 + i];
            i += 1;
        }
        assert(address@ =~= digest@.subrange(12, 32));
        Ok(address)
    }

    /// The verdict on `data` by the records in `evidence`.
    pub fn verify_records(&self, data: &[u8], evidence: &[u8]) -> (verdict: Result<
        bool,
        VerificationError,
    >)
        ensures
            verdict == signature_verdict(data@, evidence@, self.required_signers(), self.threshold()),
    {
        if evidence.len() % SIGNATURE_RECORD_LEN != 0 {
            return Err(VerificationError::MalformedEvidence);
        }
        let message_hash = keccak256(data);
        let count = evidence.len() / SIGNATURE_RECORD_LEN;
        let mut valid: Vec<Address> = Vec::new();
        let ghost mut signers: Seq<Seq<u8>> = Seq::empty();
        let mut i: usize = 0;
        assert(views(valid@) =~= Seq::<Seq<u8>>::empty());
        assert(members(valid@) =~= signers.to_set().intersect(members(self.required_signers@)));
        let total = evidence.len();
        while i < count
            invariant
                i <= count,
                count * 66 == total,
                total == evidence@.len(),
                message_hash@ == keccak256_digest(data@),
                recovered_signers(message_hash@, evidence@, i as nat) == Ok::<
                    Seq<Seq<u8>>,
                    VerificationError,
                >(signers),
                views(valid@).no_duplicates(),
                members(valid@) == signers.to_set().intersect(members(self.required_signers@)),
            decreases count - i,
        {
            let start = i * SIGNATURE_RECORD_LEN;
            let signature_data = &evidence[start..start + SIGNATURE_RECORD_LEN];
            assert(signature_data@ == record(evidence@, i as int));
            let signature = &signature_data[0..SIGNATURE_LEN];
            let recovery_id = signature_data[SIGNATURE_LEN];
            let signer = match Self::recover_signer(&message_hash, signature, recovery_id) {
                Ok(signer) => signer,
                Err(e) => {
                    proof {
                        lemma_error_sticks(message_hash@, evidence@, (i + 1) as nat, count as nat);
                    }
                    return Err(e);
                },
            };
            let ghost before = valid@;
            proof {
                signers.lemma_push_to_set_commute(signer@);
            }
            if contains_address(&self.required_signers, &signer) {
                assert(members(self.required_signers@).contains(signer@));
                if !contains_address(&valid, &signer) {
                    valid.push(signer);
                    proof {
                        lemma_members_push(before, signer);
                    }
                }
            }
            proof {
                signers = signers.push(signer@);
                assert(members(valid@) =~= signers.to_set().intersect(
                    members(self.required_signers@),
                ));
            }
            i += 1;
        }
        proof {
            views(valid@).unique_seq_to_set();
        }
        Ok(valid.len() >= self.threshold)
    }
}

impl SecurityVerifier for SignatureVerifier {
    /// The verdict of `verify_records` on undecoded evidence; evidence of
    /// another kind is malformed.
    fn verify<B: CryptoBackend>(
        &self,
        data: &[u8],
        context: &VerificationContext,
        backend: &B,
    ) -> (verdict: Result<bool, VerificationError>)
        ensures
            verdict == match context.evidence {
                Evidence::Raw(bytes) => signature_verdict(
                    data@,
                    bytes@,
                    self.required_signers(),
                    self.threshold(),
                ),
                _ => Err(VerificationError::MalformedEvidence),
            },
    {
        match &context.evidence {
            Evidence::Raw(bytes) => self.verify_records(data, bytes.as_slice()),
            _ => Err(VerificationError::MalformedEvidence),
        }
    }
}

} // verus!
