use layerzero_dvn::{
    Address, CryptoBackend, Evidence, MpcProof, SecurityVerifier, SignatureVerifier,
    VerificationContext, VerificationError,
};

struct NoBackend;

impl CryptoBackend for NoBackend {
    fn verify_groth16(&self, _: &[u8], _: &[u8], _: &[u8]) -> Result<bool, VerificationError> {
        Err(VerificationError::CheckFailed)
    }

    fn verify_plonk(&self, _: &[u8], _: &[u8], _: &[u8]) -> Result<bool, VerificationError> {
        Err(VerificationError::CheckFailed)
    }

    fn verify_threshold_signature(
        &self,
        _: &Vec<Address>,
        _: usize,
        _: &[u8],
        _: &[u8],
    ) -> Result<bool, VerificationError> {
        Err(VerificationError::CheckFailed)
    }

    fn verify_computation_proof(
        &self,
        _: &[u8],
        _: &Vec<Vec<u8>>,
        _: &[u8],
    ) -> Result<bool, VerificationError> {
        Err(VerificationError::CheckFailed)
    }
}

const ADDRESS_OF_KEY_ONE: Address = [
    0x7e, 0x5f, 0x45, 0x52, 0x09, 0x1a, 0x69, 0x12, 0x5d, 0x5d, 0xfc, 0xb7, 0xb8, 0xc2, 0x65, 0x90,
    0x29, 0x39, 0x5b, 0xdf,
];

fn signing_key(secret: u8) -> k256::ecdsa::SigningKey {
    let mut bytes = [0u8; 32];
    bytes[31] = secret;
    k256::ecdsa::SigningKey::from_slice(&bytes).unwrap()
}

fn address_of(secret: u8) -> Address {
    let key = signing_key(secret);
    let point = key.verifying_key().to_encoded_point(false);
    let digest = alloy_primitives::keccak256(&point.as_bytes()[1..]);
    let mut address = [0u8; 20];
    address.copy_from_slice(&digest[12..]);
    address
}

fn record(secret: u8, data: &[u8]) -> Vec<u8> {
    let digest = alloy_primitives::keccak256(data);
    let (signature, recovery_id) = signing_key(secret)
        .sign_prehash_recoverable(digest.as_slice())
        .unwrap();
    let mut out = signature.to_bytes().to_vec();
    out.push(27 + recovery_id.to_byte());
    out.push(recovery_id.to_byte());
    assert_eq!(out.len(), 66);
    out
}

fn context(evidence: Evidence) -> VerificationContext {
    VerificationContext { chain_id: 1, verifier_address: [0; 20], evidence, current_time: 0 }
}

fn quorum_of(secrets: &[u8], threshold: usize) -> SignatureVerifier {
    let signers: Vec<Address> = secrets.iter().map(|s| address_of(*s)).collect();
    SignatureVerifier::new(signers, threshold).unwrap()
}

#[test]
fn recover_signer_gives_known_address() {
    assert_eq!(address_of(1), ADDRESS_OF_KEY_ONE);
    let data = b"hello";
    let digest = alloy_primitives::keccak256(data).0;
    let rec = record(1, data);
    let signer = SignatureVerifier::recover_signer(&digest, &rec[..65], rec[65]);
    assert_eq!(signer, Ok(ADDRESS_OF_KEY_ONE));
}

#[test]
fn recover_signer_ignores_the_signatures_trailing_byte() {
    let data = b"hello";
    let digest = alloy_primitives::keccak256(data).0;
    let mut rec = record(1, data);
    rec[64] = 0xaa;
    let signer = SignatureVerifier::recover_signer(&digest, &rec[..65], rec[65]);
    assert_eq!(signer, Ok(ADDRESS_OF_KEY_ONE));
}

#[test]
fn recover_signer_rejects_wrong_length() {
    let data = b"hello";
    let digest = alloy_primitives::keccak256(data).0;
    let rec = record(1, data);
    assert_eq!(
        SignatureVerifier::recover_signer(&digest, &rec[..64], rec[65]),
        Err(VerificationError::InvalidSignature)
    );
    assert_eq!(
        SignatureVerifier::recover_signer(&digest, &rec[..66], rec[65]),
        Err(VerificationError::InvalidSignature)
    );
}

#[test]
fn recover_signer_rejects_zero_scalars() {
    let digest = alloy_primitives::keccak256(b"hello").0;
    assert_eq!(
        SignatureVerifier::recover_signer(&digest, &[0u8; 65], 0),
        Err(VerificationError::InvalidSignature)
    );
}

#[test]
fn recover_signer_rejects_recovery_id_above_three() {
    let data = b"hello";
    let digest = alloy_primitives::keccak256(data).0;
    let rec = record(1, data);
    assert_eq!(
        SignatureVerifier::recover_signer(&digest, &rec[..65], 4),
        Err(VerificationError::InvalidRecoveryId)
    );
    assert_eq!(
        SignatureVerifier::recover_signer(&digest, &rec[..65], 255),
        Err(VerificationError::InvalidRecoveryId)
    );
}

#[test]
fn recover_signer_reports_failed_recovery() {
    // r is the group order less one; restoring the reduced coordinate
    // overflows, so no key exists for recovery identifier 2.
    let mut signature = [0u8; 65];
    let r: [u8; 32] = [
        0xff, 0xff, 0xff, 0xff, 0xff, 0xff, 0xff, 0xff, 0xff, 0xff, 0xff, 0xff, 0xff, 0xff, 0xff,
        0xfe, 0xba, 0xae, 0xdc, 0xe6, 0xaf, 0x48, 0xa0, 0x3b, 0xbf, 0xd2, 0x5e, 0x8c, 0xd0, 0x36,
        0x41, 0x40,
    ];
    signature[..32].copy_from_slice(&r);
    signature[63] = 1;
    let digest = alloy_primitives::keccak256(b"hello").0;
    assert_eq!(
        SignatureVerifier::recover_signer(&digest, &signature, 2),
        Err(VerificationError::RecoveryFailed)
    );
}

#[test]
fn signature_from_other_data_recovers_another_signer() {
    let digest = alloy_primitives::keccak256(b"hello").0;
    let rec = record(1, b"tampered");
    let signer = SignatureVerifier::recover_signer(&digest, &rec[..65], rec[65]);
    assert_ne!(signer, Ok(ADDRESS_OF_KEY_ONE));
}

#[test]
fn same_signer_twice_is_one_signer() {
    let v = quorum_of(&[1, 2, 3], 2);
    let data = b"payload";
    let mut evidence = record(1, data);
    evidence.extend(record(1, data));
    assert_eq!(v.verify_records(data, &evidence), Ok(false));
}

#[test]
fn two_different_signers_meet_threshold_two() {
    let v = quorum_of(&[1, 2, 3], 2);
    let data = b"payload";
    let mut evidence = record(1, data);
    evidence.extend(record(2, data));
    assert_eq!(v.verify_records(data, &evidence), Ok(true));
}

#[test]
fn signer_outside_the_required_set_does_not_count() {
    let v = quorum_of(&[1, 2, 3], 2);
    let data = b"payload";
    let mut evidence = record(1, data);
    evidence.extend(record(9, data));
    assert_eq!(v.verify_records(data, &evidence), Ok(false));
    evidence.extend(record(3, data));
    assert_eq!(v.verify_records(data, &evidence), Ok(true));
}

#[test]
fn signature_over_other_data_does_not_count() {
    let v = quorum_of(&[1], 1);
    let evidence = record(1, b"other");
    assert_eq!(v.verify_records(b"payload", &evidence), Ok(false));
}

#[test]
fn empty_evidence_meets_only_threshold_zero() {
    assert_eq!(quorum_of(&[1], 0).verify_records(b"x", &[]), Ok(true));
    assert_eq!(quorum_of(&[1], 1).verify_records(b"x", &[]), Ok(false));
}

#[test]
fn evidence_that_is_no_whole_number_of_records_is_malformed() {
    let v = quorum_of(&[1], 0);
    let data = b"payload";
    let mut evidence = record(1, data);
    evidence.push(0);
    assert_eq!(v.verify_records(data, &evidence), Err(VerificationError::MalformedEvidence));
    assert_eq!(v.verify_records(data, &evidence[..65]), Err(VerificationError::MalformedEvidence));
    assert_eq!(v.verify_records(data, &[1]), Err(VerificationError::MalformedEvidence));
}

#[test]
fn first_bad_record_decides_the_error() {
    let v = quorum_of(&[1], 0);
    let data = b"payload";
    let mut bad_id = record(1, data);
    bad_id[65] = 7;
    let bad_signature = vec![0u8; 66];
    let mut evidence = record(1, data);
    evidence.extend(bad_id.clone());
    evidence.extend(bad_signature.clone());
    assert_eq!(v.verify_records(data, &evidence), Err(VerificationError::InvalidRecoveryId));
    let mut evidence = bad_signature;
    evidence.extend(bad_id);
    assert_eq!(v.verify_records(data, &evidence), Err(VerificationError::InvalidSignature));
}

#[test]
fn threshold_above_the_number_of_signers_is_refused() {
    let a = address_of(1);
    let b = address_of(2);
    assert!(SignatureVerifier::new(vec![a, b], 2).is_ok());
    assert!(SignatureVerifier::new(vec![], 0).is_ok());
    assert!(matches!(
        SignatureVerifier::new(vec![a, b], 3),
        Err(VerificationError::InvalidThreshold)
    ));
    assert!(matches!(
        SignatureVerifier::new(vec![a, a], 2),
        Err(VerificationError::InvalidThreshold)
    ));
    assert!(matches!(SignatureVerifier::new(vec![], 1), Err(VerificationError::InvalidThreshold)));
}

#[test]
fn verify_reads_undecoded_evidence_only() {
    let v = quorum_of(&[1], 1);
    let data = b"payload";
    let raw = context(Evidence::Raw(record(1, data)));
    assert_eq!(v.verify(data, &raw, &NoBackend), Ok(true));
    let oracle = context(Evidence::OracleResponses(Vec::new()));
    assert_eq!(v.verify(data, &oracle, &NoBackend), Err(VerificationError::MalformedEvidence));
    let mpc = context(Evidence::Mpc(MpcProof {
        result: Vec::new(),
        commitments: Vec::new(),
        computation_proof: Vec::new(),
        threshold_signature: Vec::new(),
    }));
    assert_eq!(v.verify(data, &mpc, &NoBackend), Err(VerificationError::MalformedEvidence));
}
