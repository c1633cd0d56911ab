use layerzero_dvn::security::quorum::{
    check_threshold, contains_address, copy_addresses, distinct_addresses,
};
use layerzero_dvn::security::zk_proof::ProofSystem;
use layerzero_dvn::{
    Address, CryptoBackend, Evidence, MpcProof, MpcVerifier, OracleResponse, OracleVerifier,
    SecurityType, SecurityVerifier, VerificationContext, VerificationError, ZkProofVerifier,
};
use std::cell::RefCell;

/// Answers every check with a fixed value and records what it was asked.
struct Scripted {
    groth16: Result<bool, VerificationError>,
    plonk: Result<bool, VerificationError>,
    threshold_signature: Result<bool, VerificationError>,
    computation: Result<bool, VerificationError>,
    asked: RefCell<Vec<Vec<Vec<u8>>>>,
}

impl Scripted {
    fn all(answer: Result<bool, VerificationError>) -> Self {
        Scripted {
            groth16: answer,
            plonk: answer,
            threshold_signature: answer,
            computation: answer,
            asked: RefCell::new(Vec::new()),
        }
    }
}

impl CryptoBackend for Scripted {
    fn verify_groth16(&self, k: &[u8], p: &[u8], i: &[u8]) -> Result<bool, VerificationError> {
        self.asked.borrow_mut().push(vec![b"groth16".to_vec(), k.to_vec(), p.to_vec(), i.to_vec()]);
        self.groth16
    }

    fn verify_plonk(&self, k: &[u8], p: &[u8], i: &[u8]) -> Result<bool, VerificationError> {
        self.asked.borrow_mut().push(vec![b"plonk".to_vec(), k.to_vec(), p.to_vec(), i.to_vec()]);
        self.plonk
    }

    fn verify_threshold_signature(
        &self,
        _: &Vec<Address>,
        _: usize,
        signature: &[u8],
        message: &[u8],
    ) -> Result<bool, VerificationError> {
        self.asked.borrow_mut().push(vec![b"tsig".to_vec(), signature.to_vec(), message.to_vec()]);
        self.threshold_signature
    }

    fn verify_computation_proof(
        &self,
        proof: &[u8],
        commitments: &Vec<Vec<u8>>,
        result: &[u8],
    ) -> Result<bool, VerificationError> {
        let mut call = vec![b"comp".to_vec(), proof.to_vec(), result.to_vec()];
        call.extend(commitments.iter().cloned());
        self.asked.borrow_mut().push(call);
        self.computation
    }
}

fn addr(n: u8) -> Address {
    [n; 20]
}

fn context(evidence: Evidence, current_time: u64) -> VerificationContext {
    VerificationContext { chain_id: 1, verifier_address: [0; 20], evidence, current_time }
}

fn response(provider: u8, timestamp: u64, data: &[u8]) -> OracleResponse {
    OracleResponse { provider: addr(provider), timestamp, data: data.to_vec(), signature: Vec::new() }
}

#[test]
fn quorum_helpers_read_lists_as_sets() {
    let list = vec![addr(1), addr(2), addr(1), addr(3), addr(2)];
    assert!(contains_address(&list, &addr(3)));
    assert!(!contains_address(&list, &addr(4)));
    assert!(!contains_address(&Vec::new(), &addr(1)));
    assert_eq!(distinct_addresses(&list), vec![addr(1), addr(2), addr(3)]);
    assert_eq!(copy_addresses(&list), list);
    assert_eq!(check_threshold(&list, 3), Ok(()));
    assert_eq!(check_threshold(&list, 4), Err(VerificationError::InvalidThreshold));
}

#[test]
fn oracle_response_counts_when_authorized_fresh_and_matching() {
    let v = OracleVerifier::new(vec![addr(1), addr(2)], 1).unwrap();
    assert!(v.verify_oracle_response(&response(1, 10_000, b"d"), b"d", 10_000));
    assert!(!v.verify_oracle_response(&response(3, 10_000, b"d"), b"d", 10_000));
    assert!(!v.verify_oracle_response(&response(1, 10_000, b"e"), b"d", 10_000));
    assert!(!v.verify_oracle_response(&response(1, 10_000, b"dd"), b"d", 10_000));
}

#[test]
fn oracle_response_is_fresh_for_exactly_an_hour() {
    let v = OracleVerifier::new(vec![addr(1)], 1).unwrap();
    assert!(v.verify_oracle_response(&response(1, 1_000, b"d"), b"d", 4_600));
    assert!(!v.verify_oracle_response(&response(1, 1_000, b"d"), b"d", 4_601));
    assert!(!v.verify_oracle_response(&response(1, 0, b"d"), b"d", u64::MAX));
    // A report dated after the attempt is no more than an hour old.
    assert!(v.verify_oracle_response(&response(1, 5_000, b"d"), b"d", 4_000));
    assert!(v.verify_oracle_response(&response(1, u64::MAX, b"d"), b"d", 0));
}

#[test]
fn oracle_verdict_counts_valid_responses() {
    let v = OracleVerifier::new(vec![addr(1), addr(2), addr(3)], 2).unwrap();
    let now = 100_000;
    let responses = vec![
        response(1, now, b"d"),
        response(2, now - 3_601, b"d"),
        response(4, now, b"d"),
        response(3, now, b"x"),
    ];
    assert!(!v.verify_responses(b"d", &responses, now));
    let mut more = responses.clone();
    more.push(response(2, now - 3_600, b"d"));
    assert!(v.verify_responses(b"d", &more, now));
    assert!(!v.verify_responses(b"d", &Vec::new(), now));
}

#[test]
fn oracle_verify_reads_decoded_reports_at_the_time_of_the_attempt() {
    let v = OracleVerifier::new(vec![addr(1)], 1).unwrap();
    let backend = Scripted::all(Ok(true));
    let fresh = context(Evidence::OracleResponses(vec![response(1, 50, b"d")]), 60);
    assert_eq!(v.verify(b"d", &fresh, &backend), Ok(true));
    let stale = context(Evidence::OracleResponses(vec![response(1, 50, b"d")]), 3_651);
    assert_eq!(v.verify(b"d", &stale, &backend), Ok(false));
    let raw = context(Evidence::Raw(Vec::new()), 60);
    assert_eq!(v.verify(b"d", &raw, &backend), Err(VerificationError::MalformedEvidence));
    assert!(backend.asked.borrow().is_empty());
}

#[test]
fn oracle_threshold_above_the_number_of_providers_is_refused() {
    assert!(OracleVerifier::new(vec![addr(1), addr(2)], 2).is_ok());
    assert!(matches!(
        OracleVerifier::new(vec![addr(1), addr(1)], 2),
        Err(VerificationError::InvalidThreshold)
    ));
}

fn transcript(result: &[u8], commitments: usize) -> MpcProof {
    MpcProof {
        result: result.to_vec(),
        commitments: (0..commitments).map(|i| vec![i as u8; 3]).collect(),
        computation_proof: b"proof".to_vec(),
        threshold_signature: b"tsig-bytes".to_vec(),
    }
}

#[test]
fn test_mpc_verification() {
    let v = MpcVerifier::new(vec![addr(1), addr(2), addr(3)], 2).unwrap();
    let backend = Scripted::all(Ok(true));
    assert_eq!(v.verify_computation(&transcript(b"r", 2), b"r", &backend), Ok(true));
    let asked = backend.asked.borrow().clone();
    assert_eq!(asked.len(), 2);
    assert_eq!(asked[0], vec![b"tsig".to_vec(), b"tsig-bytes".to_vec(), b"r".to_vec()]);
    assert_eq!(
        asked[1],
        vec![b"comp".to_vec(), b"proof".to_vec(), b"r".to_vec(), vec![0; 3], vec![1; 3]]
    );
}

#[test]
fn mpc_rejects_other_result_or_few_commitments_without_asking() {
    let v = MpcVerifier::new(vec![addr(1), addr(2), addr(3)], 2).unwrap();
    let backend = Scripted::all(Ok(true));
    assert_eq!(v.verify_computation(&transcript(b"r", 2), b"q", &backend), Ok(false));
    assert_eq!(v.verify_computation(&transcript(b"r", 1), b"r", &backend), Ok(false));
    assert!(!v.admits(&transcript(b"r", 1), b"r"));
    assert!(v.admits(&transcript(b"r", 2), b"r"));
    assert!(backend.asked.borrow().is_empty());
}

#[test]
fn mpc_needs_both_checks_to_accept() {
    let v = MpcVerifier::new(vec![addr(1)], 1).unwrap();
    let mut backend = Scripted::all(Ok(true));
    backend.threshold_signature = Ok(false);
    assert_eq!(v.verify_computation(&transcript(b"r", 1), b"r", &backend), Ok(false));
    let mut backend = Scripted::all(Ok(true));
    backend.computation = Ok(false);
    assert_eq!(v.verify_computation(&transcript(b"r", 1), b"r", &backend), Ok(false));
    let mut backend = Scripted::all(Ok(true));
    backend.computation = Err(VerificationError::CheckFailed);
    assert_eq!(
        v.verify_computation(&transcript(b"r", 1), b"r", &backend),
        Err(VerificationError::CheckFailed)
    );
}

#[test]
fn mpc_conclude_combines_the_answers() {
    let e = VerificationError::CheckFailed;
    assert_eq!(MpcVerifier::conclude(false, Ok(true), Ok(true)), Ok(false));
    assert_eq!(MpcVerifier::conclude(false, Err(e), Err(e)), Ok(false));
    assert_eq!(MpcVerifier::conclude(true, Ok(true), Ok(true)), Ok(true));
    assert_eq!(MpcVerifier::conclude(true, Ok(false), Ok(true)), Ok(false));
    assert_eq!(MpcVerifier::conclude(true, Ok(true), Ok(false)), Ok(false));
    assert_eq!(MpcVerifier::conclude(true, Err(e), Ok(true)), Err(e));
    assert_eq!(
        MpcVerifier::conclude(true, Err(e), Err(VerificationError::MalformedEvidence)),
        Err(e)
    );
    assert_eq!(MpcVerifier::conclude(true, Ok(false), Err(e)), Err(e));
}

#[test]
fn mpc_verify_reads_decoded_transcripts_only() {
    let v = MpcVerifier::new(vec![addr(1)], 1).unwrap();
    let backend = Scripted::all(Ok(true));
    let good = context(Evidence::Mpc(transcript(b"r", 1)), 0);
    assert_eq!(v.verify(b"r", &good, &backend), Ok(true));
    let raw = context(Evidence::Raw(b"{}".to_vec()), 0);
    assert_eq!(v.verify(b"r", &raw, &backend), Err(VerificationError::MalformedEvidence));
    assert!(matches!(
        MpcVerifier::new(vec![addr(1)], 2),
        Err(VerificationError::InvalidThreshold)
    ));
}

fn framed(proof: &[u8], inputs: &[u8]) -> Vec<u8> {
    let mut out = (proof.len() as u32).to_be_bytes().to_vec();
    out.extend_from_slice(proof);
    out.extend_from_slice(inputs);
    out
}

#[test]
fn zk_evidence_splits_at_the_announced_length() {
    let evidence = framed(b"abc", b"inputs");
    assert_eq!(
        ZkProofVerifier::split_evidence(&evidence),
        Ok((&b"abc"[..], &b"inputs"[..]))
    );
    assert_eq!(ZkProofVerifier::split_evidence(&[0, 0, 0, 0]), Ok((&b""[..], &b""[..])));
    assert_eq!(ZkProofVerifier::split_evidence(&framed(b"abc", b"")), Ok((&b"abc"[..], &b""[..])));
    let long = framed(&[7u8; 300], b"z");
    assert_eq!(&long[..4], &[0, 0, 1, 44]);
    assert_eq!(ZkProofVerifier::split_evidence(&long), Ok((&[7u8; 300][..], &b"z"[..])));
}

#[test]
fn zk_evidence_shorter_than_announced_is_malformed() {
    let e = Err(VerificationError::MalformedEvidence);
    assert_eq!(ZkProofVerifier::split_evidence(&[]), e);
    assert_eq!(ZkProofVerifier::split_evidence(&[0, 0, 0]), e);
    assert_eq!(ZkProofVerifier::split_evidence(&[0, 0, 0, 1]), e);
    assert_eq!(ZkProofVerifier::split_evidence(&[0, 0, 0, 3, 1, 2]), e);
    assert_eq!(ZkProofVerifier::split_evidence(&[0xff, 0xff, 0xff, 0xff, 1, 2]), e);
    assert_eq!(ZkProofVerifier::split_evidence(&[1, 0, 0, 0, 1]), e);
}

#[test]
fn zk_proof_system_is_selected_by_name() {
    let v = |name: &str| ZkProofVerifier::new(b"key".to_vec(), name.to_string());
    assert_eq!(v("groth16").proof_system(), Ok(ProofSystem::Groth16));
    assert_eq!(v("plonk").proof_system(), Ok(ProofSystem::Plonk));
    for other in ["", "Groth16", "PLONK", "stark", "groth16 "] {
        assert_eq!(v(other).proof_system(), Err(VerificationError::UnsupportedProofSystem));
    }
}

#[test]
fn zk_verify_hands_key_proof_and_inputs_to_the_named_checker() {
    let mut backend = Scripted::all(Ok(true));
    backend.plonk = Ok(false);
    let evidence = context(Evidence::Raw(framed(b"abc", b"inputs")), 0);
    let groth = ZkProofVerifier::new(b"key".to_vec(), "groth16".to_string());
    assert_eq!(groth.verify(b"data", &evidence, &backend), Ok(true));
    let plonk = ZkProofVerifier::new(b"key2".to_vec(), "plonk".to_string());
    assert_eq!(plonk.verify(b"data", &evidence, &backend), Ok(false));
    let asked = backend.asked.borrow().clone();
    assert_eq!(
        asked,
        vec![
            vec![b"groth16".to_vec(), b"key".to_vec(), b"abc".to_vec(), b"inputs".to_vec()],
            vec![b"plonk".to_vec(), b"key2".to_vec(), b"abc".to_vec(), b"inputs".to_vec()],
        ]
    );
}

#[test]
fn zk_verify_fails_closed() {
    let backend = Scripted::all(Ok(true));
    let groth = ZkProofVerifier::new(b"key".to_vec(), "groth16".to_string());
    let stark = ZkProofVerifier::new(b"key".to_vec(), "stark".to_string());
    let good = context(Evidence::Raw(framed(b"abc", b"inputs")), 0);
    let short = context(Evidence::Raw(vec![0, 0, 0, 9, 1]), 0);
    let decoded = context(Evidence::OracleResponses(Vec::new()), 0);
    assert_eq!(stark.verify(b"d", &good, &backend), Err(VerificationError::UnsupportedProofSystem));
    assert_eq!(stark.verify(b"d", &short, &backend), Err(VerificationError::MalformedEvidence));
    assert_eq!(groth.verify(b"d", &short, &backend), Err(VerificationError::MalformedEvidence));
    assert_eq!(groth.verify(b"d", &decoded, &backend), Err(VerificationError::MalformedEvidence));
    assert_eq!(
        stark.verify_proof(b"abc", b"inputs", &backend),
        Err(VerificationError::UnsupportedProofSystem)
    );
    assert!(backend.asked.borrow().is_empty());
    let failing = Scripted::all(Err(VerificationError::CheckFailed));
    assert_eq!(groth.verify(b"d", &good, &failing), Err(VerificationError::CheckFailed));
}

#[test]
fn configuration_with_unmeetable_quorum_is_refused() {
    let refused = Err(VerificationError::InvalidThreshold);
    let two = vec![addr(1), addr(2)];
    let ok = SecurityType::Signature { required_signers: two.clone(), threshold: 2 };
    assert_eq!(ok.validate(), Ok(()));
    let bad = SecurityType::Signature { required_signers: two.clone(), threshold: 3 };
    assert_eq!(bad.validate(), refused);
    let bad = SecurityType::Oracle { providers: vec![addr(1), addr(1)], threshold: 2 };
    assert_eq!(bad.validate(), refused);
    let ok = SecurityType::Oracle { providers: two.clone(), threshold: 0 };
    assert_eq!(ok.validate(), Ok(()));
    let bad = SecurityType::Mpc { participants: vec![], threshold: 1 };
    assert_eq!(bad.validate(), refused);
    let ok = SecurityType::Mpc { participants: vec![], threshold: 0 };
    assert_eq!(ok.validate(), Ok(()));
    let ok = SecurityType::ZkProof { verification_key: vec![], proof_system: "none".to_string() };
    assert_eq!(ok.validate(), Ok(()));
}
