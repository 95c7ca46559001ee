use serde_json::Value;
use sha2::{Digest, Sha256};
use zk_octopus::demo::synthetic_transactions_march_2026;
use zk_octopus::eas::{
    attestation_record, can_issue_attestation, issue_attestation, issue_attestation_at, try_issue_attestation,
    verify_attestation, RESOLVER_ADDRESS,
};
use zk_octopus::pod::build_pod_at;
use zk_octopus::prover::{generate_proof, NullifierRegistry, SemaphoreIdentity};
use zk_octopus::types::{ClaimPredicate, MockProof, PodCredential, PublicOutput, RegistrationStatus, TransactionCategory, Zone, ZkError};

fn demo_pod() -> PodCredential {
    let txns = synthetic_transactions_march_2026();
    build_pod_at(&txns, &Zone::Kowloon, "2026-03", RegistrationStatus::Pseudonymous, "sess_20260328_demo", 0)
}

fn mobility() -> ClaimPredicate {
    ClaimPredicate::MobilityThreshold { zone: Zone::Kowloon, period: "2026-03".into(), min_trips: 15 }
}

fn expected_claim_json(proof: &MockProof, schema: &str) -> String {
    let mut m = serde_json::Map::new();
    m.insert("predicate".into(), Value::String(proof.predicate_name.clone()));
    let output = match proof.public_output {
        PublicOutput::Boolean(b) => {
            let mut o = serde_json::Map::new();
            o.insert("Boolean".into(), Value::Bool(b));
            o
        },
        PublicOutput::RangeBucket { lo, hi } => {
            let mut inner = serde_json::Map::new();
            inner.insert("lo".into(), Value::from(lo));
            inner.insert("hi".into(), Value::from(hi));
            let mut o = serde_json::Map::new();
            o.insert("RangeBucket".into(), Value::Object(inner));
            o
        },
        PublicOutput::AggregateCount(n) => {
            let mut o = serde_json::Map::new();
            o.insert("AggregateCount".into(), Value::from(n));
            o
        },
    };
    m.insert("public_output".into(), Value::Object(output));
    m.insert(
        "public_inputs".into(),
        Value::Array(proof.public_inputs.iter().map(|s| Value::String(s.clone())).collect()),
    );
    m.insert("schema".into(), Value::String(schema.to_string()));
    m.insert("resolver".into(), Value::String(RESOLVER_ADDRESS.to_string()));
    m.insert("groth16_verified".into(), Value::Bool(true));
    m.insert("nullifier_registered".into(), Value::Bool(true));
    serde_json::to_string_pretty(&Value::Object(m)).unwrap()
}

#[test]
fn attestation_fields() {
    let pod = demo_pod();
    let id = SemaphoreIdentity::new("CARDHOLDER_SECRET_1");
    let pred = mobility();
    let prf = generate_proof(&pod, &pred, &id, "transport_dept_ptfss_2026Q1").unwrap();
    let mut reg = NullifierRegistry::default();
    assert!(can_issue_attestation(&prf, &pod, &reg));
    let now = "2026-03-28T10:00:00+00:00";
    let att = issue_attestation_at(&prf, &pod, &pred, &mut reg, 1_774_692_123, now).unwrap();
    let uid = {
        let mut h = Sha256::new();
        h.update(prf.nullifier.as_bytes());
        h.update(prf.predicate_name.as_bytes());
        h.update(now.as_bytes());
        hex::encode(h.finalize())
    };
    assert_eq!(att.uid, uid);
    assert_eq!(att.schema, "MobilityCredential");
    assert_eq!(att.attester, RESOLVER_ADDRESS);
    assert_eq!(att.recipient, format!("nullifier:0x{}", &prf.nullifier[..16]));
    assert_eq!(att.gas_used, 198_412 + 128 * 16);
    assert_eq!(att.block_number, 285_400_000 + 1_774_692_123 % 100_000);
    assert_eq!(att.timestamp, 1_774_692_123);
    assert_eq!(att.data, expected_claim_json(&prf, "MobilityCredential"));
    assert!(verify_attestation(&att, &pred));
    assert!(reg.is_used(&prf.nullifier));
}

#[test]
fn attestation_json_for_range_buckets_and_odd_strings() {
    let pod = demo_pod();
    let id = SemaphoreIdentity::new("CARDHOLDER_SECRET_3");
    let pred = ClaimPredicate::AggregatePayment {
        category: TransactionCategory::BuildingAccess,
        period: "2026-03".into(),
        min_cents: 20000,
        max_cents: None,
    };
    let prf = generate_proof(&pod, &pred, &id, "scope with \"quotes\", \\ and \n\t\u{1} é").unwrap();
    let mut reg = NullifierRegistry::default();
    let att = issue_attestation_at(&prf, &pod, &pred, &mut reg, -5, "t").unwrap();
    assert_eq!(att.data, expected_claim_json(&prf, "PaymentComplianceCredential"));
    assert_eq!(att.block_number, 285_400_000 + ((-5i64) as u64) % 100_000);

    let mut custom = prf.clone();
    custom.public_inputs = vec![];
    custom.public_output = PublicOutput::AggregateCount(7);
    let mut reg2 = NullifierRegistry::default();
    let r = issue_attestation_at(&custom, &pod, &pred, &mut reg2, 0, "t");
    // The output changed, so the proof bytes no longer match.
    assert!(matches!(r, Err(ZkError::ProofVerificationFailed)));
}

#[test]
fn attestation_json_for_counts_and_empty_inputs() {
    let pod = demo_pod();
    let base = {
        let mut h = Sha256::new();
        h.update(pod.merkle_root.as_bytes());
        h.update(b"CountClaim");
        h.update(b"nnnnnnnnnnnnnnnnnnnn");
        h.update(b"count=7");
        hex::encode(h.finalize())
    };
    let prf = MockProof {
        proof_bytes: base.clone(),
        public_inputs: vec![],
        nullifier: "nnnnnnnnnnnnnnnnnnnn".into(),
        public_output: PublicOutput::AggregateCount(7),
        predicate_name: "CountClaim".into(),
        proving_time_ms: 0,
    };
    let pred = ClaimPredicate::TemporalRegularity { pattern: "p".into(), period: "2026-03".into(), min_occurrences: 1 };
    let mut reg = NullifierRegistry::default();
    assert!(can_issue_attestation(&prf, &pod, &reg));
    let att = issue_attestation_at(&prf, &pod, &pred, &mut reg, 0, "t").unwrap();
    assert_eq!(att.data, expected_claim_json(&prf, "MobilityCredential"));
    assert_eq!(att.gas_used, 198_412 + 64 * 16);
    assert_eq!(att.recipient, "nullifier:0xnnnnnnnnnnnnnnnn");
}

#[test]
fn double_submission_is_refused() {
    let pod = demo_pod();
    let id = SemaphoreIdentity::new("CARDHOLDER_SECRET_2");
    let pred = mobility();
    let prf = generate_proof(&pod, &pred, &id, "s").unwrap();
    let mut reg = NullifierRegistry::default();
    assert!(issue_attestation(&prf, &pod, &pred, &mut reg).is_ok());
    match issue_attestation(&prf, &pod, &pred, &mut reg) {
        Err(ZkError::DoubleUse { nullifier }) => assert_eq!(nullifier, prf.nullifier),
        other => panic!("unexpected {:?}", other),
    }
}

#[test]
fn verifier_checks_the_schema() {
    let pod = demo_pod();
    let id = SemaphoreIdentity::new("CARDHOLDER_SECRET_4");
    let pred = ClaimPredicate::TemporalRegularity {
        pattern: "WEEKDAY_MORNING_COMMUTE".into(),
        period: "2026-03".into(),
        min_occurrences: 10,
    };
    let prf = generate_proof(&pod, &pred, &id, "planning_dept_demand_2026").unwrap();
    let mut reg = NullifierRegistry::default();
    let att = issue_attestation(&prf, &pod, &pred, &mut reg).unwrap();
    assert!(verify_attestation(&att, &pred));
    // Mobility claims share the schema; composite claims do not.
    assert!(verify_attestation(&att, &mobility()));
    let composite = ClaimPredicate::CompositeResidency { district: "d".into(), min_trips: 1, min_fee_cents: 1, period: "2026-03".into() };
    assert!(!verify_attestation(&att, &composite));
}

#[test]
fn short_nullifier_cannot_be_attested() {
    let pod = demo_pod();
    let base = {
        let mut h = Sha256::new();
        h.update(pod.merkle_root.as_bytes());
        h.update(b"X");
        h.update(b"short");
        h.update("TRUE ✓".as_bytes());
        hex::encode(h.finalize())
    };
    let prf = MockProof {
        proof_bytes: base,
        public_inputs: vec![],
        nullifier: "short".into(),
        public_output: PublicOutput::Boolean(true),
        predicate_name: "X".into(),
        proving_time_ms: 0,
    };
    let mut reg = NullifierRegistry::default();
    assert!(!can_issue_attestation(&prf, &pod, &reg));
    assert!(try_issue_attestation(&prf, &pod, &mobility(), &mut reg).is_none());
    assert!(!reg.is_used("short"));
}

#[test]
fn try_issue_attestation_attests_a_generated_proof() {
    let pod = demo_pod();
    let id = SemaphoreIdentity::new("CARDHOLDER_SECRET_1");
    let pred = mobility();
    let prf = generate_proof(&pod, &pred, &id, "scope").unwrap();
    let mut reg = NullifierRegistry::default();
    let att = try_issue_attestation(&prf, &pod, &pred, &mut reg).unwrap().unwrap();
    assert_eq!(att.schema, "MobilityCredential");
    assert!(reg.is_used(&prf.nullifier));
    match try_issue_attestation(&prf, &pod, &pred, &mut reg) {
        Some(Err(ZkError::DoubleUse { nullifier })) => assert_eq!(nullifier, prf.nullifier),
        other => panic!("unexpected {:?}", other.map(|r| r.is_ok())),
    }
}

#[test]
fn attestation_record_from_given_uid() {
    let prf = MockProof {
        proof_bytes: "ab".repeat(10),
        public_inputs: vec!["scope=x".into()],
        nullifier: "0123456789abcdef0123".into(),
        public_output: PublicOutput::Boolean(false),
        predicate_name: "MobilityThreshold".into(),
        proving_time_ms: 1,
    };
    let pred = ClaimPredicate::CompositeResidency { district: "d".into(), min_trips: 1, min_fee_cents: 1, period: "p".into() };
    let att = attestation_record(&prf, &pred, "uid-given".into(), 1_000_123_456);
    assert_eq!(att.uid, "uid-given");
    assert_eq!(att.schema, "CompositeResidencyCredential");
    assert_eq!(att.attester, RESOLVER_ADDRESS);
    assert_eq!(att.recipient, "nullifier:0x0123456789abcdef");
    assert_eq!(att.gas_used, 198_412 + 20 * 16);
    assert_eq!(att.block_number, 285_423_456);
    assert_eq!(att.timestamp, 1_000_123_456);
    assert_eq!(att.data, expected_claim_json(&prf, "CompositeResidencyCredential"));
}

#[test]
fn attestation_now_uses_one_clock_reading() {
    let pod = demo_pod();
    let id = SemaphoreIdentity::new("CARDHOLDER_SECRET_1");
    let pred = mobility();
    let prf = generate_proof(&pod, &pred, &id, "clock").unwrap();
    let mut reg = NullifierRegistry::default();
    let before = chrono::Utc::now().timestamp();
    let att = issue_attestation(&prf, &pod, &pred, &mut reg).unwrap();
    let after = chrono::Utc::now().timestamp();
    assert!(before <= att.timestamp && att.timestamp <= after);
    assert_eq!(att.block_number, 285_400_000 + (att.timestamp as u64) % 100_000);
    assert_eq!(att.uid.len(), 64);
}
