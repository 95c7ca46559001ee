use sha2::{Digest, Sha256};
use zk_octopus::demo::synthetic_transactions_march_2026;
use zk_octopus::pod::build_pod_at;
use zk_octopus::prover::{
    can_generate_proof, circuit_public_inputs, evaluate_predicate, generate_proof, verify_proof, NullifierRegistry,
    SemaphoreIdentity,
};
use zk_octopus::types::{
    ClaimPredicate, PodCredential, PodEntry, PodValue, PublicOutput, RegistrationStatus, TransactionCategory, Zone,
    ZkError,
};

fn demo_pod() -> PodCredential {
    let txns = synthetic_transactions_march_2026();
    build_pod_at(&txns, &Zone::Kowloon, "2026-03", RegistrationStatus::Pseudonymous, "sess_20260328_demo", 0)
}

fn sha_hex(parts: &[&[u8]]) -> String {
    let mut h = Sha256::new();
    for p in parts {
        h.update(p);
    }
    hex::encode(h.finalize())
}

fn mobility(zone: Zone, period: &str, min_trips: u32) -> ClaimPredicate {
    ClaimPredicate::MobilityThreshold { zone, period: period.to_string(), min_trips }
}

fn payment(category: TransactionCategory, min_cents: i64, max_cents: Option<i64>) -> ClaimPredicate {
    ClaimPredicate::AggregatePayment { category, period: "2026-03".to_string(), min_cents, max_cents }
}

#[test]
fn identity_keys_and_nullifiers() {
    let id = SemaphoreIdentity::new("CARDHOLDER_SECRET_1");
    let key = Sha256::digest(b"CARDHOLDER_SECRET_1");
    assert_eq!(id.pubkey_hex, hex::encode(key));
    assert_eq!(id.pubkey(), hex::encode(key));
    let n = id.nullifier("scope_a");
    assert_eq!(n, sha_hex(&[&key, b"scope_a"]));
    // Same identity and scope: same nullifier.
    assert_eq!(n, SemaphoreIdentity::new("CARDHOLDER_SECRET_1").nullifier("scope_a"));
    // Different scopes: different nullifiers.
    assert_ne!(n, id.nullifier("scope_b"));
    // Different identities, same scope: different nullifiers.
    assert_ne!(n, SemaphoreIdentity::new("CARDHOLDER_SECRET_2").nullifier("scope_a"));
    assert_eq!(id.ownership_proof("root"), sha_hex(&[&key, b"root"]));
}

#[test]
fn registry_refuses_double_use() {
    let mut reg = NullifierRegistry::default();
    assert!(!reg.is_used("n1"));
    assert!(reg.check_and_register("n1").is_ok());
    assert!(reg.is_used("n1"));
    assert!(!reg.is_used("n2"));
    match reg.check_and_register("n1") {
        Err(ZkError::DoubleUse { nullifier }) => assert_eq!(nullifier, "n1"),
        other => panic!("unexpected {:?}", other),
    }
    assert!(reg.check_and_register("n2").is_ok());
    assert!(reg.is_used("n1") && reg.is_used("n2"));
}

#[test]
fn demo_scenarios_evaluate() {
    let pod = demo_pod();
    assert!(matches!(evaluate_predicate(&pod, &mobility(Zone::Kowloon, "2026-03", 15)), Ok(PublicOutput::Boolean(true))));
    assert!(matches!(evaluate_predicate(&pod, &mobility(Zone::Kowloon, "2026-03", 22)), Ok(PublicOutput::Boolean(false))));
    let composite = ClaimPredicate::CompositeResidency {
        district: "KOWLOON_CITY".into(),
        period: "2026-03".into(),
        min_trips: 10,
        min_fee_cents: 20000,
    };
    assert!(matches!(evaluate_predicate(&pod, &composite), Ok(PublicOutput::Boolean(true))));
    let composite_high = ClaimPredicate::CompositeResidency {
        district: "KOWLOON_CITY".into(),
        period: "2026-03".into(),
        min_trips: 10,
        min_fee_cents: 30001,
    };
    assert!(matches!(evaluate_predicate(&pod, &composite_high), Ok(PublicOutput::Boolean(false))));
    let temporal = ClaimPredicate::TemporalRegularity {
        pattern: "WEEKDAY_MORNING_COMMUTE".into(),
        period: "2026-03".into(),
        min_occurrences: 10,
    };
    assert!(matches!(evaluate_predicate(&pod, &temporal), Ok(PublicOutput::Boolean(true))));
    let temporal_high = ClaimPredicate::TemporalRegularity {
        pattern: "WEEKDAY_MORNING_COMMUTE".into(),
        period: "2026-03".into(),
        min_occurrences: 16,
    };
    assert!(matches!(evaluate_predicate(&pod, &temporal_high), Ok(PublicOutput::Boolean(false))));
}

#[test]
fn payment_claims_report_range_buckets() {
    let pod = demo_pod();
    // Management fees: 30000 cents lies in [0, 50000).
    assert!(matches!(
        evaluate_predicate(&pod, &payment(TransactionCategory::BuildingAccess, 20000, None)),
        Ok(PublicOutput::RangeBucket { lo: 0, hi: 50000 })
    ));
    // Retail: 78050 cents lies in [50000, 100000).
    assert!(matches!(
        evaluate_predicate(&pod, &payment(TransactionCategory::Retail, 0, Some(80000))),
        Ok(PublicOutput::RangeBucket { lo: 50000, hi: 100000 })
    ));
    // Above the maximum, or below the minimum: false.
    assert!(matches!(
        evaluate_predicate(&pod, &payment(TransactionCategory::Retail, 0, Some(78049))),
        Ok(PublicOutput::Boolean(false))
    ));
    assert!(matches!(
        evaluate_predicate(&pod, &payment(TransactionCategory::Transit, 18551, None)),
        Ok(PublicOutput::Boolean(false))
    ));
    // Government services have no total: it counts as 0.
    assert!(matches!(
        evaluate_predicate(&pod, &payment(TransactionCategory::GovernmentService, 0, Some(0))),
        Ok(PublicOutput::RangeBucket { lo: 0, hi: 50000 })
    ));
}

#[test]
fn negative_totals_round_down_to_the_bucket_below() {
    let mut pod = demo_pod();
    pod.entries[5].value = PodValue::Integer(-1); // transit_fare_total
    assert!(matches!(
        evaluate_predicate(&pod, &payment(TransactionCategory::Transit, -100, None)),
        Ok(PublicOutput::RangeBucket { lo: -50000, hi: 0 })
    ));
    pod.entries[5].value = PodValue::Integer(-60000);
    assert!(matches!(
        evaluate_predicate(&pod, &payment(TransactionCategory::Transit, -100000, None)),
        Ok(PublicOutput::RangeBucket { lo: -100000, hi: -50000 })
    ));
    pod.entries[5].value = PodValue::Integer(-50000);
    assert!(matches!(
        evaluate_predicate(&pod, &payment(TransactionCategory::Transit, -100000, None)),
        Ok(PublicOutput::RangeBucket { lo: -50000, hi: 0 })
    ));
}

#[test]
fn mismatches_and_missing_entries_are_errors() {
    let pod = demo_pod();
    match evaluate_predicate(&pod, &mobility(Zone::Lantau, "2026-03", 1)) {
        Err(ZkError::ZoneMismatch { credential, required }) => {
            assert_eq!(credential, "KOWLOON");
            assert_eq!(required, "LANTAU");
        },
        other => panic!("unexpected {:?}", other),
    }
    match evaluate_predicate(&pod, &mobility(Zone::Kowloon, "2026-04", 1)) {
        Err(ZkError::MobilityPeriodMismatch { credential, required }) => {
            assert_eq!(credential, "2026-03");
            assert_eq!(required, "2026-04");
        },
        other => panic!("unexpected {:?}", other),
    }
    let other_period = ClaimPredicate::AggregatePayment {
        category: TransactionCategory::Retail,
        period: "2025-12".into(),
        min_cents: 0,
        max_cents: None,
    };
    assert!(matches!(evaluate_predicate(&pod, &other_period), Err(ZkError::PeriodMismatch)));

    let mut no_zone = demo_pod();
    no_zone.entries.remove(0);
    match evaluate_predicate(&no_zone, &mobility(Zone::Kowloon, "2026-03", 1)) {
        Err(ZkError::MissingEntry { key }) => assert_eq!(key, "zone"),
        other => panic!("unexpected {:?}", other),
    }
    // An entry of the wrong type counts as missing; the first entry under a key decides.
    let mut wrong_type = demo_pod();
    wrong_type.entries.insert(0, PodEntry { key: "transit_count".into(), value: PodValue::String("21".into()) });
    match evaluate_predicate(&wrong_type, &mobility(Zone::Kowloon, "2026-03", 1)) {
        Err(ZkError::MissingEntry { key }) => assert_eq!(key, "transit_count"),
        other => panic!("unexpected {:?}", other),
    }
    // Checks come in order: the zone entry is read before the zone is compared.
    let mut no_count = demo_pod();
    no_count.entries.remove(2);
    match evaluate_predicate(&no_count, &mobility(Zone::Lantau, "2026-03", 1)) {
        Err(ZkError::MissingEntry { key }) => assert_eq!(key, "transit_count"),
        other => panic!("unexpected {:?}", other),
    }
}

#[test]
fn generated_proof_contents() {
    let pod = demo_pod();
    let id = SemaphoreIdentity::new("CARDHOLDER_SECRET_1");
    let pred = mobility(Zone::Kowloon, "2026-03", 15);
    assert!(can_generate_proof(&pod, &pred));
    let prf = generate_proof(&pod, &pred, &id, "transport_dept_ptfss_2026Q1").unwrap();
    let nullifier = id.nullifier("transport_dept_ptfss_2026Q1");
    assert_eq!(prf.nullifier, nullifier);
    assert_eq!(prf.predicate_name, "MobilityThreshold");
    assert_eq!(prf.proving_time_ms, 820);
    assert!(matches!(prf.public_output, PublicOutput::Boolean(true)));
    assert_eq!(
        prf.public_inputs,
        vec![
            format!("merkle_root=0x{}", &pod.merkle_root[..16]),
            "predicate=MobilityThreshold".to_string(),
            format!("nullifier=0x{}", &nullifier[..16]),
            "scope=transport_dept_ptfss_2026Q1".to_string(),
            "output=TRUE ✓".to_string(),
        ]
    );
    let base = sha_hex(&[pod.merkle_root.as_bytes(), b"MobilityThreshold", nullifier.as_bytes(), "TRUE ✓".as_bytes()]);
    let tail = sha_hex(&[base.as_bytes()]);
    assert_eq!(prf.proof_bytes, format!("{base}{tail}"));
    assert_eq!(prf.proof_bytes.len(), 128);
}

#[test]
fn proving_times_per_predicate() {
    let pod = demo_pod();
    let id = SemaphoreIdentity::new("s");
    let times: Vec<u64> = vec![
        generate_proof(&pod, &payment(TransactionCategory::BuildingAccess, 0, None), &id, "a").unwrap().proving_time_ms,
        generate_proof(
            &pod,
            &ClaimPredicate::TemporalRegularity { pattern: "p".into(), period: "2026-03".into(), min_occurrences: 1 },
            &id,
            "b",
        )
        .unwrap()
        .proving_time_ms,
        generate_proof(
            &pod,
            &ClaimPredicate::CompositeResidency { district: "d".into(), min_trips: 1, min_fee_cents: 1, period: "2026-03".into() },
            &id,
            "c",
        )
        .unwrap()
        .proving_time_ms,
    ];
    assert_eq!(times, vec![1100, 1350, 2400]);
}

#[test]
fn failing_evaluation_gives_no_proof() {
    let pod = demo_pod();
    let id = SemaphoreIdentity::new("s");
    assert!(matches!(
        generate_proof(&pod, &mobility(Zone::Kowloon, "2026-04", 1), &id, "x"),
        Err(ZkError::MobilityPeriodMismatch { .. })
    ));
}

#[test]
fn generated_proof_verifies_once() {
    let pod = demo_pod();
    let id = SemaphoreIdentity::new("CARDHOLDER_SECRET_3");
    let pred = payment(TransactionCategory::BuildingAccess, 20000, None);
    let prf = generate_proof(&pod, &pred, &id, "property_mgr_compliance_2026").unwrap();
    let mut reg = NullifierRegistry::default();
    assert!(verify_proof(&prf, &pod, &mut reg).unwrap());
    assert!(reg.is_used(&prf.nullifier));
    match verify_proof(&prf, &pod, &mut reg) {
        Err(ZkError::DoubleUse { nullifier }) => assert_eq!(nullifier, prf.nullifier),
        other => panic!("unexpected {:?}", other),
    }
}

#[test]
fn tampered_proof_fails_but_registers_its_nullifier() {
    let pod = demo_pod();
    let id = SemaphoreIdentity::new("CARDHOLDER_SECRET_4");
    let pred = mobility(Zone::Kowloon, "2026-03", 15);
    let mut prf = generate_proof(&pod, &pred, &id, "scope").unwrap();
    prf.public_output = PublicOutput::Boolean(false);
    let mut reg = NullifierRegistry::default();
    assert!(!verify_proof(&prf, &pod, &mut reg).unwrap());
    assert!(reg.is_used(&prf.nullifier));
    // Against another credential the same proof fails too.
    let other = build_pod_at(
        &synthetic_transactions_march_2026(),
        &Zone::Kowloon,
        "2026-04",
        RegistrationStatus::Pseudonymous,
        "s",
        0,
    );
    let good = generate_proof(&pod, &pred, &SemaphoreIdentity::new("x"), "scope").unwrap();
    let mut reg2 = NullifierRegistry::default();
    assert!(!verify_proof(&good, &other, &mut reg2).unwrap());
}

#[test]
fn overflowing_bucket_is_detected() {
    let mut pod = demo_pod();
    pod.entries[4].value = PodValue::Integer(i64::MAX); // retail_total
    assert!(!can_generate_proof(&pod, &payment(TransactionCategory::Retail, 0, None)));
    // The same credential with another category, or another period, is fine.
    assert!(can_generate_proof(&pod, &payment(TransactionCategory::BuildingAccess, 0, None)));
    // The bucket below `i64::MIN` does not fit either.
    pod.entries[4].value = PodValue::Integer(i64::MIN);
    assert!(!can_generate_proof(&pod, &payment(TransactionCategory::Retail, i64::MIN, None)));
    pod.entries[4].value = PodValue::Integer(i64::MIN + 50_000 - (i64::MIN % 50_000 + 50_000) % 50_000);
    assert!(can_generate_proof(&pod, &payment(TransactionCategory::Retail, i64::MIN, None)));
    let mut short_root = demo_pod();
    short_root.merkle_root = "abc".into();
    assert!(!can_generate_proof(&short_root, &mobility(Zone::Kowloon, "2026-03", 1)));
    // When evaluation fails, the root is not cut.
    assert!(can_generate_proof(&short_root, &mobility(Zone::Lantau, "2026-03", 1)));
}

#[test]
fn circuit_public_inputs_cut_root_and_nullifier() {
    let inputs = circuit_public_inputs(
        "0123456789abcdefXYZ",
        "AggregatePayment",
        "fedcba9876543210tail",
        "scope é",
        &PublicOutput::RangeBucket { lo: 0, hi: 50000 },
    );
    assert_eq!(
        inputs,
        vec![
            "merkle_root=0x0123456789abcdef".to_string(),
            "predicate=AggregatePayment".to_string(),
            "nullifier=0xfedcba9876543210".to_string(),
            "scope=scope é".to_string(),
            "output=HKD 0.00–500.00".to_string(),
        ]
    );
}

#[test]
fn proof_depends_only_on_root_and_output() {
    let pod = demo_pod();
    let mut other = demo_pod();
    other.entries[4] = PodEntry { key: "retail_total".into(), value: PodValue::Integer(1) };
    other.issuer_signature = "different".into();
    let id = SemaphoreIdentity::new("CARDHOLDER_SECRET_1");
    let pred = mobility(Zone::Kowloon, "2026-03", 15);
    let a = generate_proof(&pod, &pred, &id, "scope").unwrap();
    let b = generate_proof(&other, &pred, &id, "scope").unwrap();
    assert_eq!(a.proof_bytes, b.proof_bytes);
    assert_eq!(a.public_inputs, b.public_inputs);
    assert_eq!(a.nullifier, b.nullifier);
    assert!(matches!(b.public_output, PublicOutput::Boolean(true)));
}

#[test]
fn forged_predicate_name_is_rejected() {
    let pod = demo_pod();
    let id = SemaphoreIdentity::new("CARDHOLDER_SECRET_1");
    let pred = mobility(Zone::Kowloon, "2026-03", 15);
    let mut prf = generate_proof(&pod, &pred, &id, "scope").unwrap();
    prf.predicate_name = "CompositeResidency".into();
    let mut reg = NullifierRegistry::default();
    assert!(!verify_proof(&prf, &pod, &mut reg).unwrap());
}
