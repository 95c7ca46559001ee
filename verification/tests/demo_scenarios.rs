use chrono::TimeZone;
use zk_octopus::cli::{make_predicate, registration_for, ClaimArg, RegistrationArg};
use zk_octopus::demo::synthetic_transactions_march_2026;
use zk_octopus::eas::{issue_attestation, verify_attestation};
use zk_octopus::pod::build_pod;
use zk_octopus::prover::{generate_proof, NullifierRegistry, SemaphoreIdentity};
use zk_octopus::types::{ClaimPredicate, PublicOutput, RegistrationStatus, TransactionCategory, Zone};

#[test]
fn synthetic_records() {
    let txns = synthetic_transactions_march_2026();
    assert_eq!(txns.len(), 28);
    let first = &txns[0];
    assert_eq!(first.timestamp, chrono::Utc.with_ymd_and_hms(2026, 3, 2, 8, 12, 0).unwrap().timestamp());
    assert_eq!(first.terminal_id, "MTR Kowloon Tong");
    assert_eq!(first.amount_cents, -950);
    assert_eq!(first.category, TransactionCategory::Transit);
    assert_eq!(first.zone, Zone::Kowloon);
    let last = &txns[27];
    assert_eq!(last.timestamp, chrono::Utc.with_ymd_and_hms(2026, 3, 8, 10, 30, 0).unwrap().timestamp());
    assert_eq!(last.terminal_id, "Leisure & Cultural Services");
    assert_eq!(last.category, TransactionCategory::GovernmentService);
    assert!(txns.iter().all(|t| t.zone == Zone::Kowloon));
}

#[test]
fn command_line_predicates() {
    match make_predicate(&ClaimArg::Mobility) {
        ClaimPredicate::MobilityThreshold { zone, period, min_trips } => {
            assert_eq!(zone, Zone::Kowloon);
            assert_eq!(period, "2026-03");
            assert_eq!(min_trips, 15);
        },
        other => panic!("unexpected {:?}", other),
    }
    match make_predicate(&ClaimArg::Payment) {
        ClaimPredicate::AggregatePayment { category, period, min_cents, max_cents } => {
            assert_eq!(category, TransactionCategory::BuildingAccess);
            assert_eq!(period, "2026-03");
            assert_eq!(min_cents, 20000);
            assert_eq!(max_cents, None);
        },
        other => panic!("unexpected {:?}", other),
    }
    match make_predicate(&ClaimArg::Temporal) {
        ClaimPredicate::TemporalRegularity { pattern, period, min_occurrences } => {
            assert_eq!(pattern, "WEEKDAY_MORNING_COMMUTE");
            assert_eq!(period, "2026-03");
            assert_eq!(min_occurrences, 10);
        },
        other => panic!("unexpected {:?}", other),
    }
    match make_predicate(&ClaimArg::Composite) {
        ClaimPredicate::CompositeResidency { district, min_trips, min_fee_cents, period } => {
            assert_eq!(district, "KOWLOON_CITY");
            assert_eq!(min_trips, 10);
            assert_eq!(min_fee_cents, 20000);
            assert_eq!(period, "2026-03");
        },
        other => panic!("unexpected {:?}", other),
    }
    assert!(matches!(registration_for(&RegistrationArg::Pseudonymous), RegistrationStatus::Pseudonymous));
    match registration_for(&RegistrationArg::Registered) {
        RegistrationStatus::IdentityRegistered { hkid_hash } => assert_eq!(hkid_hash, "sha256(A123456(7))"),
        other => panic!("unexpected {:?}", other),
    }
}

#[test]
fn four_urban_scenarios_are_proved_and_attested() {
    let txns = synthetic_transactions_march_2026();
    let pod = build_pod(&txns, &Zone::Kowloon, "2026-03", RegistrationStatus::Pseudonymous, "sess_20260328_demo").unwrap();
    let mut registry = NullifierRegistry::default();
    let scenarios = vec![
        (ClaimArg::Mobility, "CARDHOLDER_SECRET_1", "transport_dept_ptfss_2026Q1", PublicOutput::Boolean(true)),
        (ClaimArg::Composite, "CARDHOLDER_SECRET_2", "housing_auth_prh_2026", PublicOutput::Boolean(true)),
        (ClaimArg::Payment, "CARDHOLDER_SECRET_3", "property_mgr_compliance_2026", PublicOutput::RangeBucket { lo: 0, hi: 50000 }),
        (ClaimArg::Temporal, "CARDHOLDER_SECRET_4", "planning_dept_demand_2026", PublicOutput::Boolean(true)),
    ];
    let mut nullifiers = Vec::new();
    for (claim, secret, scope, expected) in scenarios {
        let pred = make_predicate(&claim);
        let id = SemaphoreIdentity::new(secret);
        let prf = generate_proof(&pod, &pred, &id, scope).unwrap();
        assert_eq!(prf.public_output, expected);
        let att = issue_attestation(&prf, &pod, &pred, &mut registry).unwrap();
        assert!(verify_attestation(&att, &pred));
        nullifiers.push(prf.nullifier.clone());
    }
    // Distinct verifiers see distinct nullifiers.
    nullifiers.sort();
    nullifiers.dedup();
    assert_eq!(nullifiers.len(), 4);
}
