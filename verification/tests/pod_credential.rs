use sha2::{Digest, Sha256};
use zk_octopus::demo::{category_count, synthetic_transactions_march_2026};
use zk_octopus::pod::{build_pod, build_pod_at, can_build_pod, can_verify_pod, verify_pod_integrity};
use zk_octopus::types::{OctopusTransaction, PodCredential, PodValue, RegistrationStatus, TransactionCategory, Zone};

fn int_entry(pod: &PodCredential, key: &str) -> i64 {
    match &pod.entries.iter().find(|e| e.key == key).unwrap().value {
        PodValue::Integer(n) => *n,
        _ => panic!("not an integer"),
    }
}

fn str_entry(pod: &PodCredential, key: &str) -> String {
    match &pod.entries.iter().find(|e| e.key == key).unwrap().value {
        PodValue::String(s) => s.clone(),
        _ => panic!("not a string"),
    }
}

fn demo_pod() -> PodCredential {
    let txns = synthetic_transactions_march_2026();
    build_pod_at(&txns, &Zone::Kowloon, "2026-03", RegistrationStatus::Pseudonymous, "sess_20260328_demo", 1_774_656_000)
}

#[test]
fn demo_pod_aggregates() {
    let pod = demo_pod();
    let keys: Vec<&str> = pod.entries.iter().map(|e| e.key.as_str()).collect();
    assert_eq!(
        keys,
        vec![
            "zone",
            "period",
            "transit_count",
            "mgmt_fee_total",
            "retail_total",
            "transit_fare_total",
            "morning_commute_count",
            "tx_count",
            "registration_class"
        ]
    );
    assert_eq!(str_entry(&pod, "zone"), "KOWLOON");
    assert_eq!(str_entry(&pod, "period"), "2026-03");
    assert_eq!(int_entry(&pod, "transit_count"), 21);
    assert_eq!(int_entry(&pod, "mgmt_fee_total"), 30000);
    assert_eq!(int_entry(&pod, "retail_total"), 78050);
    assert_eq!(int_entry(&pod, "transit_fare_total"), 18550);
    assert_eq!(int_entry(&pod, "morning_commute_count"), 15);
    assert_eq!(int_entry(&pod, "tx_count"), 28);
    assert_eq!(str_entry(&pod, "registration_class"), "PSEUDONYMOUS");
    assert_eq!(pod.issued_at, 1_774_656_000);
}

#[test]
fn zone_filter_counts_only_that_zone() {
    let txns = synthetic_transactions_march_2026();
    let pod = build_pod_at(&txns, &Zone::Lantau, "2026-03", RegistrationStatus::Pseudonymous, "s", 0);
    assert_eq!(str_entry(&pod, "zone"), "LANTAU");
    assert_eq!(int_entry(&pod, "transit_count"), 0);
    // Fare totals do not depend on the zone.
    assert_eq!(int_entry(&pod, "transit_fare_total"), 18550);
}

#[test]
fn registered_class_is_recorded() {
    let txns = synthetic_transactions_march_2026();
    let pod = build_pod_at(
        &txns,
        &Zone::Kowloon,
        "2026-03",
        RegistrationStatus::IdentityRegistered { hkid_hash: "h".to_string() },
        "s",
        0,
    );
    assert_eq!(str_entry(&pod, "registration_class"), "IDENTITY_REGISTERED");
}

fn sha_hex(parts: &[&[u8]]) -> String {
    let mut h = Sha256::new();
    for p in parts {
        h.update(p);
    }
    hex::encode(h.finalize())
}

#[test]
fn merkle_root_and_signatures_match_sha256() {
    let pod = demo_pod();
    let mut leaves: Vec<[u8; 32]> = pod
        .entries
        .iter()
        .map(|e| {
            let mut h = Sha256::new();
            h.update(e.key.as_bytes());
            h.update(b"|");
            h.update(e.value.display_text().as_bytes());
            h.finalize().into()
        })
        .collect();
    let mut unsorted_hasher = Sha256::new();
    for leaf in &leaves {
        unsorted_hasher.update(leaf);
    }
    let unsorted_root = hex::encode(unsorted_hasher.finalize());
    leaves.sort();
    let mut root_hasher = Sha256::new();
    for leaf in &leaves {
        root_hasher.update(leaf);
    }
    let root = hex::encode(root_hasher.finalize());
    assert_eq!(pod.merkle_root, root);
    assert_ne!(pod.merkle_root, unsorted_root);
    assert_eq!(pod.merkle_root.len(), 64);
    assert_eq!(pod.issuer_signature, sha_hex(&[b"LOCAL_ISSUER_SECRET", root.as_bytes()]));
    assert_eq!(
        pod.provenance_hash,
        sha_hex(&[b"TLSNOTARY_NOTARY_PUBKEY", b"sess_20260328_demo", root.as_bytes()])
    );
}

#[test]
fn build_pod_now_agrees_with_build_pod_at() {
    let txns = synthetic_transactions_march_2026();
    let pod = build_pod(&txns, &Zone::Kowloon, "2026-03", RegistrationStatus::Pseudonymous, "sess_20260328_demo").unwrap();
    let at = demo_pod();
    assert_eq!(pod.merkle_root, at.merkle_root);
    assert_eq!(pod.issuer_signature, at.issuer_signature);
    assert_eq!(pod.provenance_hash, at.provenance_hash);
    assert!(pod.issued_at > 1_700_000_000);
}

#[test]
fn integrity_holds_for_built_pod_and_fails_after_tampering() {
    let mut pod = demo_pod();
    assert!(can_verify_pod(&pod));
    assert!(verify_pod_integrity(&pod));
    pod.entries[2].value = PodValue::Integer(99);
    assert!(!verify_pod_integrity(&pod));
    let mut pod2 = demo_pod();
    pod2.merkle_root = "00".repeat(32);
    assert!(!verify_pod_integrity(&pod2));
}

#[test]
fn bytes_entry_cut_inside_a_character_is_refused() {
    let mut pod = demo_pod();
    pod.entries.push(zk_octopus::types::PodEntry {
        key: "sig".to_string(),
        value: PodValue::Bytes("abcdefghijklmnoé".to_string()),
    });
    assert!(!can_verify_pod(&pod));
    let mut pod2 = demo_pod();
    pod2.entries.push(zk_octopus::types::PodEntry { key: "sig".to_string(), value: PodValue::Bytes("ab".to_string()) });
    assert!(can_verify_pod(&pod2));
    assert!(!verify_pod_integrity(&pod2));
}

#[test]
fn overflowing_totals_are_detected() {
    let txns = synthetic_transactions_march_2026();
    assert!(can_build_pod(&txns));
    let big = vec![
        OctopusTransaction {
            timestamp: 0,
            terminal_id: "x".into(),
            amount_cents: i64::MIN,
            category: TransactionCategory::Retail,
            zone: Zone::Kowloon,
        },
    ];
    assert!(!can_build_pod(&big));
    let gov = vec![
        OctopusTransaction {
            timestamp: 0,
            terminal_id: "x".into(),
            amount_cents: i64::MIN,
            category: TransactionCategory::GovernmentService,
            zone: Zone::Kowloon,
        },
    ];
    assert!(can_build_pod(&gov));
}

#[test]
fn morning_commutes_are_weekday_taps_from_six_to_half_past_nine() {
    let mk = |ts: i64| OctopusTransaction {
        timestamp: ts,
        terminal_id: "t".into(),
        amount_cents: -100,
        category: TransactionCategory::Transit,
        zone: Zone::Kowloon,
    };
    let day = 86_400i64;
    let txns = vec![
        mk(6 * 3600),                     // Thu 1970-01-01 06:00:00: counted
        mk(6 * 3600 - 1),                 // Thu 05:59:59
        mk(9 * 3600 + 1800),              // Thu 09:30:00: counted
        mk(9 * 3600 + 1801),              // Thu 09:30:01
        mk(2 * day + 8 * 3600),           // Sat 1970-01-03 08:00
        mk(3 * day + 8 * 3600),           // Sun 1970-01-04 08:00
        mk(4 * day + 8 * 3600),           // Mon 1970-01-05 08:00: counted
        mk(-day + 7 * 3600),              // Wed 1969-12-31 07:00: counted
        mk(-2 * day + 5 * 3600),          // Tue 1969-12-30 05:00
    ];
    let pod = build_pod_at(&txns, &Zone::Kowloon, "p", RegistrationStatus::Pseudonymous, "s", 0);
    assert_eq!(int_entry(&pod, "morning_commute_count"), 4);
    assert_eq!(int_entry(&pod, "transit_fare_total"), 900);
}

#[test]
fn category_counts_of_demo_data() {
    let txns = synthetic_transactions_march_2026();
    assert_eq!(category_count(&txns, TransactionCategory::Transit), 21);
    assert_eq!(category_count(&txns, TransactionCategory::Retail), 5);
    assert_eq!(category_count(&txns, TransactionCategory::BuildingAccess), 1);
    assert_eq!(category_count(&txns, TransactionCategory::GovernmentService), 1);
}

#[test]
fn entry_order_does_not_change_the_root() {
    let pod = demo_pod();
    let mut reordered = pod.clone();
    reordered.entries.reverse();
    assert!(verify_pod_integrity(&reordered));
    let mut changed = pod.clone();
    changed.entries[2].value = PodValue::Integer(99);
    assert!(!verify_pod_integrity(&changed));
    let mut removed = pod.clone();
    removed.entries.pop();
    assert!(!verify_pod_integrity(&removed));
    let mut added = pod.clone();
    added.entries.push(added.entries[0].clone());
    assert!(!verify_pod_integrity(&added));
}
