use zk_octopus::text::{byte_prefix, cents_display, i64_text, str_eq, str_starts_with, u64_text};
use zk_octopus::types::{ClaimPredicate, PodValue, PublicOutput, TransactionCategory, Zone};

#[test]
fn integer_text_matches_display() {
    for n in [0i64, 7, 10, 99, 100, 12345, -1, -50000, i64::MAX, i64::MIN] {
        assert_eq!(i64_text(n), n.to_string());
    }
    for n in [0u64, 9, 10, 1_000_000, u64::MAX] {
        assert_eq!(u64_text(n), n.to_string());
    }
}

#[test]
fn cents_text_has_two_fraction_digits() {
    assert_eq!(cents_display(0), "0.00");
    assert_eq!(cents_display(5), "0.05");
    assert_eq!(cents_display(50000), "500.00");
    assert_eq!(cents_display(12345), "123.45");
    assert_eq!(cents_display(-5), "-0.05");
    assert_eq!(cents_display(-12345), "-123.45");
    // Same as the two-decimal text of the amount in HKD for moderate amounts.
    for c in [-987654321i64, -100, -1, 1, 99, 101, 30000, 78050, 123456789] {
        assert_eq!(cents_display(c), format!("{:.2}", c as f64 / 100.0));
    }
}

#[test]
fn byte_prefix_cuts_bytes() {
    assert_eq!(byte_prefix("0123456789abcdef0123", 16), "0123456789abcdef");
    assert_eq!(byte_prefix("héllo", 3), "hé");
    assert_eq!(byte_prefix("", 0), "");
}

#[test]
fn string_comparisons() {
    assert!(str_eq("abc", "abc"));
    assert!(!str_eq("abc", "abd"));
    assert!(!str_eq("abc", "ab"));
    assert!(str_starts_with("abcdef", "abc"));
    assert!(str_starts_with("abc", ""));
    assert!(!str_starts_with("ab", "abc"));
    assert!(!str_starts_with("abcdef", "abd"));
}

#[test]
fn category_and_zone_text() {
    assert_eq!(TransactionCategory::Transit.display_text(), "TRANSIT");
    assert_eq!(TransactionCategory::Retail.display_text(), "RETAIL");
    assert_eq!(TransactionCategory::BuildingAccess.display_text(), "BUILDING_ACCESS");
    assert_eq!(TransactionCategory::GovernmentService.display_text(), "GOV_SERVICE");
    assert_eq!(Zone::Kowloon.display_text(), "KOWLOON");
    assert_eq!(Zone::HongKongIsland.display_text(), "HONG_KONG_ISLAND");
    assert_eq!(Zone::NewTerritories.display_text(), "NEW_TERRITORIES");
    assert_eq!(Zone::Lantau.display_text(), "LANTAU");
}

#[test]
fn pod_value_text() {
    assert_eq!(PodValue::String("KOWLOON".to_string()).display_text(), "KOWLOON");
    assert_eq!(PodValue::Integer(-42).display_text(), "-42");
    assert_eq!(PodValue::Bytes("00112233445566778899aabbccddeeff0011".to_string()).display_text(), "00112233445566778899aabbccddeeff"[..16].to_string());
    assert_eq!(PodValue::Bytes("abcd".to_string()).display_text(), "abcd");
}

#[test]
fn public_output_text() {
    assert_eq!(PublicOutput::Boolean(true).display_text(), "TRUE ✓");
    assert_eq!(PublicOutput::Boolean(false).display_text(), "FALSE ✗");
    assert_eq!(PublicOutput::RangeBucket { lo: 0, hi: 50000 }.display_text(), "HKD 0.00–500.00");
    assert_eq!(PublicOutput::RangeBucket { lo: -50000, hi: 0 }.display_text(), "HKD -500.00–0.00");
    assert_eq!(PublicOutput::AggregateCount(21).display_text(), "count=21");
}

#[test]
fn predicate_names_and_schemas() {
    let m = ClaimPredicate::MobilityThreshold { zone: Zone::Kowloon, period: "2026-03".into(), min_trips: 1 };
    let a = ClaimPredicate::AggregatePayment {
        category: TransactionCategory::Retail,
        period: "2026-03".into(),
        min_cents: 0,
        max_cents: None,
    };
    let t = ClaimPredicate::TemporalRegularity { pattern: "P".into(), period: "2026-03".into(), min_occurrences: 1 };
    let c = ClaimPredicate::CompositeResidency { district: "D".into(), min_trips: 1, min_fee_cents: 1, period: "2026-03".into() };
    assert_eq!(m.name(), "MobilityThreshold");
    assert_eq!(a.name(), "AggregatePayment");
    assert_eq!(t.name(), "TemporalRegularity");
    assert_eq!(c.name(), "CompositeResidency");
    assert_eq!(m.eas_schema(), "MobilityCredential");
    assert_eq!(a.eas_schema(), "PaymentComplianceCredential");
    assert_eq!(t.eas_schema(), "MobilityCredential");
    assert_eq!(c.eas_schema(), "CompositeResidencyCredential");
}
