//! The claims and registration classes that the command line offers, and the
//! predicates and statuses they stand for.
use vstd::prelude::*;

use crate::types::{ClaimPredicate, RegistrationStatus, TransactionCategory, Zone};

verus! {

/// Registration status chosen on the command line.
#[derive(Debug, Clone, Copy, PartialEq, Eq, Structural)]
pub enum RegistrationArg {
    Pseudonymous,
    Registered,
}

/// Claim chosen on the command line.
#[derive(Debug, Clone, Copy, PartialEq, Eq, Structural)]
pub enum ClaimArg {
    Mobility,
    Payment,
    Temporal,
    Composite,
}

/// The predicate that a command-line claim stands for.
pub open spec fn predicate_for(claim: ClaimArg, p: ClaimPredicate) -> bool {
    match claim {
        ClaimArg::Mobility => p matches ClaimPredicate::MobilityThreshold { zone, period, min_trips }
            && zone == Zone::Kowloon && period@ == "2026-03"@ && min_trips == 15,
        ClaimArg::Payment => p matches ClaimPredicate::AggregatePayment { category, period, min_cents, max_cents }
            && category == TransactionCategory::BuildingAccess && period@ == "2026-03"@ && min_cents == 20000
            && max_cents is None,
        ClaimArg::Temporal => p matches ClaimPredicate::TemporalRegularity { pattern, period, min_occurrences }
            && pattern@ == "WEEKDAY_MORNING_COMMUTE"@ && period@ == "2026-03"@ && min_occurrences == 10,
        ClaimArg::Composite => p matches ClaimPredicate::CompositeResidency { district, min_trips, min_fee_cents, period }
            && district@ == "KOWLOON_CITY"@ && period@ == "2026-03"@ && min_trips == 10 && min_fee_cents == 20000,
    }
}

/// The claim predicate for a command-line claim: March 2026 in Kowloon,
/// at least 15 trips, management fees of at least HKD 200, at least 10
/// morning commutes, or 10 trips and HKD 200 of fees together.
pub fn make_predicate(claim: &ClaimArg) -> (r: ClaimPredicate)
    ensures
        predicate_for(*claim, r),
{
    match claim {
        ClaimArg::Mobility => ClaimPredicate::MobilityThreshold {
            zone: Zone::Kowloon,
            period: String::from_str("2026-03"),
            min_trips: 15,
        },
        ClaimArg::Payment => ClaimPredicate::AggregatePayment {
            category: TransactionCategory::BuildingAccess,
            period: String::from_str("2026-03"),
            min_cents: 20000,
            max_cents: None,
        },
        ClaimArg::Temporal => ClaimPredicate::TemporalRegularity {
            pattern: String::from_str("WEEKDAY_MORNING_COMMUTE"),
            period: String::from_str("2026-03"),
            min_occurrences: 10,
        },
        ClaimArg::Composite => ClaimPredicate::CompositeResidency {
            district: String::from_str("KOWLOON_CITY"),
            period: String::from_str("2026-03"),
            min_trips: 10,
            min_fee_cents: 20000,
        },
    }
}

/// The registration status for a command-line choice; a registered card is
/// bound to the demo HKID hash.
pub fn registration_for(status: &RegistrationArg) -> (r: RegistrationStatus)
    ensures
        match *status {
            RegistrationArg::Pseudonymous => r@ == crate::types::RegistrationModel::Pseudonymous,
            RegistrationArg::Registered => r@ == crate::types::RegistrationModel::IdentityRegistered(
                "sha256(A123456(7))"@,
            ),
        },
{
    match status {
        RegistrationArg::Pseudonymous => RegistrationStatus::Pseudonymous,
        RegistrationArg::Registered => RegistrationStatus::IdentityRegistered {
            hkid_hash: String::from_str("sha256(A123456(7))"),
        },
    }
}

} // verus!
