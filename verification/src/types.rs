//! Core data types: Octopus transaction records, POD credentials, claim
//! predicates, proofs and attestations, with the mathematical models that
//! the contracts speak of.
use vstd::prelude::*;

use crate::text::{byte_boundary, byte_prefix, byte_prefix_text, cents_display, cents_text, i64_text, int_text, u64_text, nat_text};

verus! {

// ─── Octopus transaction ─────────────────────────────────────────────────

/// Category of an Octopus card transaction, encoding the four touchpoint domains.
#[derive(Debug, Clone, Copy, PartialEq, Eq, Structural)]
pub enum TransactionCategory {
    Transit,
    Retail,
    BuildingAccess,
    GovernmentService,
}

/// Display text of a category.
pub open spec fn category_text(c: TransactionCategory) -> Seq<char> {
    match c {
        TransactionCategory::Transit => "TRANSIT"@,
        TransactionCategory::Retail => "RETAIL"@,
        TransactionCategory::BuildingAccess => "BUILDING_ACCESS"@,
        TransactionCategory::GovernmentService => "GOV_SERVICE"@,
    }
}

impl TransactionCategory {
    /// The category as it is displayed.
    pub fn display_text(&self) -> (r: String)
        ensures
            r@ == category_text(*self),
    {
        match self {
            TransactionCategory::Transit => String::from_str("TRANSIT"),
            TransactionCategory::Retail => String::from_str("RETAIL"),
            TransactionCategory::BuildingAccess => String::from_str("BUILDING_ACCESS"),
            TransactionCategory::GovernmentService => String::from_str("GOV_SERVICE"),
        }
    }
}

/// Hong Kong geographic zones aligned with MTR district boundaries.
#[derive(Debug, Clone, Copy, PartialEq, Eq, Structural)]
pub enum Zone {
    Kowloon,
    HongKongIsland,
    NewTerritories,
    Lantau,
}

/// Display text of a zone.
pub open spec fn zone_text(z: Zone) -> Seq<char> {
    match z {
        Zone::Kowloon => "KOWLOON"@,
        Zone::HongKongIsland => "HONG_KONG_ISLAND"@,
        Zone::NewTerritories => "NEW_TERRITORIES"@,
        Zone::Lantau => "LANTAU"@,
    }
}

impl Zone {
    /// The zone as it is displayed.
    pub fn display_text(&self) -> (r: String)
        ensures
            r@ == zone_text(*self),
    {
        match self {
            Zone::Kowloon => String::from_str("KOWLOON"),
            Zone::HongKongIsland => String::from_str("HONG_KONG_ISLAND"),
            Zone::NewTerritories => String::from_str("NEW_TERRITORIES"),
            Zone::Lantau => String::from_str("LANTAU"),
        }
    }
}

/// A single Octopus card transaction record (the private witness).
#[derive(Debug, Clone)]
pub struct OctopusTransaction {
    /// Unix time of the tap, in seconds (UTC)
    pub timestamp: i64,
    /// Human-readable terminal name (e.g. "MTR Kowloon Tong")
    pub terminal_id: String,
    /// Amount in HKD cents (negative = debit from card)
    pub amount_cents: i64,
    /// Domain category
    pub category: TransactionCategory,
    /// Geographic zone of the terminal
    pub zone: Zone,
}

/// What a transaction record holds, with the terminal name as characters.
pub struct TransactionModel {
    pub timestamp: i64,
    pub terminal_id: Seq<char>,
    pub amount_cents: i64,
    pub category: TransactionCategory,
    pub zone: Zone,
}

impl View for OctopusTransaction {
    type V = TransactionModel;

    open spec fn view(&self) -> TransactionModel {
        TransactionModel {
            timestamp: self.timestamp,
            terminal_id: self.terminal_id@,
            amount_cents: self.amount_cents,
            category: self.category,
            zone: self.zone,
        }
    }
}

// ─── POD credential ──────────────────────────────────────────────────────

/// A POD entry value, mirroring the Zupass POD type system.
#[derive(Debug, Clone)]
pub enum PodValue {
    /// Arbitrary UTF-8 string
    String(String),
    /// Signed 64-bit integer (HKD cents, trip counts, timestamps, …)
    Integer(i64),
    /// Raw bytes encoded as hex (hashes, signatures, …)
    Bytes(String),
}

/// What a POD entry value holds.
pub enum PodValueModel {
    String(Seq<char>),
    Integer(i64),
    Bytes(Seq<char>),
}

impl View for PodValue {
    type V = PodValueModel;

    open spec fn view(&self) -> PodValueModel {
        match self {
            PodValue::String(s) => PodValueModel::String(s@),
            PodValue::Integer(n) => PodValueModel::Integer(*n),
            PodValue::Bytes(h) => PodValueModel::Bytes(h@),
        }
    }
}

/// The length of the shown prefix of a `Bytes` value, in bytes: at most 16.
pub open spec fn bytes_shown_len(h: Seq<char>) -> int {
    let n = vstd::utf8::encode_utf8(h).len() as int;
    if n < 16 { n } else { 16 }
}

/// Whether the value can be displayed: a `Bytes` value is cut after at most
/// 16 bytes, which must fall on a character boundary.
pub open spec fn value_displayable(v: PodValueModel) -> bool {
    match v {
        PodValueModel::Bytes(h) => byte_boundary(h, bytes_shown_len(h)),
        _ => true,
    }
}

/// Display text of a POD value: strings as they are, integers in decimal,
/// and bytes by the first (at most) 16 bytes of their hex text.
pub open spec fn value_text(v: PodValueModel) -> Seq<char> {
    match v {
        PodValueModel::String(s) => s,
        PodValueModel::Integer(n) => int_text(n as int),
        PodValueModel::Bytes(h) => byte_prefix_text(h, bytes_shown_len(h)),
    }
}

impl PodValue {
    /// The value as it is displayed.
    pub fn display_text(&self) -> (r: String)
        requires
            value_displayable(self@),
        ensures
            r@ == value_text(self@),
    {
        match self {
            PodValue::String(s) => {
                let t = s.as_str();
                assert(t@ == s@);
                String::from_str(t)
            },
            PodValue::Integer(n) => i64_text(*n),
            PodValue::Bytes(h) => {
                let t = h.as_str();
                let n = t.as_bytes().len();
                assert(n == vstd::utf8::encode_utf8(h@).len());
                let k = if n < 16 { n } else { 16 };
                byte_prefix(t, k)
            },
        }
    }
}

/// A single key-value entry in a POD credential.
#[derive(Debug, Clone)]
pub struct PodEntry {
    pub key: String,
    pub value: PodValue,
}

impl View for PodEntry {
    type V = (Seq<char>, PodValueModel);

    open spec fn view(&self) -> (Seq<char>, PodValueModel) {
        (self.key@, self.value@)
    }
}

/// The registration status of the cardholder.
#[derive(Debug, Clone)]
pub enum RegistrationStatus {
    /// Anonymous stored-value token; no personal data linked
    Pseudonymous,
    /// Card is bound to an HKID number
    IdentityRegistered { hkid_hash: String },
}

/// What a registration status holds.
pub enum RegistrationModel {
    Pseudonymous,
    IdentityRegistered(Seq<char>),
}

impl View for RegistrationStatus {
    type V = RegistrationModel;

    open spec fn view(&self) -> RegistrationModel {
        match self {
            RegistrationStatus::Pseudonymous => RegistrationModel::Pseudonymous,
            RegistrationStatus::IdentityRegistered { hkid_hash } => RegistrationModel::IdentityRegistered(hkid_hash@),
        }
    }
}

/// A ZK-Octopus POD credential.
#[derive(Debug, Clone)]
pub struct PodCredential {
    /// All key-value entries hashed into the Merkle tree
    pub entries: Vec<PodEntry>,
    /// Merkle root over the entries: hex of the SHA-256 of the sorted entry hashes
    pub merkle_root: String,
    /// Signature by the local issuer (hex)
    pub issuer_signature: String,
    /// Commitment to the TLSNotary attestation for data provenance (hex)
    pub provenance_hash: String,
    /// Which user class generated this credential
    pub registration: RegistrationStatus,
    /// Issuance time, Unix seconds (UTC)
    pub issued_at: i64,
}

/// What a POD credential holds.
pub struct PodModel {
    pub entries: Seq<(Seq<char>, PodValueModel)>,
    pub merkle_root: Seq<char>,
    pub issuer_signature: Seq<char>,
    pub provenance_hash: Seq<char>,
    pub registration: RegistrationModel,
    pub issued_at: i64,
}

/// The models of a sequence of entries.
pub open spec fn entries_model(es: Seq<PodEntry>) -> Seq<(Seq<char>, PodValueModel)> {
    es.map_values(|e: PodEntry| e@)
}

impl View for PodCredential {
    type V = PodModel;

    open spec fn view(&self) -> PodModel {
        PodModel {
            entries: entries_model(self.entries@),
            merkle_root: self.merkle_root@,
            issuer_signature: self.issuer_signature@,
            provenance_hash: self.provenance_hash@,
            registration: self.registration@,
            issued_at: self.issued_at,
        }
    }
}

// ─── Claim predicates ────────────────────────────────────────────────────

/// A ZK-Octopus claim predicate: what the prover wants to prove without
/// revealing the underlying transaction data.
#[derive(Debug, Clone)]
pub enum ClaimPredicate {
    /// Transit taps in `zone` during `period` (YYYY-MM) are at least `min_trips`.
    MobilityThreshold { zone: Zone, period: String, min_trips: u32 },
    /// Cumulative payments in `category` during `period` lie within
    /// `[min_cents, max_cents]`.
    AggregatePayment {
        category: TransactionCategory,
        period: String,
        min_cents: i64,
        max_cents: Option<i64>,
    },
    /// A usage pattern occurred at least `min_occurrences` times in `period`.
    TemporalRegularity { pattern: String, period: String, min_occurrences: u32 },
    /// Residency in a district, evidenced by transit usage and management fees.
    CompositeResidency { district: String, min_trips: u32, min_fee_cents: i64, period: String },
}

/// The name of the predicate's kind.
pub open spec fn predicate_name_text(p: ClaimPredicate) -> Seq<char> {
    match p {
        ClaimPredicate::MobilityThreshold { .. } => "MobilityThreshold"@,
        ClaimPredicate::AggregatePayment { .. } => "AggregatePayment"@,
        ClaimPredicate::TemporalRegularity { .. } => "TemporalRegularity"@,
        ClaimPredicate::CompositeResidency { .. } => "CompositeResidency"@,
    }
}

/// The EAS schema under which a claim of this kind is attested.
pub open spec fn eas_schema_text(p: ClaimPredicate) -> Seq<char> {
    match p {
        ClaimPredicate::MobilityThreshold { .. } => "MobilityCredential"@,
        ClaimPredicate::AggregatePayment { .. } => "PaymentComplianceCredential"@,
        ClaimPredicate::TemporalRegularity { .. } => "MobilityCredential"@,
        ClaimPredicate::CompositeResidency { .. } => "CompositeResidencyCredential"@,
    }
}

impl ClaimPredicate {
    pub fn name(&self) -> (r: &'static str)
        ensures
            r@ == predicate_name_text(*self),
    {
        match self {
            ClaimPredicate::MobilityThreshold { .. } => "MobilityThreshold",
            ClaimPredicate::AggregatePayment { .. } => "AggregatePayment",
            ClaimPredicate::TemporalRegularity { .. } => "TemporalRegularity",
            ClaimPredicate::CompositeResidency { .. } => "CompositeResidency",
        }
    }

    pub fn eas_schema(&self) -> (r: &'static str)
        ensures
            r@ == eas_schema_text(*self),
    {
        match self {
            ClaimPredicate::MobilityThreshold { .. } => "MobilityCredential",
            ClaimPredicate::AggregatePayment { .. } => "PaymentComplianceCredential",
            ClaimPredicate::TemporalRegularity { .. } => "MobilityCredential",
            ClaimPredicate::CompositeResidency { .. } => "CompositeResidencyCredential",
        }
    }
}

// ─── Proof & attestation ─────────────────────────────────────────────────

/// The public output of a satisfied predicate: what the verifier learns.
#[derive(Debug, Clone, Copy, PartialEq, Eq, Structural)]
pub enum PublicOutput {
    /// The claim is satisfied or not
    Boolean(bool),
    /// The value lies in [lo, hi) HKD cents
    RangeBucket { lo: i64, hi: i64 },
    /// Aggregate count (no individual records)
    AggregateCount(u32),
}

/// Display text of a public output.
pub open spec fn output_text(o: PublicOutput) -> Seq<char> {
    match o {
        PublicOutput::Boolean(b) => if b { "TRUE ✓"@ } else { "FALSE ✗"@ },
        PublicOutput::RangeBucket { lo, hi } => "HKD "@ + cents_text(lo as int) + "–"@ + cents_text(hi as int),
        PublicOutput::AggregateCount(n) => "count="@ + nat_text(n as nat),
    }
}

impl PublicOutput {
    /// The output as it is displayed.
    pub fn display_text(&self) -> (r: String)
        ensures
            r@ == output_text(*self),
    {
        match self {
            PublicOutput::Boolean(b) => {
                if *b {
                    String::from_str("TRUE ✓")
                } else {
                    String::from_str("FALSE ✗")
                }
            },
            PublicOutput::RangeBucket { lo, hi } => {
                let mut s = String::from_str("HKD ");
                s.append(cents_display(*lo).as_str());
                s.append("–");
                s.append(cents_display(*hi).as_str());
                s
            },
            PublicOutput::AggregateCount(n) => {
                let mut s = String::from_str("count=");
                s.append(u64_text(*n as u64).as_str());
                s
            },
        }
    }
}

/// A mock Groth16 proof.
#[derive(Debug, Clone)]
pub struct MockProof {
    /// Serialised proof bytes (hex)
    pub proof_bytes: String,
    /// Public inputs to the circuit (claim parameters)
    pub public_inputs: Vec<String>,
    /// Semaphore nullifier, deterministic per (identity, scope)
    pub nullifier: String,
    /// The verified public output of the claim
    pub public_output: PublicOutput,
    /// Name of the GPC claim predicate
    pub predicate_name: String,
    /// Approximate proof generation time on mobile
    pub proving_time_ms: u64,
}

/// What a proof holds.
pub struct ProofModel {
    pub proof_bytes: Seq<char>,
    pub public_inputs: Seq<Seq<char>>,
    pub nullifier: Seq<char>,
    pub public_output: PublicOutput,
    pub predicate_name: Seq<char>,
    pub proving_time_ms: u64,
}

/// The models of a sequence of strings.
pub open spec fn strings_model(v: Seq<String>) -> Seq<Seq<char>> {
    v.map_values(|s: String| s@)
}

impl View for MockProof {
    type V = ProofModel;

    open spec fn view(&self) -> ProofModel {
        ProofModel {
            proof_bytes: self.proof_bytes@,
            public_inputs: strings_model(self.public_inputs@),
            nullifier: self.nullifier@,
            public_output: self.public_output,
            predicate_name: self.predicate_name@,
            proving_time_ms: self.proving_time_ms,
        }
    }
}

/// An EAS-style on-chain attestation record.
#[derive(Debug, Clone)]
pub struct EasAttestation {
    /// Attestation UID (hex)
    pub uid: String,
    /// EAS schema identifier
    pub schema: String,
    /// The smart contract that issued the attestation
    pub attester: String,
    /// Recipient: anonymous; only the nullifier is recorded
    pub recipient: String,
    /// Serialised public claim data (JSON)
    pub data: String,
    /// Arbitrum One block number
    pub block_number: u64,
    /// Gas used by ZKOctopusResolver.attest()
    pub gas_used: u64,
    /// Attestation time, Unix seconds (UTC)
    pub timestamp: i64,
}

/// What an attestation holds.
pub struct AttestationModel {
    pub uid: Seq<char>,
    pub schema: Seq<char>,
    pub attester: Seq<char>,
    pub recipient: Seq<char>,
    pub data: Seq<char>,
    pub block_number: u64,
    pub gas_used: u64,
    pub timestamp: i64,
}

impl View for EasAttestation {
    type V = AttestationModel;

    open spec fn view(&self) -> AttestationModel {
        AttestationModel {
            uid: self.uid@,
            schema: self.schema@,
            attester: self.attester@,
            recipient: self.recipient@,
            data: self.data@,
            block_number: self.block_number,
            gas_used: self.gas_used,
            timestamp: self.timestamp,
        }
    }
}

// ─── Errors ──────────────────────────────────────────────────────────────

/// Why an operation of the library was refused.
#[derive(Debug, Clone)]
pub enum ZkError {
    /// The credential has no entry of the right type under this key
    MissingEntry { key: String },
    /// A mobility claim names another zone than the credential
    ZoneMismatch { credential: String, required: String },
    /// A mobility claim names another period than the credential
    MobilityPeriodMismatch { credential: String, required: String },
    /// A claim names another period than the credential
    PeriodMismatch,
    /// The nullifier was registered before
    DoubleUse { nullifier: String },
    /// The proof bytes do not match the credential and the public output
    ProofVerificationFailed,
}

/// What an error holds.
pub enum ErrorModel {
    MissingEntry(Seq<char>),
    ZoneMismatch(Seq<char>, Seq<char>),
    MobilityPeriodMismatch(Seq<char>, Seq<char>),
    PeriodMismatch,
    DoubleUse(Seq<char>),
    ProofVerificationFailed,
}

impl View for ZkError {
    type V = ErrorModel;

    open spec fn view(&self) -> ErrorModel {
        match self {
            ZkError::MissingEntry { key } => ErrorModel::MissingEntry(key@),
            ZkError::ZoneMismatch { credential, required } => ErrorModel::ZoneMismatch(credential@, required@),
            ZkError::MobilityPeriodMismatch { credential, required } => ErrorModel::MobilityPeriodMismatch(
                credential@,
                required@,
            ),
            ZkError::PeriodMismatch => ErrorModel::PeriodMismatch,
            ZkError::DoubleUse { nullifier } => ErrorModel::DoubleUse(nullifier@),
            ZkError::ProofVerificationFailed => ErrorModel::ProofVerificationFailed,
        }
    }
}

/// The model of a result whose error is a `ZkError`.
pub open spec fn output_result(r: Result<PublicOutput, ZkError>) -> Result<PublicOutput, ErrorModel> {
    match r {
        Ok(o) => Ok(o),
        Err(e) => Err(e@),
    }
}

} // verus!
