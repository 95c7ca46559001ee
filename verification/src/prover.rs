//! Mock ZK proof engine: predicate evaluation over a POD credential, mock
//! Groth16 proof bytes, Semaphore-style nullifiers and a nullifier registry.
use vstd::prelude::*;
use vstd::utf8::encode_utf8;

use crate::outside::{hex_encode, hex_text, lemma_hex_text_ascii, lemma_hex_text_injective, no_collision, sha256, sha256_digest};
use crate::text::{
    lemma_encode_utf8_concat, lemma_encode_utf8_injective, byte_boundary, byte_prefix, byte_prefix_text, lemma_ascii_byte_boundary, push_bytes,
    push_str_bytes, starts_with_text, str_eq, str_starts_with,
};
use crate::types::{
    entries_model, output_result, output_text, predicate_name_text, strings_model, zone_text,
    ClaimPredicate, ErrorModel, MockProof, PodCredential, PodEntry, PodModel, PodValue,
    PodValueModel, ProofModel, PublicOutput, TransactionCategory, ZkError, Zone,
};

verus! {

// ─── Semaphore identity ──────────────────────────────────────────────────

/// The nullifier of an identity (by its secret key hash) for a verifier scope.
pub open spec fn nullifier_text(key_hash: Seq<u8>, scope: Seq<char>) -> Seq<char> {
    hex_text(sha256_digest(key_hash + encode_utf8(scope))@)
}

/// The ownership (membership) proof of an identity for a Merkle root.
pub open spec fn ownership_text(key_hash: Seq<u8>, merkle_root: Seq<char>) -> Seq<char> {
    hex_text(sha256_digest(key_hash + encode_utf8(merkle_root))@)
}

/// A Semaphore V4 identity. Only the hash of the secret is kept.
pub struct SemaphoreIdentity {
    /// The secret key hash (kept private)
    secret_key_hash: [u8; 32],
    /// The public key commitment: hex of the secret key hash
    pub pubkey_hex: String,
}

impl SemaphoreIdentity {
    /// The hash of the identity's secret key.
    pub closed spec fn key_hash(&self) -> Seq<u8> {
        self.secret_key_hash@
    }

    /// The public key commitment held in `pubkey_hex`.
    pub closed spec fn pubkey_text(&self) -> Seq<char> {
        self.pubkey_hex@
    }

    pub fn new(secret: &str) -> (r: Self)
        ensures
            r.key_hash() == sha256_digest(encode_utf8(secret@))@,
            r.pubkey_text() == hex_text(r.key_hash()),
    {
        let mut buf: Vec<u8> = Vec::new();
        push_str_bytes(&mut buf, secret);
        assert(buf@ =~= encode_utf8(secret@));
        let arr = sha256(buf.as_slice());
        let pubkey_hex = hex_encode(arr.as_slice());
        SemaphoreIdentity { secret_key_hash: arr, pubkey_hex }
    }

    /// The public key commitment (the text of `pubkey_hex`); for an identity
    /// made by `new`, the hex of the secret key hash.
    pub fn pubkey(&self) -> (r: &str)
        ensures
            r@ == self.pubkey_text(),
    {
        self.pubkey_hex.as_str()
    }

    /// Compute the deterministic nullifier for a given verifier scope.
    pub fn nullifier(&self, scope: &str) -> (r: String)
        ensures
            r@ == nullifier_text(self.key_hash(), scope@),
            vstd::utf8::is_ascii_chars(r@),
            r@.len() == 64,
    {
        let mut buf: Vec<u8> = Vec::new();
        push_bytes(&mut buf, self.secret_key_hash.as_slice());
        push_str_bytes(&mut buf, scope);
        let h = sha256(buf.as_slice());
        proof { lemma_hex_text_ascii(h@); }
        hex_encode(h.as_slice())
    }

    /// Produce a mock ownership proof (Semaphore membership proof).
    pub fn ownership_proof(&self, merkle_root: &str) -> (r: String)
        ensures
            r@ == ownership_text(self.key_hash(), merkle_root@),
    {
        let mut buf: Vec<u8> = Vec::new();
        push_bytes(&mut buf, self.secret_key_hash.as_slice());
        push_str_bytes(&mut buf, merkle_root);
        let h = sha256(buf.as_slice());
        hex_encode(h.as_slice())
    }
}

// ─── Nullifier registry ──────────────────────────────────────────────────

/// In-memory nullifier registry: the set of nullifiers used so far.
pub struct NullifierRegistry {
    used: Vec<String>,
}

impl View for NullifierRegistry {
    type V = Set<Seq<char>>;

    closed spec fn view(&self) -> Set<Seq<char>> {
        strings_model(self.used@).to_set()
    }
}

impl NullifierRegistry {
    /// No nullifier is registered twice.
    #[verifier::type_invariant]
    spec fn distinct(self) -> bool {
        strings_model(self.used@).no_duplicates()
    }

    /// Whether the nullifier has been registered.
    pub fn is_used(&self, nullifier: &str) -> (r: bool)
        ensures
            r == self@.contains(nullifier@),
    {
        let ghost m = strings_model(self.used@);
        let mut i: usize = 0;
        while i < self.used.len()
            invariant
                i <= self.used@.len(),
                m == strings_model(self.used@),
                forall|j: int| 0 <= j < i ==> m[j] != nullifier@,
            decreases self.used@.len() - i,
        {
            if str_eq(self.used[i].as_str(), nullifier) {
                assert(m[i as int] == nullifier@);
                assert(m.to_set().contains(nullifier@));
                return true;
            }
            i = i + 1;
        }
        assert(!m.to_set().contains(nullifier@)) by {
            if m.to_set().contains(nullifier@) {
                let j = choose|j: int| 0 <= j < m.len() && m[j] == nullifier@;
                assert(m[j] == nullifier@);
            }
        }
        false
    }

    /// Registers the nullifier, refusing one that was registered before.
    pub fn check_and_register(&mut self, nullifier: &str) -> (r: Result<(), ZkError>)
        ensures
            old(self)@.contains(nullifier@) <==> r is Err,
            r matches Err(e) ==> e@ == ErrorModel::DoubleUse(nullifier@),
            final(self)@ == old(self)@.insert(nullifier@),
    {
        proof { use_type_invariant(&*self); }
        if self.is_used(nullifier) {
            assert(old(self)@.insert(nullifier@) =~= old(self)@);
            return Err(ZkError::DoubleUse { nullifier: String::from_str(nullifier) });
        }
        let ghost before = strings_model(self.used@);
        let s = String::from_str(nullifier);
        let mut used = Vec::new();
        std::mem::swap(&mut used, &mut self.used);
        used.push(s);
        proof {
            let after = strings_model(used@);
            assert(after =~= before.push(nullifier@));
            assert forall|x: Seq<char>| after.contains(x) <==> before.contains(x) || x == nullifier@ by {
                if after.contains(x) {
                    let j = choose|j: int| 0 <= j < after.len() && after[j] == x;
                    if j < before.len() {
                        assert(before[j] == x);
                    }
                }
                if before.contains(x) {
                    let j = choose|j: int| 0 <= j < before.len() && before[j] == x;
                    assert(after[j] == x);
                }
                if x == nullifier@ {
                    assert(after[before.len() as int] == x);
                }
            }
            assert(after.to_set() =~= before.to_set().insert(nullifier@));
            assert(after.no_duplicates()) by {
                assert forall|a: int, b: int| 0 <= a < after.len() && 0 <= b < after.len() && a != b
                    implies after[a] != after[b] by {
                    if a < before.len() && b < before.len() {
                    } else if a == before.len() {
                        assert(before.to_set().contains(before[b]));
                    } else {
                        assert(before.to_set().contains(before[a]));
                    }
                }
            }
        }
        self.used = used;
        Ok(())
    }
}

impl Default for NullifierRegistry {
    fn default() -> (r: Self)
        ensures
            r@ == Set::<Seq<char>>::empty(),
    {
        let r = NullifierRegistry { used: Vec::new() };
        assert(strings_model(r.used@).to_set() =~= Set::<Seq<char>>::empty());
        r
    }
}


// ─── Predicate evaluation ────────────────────────────────────────────────

/// The value of the first entry under `key`, if any.
pub open spec fn find_entry(es: Seq<(Seq<char>, PodValueModel)>, key: Seq<char>) -> Option<PodValueModel>
    decreases es.len(),
{
    if es.len() == 0 {
        None
    } else if es[0].0 == key {
        Some(es[0].1)
    } else {
        find_entry(es.drop_first(), key)
    }
}

/// The integer under `key`: missing when the first entry under `key` is absent or not an integer.
pub open spec fn int_entry(es: Seq<(Seq<char>, PodValueModel)>, key: Seq<char>) -> Result<i64, ErrorModel> {
    match find_entry(es, key) {
        Some(PodValueModel::Integer(n)) => Ok(n),
        _ => Err(ErrorModel::MissingEntry(key)),
    }
}

/// The string under `key`: missing when the first entry under `key` is absent or not a string.
pub open spec fn str_entry(es: Seq<(Seq<char>, PodValueModel)>, key: Seq<char>) -> Result<Seq<char>, ErrorModel> {
    match find_entry(es, key) {
        Some(PodValueModel::String(s)) => Ok(s),
        _ => Err(ErrorModel::MissingEntry(key)),
    }
}

/// The credential's total for a payment category (none is kept for government services).
pub open spec fn payment_total(es: Seq<(Seq<char>, PodValueModel)>, cat: TransactionCategory) -> Result<i64, ErrorModel> {
    match cat {
        TransactionCategory::Transit => int_entry(es, "transit_fare_total"@),
        TransactionCategory::BuildingAccess => int_entry(es, "mgmt_fee_total"@),
        TransactionCategory::Retail => int_entry(es, "retail_total"@),
        TransactionCategory::GovernmentService => Ok(0),
    }
}

/// Width of a payment range bucket, in cents (HKD 500).
pub open spec fn bucket_size() -> int {
    50000
}

/// Lower end of the bucket of `total`: the largest multiple of the bucket
/// size that is at most `total` (floor division), so `lo <= total < lo + 50000`.
pub open spec fn bucket_lo(total: int) -> int {
    (total / bucket_size()) * bucket_size()
}

/// The public output of a payment total against `[min, max]`.
pub open spec fn payment_output(total: int, min: i64, max: Option<i64>) -> PublicOutput {
    let lower_ok = total >= min;
    let upper_ok = match max {
        Some(m) => total <= m,
        None => true,
    };
    if lower_ok && upper_ok {
        PublicOutput::RangeBucket { lo: bucket_lo(total) as i64, hi: (bucket_lo(total) + bucket_size()) as i64 }
    } else {
        PublicOutput::Boolean(false)
    }
}

/// What evaluating the claim predicate against the credential's entries gives.
pub open spec fn evaluation(es: Seq<(Seq<char>, PodValueModel)>, p: ClaimPredicate) -> Result<PublicOutput, ErrorModel> {
    match p {
        ClaimPredicate::MobilityThreshold { zone, period, min_trips } => {
            match str_entry(es, "zone"@) {
                Err(e) => Err(e),
                Ok(pod_zone) => match str_entry(es, "period"@) {
                    Err(e) => Err(e),
                    Ok(pod_period) => match int_entry(es, "transit_count"@) {
                        Err(e) => Err(e),
                        Ok(count) => if pod_zone != zone_text(zone) {
                            Err(ErrorModel::ZoneMismatch(pod_zone, zone_text(zone)))
                        } else if pod_period != period@ {
                            Err(ErrorModel::MobilityPeriodMismatch(pod_period, period@))
                        } else {
                            Ok(PublicOutput::Boolean(count >= min_trips))
                        },
                    },
                },
            }
        },
        ClaimPredicate::AggregatePayment { category, period, min_cents, max_cents } => {
            match str_entry(es, "period"@) {
                Err(e) => Err(e),
                Ok(pod_period) => if pod_period != period@ {
                    Err(ErrorModel::PeriodMismatch)
                } else {
                    match payment_total(es, category) {
                        Err(e) => Err(e),
                        Ok(total) => Ok(payment_output(total as int, min_cents, max_cents)),
                    }
                },
            }
        },
        ClaimPredicate::TemporalRegularity { period, min_occurrences, .. } => {
            match str_entry(es, "period"@) {
                Err(e) => Err(e),
                Ok(pod_period) => if pod_period != period@ {
                    Err(ErrorModel::PeriodMismatch)
                } else {
                    match int_entry(es, "morning_commute_count"@) {
                        Err(e) => Err(e),
                        Ok(count) => Ok(PublicOutput::Boolean(count >= min_occurrences)),
                    }
                },
            }
        },
        ClaimPredicate::CompositeResidency { period, min_trips, min_fee_cents, .. } => {
            match str_entry(es, "period"@) {
                Err(e) => Err(e),
                Ok(pod_period) => if pod_period != period@ {
                    Err(ErrorModel::PeriodMismatch)
                } else {
                    match int_entry(es, "transit_count"@) {
                        Err(e) => Err(e),
                        Ok(trips) => match int_entry(es, "mgmt_fee_total"@) {
                            Err(e) => Err(e),
                            Ok(fees) => Ok(PublicOutput::Boolean(trips >= min_trips && fees >= min_fee_cents)),
                        },
                    }
                },
            }
        },
    }
}

/// The payment bucket's ends fit in `i64` (evaluating an aggregate payment
/// claim computes them whenever the period matches and the total is found).
pub open spec fn evaluation_fits(es: Seq<(Seq<char>, PodValueModel)>, p: ClaimPredicate) -> bool {
    match p {
        ClaimPredicate::AggregatePayment { category, period, .. } => {
            (str_entry(es, "period"@) == Ok::<Seq<char>, ErrorModel>(period@) && payment_total(es, category) is Ok)
                ==> {
                let lo = bucket_lo(payment_total(es, category)->Ok_0 as int);
                i64::MIN <= lo && lo + bucket_size() <= i64::MAX
            }
        },
        _ => true,
    }
}

proof fn lemma_find_entry_skip(es: Seq<(Seq<char>, PodValueModel)>, key: Seq<char>, i: int)
    requires
        0 <= i <= es.len(),
        forall|j: int| 0 <= j < i ==> es[j].0 != key,
    ensures
        find_entry(es, key) == find_entry(es.subrange(i, es.len() as int), key),
    decreases i,
{
    if i > 0 {
        lemma_find_entry_skip(es.drop_first(), key, i - 1);
        assert(es.drop_first().subrange(i - 1, es.drop_first().len() as int) =~= es.subrange(i, es.len() as int));
    } else {
        assert(es.subrange(0, es.len() as int) =~= es);
    }
}

/// Index of the first entry under `key`.
fn find_entry_index(entries: &Vec<PodEntry>, key: &str) -> (r: Option<usize>)
    ensures
        match r {
            None => find_entry(entries_model(entries@), key@) is None,
            Some(i) => i < entries@.len() && find_entry(entries_model(entries@), key@) == Some(entries@[i as int].value@),
        },
{
    let ghost es = entries_model(entries@);
    let mut i: usize = 0;
    while i < entries.len()
        invariant
            i <= entries@.len(),
            es == entries_model(entries@),
            forall|j: int| 0 <= j < i ==> es[j].0 != key@,
        decreases entries@.len() - i,
    {
        if str_eq(entries[i].key.as_str(), key) {
            proof {
                lemma_find_entry_skip(es, key@, i as int);
                assert(es.subrange(i as int, es.len() as int)[0] == es[i as int]);
            }
            return Some(i);
        }
        i = i + 1;
    }
    proof {
        lemma_find_entry_skip(es, key@, i as int);
        assert(es.subrange(i as int, es.len() as int).len() == 0);
    }
    None
}

/// The integer entry under `key`.
fn get_int(pod: &PodCredential, key: &str) -> (r: Result<i64, ZkError>)
    ensures
        match r {
            Ok(n) => int_entry(pod@.entries, key@) == Ok::<i64, ErrorModel>(n),
            Err(e) => int_entry(pod@.entries, key@) == Err::<i64, ErrorModel>(e@),
        },
{
    match find_entry_index(&pod.entries, key) {
        Some(i) => match &pod.entries[i].value {
            PodValue::Integer(n) => Ok(*n),
            _ => Err(ZkError::MissingEntry { key: String::from_str(key) }),
        },
        None => Err(ZkError::MissingEntry { key: String::from_str(key) }),
    }
}

/// The string entry under `key`.
fn get_str(pod: &PodCredential, key: &str) -> (r: Result<String, ZkError>)
    ensures
        match r {
            Ok(s) => str_entry(pod@.entries, key@) == Ok::<Seq<char>, ErrorModel>(s@),
            Err(e) => str_entry(pod@.entries, key@) == Err::<Seq<char>, ErrorModel>(e@),
        },
{
    match find_entry_index(&pod.entries, key) {
        Some(i) => match &pod.entries[i].value {
            PodValue::String(s) => Ok(String::from_str(s.as_str())),
            _ => Err(ZkError::MissingEntry { key: String::from_str(key) }),
        },
        None => Err(ZkError::MissingEntry { key: String::from_str(key) }),
    }
}


/// Evaluate a claim predicate against a POD credential.
///
/// Returns the public output (boolean or range bucket) without revealing
/// the underlying entry values.
pub fn evaluate_predicate(pod: &PodCredential, predicate: &ClaimPredicate) -> (r: Result<PublicOutput, ZkError>)
    requires
        evaluation_fits(pod@.entries, *predicate),
    ensures
        output_result(r) == evaluation(pod@.entries, *predicate),
{
    match predicate {
        ClaimPredicate::MobilityThreshold { zone, period, min_trips } => {
            let pod_zone = match get_str(pod, "zone") {
                Ok(s) => s,
                Err(e) => return Err(e),
            };
            let pod_period = match get_str(pod, "period") {
                Ok(s) => s,
                Err(e) => return Err(e),
            };
            let count = match get_int(pod, "transit_count") {
                Ok(n) => n,
                Err(e) => return Err(e),
            };
            let zone_name = zone.display_text();
            if !str_eq(pod_zone.as_str(), zone_name.as_str()) {
                return Err(ZkError::ZoneMismatch { credential: pod_zone, required: zone_name });
            }
            if !str_eq(pod_period.as_str(), period.as_str()) {
                return Err(
                    ZkError::MobilityPeriodMismatch {
                        credential: pod_period,
                        required: String::from_str(period.as_str()),
                    },
                );
            }
            Ok(PublicOutput::Boolean(count >= *min_trips as i64))
        },
        ClaimPredicate::AggregatePayment { category, period, min_cents, max_cents } => {
            let pod_period = match get_str(pod, "period") {
                Ok(s) => s,
                Err(e) => return Err(e),
            };
            if !str_eq(pod_period.as_str(), period.as_str()) {
                return Err(ZkError::PeriodMismatch);
            }
            let total = match category {
                TransactionCategory::Transit => match get_int(pod, "transit_fare_total") {
                    Ok(n) => n,
                    Err(e) => return Err(e),
                },
                TransactionCategory::BuildingAccess => match get_int(pod, "mgmt_fee_total") {
                    Ok(n) => n,
                    Err(e) => return Err(e),
                },
                TransactionCategory::Retail => match get_int(pod, "retail_total") {
                    Ok(n) => n,
                    Err(e) => return Err(e),
                },
                TransactionCategory::GovernmentService => 0,
            };
            let lower_ok = total >= *min_cents;
            let upper_ok = match max_cents {
                Some(max) => total <= *max,
                None => true,
            };
            let bucket: i64 = 50_000;
            let q = total / bucket;
            let r = total % bucket;
            let q = if r < 0 { q - 1 } else { q };
            assert(q == (total as int) / 50000);
            let lo = q * bucket;
            let hi = lo + bucket;
            if lower_ok && upper_ok {
                Ok(PublicOutput::RangeBucket { lo, hi })
            } else {
                Ok(PublicOutput::Boolean(false))
            }
        },
        ClaimPredicate::TemporalRegularity { period, min_occurrences, .. } => {
            let pod_period = match get_str(pod, "period") {
                Ok(s) => s,
                Err(e) => return Err(e),
            };
            if !str_eq(pod_period.as_str(), period.as_str()) {
                return Err(ZkError::PeriodMismatch);
            }
            let count = match get_int(pod, "morning_commute_count") {
                Ok(n) => n,
                Err(e) => return Err(e),
            };
            Ok(PublicOutput::Boolean(count >= *min_occurrences as i64))
        },
        ClaimPredicate::CompositeResidency { period, min_trips, min_fee_cents, .. } => {
            let pod_period = match get_str(pod, "period") {
                Ok(s) => s,
                Err(e) => return Err(e),
            };
            if !str_eq(pod_period.as_str(), period.as_str()) {
                return Err(ZkError::PeriodMismatch);
            }
            let trips = match get_int(pod, "transit_count") {
                Ok(n) => n,
                Err(e) => return Err(e),
            };
            let fees = match get_int(pod, "mgmt_fee_total") {
                Ok(n) => n,
                Err(e) => return Err(e),
            };
            Ok(PublicOutput::Boolean(trips >= *min_trips as i64 && fees >= *min_fee_cents))
        },
    }
}


// ─── Proof generation and verification ───────────────────────────────────

/// The first half of the proof bytes: hex of the hash of the Merkle root,
/// predicate name, nullifier and displayed output.
pub open spec fn proof_core_text(root: Seq<char>, name: Seq<char>, nullifier: Seq<char>, output: PublicOutput) -> Seq<char> {
    hex_text(sha256_digest(proof_core_input(root, name, nullifier, output))@)
}

/// The bytes hashed into the first half of the proof bytes: Merkle root,
/// predicate name, nullifier and displayed output.
pub open spec fn proof_core_input(root: Seq<char>, name: Seq<char>, nullifier: Seq<char>, output: PublicOutput) -> Seq<u8> {
    encode_utf8(root) + encode_utf8(name) + encode_utf8(nullifier) + encode_utf8(output_text(output))
}

/// The proof bytes: the core, then hex of the hash of the core.
pub open spec fn proof_bytes_text(root: Seq<char>, name: Seq<char>, nullifier: Seq<char>, output: PublicOutput) -> Seq<char> {
    let base = proof_core_text(root, name, nullifier, output);
    base + hex_text(sha256_digest(encode_utf8(base))@)
}

/// The public inputs of a proof.
pub open spec fn public_inputs_text(
    root: Seq<char>,
    name: Seq<char>,
    nullifier: Seq<char>,
    scope: Seq<char>,
    output: PublicOutput,
) -> Seq<Seq<char>> {
    seq![
        "merkle_root=0x"@ + byte_prefix_text(root, 16),
        "predicate="@ + name,
        "nullifier=0x"@ + byte_prefix_text(nullifier, 16),
        "scope="@ + scope,
        "output="@ + output_text(output),
    ]
}

/// Representative proving time on mobile for each kind of predicate.
pub open spec fn proving_time(p: ClaimPredicate) -> u64 {
    match p {
        ClaimPredicate::MobilityThreshold { .. } => 820,
        ClaimPredicate::AggregatePayment { .. } => 1100,
        ClaimPredicate::TemporalRegularity { .. } => 1350,
        ClaimPredicate::CompositeResidency { .. } => 2400,
    }
}

/// The proof that `generate_proof` produces, or why it fails.
pub open spec fn generated_proof(pod: PodModel, p: ClaimPredicate, key_hash: Seq<u8>, scope: Seq<char>) -> Result<ProofModel, ErrorModel> {
    match evaluation(pod.entries, p) {
        Err(e) => Err(e),
        Ok(output) => {
            let n = nullifier_text(key_hash, scope);
            let name = predicate_name_text(p);
            Ok(ProofModel {
                proof_bytes: proof_bytes_text(pod.merkle_root, name, n, output),
                public_inputs: public_inputs_text(pod.merkle_root, name, n, scope, output),
                nullifier: n,
                public_output: output,
                predicate_name: name,
                proving_time_ms: proving_time(p),
            })
        },
    }
}

/// The model of a proof result.
pub open spec fn proof_result(r: Result<MockProof, ZkError>) -> Result<ProofModel, ErrorModel> {
    match r {
        Ok(p) => Ok(p@),
        Err(e) => Err(e@),
    }
}

/// What `verify_proof` answers for a proof, given the nullifiers used before.
pub open spec fn verification(proof: ProofModel, pod: PodModel, used: Set<Seq<char>>) -> Result<bool, ErrorModel> {
    if used.contains(proof.nullifier) {
        Err(ErrorModel::DoubleUse(proof.nullifier))
    } else {
        Ok(starts_with_text(
            proof.proof_bytes,
            proof_core_text(pod.merkle_root, proof.predicate_name, proof.nullifier, proof.public_output),
        ))
    }
}

/// The model of a boolean result.
pub open spec fn bool_result(r: Result<bool, ZkError>) -> Result<bool, ErrorModel> {
    match r {
        Ok(b) => Ok(b),
        Err(e) => Err(e@),
    }
}

/// `a` followed by `b`.
fn concat(a: &str, b: &str) -> (r: String)
    ensures
        r@ == a@ + b@,
{
    let mut s = String::from_str(a);
    s.append(b);
    s
}

/// Hex of the SHA-256 of the concatenated UTF-8 bytes of four strings.
fn hash4_hex(a: &str, b: &str, c: &str, d: &str) -> (r: String)
    ensures
        r@ == hex_text(sha256_digest(encode_utf8(a@) + encode_utf8(b@) + encode_utf8(c@) + encode_utf8(d@))@),
        vstd::utf8::is_ascii_chars(r@),
        r@.len() == 64,
{
    let mut buf: Vec<u8> = Vec::new();
    push_str_bytes(&mut buf, a);
    push_str_bytes(&mut buf, b);
    push_str_bytes(&mut buf, c);
    push_str_bytes(&mut buf, d);
    let h = sha256(buf.as_slice());
    proof { lemma_hex_text_ascii(h@); }
    hex_encode(h.as_slice())
}

/// The public inputs of the circuit: the Merkle root and the nullifier cut
/// after 16 bytes, the predicate name, the scope and the displayed output.
pub fn circuit_public_inputs(
    merkle_root: &str,
    predicate_name: &str,
    nullifier: &str,
    scope: &str,
    output: &PublicOutput,
) -> (r: Vec<String>)
    requires
        byte_boundary(merkle_root@, 16),
        byte_boundary(nullifier@, 16),
    ensures
        strings_model(r@) == public_inputs_text(merkle_root@, predicate_name@, nullifier@, scope@, *output),
{
    let output_text = output.display_text();
    let r: Vec<String> = vec![
        concat("merkle_root=0x", byte_prefix(merkle_root, 16).as_str()),
        concat("predicate=", predicate_name),
        concat("nullifier=0x", byte_prefix(nullifier, 16).as_str()),
        concat("scope=", scope),
        concat("output=", output_text.as_str()),
    ];
    assert(strings_model(r@) =~= public_inputs_text(merkle_root@, predicate_name@, nullifier@, scope@, *output));
    r
}

/// Generate a mock Groth16 proof for a claim against a POD credential:
/// evaluate the predicate, build the public inputs, produce the proof bytes
/// and the Semaphore nullifier for `scope`.
pub fn generate_proof(
    pod: &PodCredential,
    predicate: &ClaimPredicate,
    identity: &SemaphoreIdentity,
    scope: &str,
) -> (r: Result<MockProof, ZkError>)
    requires
        evaluation_fits(pod@.entries, *predicate),
        evaluation(pod@.entries, *predicate) is Ok ==> byte_boundary(pod@.merkle_root, 16),
    ensures
        proof_result(r) == generated_proof(pod@, *predicate, identity.key_hash(), scope@),
        r matches Ok(p) ==> {
            &&& vstd::utf8::is_ascii_chars(p@.nullifier) && p@.nullifier.len() == 64
            &&& vstd::utf8::is_ascii_chars(p@.proof_bytes) && p@.proof_bytes.len() == 128
        },
{
    let public_output = match evaluate_predicate(pod, predicate) {
        Ok(o) => o,
        Err(e) => return Err(e),
    };
    let nullifier = identity.nullifier(scope);
    proof {
        lemma_ascii_byte_boundary(nullifier@, 16);
    }
    let output_text = public_output.display_text();
    let name = predicate.name();

    let public_inputs = circuit_public_inputs(pod.merkle_root.as_str(), name, nullifier.as_str(), scope, &public_output);

    let base = hash4_hex(pod.merkle_root.as_str(), name, nullifier.as_str(), output_text.as_str());
    let mut tail_input: Vec<u8> = Vec::new();
    push_str_bytes(&mut tail_input, base.as_str());
    let tail_hash = sha256(tail_input.as_slice());
    let tail = hex_encode(tail_hash.as_slice());
    let proof_bytes = concat(base.as_str(), tail.as_str());
    proof {
        lemma_hex_text_ascii(tail_hash@);
        assert(tail_hash@.len() == 32);
        vstd::utf8::is_ascii_chars_concat(proof_bytes@, base@, tail@);
    }

    let _ownership_proof = identity.ownership_proof(pod.merkle_root.as_str());

    let proving_time_ms: u64 = match predicate {
        ClaimPredicate::MobilityThreshold { .. } => 820,
        ClaimPredicate::AggregatePayment { .. } => 1_100,
        ClaimPredicate::TemporalRegularity { .. } => 1_350,
        ClaimPredicate::CompositeResidency { .. } => 2_400,
    };

    let r = MockProof {
        proof_bytes,
        public_inputs,
        nullifier,
        public_output,
        predicate_name: String::from_str(name),
        proving_time_ms,
    };
    Ok(r)
}

/// Verify a mock proof against the credential, registering its nullifier.
/// A nullifier that was used before is refused.
pub fn verify_proof(proof: &MockProof, pod: &PodCredential, registry: &mut NullifierRegistry) -> (r: Result<bool, ZkError>)
    ensures
        bool_result(r) == verification(proof@, pod@, old(registry)@),
        final(registry)@ == old(registry)@.insert(proof.nullifier@),
{
    match registry.check_and_register(proof.nullifier.as_str()) {
        Ok(()) => {},
        Err(e) => return Err(e),
    }
    let output_text = proof.public_output.display_text();
    let expected_prefix = hash4_hex(
        pod.merkle_root.as_str(),
        proof.predicate_name.as_str(),
        proof.nullifier.as_str(),
        output_text.as_str(),
    );
    Ok(str_starts_with(proof.proof_bytes.as_str(), expected_prefix.as_str()))
}


// ─── Preconditions, checked ──────────────────────────────────────────────

/// Whether `generate_proof` may be called on this credential and predicate:
/// the payment bucket fits in `i64`, and when the predicate evaluates, the
/// Merkle root can be cut after 16 bytes.
pub fn can_generate_proof(pod: &PodCredential, predicate: &ClaimPredicate) -> (r: bool)
    ensures
        r == (evaluation_fits(pod@.entries, *predicate) && (evaluation(pod@.entries, *predicate) is Ok
            ==> byte_boundary(pod@.merkle_root, 16))),
{
    let fits = match predicate {
        ClaimPredicate::AggregatePayment { category, period, .. } => {
            match get_str(pod, "period") {
                Err(_) => true,
                Ok(pod_period) => {
                    if !str_eq(pod_period.as_str(), period.as_str()) {
                        true
                    } else {
                        let total = match category {
                            TransactionCategory::Transit => get_int(pod, "transit_fare_total"),
                            TransactionCategory::BuildingAccess => get_int(pod, "mgmt_fee_total"),
                            TransactionCategory::Retail => get_int(pod, "retail_total"),
                            TransactionCategory::GovernmentService => Ok(0),
                        };
                        match total {
                            Err(_) => true,
                            Ok(t) => {
                                let q: i128 = t as i128 / 50_000;
                                let q = if t as i128 % 50_000 < 0 { q - 1 } else { q };
                                assert(q == (t as int) / 50000);
                                let lo: i128 = q * 50_000;
                                i64::MIN as i128 <= lo && lo + 50_000 <= i64::MAX as i128
                            },
                        }
                    }
                },
            }
        },
        _ => true,
    };
    if !fits {
        return false;
    }
    match evaluate_predicate(pod, predicate) {
        Err(_) => true,
        Ok(_) => pod.merkle_root.as_str().is_char_boundary(16),
    }
}

// ─── Laws ────────────────────────────────────────────────────────────────

/// Completeness: a proof produced by `generate_proof` passes `verify_proof`
/// against the same credential as long as its nullifier has not been used.
pub proof fn lemma_generated_proof_verifies(
    pod: PodModel,
    p: ClaimPredicate,
    key_hash: Seq<u8>,
    scope: Seq<char>,
    used: Set<Seq<char>>,
)
    requires
        generated_proof(pod, p, key_hash, scope) is Ok,
        !used.contains(generated_proof(pod, p, key_hash, scope)->Ok_0.nullifier),
    ensures
        verification(generated_proof(pod, p, key_hash, scope)->Ok_0, pod, used) == Ok::<bool, ErrorModel>(true),
{
    let m = generated_proof(pod, p, key_hash, scope)->Ok_0;
    let base = proof_core_text(pod.merkle_root, m.predicate_name, m.nullifier, m.public_output);
    let tail = hex_text(sha256_digest(encode_utf8(base))@);
    assert(m.proof_bytes == base + tail);
    lemma_encode_utf8_concat(base, tail);
    assert(encode_utf8(base + tail).subrange(0, encode_utf8(base).len() as int) =~= encode_utf8(base));
}

/// Double use: once a nullifier is registered, verifying a proof that
/// carries it is refused, whatever the proof and the credential.
pub proof fn lemma_registered_nullifier_refused(proof: ProofModel, pod: PodModel, used: Set<Seq<char>>)
    ensures
        verification(proof, pod, used.insert(proof.nullifier)) == Err::<bool, ErrorModel>(
            ErrorModel::DoubleUse(proof.nullifier),
        ),
{
}

/// A verifier learns only a boolean or a range bucket: evaluating any
/// predicate against any credential never gives an aggregate count.
pub proof fn lemma_evaluation_reveals_bool_or_range(es: Seq<(Seq<char>, PodValueModel)>, p: ClaimPredicate)
    requires
        evaluation(es, p) is Ok,
    ensures
        evaluation(es, p)->Ok_0 is Boolean || evaluation(es, p)->Ok_0 is RangeBucket,
{
}

/// The proof depends on the credential only through its Merkle root and the
/// predicate's public output: two credentials with the same root on which the
/// predicate evaluates alike give the same proof (or the same refusal).
pub proof fn lemma_proof_depends_only_on_root_and_output(
    pod1: PodModel,
    pod2: PodModel,
    p: ClaimPredicate,
    key_hash: Seq<u8>,
    scope: Seq<char>,
)
    requires
        pod1.merkle_root == pod2.merkle_root,
        evaluation(pod1.entries, p) == evaluation(pod2.entries, p),
    ensures
        generated_proof(pod1, p, key_hash, scope) == generated_proof(pod2, p, key_hash, scope),
{
}

proof fn lemma_nullifier_inputs_differ(key_hash: Seq<u8>, s1: Seq<char>, s2: Seq<char>)
    requires
        s1 != s2,
    ensures
        key_hash + encode_utf8(s1) != key_hash + encode_utf8(s2),
{
    vstd::utf8::encode_utf8_decode_utf8(s1);
    vstd::utf8::encode_utf8_decode_utf8(s2);
    if key_hash + encode_utf8(s1) == key_hash + encode_utf8(s2) {
        let n = key_hash.len() as int;
        assert((key_hash + encode_utf8(s1)).subrange(n, (key_hash + encode_utf8(s1)).len() as int) =~= encode_utf8(s1));
        assert((key_hash + encode_utf8(s2)).subrange(n, (key_hash + encode_utf8(s2)).len() as int) =~= encode_utf8(s2));
    }
}

proof fn lemma_core_input_chars(root: Seq<char>, name: Seq<char>, nullifier: Seq<char>, output: PublicOutput)
    ensures
        proof_core_input(root, name, nullifier, output) == encode_utf8(root + name + nullifier + output_text(output)),
{
    lemma_encode_utf8_concat(root, name);
    lemma_encode_utf8_concat(root + name, nullifier);
    lemma_encode_utf8_concat(root + name + nullifier, output_text(output));
}

/// A mobility claim on a credential of its zone and period is true exactly
/// when the credential's `transit_count` is at least `min_trips`.
pub proof fn lemma_mobility_claim(
    es: Seq<(Seq<char>, PodValueModel)>,
    zone: Zone,
    period: String,
    min_trips: u32,
    count: i64,
)
    requires
        str_entry(es, "zone"@) == Ok::<Seq<char>, ErrorModel>(zone_text(zone)),
        str_entry(es, "period"@) == Ok::<Seq<char>, ErrorModel>(period@),
        int_entry(es, "transit_count"@) == Ok::<i64, ErrorModel>(count),
    ensures
        evaluation(es, ClaimPredicate::MobilityThreshold { zone, period, min_trips })
            == Ok::<PublicOutput, ErrorModel>(PublicOutput::Boolean(count >= min_trips)),
{
}

/// A temporal claim on a credential of its period is true exactly when the
/// credential's `morning_commute_count` is at least `min_occurrences`.
pub proof fn lemma_temporal_claim(
    es: Seq<(Seq<char>, PodValueModel)>,
    pattern: String,
    period: String,
    min_occurrences: u32,
    count: i64,
)
    requires
        str_entry(es, "period"@) == Ok::<Seq<char>, ErrorModel>(period@),
        int_entry(es, "morning_commute_count"@) == Ok::<i64, ErrorModel>(count),
    ensures
        evaluation(es, ClaimPredicate::TemporalRegularity { pattern, period, min_occurrences })
            == Ok::<PublicOutput, ErrorModel>(PublicOutput::Boolean(count >= min_occurrences)),
{
}

/// A composite residency claim on a credential of its period is true exactly
/// when the credential's `transit_count` is at least `min_trips` and its
/// `mgmt_fee_total` at least `min_fee_cents`.
pub proof fn lemma_composite_claim(
    es: Seq<(Seq<char>, PodValueModel)>,
    district: String,
    period: String,
    min_trips: u32,
    min_fee_cents: i64,
    trips: i64,
    fees: i64,
)
    requires
        str_entry(es, "period"@) == Ok::<Seq<char>, ErrorModel>(period@),
        int_entry(es, "transit_count"@) == Ok::<i64, ErrorModel>(trips),
        int_entry(es, "mgmt_fee_total"@) == Ok::<i64, ErrorModel>(fees),
    ensures
        evaluation(es, ClaimPredicate::CompositeResidency { district, min_trips, min_fee_cents, period })
            == Ok::<PublicOutput, ErrorModel>(PublicOutput::Boolean(trips >= min_trips && fees >= min_fee_cents)),
{
}

/// A payment claim on a credential of its period, whose total for the
/// category (`transit_fare_total`, `mgmt_fee_total` or `retail_total`; 0 for
/// government services) is `total`: a range bucket `[lo, lo + 50000)` with
/// `lo` a multiple of 50000 and `lo <= total`, exactly when
/// `min_cents <= total` and `total` is at most `max_cents` (if any); else false.
pub proof fn lemma_payment_claim(
    es: Seq<(Seq<char>, PodValueModel)>,
    category: TransactionCategory,
    period: String,
    min_cents: i64,
    max_cents: Option<i64>,
    total: i64,
)
    requires
        str_entry(es, "period"@) == Ok::<Seq<char>, ErrorModel>(period@),
        category == TransactionCategory::Transit ==> int_entry(es, "transit_fare_total"@) == Ok::<i64, ErrorModel>(total),
        category == TransactionCategory::BuildingAccess ==> int_entry(es, "mgmt_fee_total"@) == Ok::<i64, ErrorModel>(total),
        category == TransactionCategory::Retail ==> int_entry(es, "retail_total"@) == Ok::<i64, ErrorModel>(total),
        category == TransactionCategory::GovernmentService ==> total == 0,
        -9_223_372_036_854_725_808 <= total <= 9_223_372_036_854_725_807,
    ensures
        ({
            let r = evaluation(es, ClaimPredicate::AggregatePayment { category, period, min_cents, max_cents });
            let within = min_cents <= total && match max_cents {
                Some(m) => total <= m,
                None => true,
            };
            &&& r is Ok
            &&& within ==> (r->Ok_0 matches PublicOutput::RangeBucket { lo, hi } && lo <= total < hi && hi == lo
                + 50000 && (lo as int) % 50000 == 0)
            &&& !within ==> r->Ok_0 == PublicOutput::Boolean(false)
        }),
{
    let t = total as int;
    assert((t / 50000) * 50000 <= t < (t / 50000) * 50000 + 50000);
}

/// A mobility claim on a credential of another zone is refused, naming both zones.
pub proof fn lemma_mobility_zone_mismatch(
    es: Seq<(Seq<char>, PodValueModel)>,
    zone: Zone,
    period: String,
    min_trips: u32,
    pod_zone: Seq<char>,
)
    requires
        str_entry(es, "zone"@) == Ok::<Seq<char>, ErrorModel>(pod_zone),
        pod_zone != zone_text(zone),
        str_entry(es, "period"@) is Ok,
        int_entry(es, "transit_count"@) is Ok,
    ensures
        evaluation(es, ClaimPredicate::MobilityThreshold { zone, period, min_trips })
            == Err::<PublicOutput, ErrorModel>(ErrorModel::ZoneMismatch(pod_zone, zone_text(zone))),
{
}

/// A claim on a credential of another period is refused: for a mobility
/// claim (of the right zone) naming both periods, for the others plainly.
pub proof fn lemma_period_mismatch(es: Seq<(Seq<char>, PodValueModel)>, p: ClaimPredicate, pod_period: Seq<char>)
    requires
        str_entry(es, "period"@) == Ok::<Seq<char>, ErrorModel>(pod_period),
        p matches ClaimPredicate::MobilityThreshold { zone, .. } ==> str_entry(es, "zone"@) == Ok::<
            Seq<char>,
            ErrorModel,
        >(zone_text(zone)) && int_entry(es, "transit_count"@) is Ok,
        match p {
            ClaimPredicate::MobilityThreshold { period, .. } => pod_period != period@,
            ClaimPredicate::AggregatePayment { period, .. } => pod_period != period@,
            ClaimPredicate::TemporalRegularity { period, .. } => pod_period != period@,
            ClaimPredicate::CompositeResidency { period, .. } => pod_period != period@,
        },
    ensures
        match p {
            ClaimPredicate::MobilityThreshold { period, .. } => evaluation(es, p) == Err::<PublicOutput, ErrorModel>(
                ErrorModel::MobilityPeriodMismatch(pod_period, period@),
            ),
            _ => evaluation(es, p) == Err::<PublicOutput, ErrorModel>(ErrorModel::PeriodMismatch),
        },
{
}

/// A claim on a credential without a `period` string entry is refused as
/// missing that entry (a mobility claim looks up its zone first).
pub proof fn lemma_missing_period(es: Seq<(Seq<char>, PodValueModel)>, p: ClaimPredicate)
    requires
        !(find_entry(es, "period"@) matches Some(PodValueModel::String(_))),
        p is MobilityThreshold ==> str_entry(es, "zone"@) is Ok,
    ensures
        evaluation(es, p) == Err::<PublicOutput, ErrorModel>(ErrorModel::MissingEntry("period"@)),
{
}

/// A generated proof carries the predicate's evaluation on the credential:
/// it exists exactly when the evaluation succeeds (else it fails with the
/// same error), its public output is the evaluation's output and its last
/// public input shows that output; its nullifier is the identity's for the
/// scope and its predicate name the predicate's.
pub proof fn lemma_proof_carries_evaluation(pod: PodModel, p: ClaimPredicate, key_hash: Seq<u8>, scope: Seq<char>)
    ensures
        evaluation(pod.entries, p) is Err ==> generated_proof(pod, p, key_hash, scope) == Err::<ProofModel, ErrorModel>(
            evaluation(pod.entries, p)->Err_0,
        ),
        evaluation(pod.entries, p) is Ok ==> {
            let g = generated_proof(pod, p, key_hash, scope);
            let o = evaluation(pod.entries, p)->Ok_0;
            &&& g is Ok
            &&& g->Ok_0.public_output == o
            &&& g->Ok_0.public_inputs.len() == 5
            &&& g->Ok_0.public_inputs[4] == "output="@ + output_text(o)
            &&& g->Ok_0.nullifier == hex_text(sha256_digest(key_hash + encode_utf8(scope))@)
            &&& g->Ok_0.predicate_name == predicate_name_text(p)
            &&& g->Ok_0.public_inputs[0] == "merkle_root=0x"@ + byte_prefix_text(pod.merkle_root, 16)
            &&& g->Ok_0.public_inputs[1] == "predicate="@ + predicate_name_text(p)
            &&& g->Ok_0.public_inputs[2] == "nullifier=0x"@ + byte_prefix_text(g->Ok_0.nullifier, 16)
            &&& g->Ok_0.public_inputs[3] == "scope="@ + scope
            &&& g->Ok_0.proving_time_ms == match p {
                ClaimPredicate::MobilityThreshold { .. } => 820u64,
                ClaimPredicate::AggregatePayment { .. } => 1100u64,
                ClaimPredicate::TemporalRegularity { .. } => 1350u64,
                ClaimPredicate::CompositeResidency { .. } => 2400u64,
            }
        },
{
}

/// Forgery: a proof whose public output or predicate name was changed (the
/// other kept) fails verification against the credential it was made for,
/// unless SHA-256 collides on the two proof inputs.
pub proof fn lemma_forged_proof_rejected(
    pod: PodModel,
    p: ClaimPredicate,
    key_hash: Seq<u8>,
    scope: Seq<char>,
    genuine: ProofModel,
    forged: ProofModel,
    used: Set<Seq<char>>,
)
    requires
        generated_proof(pod, p, key_hash, scope) == Ok::<ProofModel, ErrorModel>(genuine),
        forged.proof_bytes == genuine.proof_bytes,
        forged.nullifier == genuine.nullifier,
        (forged.predicate_name == genuine.predicate_name && output_text(forged.public_output) != output_text(
            genuine.public_output,
        )) || (forged.predicate_name != genuine.predicate_name && forged.public_output == genuine.public_output),
        !used.contains(forged.nullifier),
        no_collision(
            proof_core_input(pod.merkle_root, genuine.predicate_name, genuine.nullifier, genuine.public_output),
            proof_core_input(pod.merkle_root, forged.predicate_name, forged.nullifier, forged.public_output),
        ),
    ensures
        verification(forged, pod, used) == Ok::<bool, ErrorModel>(false),
{
    let r = pod.merkle_root;
    let n = genuine.nullifier;
    let og = output_text(genuine.public_output);
    let oq = output_text(forged.public_output);
    let cg = r + genuine.predicate_name + n + og;
    let cq = r + forged.predicate_name + n + oq;
    lemma_core_input_chars(r, genuine.predicate_name, n, genuine.public_output);
    lemma_core_input_chars(r, forged.predicate_name, n, forged.public_output);
    assert(cg != cq) by {
        if cg == cq {
            if forged.predicate_name == genuine.predicate_name {
                let k = (r + genuine.predicate_name + n).len() as int;
                assert(cg.subrange(k, cg.len() as int) =~= og);
                assert(cq.subrange(k, cq.len() as int) =~= oq);
            } else {
                let a = r.len() as int;
                let b = a + genuine.predicate_name.len();
                assert(cg.len() == cq.len());
                assert(cg.subrange(a, b) =~= genuine.predicate_name);
                assert(cq.subrange(a, b) =~= forged.predicate_name);
            }
        }
    }
    let ig = proof_core_input(r, genuine.predicate_name, n, genuine.public_output);
    let iq = proof_core_input(r, forged.predicate_name, n, forged.public_output);
    assert(ig != iq) by {
        if ig == iq {
            lemma_encode_utf8_injective(cg, cq);
        }
    }
    let core_g = proof_core_text(r, genuine.predicate_name, n, genuine.public_output);
    let core_q = proof_core_text(r, forged.predicate_name, n, forged.public_output);
    assert(core_g != core_q) by {
        if core_g == core_q {
            lemma_hex_text_injective(sha256_digest(ig)@, sha256_digest(iq)@);
        }
    }
    let tail = hex_text(sha256_digest(encode_utf8(core_g))@);
    assert(genuine.proof_bytes == core_g + tail);
    lemma_hex_text_ascii(sha256_digest(ig)@);
    lemma_hex_text_ascii(sha256_digest(iq)@);
    vstd::utf8::is_ascii_chars_encode_utf8(core_g);
    vstd::utf8::is_ascii_chars_encode_utf8(core_q);
    lemma_encode_utf8_concat(core_g, tail);
    let bg = encode_utf8(core_g + tail);
    assert(bg.subrange(0, 64) =~= encode_utf8(core_g));
    if starts_with_text(forged.proof_bytes, core_q) {
        assert(encode_utf8(core_q).len() == 64);
        assert(encode_utf8(core_g) == encode_utf8(core_q));
        lemma_encode_utf8_injective(core_g, core_q);
    }
}

/// Unlinkability across verifiers: one identity's nullifiers for two
/// different scopes differ, unless SHA-256 collides on their inputs.
pub proof fn lemma_scopes_give_distinct_nullifiers(key_hash: Seq<u8>, s1: Seq<char>, s2: Seq<char>)
    requires
        s1 != s2,
        no_collision(key_hash + encode_utf8(s1), key_hash + encode_utf8(s2)),
    ensures
        nullifier_text(key_hash, s1) != nullifier_text(key_hash, s2),
{
    lemma_nullifier_inputs_differ(key_hash, s1, s2);
    if nullifier_text(key_hash, s1) == nullifier_text(key_hash, s2) {
        lemma_hex_text_injective(
            sha256_digest(key_hash + encode_utf8(s1))@,
            sha256_digest(key_hash + encode_utf8(s2))@,
        );
    }
}

/// A payment range bucket contains the total it reports on: `lo <= total < hi`,
/// and `lo` is a multiple of the bucket size.
pub proof fn lemma_payment_bucket_contains_total(es: Seq<(Seq<char>, PodValueModel)>, p: ClaimPredicate)
    requires
        p is AggregatePayment,
        evaluation_fits(es, p),
        evaluation(es, p) matches Ok(PublicOutput::RangeBucket { .. }),
    ensures
        payment_total(es, p->category) is Ok,
        evaluation(es, p)->Ok_0->lo <= payment_total(es, p->category)->Ok_0,
        payment_total(es, p->category)->Ok_0 < evaluation(es, p)->Ok_0->hi,
        evaluation(es, p)->Ok_0->hi == evaluation(es, p)->Ok_0->lo + bucket_size(),
        (evaluation(es, p)->Ok_0->lo as int) % bucket_size() == 0,
{
    let t = payment_total(es, p->category)->Ok_0 as int;
    assert(bucket_lo(t) <= t < bucket_lo(t) + bucket_size());
}

} // verus!
