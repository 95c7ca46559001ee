//! Ethereum Attestation Service (EAS) layer: the resolver verifies the proof,
//! registers its nullifier and issues an attestation with the public claim data.
use vstd::prelude::*;
use vstd::utf8::encode_utf8;

use crate::outside::{clock_reading, hex_encode, json_string, json_string_text, sha256, sha256_digest, utc_now, hex_text};
use crate::prover::{generated_proof, nullifier_text, proof_core_text, verification, verify_proof, lemma_generated_proof_verifies, NullifierRegistry};
use crate::outside::lemma_hex_text_ascii;
use crate::text::lemma_ascii_byte_boundary;
use crate::text::{byte_boundary, byte_prefix, byte_prefix_text, i64_text, int_text, nat_text, push_str_bytes, u64_text};
use crate::types::{
    eas_schema_text, AttestationModel, ClaimPredicate, EasAttestation, ErrorModel, MockProof,
    PodCredential, PodModel, ProofModel, PublicOutput, ZkError,
};

verus! {

/// The ZKOctopusResolver contract address (Arbitrum One).
pub const RESOLVER_ADDRESS: &'static str = "0x4e7d9f3a2c8b1d6e0f5a4b7c9d2e8f1a3b6c9d2e";

// ─── Claim data (JSON) ───────────────────────────────────────────────────

/// JSON text of a boolean.
pub open spec fn json_bool_text(b: bool) -> Seq<char> {
    if b { "true"@ } else { "false"@ }
}

/// The public output as a pretty-printed JSON value nested one level deep:
/// the variant name as the single key.
pub open spec fn json_output_text(o: PublicOutput) -> Seq<char> {
    match o {
        PublicOutput::Boolean(b) => "{\n    \"Boolean\": "@ + json_bool_text(b) + "\n  }"@,
        PublicOutput::RangeBucket { lo, hi } => "{\n    \"RangeBucket\": {\n      \"hi\": "@ + int_text(hi as int)
            + ",\n      \"lo\": "@ + int_text(lo as int) + "\n    }\n  }"@,
        PublicOutput::AggregateCount(n) => "{\n    \"AggregateCount\": "@ + nat_text(n as nat) + "\n  }"@,
    }
}

/// The elements of a pretty-printed JSON array of strings nested one level deep.
pub open spec fn json_items_text(items: Seq<Seq<char>>) -> Seq<char>
    decreases items.len(),
{
    if items.len() == 0 {
        Seq::empty()
    } else {
        json_items_text(items.drop_last()) + (if items.len() == 1 { "\n"@ } else { ",\n"@ }) + "    "@
            + json_string_text(items.last())
    }
}

/// A pretty-printed JSON array of strings nested one level deep.
pub open spec fn json_list_text(items: Seq<Seq<char>>) -> Seq<char> {
    if items.len() == 0 {
        "[]"@
    } else {
        "["@ + json_items_text(items) + "\n  ]"@
    }
}

/// The public claim data of an attestation: a pretty-printed JSON object
/// whose keys come in sorted order.
pub open spec fn claim_json_text(
    predicate_name: Seq<char>,
    output: PublicOutput,
    public_inputs: Seq<Seq<char>>,
    schema: Seq<char>,
) -> Seq<char> {
    "{\n  \"groth16_verified\": true,\n  \"nullifier_registered\": true,\n  \"predicate\": "@
        + json_string_text(predicate_name) + ",\n  \"public_inputs\": "@ + json_list_text(public_inputs)
        + ",\n  \"public_output\": "@ + json_output_text(output) + ",\n  \"resolver\": "@
        + json_string_text(RESOLVER_ADDRESS@) + ",\n  \"schema\": "@ + json_string_text(schema) + "\n}"@
}

fn json_output(o: &PublicOutput) -> (r: String)
    ensures
        r@ == json_output_text(*o),
{
    match o {
        PublicOutput::Boolean(b) => {
            let mut s = String::from_str("{\n    \"Boolean\": ");
            if *b {
                s.append("true");
            } else {
                s.append("false");
            }
            s.append("\n  }");
            s
        },
        PublicOutput::RangeBucket { lo, hi } => {
            let mut s = String::from_str("{\n    \"RangeBucket\": {\n      \"hi\": ");
            s.append(i64_text(*hi).as_str());
            s.append(",\n      \"lo\": ");
            s.append(i64_text(*lo).as_str());
            s.append("\n    }\n  }");
            s
        },
        PublicOutput::AggregateCount(n) => {
            let mut s = String::from_str("{\n    \"AggregateCount\": ");
            s.append(u64_text(*n as u64).as_str());
            s.append("\n  }");
            s
        },
    }
}

fn json_list(items: &Vec<String>) -> (r: String)
    ensures
        r@ == json_list_text(crate::types::strings_model(items@)),
{
    let ghost m = crate::types::strings_model(items@);
    if items.len() == 0 {
        return String::from_str("[]");
    }
    let mut body = String::new();
    let mut i: usize = 0;
    while i < items.len()
        invariant
            i <= items@.len(),
            m == crate::types::strings_model(items@),
            body@ == json_items_text(m.take(i as int)),
        decreases items@.len() - i,
    {
        if i == 0 {
            body.append("\n");
        } else {
            body.append(",\n");
        }
        body.append("    ");
        let q = json_string(items[i].as_str());
        body.append(q.as_str());
        assert(m.take(i + 1).drop_last() =~= m.take(i as int));
        i = i + 1;
    }
    assert(m.take(i as int) =~= m);
    let mut s = String::from_str("[");
    s.append(body.as_str());
    s.append("\n  ]");
    s
}

/// The public claim data of an attestation, as JSON.
fn claim_json(predicate_name: &str, output: &PublicOutput, public_inputs: &Vec<String>, schema: &str) -> (r: String)
    ensures
        r@ == claim_json_text(predicate_name@, *output, crate::types::strings_model(public_inputs@), schema@),
{
    let mut s = String::from_str("{\n  \"groth16_verified\": true,\n  \"nullifier_registered\": true,\n  \"predicate\": ");
    s.append(json_string(predicate_name).as_str());
    s.append(",\n  \"public_inputs\": ");
    s.append(json_list(public_inputs).as_str());
    s.append(",\n  \"public_output\": ");
    s.append(json_output(output).as_str());
    s.append(",\n  \"resolver\": ");
    s.append(json_string(RESOLVER_ADDRESS).as_str());
    s.append(",\n  \"schema\": ");
    s.append(json_string(schema).as_str());
    s.append("\n}");
    s
}


// ─── Attestation ─────────────────────────────────────────────────────────

/// Attestation UID: hex of the hash of nullifier, predicate name and issuance time (RFC 3339).
pub open spec fn attestation_uid_text(nullifier: Seq<char>, name: Seq<char>, now_rfc3339: Seq<char>) -> Seq<char> {
    hex_text(sha256_digest(encode_utf8(nullifier) + encode_utf8(name) + encode_utf8(now_rfc3339))@)
}

/// Gas used by the resolver for proof bytes of this text: a base plus 16 per byte.
pub open spec fn gas_for(proof_bytes: Seq<char>) -> int {
    198_412 + (encode_utf8(proof_bytes).len() as int) * 16
}

/// Block number recorded for an attestation issued at Unix time `now_secs`.
pub open spec fn block_for(now_secs: i64) -> int {
    285_400_000 + (now_secs as u64) % 100_000
}

/// The attestation record of a verified proof for predicate `p`, with
/// attestation UID `uid`, issued at Unix time `now_secs`.
pub open spec fn attestation_record_model(proof: ProofModel, p: ClaimPredicate, uid: Seq<char>, now_secs: i64) -> AttestationModel {
    AttestationModel {
        uid,
        schema: eas_schema_text(p),
        attester: RESOLVER_ADDRESS@,
        recipient: "nullifier:0x"@ + byte_prefix_text(proof.nullifier, 16),
        data: claim_json_text(proof.predicate_name, proof.public_output, proof.public_inputs, eas_schema_text(p)),
        block_number: block_for(now_secs) as u64,
        gas_used: gas_for(proof.proof_bytes) as u64,
        timestamp: now_secs,
    }
}

/// What `issue_attestation` gives at time `now_secs` (RFC 3339: `now_rfc3339`),
/// given the nullifiers used before.
pub open spec fn issued_attestation(
    proof: ProofModel,
    pod: PodModel,
    p: ClaimPredicate,
    used: Set<Seq<char>>,
    now_secs: i64,
    now_rfc3339: Seq<char>,
) -> Result<AttestationModel, ErrorModel> {
    match verification(proof, pod, used) {
        Err(e) => Err(e),
        Ok(valid) => if !valid {
            Err(ErrorModel::ProofVerificationFailed)
        } else {
            Ok(attestation_record_model(
                proof,
                p,
                attestation_uid_text(proof.nullifier, proof.predicate_name, now_rfc3339),
                now_secs,
            ))
        },
    }
}

/// What issuing requires of a proof that passes verification: its nullifier
/// can be cut after 16 bytes, and the gas count fits in `u64`.
pub open spec fn attestable(proof: ProofModel, pod: PodModel, used: Set<Seq<char>>) -> bool {
    verification(proof, pod, used) == Ok::<bool, ErrorModel>(true) ==> {
        &&& byte_boundary(proof.nullifier, 16)
        &&& gas_for(proof.proof_bytes) <= u64::MAX
    }
}

/// The model of an attestation result.
pub open spec fn attestation_result(r: Result<EasAttestation, ZkError>) -> Result<AttestationModel, ErrorModel> {
    match r {
        Ok(a) => Ok(a@),
        Err(e) => Err(e@),
    }
}

/// Issue an EAS attestation at time `now_secs` (RFC 3339 text `now_rfc3339`)
/// after verifying the ZK proof and registering its nullifier.
pub fn issue_attestation_at(
    proof: &MockProof,
    pod: &PodCredential,
    predicate: &ClaimPredicate,
    registry: &mut NullifierRegistry,
    now_secs: i64,
    now_rfc3339: &str,
) -> (r: Result<EasAttestation, ZkError>)
    requires
        attestable(proof@, pod@, old(registry)@),
    ensures
        attestation_result(r) == issued_attestation(proof@, pod@, *predicate, old(registry)@, now_secs, now_rfc3339@),
        final(registry)@ == old(registry)@.insert(proof.nullifier@),
{
    let valid = match verify_proof(proof, pod, registry) {
        Ok(v) => v,
        Err(e) => return Err(e),
    };
    if !valid {
        return Err(ZkError::ProofVerificationFailed);
    }

    let mut uid_input: Vec<u8> = Vec::new();
    push_str_bytes(&mut uid_input, proof.nullifier.as_str());
    push_str_bytes(&mut uid_input, proof.predicate_name.as_str());
    push_str_bytes(&mut uid_input, now_rfc3339);
    let uid_hash = sha256(uid_input.as_slice());
    let uid = hex_encode(uid_hash.as_slice());
    Ok(attestation_record(proof, predicate, uid, now_secs))
}

/// The attestation record of a verified proof: the given UID, the
/// predicate's schema, the resolver as attester, the nullifier (cut after
/// 16 bytes) as recipient, the public claim data as JSON, the block number
/// for `now_secs` and the gas used for the proof bytes.
pub fn attestation_record(proof: &MockProof, predicate: &ClaimPredicate, uid: String, now_secs: i64) -> (r: EasAttestation)
    requires
        byte_boundary(proof@.nullifier, 16),
        gas_for(proof@.proof_bytes) <= u64::MAX,
    ensures
        r@ == attestation_record_model(proof@, *predicate, uid@, now_secs),
{
    let schema = predicate.eas_schema();
    let data = claim_json(proof.predicate_name.as_str(), &proof.public_output, &proof.public_inputs, schema);

    let proof_len = proof.proof_bytes.as_str().as_bytes().len() as u64;
    let gas_used = 198_412u64 + proof_len * 16;
    let block_number = 285_400_000u64 + (now_secs as u64) % 100_000;

    let mut recipient = String::from_str("nullifier:0x");
    recipient.append(byte_prefix(proof.nullifier.as_str(), 16).as_str());

    EasAttestation {
        uid,
        schema: String::from_str(schema),
        attester: String::from_str(RESOLVER_ADDRESS),
        recipient,
        data,
        block_number,
        gas_used,
        timestamp: now_secs,
    }
}

/// Whether `issue_attestation` may be called on this proof: when the proof
/// passes verification, its nullifier can be cut after 16 bytes and the gas
/// count fits in `u64`.
pub fn can_issue_attestation(proof: &MockProof, pod: &PodCredential, registry: &NullifierRegistry) -> (r: bool)
    ensures
        r == attestable(proof@, pod@, registry@),
{
    if registry.is_used(proof.nullifier.as_str()) {
        return true;
    }
    let output_text = proof.public_output.display_text();
    let mut core_input: Vec<u8> = Vec::new();
    push_str_bytes(&mut core_input, pod.merkle_root.as_str());
    push_str_bytes(&mut core_input, proof.predicate_name.as_str());
    push_str_bytes(&mut core_input, proof.nullifier.as_str());
    push_str_bytes(&mut core_input, output_text.as_str());
    let core_hash = sha256(core_input.as_slice());
    let expected_prefix = hex_encode(core_hash.as_slice());
    if !crate::text::str_starts_with(proof.proof_bytes.as_str(), expected_prefix.as_str()) {
        return true;
    }
    let proof_len = proof.proof_bytes.as_str().as_bytes().len();
    proof.nullifier.as_str().is_char_boundary(16) && proof_len as u128 * 16 + 198_412 <= u64::MAX as u128
}

/// Issue an EAS attestation now: verify the proof (registering its
/// nullifier), then record the public claim data. One reading of the clock
/// gives the Unix time (timestamp and block) and the RFC 3339 text (UID).
pub fn issue_attestation(
    proof: &MockProof,
    pod: &PodCredential,
    predicate: &ClaimPredicate,
    registry: &mut NullifierRegistry,
) -> (r: Result<EasAttestation, ZkError>)
    requires
        attestable(proof@, pod@, old(registry)@),
    ensures
        exists|now_secs: i64, now_rfc3339: Seq<char>|
            clock_reading(now_secs as int, now_rfc3339) && attestation_result(r) == issued_attestation(
                proof@,
                pod@,
                *predicate,
                old(registry)@,
                now_secs,
                now_rfc3339,
            ),
        final(registry)@ == old(registry)@.insert(proof.nullifier@),
{
    let (now_secs, now_rfc3339) = utc_now();
    issue_attestation_at(proof, pod, predicate, registry, now_secs, now_rfc3339.as_str())
}

/// Issue an attestation now when the proof can be attested (see
/// `can_issue_attestation`); otherwise `None`, with the registry unchanged.
pub fn try_issue_attestation(
    proof: &MockProof,
    pod: &PodCredential,
    predicate: &ClaimPredicate,
    registry: &mut NullifierRegistry,
) -> (r: Option<Result<EasAttestation, ZkError>>)
    ensures
        r is None <==> !attestable(proof@, pod@, old(registry)@),
        r is None ==> final(registry)@ == old(registry)@,
        r matches Some(a) ==> {
            &&& exists|now_secs: i64, now_rfc3339: Seq<char>|
                clock_reading(now_secs as int, now_rfc3339) && attestation_result(a) == issued_attestation(
                    proof@,
                    pod@,
                    *predicate,
                    old(registry)@,
                    now_secs,
                    now_rfc3339,
                )
            &&& final(registry)@ == old(registry)@.insert(proof.nullifier@)
        },
{
    if !can_issue_attestation(proof, pod, registry) {
        return None;
    }
    Some(issue_attestation(proof, pod, predicate, registry))
}

/// A verifier checks an attestation: its schema must be the predicate's schema.
pub fn verify_attestation(attest: &EasAttestation, predicate: &ClaimPredicate) -> (r: bool)
    ensures
        r == (attest@.schema == eas_schema_text(*predicate)),
{
    crate::text::str_eq(attest.schema.as_str(), predicate.eas_schema())
}

// ─── Laws ────────────────────────────────────────────────────────────────

/// An attestation issued for a predicate passes `verify_attestation` for
/// that same predicate.
pub proof fn lemma_issued_attestation_verifies(
    proof: ProofModel,
    pod: PodModel,
    p: ClaimPredicate,
    used: Set<Seq<char>>,
    now_secs: i64,
    now_rfc3339: Seq<char>,
)
    requires
        issued_attestation(proof, pod, p, used, now_secs, now_rfc3339) is Ok,
    ensures
        issued_attestation(proof, pod, p, used, now_secs, now_rfc3339)->Ok_0.schema == eas_schema_text(p),
{
}

/// The fields of an issued attestation: the UID hashes the nullifier, the
/// predicate name and the issuance time text; the schema is the predicate's;
/// the resolver attests; the recipient is the nullifier cut after 16 bytes;
/// gas is 198412 plus 16 per proof byte; the block is 285400000 plus the
/// Unix time modulo 100000; the timestamp is the Unix time.
pub proof fn lemma_issued_attestation_fields(
    proof: ProofModel,
    pod: PodModel,
    p: ClaimPredicate,
    used: Set<Seq<char>>,
    now_secs: i64,
    now_rfc3339: Seq<char>,
)
    requires
        attestable(proof, pod, used),
        issued_attestation(proof, pod, p, used, now_secs, now_rfc3339) is Ok,
    ensures
        ({
            let a = issued_attestation(proof, pod, p, used, now_secs, now_rfc3339)->Ok_0;
            &&& a.uid == hex_text(
                sha256_digest(encode_utf8(proof.nullifier) + encode_utf8(proof.predicate_name) + encode_utf8(now_rfc3339))@,
            )
            &&& a.schema == eas_schema_text(p)
            &&& a.attester == RESOLVER_ADDRESS@
            &&& a.recipient == "nullifier:0x"@ + byte_prefix_text(proof.nullifier, 16)
            &&& a.gas_used == 198_412 + 16 * encode_utf8(proof.proof_bytes).len()
            &&& a.block_number == 285_400_000 + (now_secs as u64) % 100_000
            &&& a.timestamp == now_secs
        }),
{
}

/// An attestation is issued exactly for the proofs that pass verification:
/// a proof refused by `verify_proof`, or whose bytes do not match, gets none.
pub proof fn lemma_attestation_requires_valid_proof(
    proof: ProofModel,
    pod: PodModel,
    p: ClaimPredicate,
    used: Set<Seq<char>>,
    now_secs: i64,
    now_rfc3339: Seq<char>,
)
    ensures
        issued_attestation(proof, pod, p, used, now_secs, now_rfc3339) is Ok
            <==> verification(proof, pod, used) == Ok::<bool, ErrorModel>(true),
{
}


/// The pipeline: a proof that `generate_proof` produced for a credential,
/// submitted with a nullifier not used before, is attested, and the
/// attestation passes `verify_attestation` for the same predicate.
pub proof fn lemma_generated_proof_is_attested(
    pod: PodModel,
    p: ClaimPredicate,
    key_hash: Seq<u8>,
    scope: Seq<char>,
    used: Set<Seq<char>>,
    now_secs: i64,
    now_rfc3339: Seq<char>,
)
    requires
        generated_proof(pod, p, key_hash, scope) is Ok,
        !used.contains(nullifier_text(key_hash, scope)),
    ensures
        attestable(generated_proof(pod, p, key_hash, scope)->Ok_0, pod, used),
        issued_attestation(generated_proof(pod, p, key_hash, scope)->Ok_0, pod, p, used, now_secs, now_rfc3339) is Ok,
        issued_attestation(generated_proof(pod, p, key_hash, scope)->Ok_0, pod, p, used, now_secs, now_rfc3339)->Ok_0.schema
            == eas_schema_text(p),
{
    let m = generated_proof(pod, p, key_hash, scope)->Ok_0;
    lemma_generated_proof_verifies(pod, p, key_hash, scope, used);
    let d = sha256_digest(key_hash + encode_utf8(scope))@;
    assert(d.len() == 32);
    lemma_hex_text_ascii(d);
    lemma_ascii_byte_boundary(m.nullifier, 16);
    let base = proof_core_text(pod.merkle_root, m.predicate_name, m.nullifier, m.public_output);
    let d1 = sha256_digest(
        encode_utf8(pod.merkle_root) + encode_utf8(m.predicate_name) + encode_utf8(m.nullifier)
            + encode_utf8(crate::types::output_text(m.public_output)),
    )@;
    let d2 = sha256_digest(encode_utf8(base))@;
    assert(d1.len() == 32 && d2.len() == 32);
    lemma_hex_text_ascii(d1);
    lemma_hex_text_ascii(d2);
    vstd::utf8::is_ascii_chars_concat(m.proof_bytes, base, hex_text(d2));
    vstd::utf8::is_ascii_chars_encode_utf8(m.proof_bytes);
}

} // verus!
