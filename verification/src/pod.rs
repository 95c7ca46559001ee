//! POD credential construction: aggregates Octopus transactions into summary
//! entries, commits to them with a Merkle root, and signs the root.
use vstd::prelude::*;
use vstd::utf8::encode_utf8;

use crate::text::{lemma_encode_utf8_injective, push_bytes, push_str_bytes};
use crate::outside::{hex_encode, hex_text, lemma_hex_text_injective, no_collision, sha256, sha256_digest, utc_now};
use crate::types::{
    category_text, entries_model, value_displayable, value_text, zone_text, OctopusTransaction,
    PodCredential, PodEntry, PodModel, PodValue, PodValueModel, RegistrationModel,
    RegistrationStatus, TransactionCategory, Zone, ZkError,
};

verus! {

// ─── Aggregates ──────────────────────────────────────────────────────────

/// Number of transit taps in `zone`.
pub open spec fn zone_transit_count(txns: Seq<OctopusTransaction>, zone: Zone) -> int
    decreases txns.len(),
{
    if txns.len() == 0 {
        0
    } else {
        zone_transit_count(txns.drop_last(), zone) + if txns.last().category
            == TransactionCategory::Transit && txns.last().zone == zone {
            1int
        } else {
            0int
        }
    }
}

/// Sum of the absolute amounts of the transactions of category `cat`.
pub open spec fn category_abs_total(txns: Seq<OctopusTransaction>, cat: TransactionCategory) -> int
    decreases txns.len(),
{
    if txns.len() == 0 {
        0
    } else {
        let a = txns.last().amount_cents as int;
        category_abs_total(txns.drop_last(), cat) + if txns.last().category == cat {
            if a < 0 { -a } else { a }
        } else {
            0int
        }
    }
}

/// Day number (UTC) of a Unix time: days since 1970-01-01, rounded down.
pub open spec fn utc_day(ts: int) -> int {
    ts / 86400
}

/// Seconds since midnight (UTC) of a Unix time.
pub open spec fn utc_second_of_day(ts: int) -> int {
    ts % 86400
}

/// Day of the week (UTC) of a Unix time: 0 is Sunday, 1 Monday, …, 6 Saturday
/// (1970-01-01 was a Thursday).
pub open spec fn utc_weekday(ts: int) -> int {
    (utc_day(ts) + 4) % 7
}

/// A weekday morning commute time: Monday to Friday, from 06:00 to 09:30 (UTC) inclusive.
pub open spec fn is_weekday_morning(ts: int) -> bool {
    &&& 1 <= utc_weekday(ts) <= 5
    &&& 6 * 3600 <= utc_second_of_day(ts) <= 9 * 3600 + 30 * 60
}

/// Number of transit taps at weekday morning commute times.
pub open spec fn morning_transit_count(txns: Seq<OctopusTransaction>) -> int
    decreases txns.len(),
{
    if txns.len() == 0 {
        0
    } else {
        morning_transit_count(txns.drop_last()) + if txns.last().category
            == TransactionCategory::Transit && is_weekday_morning(txns.last().timestamp as int) {
            1int
        } else {
            0int
        }
    }
}

/// The registration class written into a credential.
pub open spec fn registration_class_text(r: RegistrationModel) -> Seq<char> {
    match r {
        RegistrationModel::Pseudonymous => "PSEUDONYMOUS"@,
        RegistrationModel::IdentityRegistered(_) => "IDENTITY_REGISTERED"@,
    }
}

/// The entries of a credential built from `txns` for `zone` and `period`.
pub open spec fn pod_entries(
    txns: Seq<OctopusTransaction>,
    zone: Zone,
    period: Seq<char>,
    reg: RegistrationModel,
) -> Seq<(Seq<char>, PodValueModel)> {
    seq![
        ("zone"@, PodValueModel::String(zone_text(zone))),
        ("period"@, PodValueModel::String(period)),
        ("transit_count"@, PodValueModel::Integer(zone_transit_count(txns, zone) as i64)),
        ("mgmt_fee_total"@, PodValueModel::Integer(category_abs_total(txns, TransactionCategory::BuildingAccess) as i64)),
        ("retail_total"@, PodValueModel::Integer(category_abs_total(txns, TransactionCategory::Retail) as i64)),
        ("transit_fare_total"@, PodValueModel::Integer(category_abs_total(txns, TransactionCategory::Transit) as i64)),
        ("morning_commute_count"@, PodValueModel::Integer(morning_transit_count(txns) as i64)),
        ("tx_count"@, PodValueModel::Integer(txns.len() as i64)),
        ("registration_class"@, PodValueModel::String(registration_class_text(reg))),
    ]
}

// ─── Merkle root and signatures ──────────────────────────────────────────

/// The bytes hashed into an entry's leaf: key, `|`, displayed value.
pub open spec fn leaf_input(e: (Seq<char>, PodValueModel)) -> Seq<u8> {
    encode_utf8(e.0) + encode_utf8("|"@) + encode_utf8(value_text(e.1))
}

/// The leaf hashes of the entries, in entry order.
pub open spec fn leaf_digests(es: Seq<(Seq<char>, PodValueModel)>) -> Seq<Seq<u8>>
    decreases es.len(),
{
    if es.len() == 0 {
        Seq::empty()
    } else {
        leaf_digests(es.drop_last()).push(sha256_digest(leaf_input(es.last()))@)
    }
}

/// Lexicographic order on byte strings, as `[u8; 32]` values compare.
pub open spec fn bytes_le(a: Seq<u8>, b: Seq<u8>) -> bool
    decreases a.len(),
{
    if a.len() == 0 {
        true
    } else if b.len() == 0 {
        false
    } else if a[0] != b[0] {
        a[0] < b[0]
    } else {
        bytes_le(a.drop_first(), b.drop_first())
    }
}

/// `x` inserted into `s` just before the first element that it does not exceed.
pub open spec fn insert_leaf(s: Seq<Seq<u8>>, x: Seq<u8>) -> Seq<Seq<u8>>
    decreases s.len(),
{
    if s.len() == 0 {
        seq![x]
    } else if bytes_le(x, s[0]) {
        seq![x] + s
    } else {
        seq![s[0]] + insert_leaf(s.drop_first(), x)
    }
}

/// The byte strings in ascending order (each inserted in turn into the sorted rest).
pub open spec fn sorted_leaves(s: Seq<Seq<u8>>) -> Seq<Seq<u8>>
    decreases s.len(),
{
    if s.len() == 0 {
        s
    } else {
        insert_leaf(sorted_leaves(s.drop_last()), s.last())
    }
}

/// The byte strings one after the other.
pub open spec fn concat_bytes(s: Seq<Seq<u8>>) -> Seq<u8>
    decreases s.len(),
{
    if s.len() == 0 {
        Seq::empty()
    } else {
        concat_bytes(s.drop_last()) + s.last()
    }
}

/// The bytes hashed into the Merkle root: the entries' leaf hashes, sorted ascending.
pub open spec fn root_input(es: Seq<(Seq<char>, PodValueModel)>) -> Seq<u8> {
    concat_bytes(sorted_leaves(leaf_digests(es)))
}

/// The Merkle root of the entries: hex of the hash of their sorted leaf hashes.
pub open spec fn merkle_root_text(es: Seq<(Seq<char>, PodValueModel)>) -> Seq<char> {
    hex_text(sha256_digest(root_input(es))@)
}

/// The local issuer's signature over a Merkle root.
pub open spec fn issuer_signature_text(root: Seq<char>) -> Seq<char> {
    hex_text(sha256_digest(encode_utf8("LOCAL_ISSUER_SECRET"@) + encode_utf8(root))@)
}

/// The commitment to the notary session and the Merkle root.
pub open spec fn provenance_text(session: Seq<char>, root: Seq<char>) -> Seq<char> {
    hex_text(sha256_digest(encode_utf8("TLSNOTARY_NOTARY_PUBKEY"@) + encode_utf8(session) + encode_utf8(root))@)
}

/// Every entry value can be displayed (is not cut inside a character).
pub open spec fn entries_displayable(es: Seq<(Seq<char>, PodValueModel)>) -> bool {
    forall|i: int| 0 <= i < es.len() ==> value_displayable(#[trigger] es[i].1)
}

/// The credential that `build_pod` issues at time `issued_at`.
pub open spec fn built_pod(
    txns: Seq<OctopusTransaction>,
    zone: Zone,
    period: Seq<char>,
    reg: RegistrationModel,
    session: Seq<char>,
    issued_at: i64,
) -> PodModel {
    let es = pod_entries(txns, zone, period, reg);
    let root = merkle_root_text(es);
    PodModel {
        entries: es,
        merkle_root: root,
        issuer_signature: issuer_signature_text(root),
        provenance_hash: provenance_text(session, root),
        registration: reg,
        issued_at,
    }
}

/// Whether a credential's Merkle root is the one its entries give.
pub open spec fn pod_is_consistent(p: PodModel) -> bool {
    merkle_root_text(p.entries) == p.merkle_root
}

/// The sums that `build_pod` forms fit in `i64`.
pub open spec fn totals_fit(txns: Seq<OctopusTransaction>) -> bool {
    &&& category_abs_total(txns, TransactionCategory::BuildingAccess) <= i64::MAX
    &&& category_abs_total(txns, TransactionCategory::Retail) <= i64::MAX
    &&& category_abs_total(txns, TransactionCategory::Transit) <= i64::MAX
}


// ─── Aggregation ─────────────────────────────────────────────────────────

proof fn lemma_abs_total_prefix(txns: Seq<OctopusTransaction>, cat: TransactionCategory, i: int)
    requires
        0 <= i <= txns.len(),
    ensures
        0 <= category_abs_total(txns.take(i), cat) <= category_abs_total(txns, cat),
    decreases txns.len(),
{
    if i < txns.len() {
        lemma_abs_total_prefix(txns.drop_last(), cat, i);
        assert(txns.drop_last().take(i) =~= txns.take(i));
    } else {
        assert(txns.take(i) =~= txns);
        lemma_abs_total_nonneg(txns, cat);
    }
}

proof fn lemma_abs_total_nonneg(txns: Seq<OctopusTransaction>, cat: TransactionCategory)
    ensures
        0 <= category_abs_total(txns, cat),
    decreases txns.len(),
{
    if txns.len() > 0 {
        lemma_abs_total_nonneg(txns.drop_last(), cat);
    }
}

/// Counts the transit taps in `zone`.
fn count_zone_transit(txns: &[OctopusTransaction], zone: Zone) -> (r: usize)
    ensures
        r == zone_transit_count(txns@, zone),
{
    let mut n: usize = 0;
    let mut i: usize = 0;
    while i < txns.len()
        invariant
            i <= txns@.len(),
            n <= i,
            n == zone_transit_count(txns@.take(i as int), zone),
        decreases txns@.len() - i,
    {
        assert(txns@.take(i + 1).drop_last() =~= txns@.take(i as int));
        if txns[i].category == TransactionCategory::Transit && txns[i].zone == zone {
            n = n + 1;
        }
        i = i + 1;
    }
    assert(txns@.take(i as int) =~= txns@);
    n
}

/// Sums the absolute amounts of the transactions of category `cat`.
fn abs_total(txns: &[OctopusTransaction], cat: TransactionCategory) -> (r: i64)
    requires
        category_abs_total(txns@, cat) <= i64::MAX,
    ensures
        r == category_abs_total(txns@, cat),
{
    let mut total: i64 = 0;
    let mut i: usize = 0;
    while i < txns.len()
        invariant
            i <= txns@.len(),
            category_abs_total(txns@, cat) <= i64::MAX,
            total == category_abs_total(txns@.take(i as int), cat),
        decreases txns@.len() - i,
    {
        assert(txns@.take(i + 1).drop_last() =~= txns@.take(i as int));
        proof {
            lemma_abs_total_prefix(txns@, cat, i + 1);
            lemma_abs_total_nonneg(txns@.take(i as int), cat);
        }
        if txns[i].category == cat {
            let a = txns[i].amount_cents;
            let m = if a < 0 { -a } else { a };
            total = total + m;
        }
        i = i + 1;
    }
    assert(txns@.take(i as int) =~= txns@);
    total
}

/// Whether a Unix time falls on a weekday morning (06:00–09:30 UTC, Monday to Friday).
fn weekday_morning(ts: i64) -> (r: bool)
    ensures
        r == is_weekday_morning(ts as int),
{
    let q = ts / 86400;
    let m = ts % 86400;
    let (day, sec) = if m < 0 { (q - 1, m + 86400) } else { (q, m) };
    assert(day == (ts as int) / 86400 && sec == (ts as int) % 86400);
    let w = (day + 4) % 7;
    let weekday = if w < 0 { w + 7 } else { w };
    assert(weekday == utc_weekday(ts as int));
    1 <= weekday && weekday <= 5 && 21600 <= sec && sec <= 34200
}

/// Counts the transit taps at weekday morning commute times.
fn count_morning_transit(txns: &[OctopusTransaction]) -> (r: usize)
    ensures
        r == morning_transit_count(txns@),
{
    let mut n: usize = 0;
    let mut i: usize = 0;
    while i < txns.len()
        invariant
            i <= txns@.len(),
            n <= i,
            n == morning_transit_count(txns@.take(i as int)),
        decreases txns@.len() - i,
    {
        assert(txns@.take(i + 1).drop_last() =~= txns@.take(i as int));
        if txns[i].category == TransactionCategory::Transit && weekday_morning(txns[i].timestamp) {
            n = n + 1;
        }
        i = i + 1;
    }
    assert(txns@.take(i as int) =~= txns@);
    n
}


// ─── Credential construction ─────────────────────────────────────────────

/// Hash of one entry: SHA-256 of key, `|` and the displayed value.
fn leaf_hash(e: &PodEntry) -> (r: [u8; 32])
    requires
        value_displayable(e.value@),
    ensures
        r@ == sha256_digest(leaf_input(e@))@,
{
    let mut buf: Vec<u8> = Vec::new();
    push_str_bytes(&mut buf, e.key.as_str());
    push_str_bytes(&mut buf, "|");
    let v = e.value.display_text();
    push_str_bytes(&mut buf, v.as_str());
    sha256(buf.as_slice())
}

/// The views of a sequence of digests.
pub open spec fn digest_views(v: Seq<[u8; 32]>) -> Seq<Seq<u8>> {
    v.map_values(|a: [u8; 32]| a@)
}

/// Whether `a` is at most `b` in lexicographic order.
fn digest_le(a: &[u8; 32], b: &[u8; 32]) -> (r: bool)
    ensures
        r == bytes_le(a@, b@),
{
    let mut i: usize = 0;
    assert(a@.skip(0) =~= a@ && b@.skip(0) =~= b@);
    while i < 32
        invariant
            i <= 32,
            a@.len() == 32 && b@.len() == 32,
            bytes_le(a@, b@) == bytes_le(a@.skip(i as int), b@.skip(i as int)),
        decreases 32 - i,
    {
        if a[i] != b[i] {
            return a[i] < b[i];
        }
        assert(a@.skip(i as int).drop_first() =~= a@.skip(i + 1));
        assert(b@.skip(i as int).drop_first() =~= b@.skip(i + 1));
        i = i + 1;
    }
    true
}

proof fn lemma_insert_leaf_at(s: Seq<Seq<u8>>, x: Seq<u8>, j: int)
    requires
        0 <= j <= s.len(),
        forall|k: int| 0 <= k < j ==> !bytes_le(x, #[trigger] s[k]),
        j < s.len() ==> bytes_le(x, s[j]),
    ensures
        insert_leaf(s, x) == s.insert(j, x),
    decreases j,
{
    if j == 0 {
        assert(insert_leaf(s, x) =~= s.insert(0, x));
    } else {
        assert(!bytes_le(x, s[0]));
        assert forall|k: int| 0 <= k < j - 1 implies !bytes_le(x, #[trigger] s.drop_first()[k]) by {
            assert(s.drop_first()[k] == s[k + 1]);
        }
        lemma_insert_leaf_at(s.drop_first(), x, j - 1);
        assert(seq![s[0]] + s.drop_first().insert(j - 1, x) =~= s.insert(j, x));
    }
}

/// Inserts `x` into `v` just before the first element that it does not exceed.
fn insert_digest(v: &mut Vec<[u8; 32]>, x: [u8; 32])
    ensures
        digest_views(final(v)@) == insert_leaf(digest_views(old(v)@), x@),
{
    let ghost s = digest_views(v@);
    let mut j: usize = 0;
    while j < v.len()
        invariant
            j <= v@.len(),
            s == digest_views(v@),
            v@ == old(v)@,
            forall|k: int| 0 <= k < j ==> !bytes_le(x@, #[trigger] s[k]),
        ensures
            j <= v@.len(),
            s == digest_views(v@),
            v@ == old(v)@,
            forall|k: int| 0 <= k < j ==> !bytes_le(x@, #[trigger] s[k]),
            j < v@.len() ==> bytes_le(x@, s[j as int]),
        decreases v@.len() - j,
    {
        if digest_le(&x, &v[j]) {
            break;
        }
        j = j + 1;
    }
    proof {
        lemma_insert_leaf_at(s, x@, j as int);
    }
    v.insert(j, x);
    assert(digest_views(v@) =~= s.insert(j as int, x@));
}

/// Merkle root (hex) of the entries: the hash of their leaf hashes, sorted ascending.
fn merkle_root(entries: &Vec<PodEntry>) -> (r: String)
    requires
        entries_displayable(entries_model(entries@)),
    ensures
        r@ == merkle_root_text(entries_model(entries@)),
{
    let ghost es = entries_model(entries@);
    let mut sorted: Vec<[u8; 32]> = Vec::new();
    let mut i: usize = 0;
    while i < entries.len()
        invariant
            i <= entries@.len(),
            es == entries_model(entries@),
            entries_displayable(es),
            digest_views(sorted@) == sorted_leaves(leaf_digests(es.take(i as int))),
        decreases entries@.len() - i,
    {
        assert(es[i as int] == entries@[i as int]@);
        assert(value_displayable(es[i as int].1));
        let leaf = leaf_hash(&entries[i]);
        let ghost before = leaf_digests(es.take(i as int));
        assert(es.take(i + 1).drop_last() =~= es.take(i as int));
        assert(es.take(i + 1).last() == es[i as int]);
        assert(leaf_digests(es.take(i + 1)) == before.push(leaf@));
        assert(before.push(leaf@).drop_last() =~= before);
        insert_digest(&mut sorted, leaf);
        i = i + 1;
    }
    assert(es.take(i as int) =~= es);
    let ghost ls = digest_views(sorted@);
    let mut buf: Vec<u8> = Vec::new();
    let mut k: usize = 0;
    while k < sorted.len()
        invariant
            k <= sorted@.len(),
            ls == digest_views(sorted@),
            buf@ == concat_bytes(ls.take(k as int)),
        decreases sorted@.len() - k,
    {
        push_bytes(&mut buf, sorted[k].as_slice());
        assert(ls.take(k + 1).drop_last() =~= ls.take(k as int));
        k = k + 1;
    }
    assert(ls.take(k as int) =~= ls);
    hash_hex(&buf)
}

/// SHA-256 of the bytes, as hex.
fn hash_hex(buf: &Vec<u8>) -> (r: String)
    ensures
        r@ == hex_text(sha256_digest(buf@)@),
{
    let h = sha256(buf.as_slice());
    hex_encode(h.as_slice())
}

/// The registration class written into a credential.
fn registration_class(r: &RegistrationStatus) -> (s: String)
    ensures
        s@ == registration_class_text(r@),
{
    match r {
        RegistrationStatus::Pseudonymous => String::from_str("PSEUDONYMOUS"),
        RegistrationStatus::IdentityRegistered { .. } => String::from_str("IDENTITY_REGISTERED"),
    }
}

/// Build a POD credential from Octopus transactions, issued at Unix time `issued_at`.
///
/// Aggregates the transactions into summary statistics, encodes them as POD
/// entries, and produces the Merkle root, the issuer signature and the
/// provenance commitment to the notary session.
pub fn build_pod_at(
    txns: &[OctopusTransaction],
    zone: &Zone,
    period: &str,
    registration: RegistrationStatus,
    notary_session_id: &str,
    issued_at: i64,
) -> (r: PodCredential)
    requires
        totals_fit(txns@),
    ensures
        r@ == built_pod(txns@, *zone, period@, registration@, notary_session_id@, issued_at),
{
    let transit_count = count_zone_transit(txns, *zone) as i64;
    let mgmt_fee_total = abs_total(txns, TransactionCategory::BuildingAccess);
    let retail_total = abs_total(txns, TransactionCategory::Retail);
    let transit_fare_total = abs_total(txns, TransactionCategory::Transit);
    let morning_commute_count = count_morning_transit(txns) as i64;
    let class = registration_class(&registration);

    let entries: Vec<PodEntry> = vec![
        PodEntry { key: String::from_str("zone"), value: PodValue::String(zone.display_text()) },
        PodEntry { key: String::from_str("period"), value: PodValue::String(String::from_str(period)) },
        PodEntry { key: String::from_str("transit_count"), value: PodValue::Integer(transit_count) },
        PodEntry { key: String::from_str("mgmt_fee_total"), value: PodValue::Integer(mgmt_fee_total) },
        PodEntry { key: String::from_str("retail_total"), value: PodValue::Integer(retail_total) },
        PodEntry { key: String::from_str("transit_fare_total"), value: PodValue::Integer(transit_fare_total) },
        PodEntry { key: String::from_str("morning_commute_count"), value: PodValue::Integer(morning_commute_count) },
        PodEntry { key: String::from_str("tx_count"), value: PodValue::Integer(txns.len() as i64) },
        PodEntry { key: String::from_str("registration_class"), value: PodValue::String(class) },
    ];
    let ghost es = pod_entries(txns@, *zone, period@, registration@);
    assert(entries_model(entries@) =~= es);
    assert(entries_displayable(es));

    let merkle_root = merkle_root(&entries);
    let mut sig_input: Vec<u8> = Vec::new();
    push_str_bytes(&mut sig_input, "LOCAL_ISSUER_SECRET");
    push_str_bytes(&mut sig_input, merkle_root.as_str());
    let issuer_signature = hash_hex(&sig_input);

    let mut prov_input: Vec<u8> = Vec::new();
    push_str_bytes(&mut prov_input, "TLSNOTARY_NOTARY_PUBKEY");
    push_str_bytes(&mut prov_input, notary_session_id);
    push_str_bytes(&mut prov_input, merkle_root.as_str());
    let provenance_hash = hash_hex(&prov_input);
    PodCredential { entries, merkle_root, issuer_signature, provenance_hash, registration, issued_at }
}

/// Build a POD credential from Octopus transactions, issued now.
pub fn build_pod(
    txns: &[OctopusTransaction],
    zone: &Zone,
    period: &str,
    registration: RegistrationStatus,
    notary_session_id: &str,
) -> (r: Result<PodCredential, ZkError>)
    requires
        totals_fit(txns@),
    ensures
        r matches Ok(p) && p@ == built_pod(txns@, *zone, period@, registration@, notary_session_id@, p.issued_at),
        r matches Ok(p) && p.issued_at >= 0,
{
    let (now, _) = utc_now();
    Ok(build_pod_at(txns, zone, period, registration, notary_session_id, now))
}

/// Verify that a POD credential's Merkle root is consistent with its entries.
/// Returns true if the locally recomputed root matches the stored root.
pub fn verify_pod_integrity(pod: &PodCredential) -> (r: bool)
    requires
        entries_displayable(pod@.entries),
    ensures
        r == pod_is_consistent(pod@),
{
    let computed_root = merkle_root(&pod.entries);
    computed_root == pod.merkle_root
}


// ─── Preconditions, checked ──────────────────────────────────────────────

/// Whether the absolute amounts of category `cat` sum to at most `i64::MAX`.
fn abs_total_fits(txns: &[OctopusTransaction], cat: TransactionCategory) -> (r: bool)
    ensures
        r == (category_abs_total(txns@, cat) <= i64::MAX),
{
    let mut total: i128 = 0;
    let mut i: usize = 0;
    while i < txns.len()
        invariant
            i <= txns@.len(),
            total == category_abs_total(txns@.take(i as int), cat),
            total <= i64::MAX,
        decreases txns@.len() - i,
    {
        assert(txns@.take(i + 1).drop_last() =~= txns@.take(i as int));
        proof {
            lemma_abs_total_nonneg(txns@.take(i as int), cat);
        }
        if txns[i].category == cat {
            let a = txns[i].amount_cents as i128;
            let m = if a < 0 { -a } else { a };
            total = total + m;
        }
        if total > i64::MAX as i128 {
            proof {
                lemma_abs_total_prefix(txns@, cat, i + 1);
            }
            return false;
        }
        i = i + 1;
    }
    assert(txns@.take(i as int) =~= txns@);
    true
}

/// Whether `build_pod` can aggregate these transactions: its sums fit in `i64`.
pub fn can_build_pod(txns: &[OctopusTransaction]) -> (r: bool)
    ensures
        r == totals_fit(txns@),
{
    abs_total_fits(txns, TransactionCategory::BuildingAccess) && abs_total_fits(txns, TransactionCategory::Retail)
        && abs_total_fits(txns, TransactionCategory::Transit)
}

/// Whether every entry value of the credential can be displayed, as
/// `verify_pod_integrity` needs.
pub fn can_verify_pod(pod: &PodCredential) -> (r: bool)
    ensures
        r == entries_displayable(pod@.entries),
{
    let ghost es = pod@.entries;
    let mut i: usize = 0;
    while i < pod.entries.len()
        invariant
            i <= pod.entries@.len(),
            es == entries_model(pod.entries@),
            forall|j: int| 0 <= j < i ==> value_displayable(#[trigger] es[j].1),
        decreases pod.entries@.len() - i,
    {
        assert(es[i as int] == pod.entries@[i as int]@);
        match &pod.entries[i].value {
            PodValue::Bytes(h) => {
                let t = h.as_str();
                let n = t.as_bytes().len();
                let k = if n < 16 { n } else { 16 };
                assert(n == encode_utf8(h@).len());
                if !t.is_char_boundary(k) {
                    assert(!value_displayable(es[i as int].1));
                    return false;
                }
            },
            _ => {},
        }
        i = i + 1;
    }
    true
}

// ─── Laws ────────────────────────────────────────────────────────────────

/// A credential as `build_pod` issues it passes `verify_pod_integrity`:
/// its entries can be displayed and its Merkle root is the one they give.
pub proof fn lemma_built_pod_is_consistent(
    txns: Seq<OctopusTransaction>,
    zone: Zone,
    period: Seq<char>,
    reg: RegistrationModel,
    session: Seq<char>,
    issued_at: i64,
)
    ensures
        entries_displayable(built_pod(txns, zone, period, reg, session, issued_at).entries),
        pod_is_consistent(built_pod(txns, zone, period, reg, session, issued_at)),
{
}


// ─── Order of the leaves ─────────────────────────────────────────────────

/// The byte strings are in ascending lexicographic order.
pub open spec fn ascending(s: Seq<Seq<u8>>) -> bool {
    forall|i: int, j: int| 0 <= i < j < s.len() ==> bytes_le(#[trigger] s[i], #[trigger] s[j])
}

proof fn lemma_bytes_le_total(a: Seq<u8>, b: Seq<u8>)
    ensures
        bytes_le(a, b) || bytes_le(b, a),
    decreases a.len(),
{
    if a.len() > 0 && b.len() > 0 && a[0] == b[0] {
        lemma_bytes_le_total(a.drop_first(), b.drop_first());
    }
}

proof fn lemma_bytes_le_transitive(a: Seq<u8>, b: Seq<u8>, c: Seq<u8>)
    requires
        bytes_le(a, b),
        bytes_le(b, c),
    ensures
        bytes_le(a, c),
    decreases a.len(),
{
    if a.len() > 0 && b.len() > 0 && c.len() > 0 && a[0] == b[0] && b[0] == c[0] {
        lemma_bytes_le_transitive(a.drop_first(), b.drop_first(), c.drop_first());
    }
}

proof fn lemma_insert_leaf_ascending(s: Seq<Seq<u8>>, x: Seq<u8>)
    requires
        ascending(s),
    ensures
        ascending(insert_leaf(s, x)),
    decreases s.len(),
{
    if s.len() == 0 {
    } else if bytes_le(x, s[0]) {
        let r = seq![x] + s;
        assert forall|i: int, j: int| 0 <= i < j < r.len() implies bytes_le(#[trigger] r[i], #[trigger] r[j]) by {
            if i == 0 {
                if j > 1 {
                    assert(bytes_le(s[0], s[j - 1]));
                    lemma_bytes_le_transitive(x, s[0], s[j - 1]);
                }
            } else {
                assert(r[i] == s[i - 1] && r[j] == s[j - 1]);
            }
        }
    } else {
        let t = s.drop_first();
        assert(ascending(t)) by {
            assert forall|i: int, j: int| 0 <= i < j < t.len() implies bytes_le(#[trigger] t[i], #[trigger] t[j]) by {
                assert(t[i] == s[i + 1] && t[j] == s[j + 1]);
            }
        }
        lemma_insert_leaf_ascending(t, x);
        lemma_bytes_le_total(x, s[0]);
        let it = insert_leaf(t, x);
        let p = lemma_insert_leaf_position(t, x);
        let r = seq![s[0]] + it;
        assert forall|i: int, j: int| 0 <= i < j < r.len() implies bytes_le(#[trigger] r[i], #[trigger] r[j]) by {
            if i == 0 {
                let y = it[j - 1];
                if j - 1 < p {
                    assert(y == t[j - 1] && y == s[j]);
                } else if j - 1 > p {
                    assert(y == t[j - 2] && y == s[j - 1]);
                }
            } else {
                assert(r[i] == it[i - 1] && r[j] == it[j - 1]);
            }
        }
    }
}

/// The leaves that the Merkle root hashes are in ascending order.
pub proof fn lemma_sorted_leaves_ascending(s: Seq<Seq<u8>>)
    ensures
        ascending(sorted_leaves(s)),
        sorted_leaves(s).to_multiset() == s.to_multiset(),
    decreases s.len(),
{
    lemma_sorted_leaves_props(s);
    if s.len() > 0 {
        lemma_sorted_leaves_ascending(s.drop_last());
        lemma_insert_leaf_ascending(sorted_leaves(s.drop_last()), s.last());
    }
}

// ─── Tamper detection ────────────────────────────────────────────────────

proof fn lemma_leaf_digests_index(es: Seq<(Seq<char>, PodValueModel)>)
    ensures
        leaf_digests(es).len() == es.len(),
        forall|k: int| 0 <= k < es.len() ==> #[trigger] leaf_digests(es)[k] == sha256_digest(leaf_input(es[k]))@,
    decreases es.len(),
{
    if es.len() > 0 {
        lemma_leaf_digests_index(es.drop_last());
    }
}

/// All byte strings of `s` are 32 bytes long.
pub open spec fn all_32_bytes(s: Seq<Seq<u8>>) -> bool {
    forall|k: int| 0 <= k < s.len() ==> (#[trigger] s[k]).len() == 32
}

proof fn lemma_insert_leaf_position(s: Seq<Seq<u8>>, x: Seq<u8>) -> (j: int)
    ensures
        0 <= j <= s.len(),
        insert_leaf(s, x) == s.insert(j, x),
    decreases s.len(),
{
    if s.len() == 0 || bytes_le(x, s[0]) {
        assert(insert_leaf(s, x) =~= s.insert(0, x));
        0
    } else {
        let j = lemma_insert_leaf_position(s.drop_first(), x);
        assert(seq![s[0]] + s.drop_first().insert(j, x) =~= s.insert(j + 1, x));
        j + 1
    }
}

proof fn lemma_sorted_leaves_props(s: Seq<Seq<u8>>)
    ensures
        sorted_leaves(s).len() == s.len(),
        sorted_leaves(s).to_multiset() == s.to_multiset(),
        all_32_bytes(s) ==> all_32_bytes(sorted_leaves(s)),
    decreases s.len(),
{
    broadcast use vstd::seq_lib::group_to_multiset_ensures;

    if s.len() > 0 {
        let t = s.drop_last();
        lemma_sorted_leaves_props(t);
        let st = sorted_leaves(t);
        let j = lemma_insert_leaf_position(st, s.last());
        vstd::seq_lib::to_multiset_insert(st, j, s.last());
        assert(s =~= t.push(s.last()));
        if all_32_bytes(s) {
            assert(all_32_bytes(t));
            let r = st.insert(j, s.last());
            assert forall|k: int| 0 <= k < r.len() implies (#[trigger] r[k]).len() == 32 by {
                if k < j {
                    assert(r[k] == st[k]);
                } else if k > j {
                    assert(r[k] == st[k - 1]);
                }
            }
        }
    }
}

proof fn lemma_concat_bytes_blocks(s: Seq<Seq<u8>>)
    requires
        all_32_bytes(s),
    ensures
        concat_bytes(s).len() == 32 * s.len(),
        forall|k: int| 0 <= k < s.len() ==> #[trigger] concat_bytes(s).subrange(32 * k, 32 * k + 32) == s[k],
    decreases s.len(),
{
    if s.len() > 0 {
        let t = s.drop_last();
        assert(all_32_bytes(t));
        lemma_concat_bytes_blocks(t);
        let c = concat_bytes(s);
        assert forall|k: int| 0 <= k < s.len() implies #[trigger] c.subrange(32 * k, 32 * k + 32) == s[k] by {
            if k < t.len() {
                assert(c.subrange(32 * k, 32 * k + 32) =~= concat_bytes(t).subrange(32 * k, 32 * k + 32));
            } else {
                assert(c.subrange(32 * k, 32 * k + 32) =~= s.last());
            }
        }
    }
}

proof fn lemma_concat_bytes_injective(a: Seq<Seq<u8>>, b: Seq<Seq<u8>>)
    requires
        all_32_bytes(a),
        all_32_bytes(b),
        concat_bytes(a) == concat_bytes(b),
    ensures
        a == b,
{
    lemma_concat_bytes_blocks(a);
    lemma_concat_bytes_blocks(b);
    assert forall|k: int| 0 <= k < a.len() implies a[k] == b[k] by {
        assert(concat_bytes(a).subrange(32 * k, 32 * k + 32) == a[k]);
        assert(concat_bytes(b).subrange(32 * k, 32 * k + 32) == b[k]);
    }
    assert(a =~= b);
}

proof fn lemma_update_changes_multiset(s: Seq<Seq<u8>>, i: int, d: Seq<u8>)
    requires
        0 <= i < s.len(),
        s[i] != d,
    ensures
        s.update(i, d).to_multiset() != s.to_multiset(),
{
    broadcast use vstd::seq_lib::group_to_multiset_ensures;
    broadcast use vstd::multiset::group_multiset_axioms;

    let u = s.update(i, d);
    assert(s.remove(i) =~= u.remove(i));
    vstd::seq_lib::to_multiset_remove(s, i);
    vstd::seq_lib::to_multiset_remove(u, i);
    if u.to_multiset() == s.to_multiset() {
        let m = s.to_multiset();
        assert(s.contains(s[i]));
        assert(m.count(s[i]) > 0);
        assert(m.remove(s[i]).count(s[i]) == m.count(s[i]) - 1);
        assert(m.remove(d).count(s[i]) == m.count(s[i]));
    }
}

/// Entries whose root inputs differ, with no SHA-256 collision between those
/// inputs, have different Merkle roots.
proof fn lemma_root_inputs_differ(es0: Seq<(Seq<char>, PodValueModel)>, es1: Seq<(Seq<char>, PodValueModel)>)
    requires
        sorted_leaves(leaf_digests(es0)) != sorted_leaves(leaf_digests(es1)),
        no_collision(root_input(es0), root_input(es1)),
    ensures
        merkle_root_text(es0) != merkle_root_text(es1),
{
    let l0 = leaf_digests(es0);
    let l1 = leaf_digests(es1);
    lemma_leaf_digests_index(es0);
    lemma_leaf_digests_index(es1);
    assert(all_32_bytes(l0));
    assert(all_32_bytes(l1));
    lemma_sorted_leaves_props(l0);
    lemma_sorted_leaves_props(l1);
    if root_input(es0) == root_input(es1) {
        lemma_concat_bytes_injective(sorted_leaves(l0), sorted_leaves(l1));
    }
    if merkle_root_text(es0) == merkle_root_text(es1) {
        lemma_hex_text_injective(sha256_digest(root_input(es0))@, sha256_digest(root_input(es1))@);
    }
}

/// Tamper detection: a credential in which one entry's value was changed
/// (so that it displays differently) and the Merkle root kept fails the
/// integrity check, unless SHA-256 collides on the changed leaf or on the
/// two root inputs.
pub proof fn lemma_changed_entry_detected(pod: PodModel, i: int, v: PodValueModel, tampered: PodModel)
    requires
        pod_is_consistent(pod),
        0 <= i < pod.entries.len(),
        value_text(v) != value_text(pod.entries[i].1),
        tampered.entries == pod.entries.update(i, (pod.entries[i].0, v)),
        tampered.merkle_root == pod.merkle_root,
        no_collision(leaf_input(pod.entries[i]), leaf_input(tampered.entries[i])),
        no_collision(root_input(pod.entries), root_input(tampered.entries)),
    ensures
        !pod_is_consistent(tampered),
{
    let es0 = pod.entries;
    let es1 = tampered.entries;
    let e0 = es0[i];
    let e1 = es1[i];
    assert(leaf_input(e0) != leaf_input(e1)) by {
        if leaf_input(e0) == leaf_input(e1) {
            let k = (encode_utf8(e0.0) + encode_utf8("|"@)).len() as int;
            assert(leaf_input(e0).subrange(k, leaf_input(e0).len() as int) =~= encode_utf8(value_text(e0.1)));
            assert(leaf_input(e1).subrange(k, leaf_input(e1).len() as int) =~= encode_utf8(value_text(e1.1)));
            lemma_encode_utf8_injective(value_text(e0.1), value_text(e1.1));
        }
    }
    let l0 = leaf_digests(es0);
    let l1 = leaf_digests(es1);
    lemma_leaf_digests_index(es0);
    lemma_leaf_digests_index(es1);
    assert(l1 =~= l0.update(i, sha256_digest(leaf_input(e1))@));
    lemma_update_changes_multiset(l0, i, sha256_digest(leaf_input(e1))@);
    lemma_sorted_leaves_props(l0);
    lemma_sorted_leaves_props(l1);
    lemma_root_inputs_differ(es0, es1);
}

/// Tamper detection: a credential with entries added or removed and the
/// Merkle root kept fails the integrity check, unless SHA-256 collides on
/// the two root inputs.
pub proof fn lemma_added_or_removed_entry_detected(pod: PodModel, tampered: PodModel)
    requires
        pod_is_consistent(pod),
        tampered.entries.len() != pod.entries.len(),
        tampered.merkle_root == pod.merkle_root,
        no_collision(root_input(pod.entries), root_input(tampered.entries)),
    ensures
        !pod_is_consistent(tampered),
{
    let l0 = leaf_digests(pod.entries);
    let l1 = leaf_digests(tampered.entries);
    lemma_leaf_digests_index(pod.entries);
    lemma_leaf_digests_index(tampered.entries);
    lemma_sorted_leaves_props(l0);
    lemma_sorted_leaves_props(l1);
    lemma_root_inputs_differ(pod.entries, tampered.entries);
}


// ─── Aggregates, entry by entry ──────────────────────────────────────────

proof fn lemma_counts_bounded(txns: Seq<OctopusTransaction>, zone: Zone)
    ensures
        0 <= zone_transit_count(txns, zone) <= txns.len(),
        0 <= morning_transit_count(txns) <= txns.len(),
    decreases txns.len(),
{
    if txns.len() > 0 {
        lemma_counts_bounded(txns.drop_last(), zone);
    }
}

/// A credential built from no transactions has every count and total 0.
pub proof fn lemma_credential_of_no_transactions(
    zone: Zone,
    period: Seq<char>,
    reg: RegistrationModel,
    session: Seq<char>,
    issued_at: i64,
)
    ensures
        ({
            let es = built_pod(Seq::empty(), zone, period, reg, session, issued_at).entries;
            &&& es.len() == 9
            &&& es[2] == ("transit_count"@, PodValueModel::Integer(0))
            &&& es[3] == ("mgmt_fee_total"@, PodValueModel::Integer(0))
            &&& es[4] == ("retail_total"@, PodValueModel::Integer(0))
            &&& es[5] == ("transit_fare_total"@, PodValueModel::Integer(0))
            &&& es[6] == ("morning_commute_count"@, PodValueModel::Integer(0))
            &&& es[7] == ("tx_count"@, PodValueModel::Integer(0))
        }),
{
}

/// What one more transaction `t` does to a credential's entries:
/// - `transit_count` grows by one exactly when `t` is a transit tap in the
///   credential's zone;
/// - each of `mgmt_fee_total`, `retail_total` and `transit_fare_total` grows
///   by `|t.amount_cents|` exactly when `t` is of its category (building
///   access, retail, transit), whatever the amount's sign;
/// - `morning_commute_count` grows by one exactly when `t` is a transit tap on
///   a Monday to Friday (1970-01-01 was a Thursday) between 06:00:00 and
///   09:30:00 UTC; a transaction of any other category never changes it;
/// - `tx_count` grows by one; the zone, period and class entries stay.
pub proof fn lemma_credential_append(
    txns: Seq<OctopusTransaction>,
    t: OctopusTransaction,
    zone: Zone,
    period: Seq<char>,
    reg: RegistrationModel,
    session: Seq<char>,
    issued_at: i64,
)
    requires
        totals_fit(txns.push(t)),
        txns.len() + 1 <= i64::MAX,
    ensures
        ({
            let before = built_pod(txns, zone, period, reg, session, issued_at).entries;
            let after = built_pod(txns.push(t), zone, period, reg, session, issued_at).entries;
            let a = t.amount_cents as int;
            let m = if a < 0 { -a } else { a };
            let ts = t.timestamp as int;
            let weekday = (ts / 86400 + 4) % 7;
            let second = ts % 86400;
            &&& before.len() == 9 && after.len() == 9
            &&& after[0] == before[0] && after[1] == before[1] && after[8] == before[8]
            &&& before[2].0 == "transit_count"@ && after[2].0 == before[2].0
            &&& before[3].0 == "mgmt_fee_total"@ && after[3].0 == before[3].0
            &&& before[4].0 == "retail_total"@ && after[4].0 == before[4].0
            &&& before[5].0 == "transit_fare_total"@ && after[5].0 == before[5].0
            &&& before[6].0 == "morning_commute_count"@ && after[6].0 == before[6].0
            &&& before[7].0 == "tx_count"@ && after[7].0 == before[7].0
            &&& forall|k: int| 2 <= k < 8 ==> before[k].1 is Integer && after[k].1 is Integer
            &&& after[2].1->Integer_0 == before[2].1->Integer_0 + if t.category == TransactionCategory::Transit
                && t.zone == zone { 1int } else { 0int }
            &&& after[3].1->Integer_0 == before[3].1->Integer_0 + if t.category
                == TransactionCategory::BuildingAccess { m } else { 0int }
            &&& after[4].1->Integer_0 == before[4].1->Integer_0 + if t.category == TransactionCategory::Retail {
                m
            } else {
                0int
            }
            &&& after[5].1->Integer_0 == before[5].1->Integer_0 + if t.category == TransactionCategory::Transit {
                m
            } else {
                0int
            }
            &&& after[6].1->Integer_0 == before[6].1->Integer_0 + if t.category == TransactionCategory::Transit
                && 1 <= weekday <= 5 && 6 * 3600 <= second <= 9 * 3600 + 30 * 60 { 1int } else { 0int }
            &&& after[7].1->Integer_0 == before[7].1->Integer_0 + 1
        }),
{
    let s = txns.push(t);
    assert(s.drop_last() =~= txns);
    assert(s.last() == t);
    lemma_counts_bounded(s, zone);
    lemma_counts_bounded(txns, zone);
    lemma_abs_total_nonneg(txns, TransactionCategory::BuildingAccess);
    lemma_abs_total_nonneg(txns, TransactionCategory::Retail);
    lemma_abs_total_nonneg(txns, TransactionCategory::Transit);
    lemma_abs_total_nonneg(s, TransactionCategory::BuildingAccess);
    lemma_abs_total_nonneg(s, TransactionCategory::Retail);
    lemma_abs_total_nonneg(s, TransactionCategory::Transit);
}

/// The rest of a credential: its zone, period and registration class
/// entries; the issuer signature and the provenance commitment, hashed over
/// the Merkle root (and the notary session); the status and issuance time.
pub proof fn lemma_credential_commitments(
    txns: Seq<OctopusTransaction>,
    zone: Zone,
    period: Seq<char>,
    reg: RegistrationModel,
    session: Seq<char>,
    issued_at: i64,
)
    ensures
        ({
            let c = built_pod(txns, zone, period, reg, session, issued_at);
            &&& c.entries.len() == 9
            &&& c.entries[0] == ("zone"@, PodValueModel::String(zone_text(zone)))
            &&& c.entries[1] == ("period"@, PodValueModel::String(period))
            &&& c.entries[8] == ("registration_class"@, PodValueModel::String(
                if reg is Pseudonymous { "PSEUDONYMOUS"@ } else { "IDENTITY_REGISTERED"@ },
            ))
            &&& c.merkle_root == hex_text(sha256_digest(concat_bytes(sorted_leaves(leaf_digests(c.entries))))@)
            &&& c.issuer_signature == hex_text(
                sha256_digest(encode_utf8("LOCAL_ISSUER_SECRET"@) + encode_utf8(c.merkle_root))@,
            )
            &&& c.provenance_hash == hex_text(
                sha256_digest(encode_utf8("TLSNOTARY_NOTARY_PUBKEY"@) + encode_utf8(session) + encode_utf8(c.merkle_root))@,
            )
            &&& c.registration == reg
            &&& c.issued_at == issued_at
        }),
{
}

} // verus!
