//! Synthetic Octopus dataset for the end-to-end demo: a typical Kowloon
//! resident commuting to work via MTR in March 2026.
use vstd::prelude::*;

use crate::outside::{civil_unix_time, lemma_civil_unix_time_range, utc_timestamp, valid_civil};
use crate::pod::{category_abs_total};
use crate::types::{OctopusTransaction, TransactionCategory, TransactionModel, Zone};

verus! {

/// A decimal digit character.
pub open spec fn is_digit(c: char) -> bool {
    '0' <= c <= '9'
}

/// The value of a decimal digit character.
pub open spec fn digit_value(c: char) -> int {
    (c as int) - ('0' as int)
}

/// The value of the decimal digits `s[from..to]`.
pub open spec fn digits_value(s: Seq<char>, from: int, to: int) -> int
    decreases to - from,
{
    if to <= from {
        0
    } else {
        digits_value(s, from, to - 1) * 10 + digit_value(s[to - 1])
    }
}

/// `s` has the shape `YYYY-MM-DD HH:MM`.
pub open spec fn stamp_shape(s: Seq<char>) -> bool {
    &&& s.len() == 16
    &&& is_digit(s[0]) && is_digit(s[1]) && is_digit(s[2]) && is_digit(s[3])
    &&& is_digit(s[5]) && is_digit(s[6]) && is_digit(s[8]) && is_digit(s[9])
    &&& is_digit(s[11]) && is_digit(s[12]) && is_digit(s[14]) && is_digit(s[15])
    &&& s[4] == '-' && s[7] == '-' && s[10] == ' ' && s[13] == ':'
}

/// Year, month, day, hour and minute of a stamp `YYYY-MM-DD HH:MM`.
pub open spec fn stamp_fields(s: Seq<char>) -> (int, int, int, int, int) {
    (digits_value(s, 0, 4), digits_value(s, 5, 7), digits_value(s, 8, 10), digits_value(s, 11, 13), digits_value(s, 14, 16))
}

/// A stamp `YYYY-MM-DD HH:MM` naming an existing date of a year from 1 and a valid time.
pub open spec fn stamp_valid(s: Seq<char>) -> bool {
    let (y, m, d, h, mi) = stamp_fields(s);
    stamp_shape(s) && 1 <= y && valid_civil(y, m, d, h, mi, 0)
}

/// The Unix time of a stamp `YYYY-MM-DD HH:MM`, read as UTC.
pub open spec fn stamp_time(s: Seq<char>) -> int {
    let (y, m, d, h, mi) = stamp_fields(s);
    civil_unix_time(y, m, d, h, mi, 0)
}

/// The value of the digits `s[from..to]`.
fn parse_digits(s: &str, from: usize, to: usize) -> (r: u32)
    requires
        from <= to <= s@.len(),
        to - from <= 4,
        forall|i: int| from <= i < to ==> is_digit(#[trigger] s@[i]),
    ensures
        r == digits_value(s@, from as int, to as int),
        r < pow10(to - from),
{
    let mut v: u32 = 0;
    let mut i = from;
    while i < to
        invariant
            from <= i <= to,
            to <= s@.len(),
            to - from <= 4,
            forall|j: int| from <= j < to ==> is_digit(#[trigger] s@[j]),
            v == digits_value(s@, from as int, i as int),
            v < 10000,
            i - from <= 4,
            v < pow10(i - from),
        decreases to - i,
    {
        let c = s.get_char(i);
        assert(is_digit(s@[i as int]));
        let d = (c as u32) - ('0' as u32);
        v = v * 10 + d;
        i = i + 1;
    }
    v
}

spec fn pow10(n: int) -> int {
    if n <= 0 { 1 } else if n == 1 { 10 } else if n == 2 { 100 } else if n == 3 { 1000 } else { 10000 }
}

/// Parse `YYYY-MM-DD HH:MM` as a UTC time, in Unix seconds.
fn parse_dt(s: &str) -> (r: i64)
    requires
        stamp_valid(s@),
    ensures
        r == stamp_time(s@),
{
    assert(forall|i: int| 0 <= i < 4 ==> is_digit(#[trigger] s@[i]));
    assert(forall|i: int| 5 <= i < 7 ==> is_digit(#[trigger] s@[i]));
    assert(forall|i: int| 8 <= i < 10 ==> is_digit(#[trigger] s@[i]));
    assert(forall|i: int| 11 <= i < 13 ==> is_digit(#[trigger] s@[i]));
    assert(forall|i: int| 14 <= i < 16 ==> is_digit(#[trigger] s@[i]));
    let y = parse_digits(s, 0, 4);
    let mo = parse_digits(s, 5, 7);
    let d = parse_digits(s, 8, 10);
    let h = parse_digits(s, 11, 13);
    let mi = parse_digits(s, 14, 16);
    proof {
        lemma_civil_unix_time_range(y as int, mo as int, d as int, h as int, mi as int, 0);
    }
    match utc_timestamp(y as i32, mo, d, h, mi, 0) {
        Some(t) => t,
        None => {
            proof { assert(false); }
            0
        },
    }
}

/// A transaction record at the stamp `ts`.
fn tx(ts: &str, terminal: &str, cents: i64, cat: TransactionCategory, zone: Zone) -> (r: OctopusTransaction)
    requires
        stamp_valid(ts@),
    ensures
        r@ == (TransactionModel {
            timestamp: stamp_time(ts@) as i64,
            terminal_id: terminal@,
            amount_cents: cents,
            category: cat,
            zone,
        }),
{
    let timestamp = parse_dt(ts);
    OctopusTransaction { timestamp, terminal_id: String::from_str(terminal), amount_cents: cents, category: cat, zone }
}

/// A Kowloon record of March 2026.
pub open spec fn march_record(
    day: int,
    hour: int,
    minute: int,
    terminal: Seq<char>,
    cents: int,
    cat: TransactionCategory,
) -> TransactionModel {
    TransactionModel {
        timestamp: civil_unix_time(2026, 3, day, hour, minute, 0) as i64,
        terminal_id: terminal,
        amount_cents: cents as i64,
        category: cat,
        zone: Zone::Kowloon,
    }
}

/// The synthetic March 2026 history: weekday MTR commutes, retail purchases,
/// one management fee payment at the building lobby and one government
/// service use, all in Kowloon.
pub open spec fn march_2026_records() -> Seq<TransactionModel> {
    seq![
        march_record(2, 8, 12, "MTR Kowloon Tong"@, -950, TransactionCategory::Transit),
        march_record(2, 18, 44, "MTR Kowloon Tong"@, -950, TransactionCategory::Transit),
        march_record(3, 8, 9, "MTR Mong Kok"@, -800, TransactionCategory::Transit),
        march_record(3, 18, 55, "MTR Mong Kok"@, -800, TransactionCategory::Transit),
        march_record(4, 7, 55, "MTR Kowloon Tong"@, -950, TransactionCategory::Transit),
        march_record(4, 19, 2, "MTR Kowloon Tong"@, -950, TransactionCategory::Transit),
        march_record(5, 8, 5, "MTR Prince Edward"@, -750, TransactionCategory::Transit),
        march_record(5, 18, 38, "MTR Prince Edward"@, -750, TransactionCategory::Transit),
        march_record(6, 8, 10, "MTR Kowloon Tong"@, -950, TransactionCategory::Transit),
        march_record(6, 18, 51, "MTR Kowloon Tong"@, -950, TransactionCategory::Transit),
        march_record(9, 8, 14, "MTR Kowloon Tong"@, -950, TransactionCategory::Transit),
        march_record(9, 18, 43, "MTR Kowloon Tong"@, -950, TransactionCategory::Transit),
        march_record(10, 8, 8, "MTR Mong Kok"@, -800, TransactionCategory::Transit),
        march_record(11, 7, 58, "MTR Kowloon Tong"@, -950, TransactionCategory::Transit),
        march_record(12, 8, 3, "MTR Prince Edward"@, -750, TransactionCategory::Transit),
        march_record(13, 8, 11, "MTR Kowloon Tong"@, -950, TransactionCategory::Transit),
        march_record(16, 8, 7, "MTR Kowloon Tong"@, -950, TransactionCategory::Transit),
        march_record(17, 8, 15, "MTR Mong Kok"@, -800, TransactionCategory::Transit),
        march_record(18, 8, 0, "MTR Kowloon Tong"@, -950, TransactionCategory::Transit),
        march_record(19, 7, 52, "MTR Prince Edward"@, -750, TransactionCategory::Transit),
        march_record(20, 8, 9, "MTR Kowloon Tong"@, -950, TransactionCategory::Transit),
        march_record(4, 12, 30, "7-Eleven (Mong Kok)"@, -2350, TransactionCategory::Retail),
        march_record(7, 14, 15, "PARKnSHOP (KLN)"@, -38800, TransactionCategory::Retail),
        march_record(11, 13, 0, "Wellcome (KLN)"@, -22500, TransactionCategory::Retail),
        march_record(14, 11, 30, "McDonald's (KLN)"@, -5500, TransactionCategory::Retail),
        march_record(21, 15, 0, "Watsons (KLN)"@, -8900, TransactionCategory::Retail),
        march_record(10, 15, 0, "Block A Lobby"@, -30000, TransactionCategory::BuildingAccess),
        march_record(8, 10, 30, "Leisure & Cultural Services"@, -4000, TransactionCategory::GovernmentService),
    ]
}

proof fn lemma_march_stamps_a()
    ensures
        stamp_valid("2026-03-02 08:12"@),
        stamp_time("2026-03-02 08:12"@) == civil_unix_time(2026, 3, 2, 8, 12, 0),
        stamp_valid("2026-03-02 18:44"@),
        stamp_time("2026-03-02 18:44"@) == civil_unix_time(2026, 3, 2, 18, 44, 0),
        stamp_valid("2026-03-03 08:09"@),
        stamp_time("2026-03-03 08:09"@) == civil_unix_time(2026, 3, 3, 8, 9, 0),
        stamp_valid("2026-03-03 18:55"@),
        stamp_time("2026-03-03 18:55"@) == civil_unix_time(2026, 3, 3, 18, 55, 0),
        stamp_valid("2026-03-04 07:55"@),
        stamp_time("2026-03-04 07:55"@) == civil_unix_time(2026, 3, 4, 7, 55, 0),
        stamp_valid("2026-03-04 19:02"@),
        stamp_time("2026-03-04 19:02"@) == civil_unix_time(2026, 3, 4, 19, 2, 0),
        stamp_valid("2026-03-05 08:05"@),
        stamp_time("2026-03-05 08:05"@) == civil_unix_time(2026, 3, 5, 8, 5, 0),
{
    reveal_with_fuel(digits_value, 5);
    reveal_strlit("2026-03-02 08:12");
    reveal_strlit("2026-03-02 18:44");
    reveal_strlit("2026-03-03 08:09");
    reveal_strlit("2026-03-03 18:55");
    reveal_strlit("2026-03-04 07:55");
    reveal_strlit("2026-03-04 19:02");
    reveal_strlit("2026-03-05 08:05");
}

proof fn lemma_march_stamps_b()
    ensures
        stamp_valid("2026-03-05 18:38"@),
        stamp_time("2026-03-05 18:38"@) == civil_unix_time(2026, 3, 5, 18, 38, 0),
        stamp_valid("2026-03-06 08:10"@),
        stamp_time("2026-03-06 08:10"@) == civil_unix_time(2026, 3, 6, 8, 10, 0),
        stamp_valid("2026-03-06 18:51"@),
        stamp_time("2026-03-06 18:51"@) == civil_unix_time(2026, 3, 6, 18, 51, 0),
        stamp_valid("2026-03-09 08:14"@),
        stamp_time("2026-03-09 08:14"@) == civil_unix_time(2026, 3, 9, 8, 14, 0),
        stamp_valid("2026-03-09 18:43"@),
        stamp_time("2026-03-09 18:43"@) == civil_unix_time(2026, 3, 9, 18, 43, 0),
        stamp_valid("2026-03-10 08:08"@),
        stamp_time("2026-03-10 08:08"@) == civil_unix_time(2026, 3, 10, 8, 8, 0),
        stamp_valid("2026-03-11 07:58"@),
        stamp_time("2026-03-11 07:58"@) == civil_unix_time(2026, 3, 11, 7, 58, 0),
{
    reveal_with_fuel(digits_value, 5);
    reveal_strlit("2026-03-05 18:38");
    reveal_strlit("2026-03-06 08:10");
    reveal_strlit("2026-03-06 18:51");
    reveal_strlit("2026-03-09 08:14");
    reveal_strlit("2026-03-09 18:43");
    reveal_strlit("2026-03-10 08:08");
    reveal_strlit("2026-03-11 07:58");
}

proof fn lemma_march_stamps_c()
    ensures
        stamp_valid("2026-03-12 08:03"@),
        stamp_time("2026-03-12 08:03"@) == civil_unix_time(2026, 3, 12, 8, 3, 0),
        stamp_valid("2026-03-13 08:11"@),
        stamp_time("2026-03-13 08:11"@) == civil_unix_time(2026, 3, 13, 8, 11, 0),
        stamp_valid("2026-03-16 08:07"@),
        stamp_time("2026-03-16 08:07"@) == civil_unix_time(2026, 3, 16, 8, 7, 0),
        stamp_valid("2026-03-17 08:15"@),
        stamp_time("2026-03-17 08:15"@) == civil_unix_time(2026, 3, 17, 8, 15, 0),
        stamp_valid("2026-03-18 08:00"@),
        stamp_time("2026-03-18 08:00"@) == civil_unix_time(2026, 3, 18, 8, 0, 0),
        stamp_valid("2026-03-19 07:52"@),
        stamp_time("2026-03-19 07:52"@) == civil_unix_time(2026, 3, 19, 7, 52, 0),
        stamp_valid("2026-03-20 08:09"@),
        stamp_time("2026-03-20 08:09"@) == civil_unix_time(2026, 3, 20, 8, 9, 0),
{
    reveal_with_fuel(digits_value, 5);
    reveal_strlit("2026-03-12 08:03");
    reveal_strlit("2026-03-13 08:11");
    reveal_strlit("2026-03-16 08:07");
    reveal_strlit("2026-03-17 08:15");
    reveal_strlit("2026-03-18 08:00");
    reveal_strlit("2026-03-19 07:52");
    reveal_strlit("2026-03-20 08:09");
}

proof fn lemma_march_stamps_d()
    ensures
        stamp_valid("2026-03-04 12:30"@),
        stamp_time("2026-03-04 12:30"@) == civil_unix_time(2026, 3, 4, 12, 30, 0),
        stamp_valid("2026-03-07 14:15"@),
        stamp_time("2026-03-07 14:15"@) == civil_unix_time(2026, 3, 7, 14, 15, 0),
        stamp_valid("2026-03-11 13:00"@),
        stamp_time("2026-03-11 13:00"@) == civil_unix_time(2026, 3, 11, 13, 0, 0),
        stamp_valid("2026-03-14 11:30"@),
        stamp_time("2026-03-14 11:30"@) == civil_unix_time(2026, 3, 14, 11, 30, 0),
        stamp_valid("2026-03-21 15:00"@),
        stamp_time("2026-03-21 15:00"@) == civil_unix_time(2026, 3, 21, 15, 0, 0),
        stamp_valid("2026-03-10 15:00"@),
        stamp_time("2026-03-10 15:00"@) == civil_unix_time(2026, 3, 10, 15, 0, 0),
        stamp_valid("2026-03-08 10:30"@),
        stamp_time("2026-03-08 10:30"@) == civil_unix_time(2026, 3, 8, 10, 30, 0),
{
    reveal_with_fuel(digits_value, 5);
    reveal_strlit("2026-03-04 12:30");
    reveal_strlit("2026-03-07 14:15");
    reveal_strlit("2026-03-11 13:00");
    reveal_strlit("2026-03-14 11:30");
    reveal_strlit("2026-03-21 15:00");
    reveal_strlit("2026-03-10 15:00");
    reveal_strlit("2026-03-08 10:30");
}

/// Number of transactions of category `cat`.
pub open spec fn category_count_of(txns: Seq<OctopusTransaction>, cat: TransactionCategory) -> int
    decreases txns.len(),
{
    if txns.len() == 0 {
        0
    } else {
        category_count_of(txns.drop_last(), cat) + if txns.last().category == cat { 1int } else { 0int }
    }
}

/// Counts the transactions of category `cat` (transit taps, government service uses, …).
pub fn category_count(txns: &[OctopusTransaction], cat: TransactionCategory) -> (r: usize)
    ensures
        r == category_count_of(txns@, cat),
{
    let mut n: usize = 0;
    let mut i: usize = 0;
    while i < txns.len()
        invariant
            i <= txns@.len(),
            n <= i,
            n == category_count_of(txns@.take(i as int), cat),
        decreases txns@.len() - i,
    {
        assert(txns@.take(i + 1).drop_last() =~= txns@.take(i as int));
        if txns[i].category == cat {
            n = n + 1;
        }
        i = i + 1;
    }
    assert(txns@.take(i as int) =~= txns@);
    n
}

/// The models of a sequence of transactions.
pub open spec fn transactions_model(txns: Seq<OctopusTransaction>) -> Seq<TransactionModel> {
    txns.map_values(|t: OctopusTransaction| t@)
}

/// Build a synthetic Octopus transaction history for March 2026.
/// Represents a typical Kowloon resident commuting to work via MTR.
#[verifier::rlimit(60)]
pub fn synthetic_transactions_march_2026() -> (r: Vec<OctopusTransaction>)
    ensures
        transactions_model(r@) == march_2026_records(),
{
    proof {
        lemma_march_stamps_a();
        lemma_march_stamps_b();
        lemma_march_stamps_c();
        lemma_march_stamps_d();
    }
    let weekday_commutes: Vec<OctopusTransaction> = vec![
        tx("2026-03-02 08:12", "MTR Kowloon Tong", -950, TransactionCategory::Transit, Zone::Kowloon),
        tx("2026-03-02 18:44", "MTR Kowloon Tong", -950, TransactionCategory::Transit, Zone::Kowloon),
        tx("2026-03-03 08:09", "MTR Mong Kok", -800, TransactionCategory::Transit, Zone::Kowloon),
        tx("2026-03-03 18:55", "MTR Mong Kok", -800, TransactionCategory::Transit, Zone::Kowloon),
        tx("2026-03-04 07:55", "MTR Kowloon Tong", -950, TransactionCategory::Transit, Zone::Kowloon),
        tx("2026-03-04 19:02", "MTR Kowloon Tong", -950, TransactionCategory::Transit, Zone::Kowloon),
        tx("2026-03-05 08:05", "MTR Prince Edward", -750, TransactionCategory::Transit, Zone::Kowloon),
        tx("2026-03-05 18:38", "MTR Prince Edward", -750, TransactionCategory::Transit, Zone::Kowloon),
        tx("2026-03-06 08:10", "MTR Kowloon Tong", -950, TransactionCategory::Transit, Zone::Kowloon),
        tx("2026-03-06 18:51", "MTR Kowloon Tong", -950, TransactionCategory::Transit, Zone::Kowloon),
        tx("2026-03-09 08:14", "MTR Kowloon Tong", -950, TransactionCategory::Transit, Zone::Kowloon),
        tx("2026-03-09 18:43", "MTR Kowloon Tong", -950, TransactionCategory::Transit, Zone::Kowloon),
        tx("2026-03-10 08:08", "MTR Mong Kok", -800, TransactionCategory::Transit, Zone::Kowloon),
        tx("2026-03-11 07:58", "MTR Kowloon Tong", -950, TransactionCategory::Transit, Zone::Kowloon),
        tx("2026-03-12 08:03", "MTR Prince Edward", -750, TransactionCategory::Transit, Zone::Kowloon),
        tx("2026-03-13 08:11", "MTR Kowloon Tong", -950, TransactionCategory::Transit, Zone::Kowloon),
        tx("2026-03-16 08:07", "MTR Kowloon Tong", -950, TransactionCategory::Transit, Zone::Kowloon),
        tx("2026-03-17 08:15", "MTR Mong Kok", -800, TransactionCategory::Transit, Zone::Kowloon),
        tx("2026-03-18 08:00", "MTR Kowloon Tong", -950, TransactionCategory::Transit, Zone::Kowloon),
        tx("2026-03-19 07:52", "MTR Prince Edward", -750, TransactionCategory::Transit, Zone::Kowloon),
        tx("2026-03-20 08:09", "MTR Kowloon Tong", -950, TransactionCategory::Transit, Zone::Kowloon),
        tx("2026-03-04 12:30", "7-Eleven (Mong Kok)", -2350, TransactionCategory::Retail, Zone::Kowloon),
        tx("2026-03-07 14:15", "PARKnSHOP (KLN)", -38800, TransactionCategory::Retail, Zone::Kowloon),
        tx("2026-03-11 13:00", "Wellcome (KLN)", -22500, TransactionCategory::Retail, Zone::Kowloon),
        tx("2026-03-14 11:30", "McDonald's (KLN)", -5500, TransactionCategory::Retail, Zone::Kowloon),
        tx("2026-03-21 15:00", "Watsons (KLN)", -8900, TransactionCategory::Retail, Zone::Kowloon),
        tx("2026-03-10 15:00", "Block A Lobby", -30000, TransactionCategory::BuildingAccess, Zone::Kowloon),
        tx("2026-03-08 10:30", "Leisure & Cultural Services", -4000, TransactionCategory::GovernmentService, Zone::Kowloon),
    ];
    assert(transactions_model(weekday_commutes@) =~= march_2026_records());
    weekday_commutes
}

} // verus!
