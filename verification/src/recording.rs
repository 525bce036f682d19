//! Names of saved recordings: the local time the recording was saved,
//! `YYYYMMDD-HHMMSS-mmm.wav`, so that rapid presses do not collide.
use vstd::prelude::*;

use crate::clock::{is_valid_time, month_days, LocalTime};
use crate::text::{
    decimal, decimal_value, lemma_decimal_len_bound, lemma_padded_injective, lemma_padded_len,
    lemma_padded_value, padded, push_padded,
};

verus! {

broadcast use vstd::string::group_string_axioms;

/// The file name of a recording saved at local time `t`:
/// `YYYYMMDD-HHMMSS-mmm.wav`, each field zero-padded to its width.
pub open spec fn recording_name(t: LocalTime) -> Seq<char> {
    padded(t.year as nat, 4) + padded(t.month as nat, 2) + padded(t.day as nat, 2) + "-"@
        + padded(t.hour as nat, 2) + padded(t.minute as nat, 2) + padded(t.second as nat, 2)
        + "-"@ + padded(t.millisecond as nat, 3) + ".wav"@
}

/// Whether every field of `t` but the year fits its width in the name
/// (two-digit month, day, hour, minute and second, three-digit
/// millisecond), as every real time does; the year takes as many digits as
/// it needs, at least four.
pub open spec fn fits_name(t: LocalTime) -> bool {
    &&& t.month <= 99
    &&& t.day <= 99
    &&& t.hour <= 99
    &&& t.minute <= 99
    &&& t.second <= 99
    &&& t.millisecond <= 999
}

/// The file name for a recording saved at local time `t`, e.g.
/// `20260615-143022-187.wav`.
pub fn timestamp_name(t: &LocalTime) -> (name: String)
    ensures
        name@ == recording_name(*t),
{
    let mut name = String::new();
    push_padded(&mut name, t.year, 4);
    push_padded(&mut name, t.month, 2);
    push_padded(&mut name, t.day, 2);
    name.append("-");
    push_padded(&mut name, t.hour, 2);
    push_padded(&mut name, t.minute, 2);
    push_padded(&mut name, t.second, 2);
    name.append("-");
    push_padded(&mut name, t.millisecond, 3);
    name.append(".wav");
    name
}

proof fn lemma_padded_width(n: nat, w: nat)
    requires
        1 <= w <= 4,
        n < crate::text::pow10(w),
    ensures
        padded(n, w).len() == w,
        decimal(n).len() <= w,
{
    lemma_decimal_len_bound(n, w);
    lemma_padded_len(n, w);
}

/// The name of a time that fits: the year's digits, then 19 characters of
/// fixed layout ending in `.wav`.
proof fn lemma_name_layout(t: LocalTime)
    requires
        fits_name(t),
    ensures
        recording_name(t).len() == padded(t.year as nat, 4).len() + 19,
        padded(t.year as nat, 4).len() >= 4,
        padded(t.month as nat, 2).len() == 2,
        padded(t.day as nat, 2).len() == 2,
        padded(t.hour as nat, 2).len() == 2,
        padded(t.minute as nat, 2).len() == 2,
        padded(t.second as nat, 2).len() == 2,
        padded(t.millisecond as nat, 3).len() == 3,
{
    reveal_strlit("-");
    reveal_strlit(".wav");
    reveal_with_fuel(crate::text::pow10, 5);
    lemma_padded_len(t.year as nat, 4);
    lemma_padded_width(t.month as nat, 2);
    lemma_padded_width(t.day as nat, 2);
    lemma_padded_width(t.hour as nat, 2);
    lemma_padded_width(t.minute as nat, 2);
    lemma_padded_width(t.second as nat, 2);
    lemma_padded_width(t.millisecond as nat, 3);
}

/// The name of a valid time up to the year 9999 reads back as that time:
/// `YYYYMMDD-HHMMSS-mmm.wav`, 23 characters, each field in its place.
pub proof fn law_name_reads_back(t: LocalTime)
    requires
        is_valid_time(t),
        t.year <= 9999,
    ensures
        ({
            let n = recording_name(t);
            &&& n.len() == 23
            &&& decimal_value(n.subrange(0, 4)) == t.year
            &&& decimal_value(n.subrange(4, 6)) == t.month
            &&& decimal_value(n.subrange(6, 8)) == t.day
            &&& n[8] == '-'
            &&& decimal_value(n.subrange(9, 11)) == t.hour
            &&& decimal_value(n.subrange(11, 13)) == t.minute
            &&& decimal_value(n.subrange(13, 15)) == t.second
            &&& n[15] == '-'
            &&& decimal_value(n.subrange(16, 19)) == t.millisecond
            &&& n.subrange(19, 23) == ".wav"@
        }),
{
    reveal_strlit("-");
    reveal_strlit(".wav");
    reveal_with_fuel(crate::text::pow10, 5);
    assert(month_days(t.year as int, t.month as int) <= 31);
    lemma_name_layout(t);
    lemma_padded_width(t.year as nat, 4);
    let n = recording_name(t);
    assert(n.subrange(0, 4) =~= padded(t.year as nat, 4));
    assert(n.subrange(4, 6) =~= padded(t.month as nat, 2));
    assert(n.subrange(6, 8) =~= padded(t.day as nat, 2));
    assert(n.subrange(9, 11) =~= padded(t.hour as nat, 2));
    assert(n.subrange(11, 13) =~= padded(t.minute as nat, 2));
    assert(n.subrange(13, 15) =~= padded(t.second as nat, 2));
    assert(n.subrange(16, 19) =~= padded(t.millisecond as nat, 3));
    assert(n.subrange(19, 23) =~= ".wav"@);
    lemma_padded_value(t.year as nat, 4);
    lemma_padded_value(t.month as nat, 2);
    lemma_padded_value(t.day as nat, 2);
    lemma_padded_value(t.hour as nat, 2);
    lemma_padded_value(t.minute as nat, 2);
    lemma_padded_value(t.second as nat, 2);
    lemma_padded_value(t.millisecond as nat, 3);
}

/// Every recording name ends with `.wav`.
pub proof fn law_name_is_wav(t: LocalTime)
    ensures
        recording_name(t).len() >= 4,
        recording_name(t).subrange(recording_name(t).len() - 4, recording_name(t).len() as int)
            == ".wav"@,
{
    reveal_strlit(".wav");
    let n = recording_name(t);
    assert(n.subrange(n.len() - 4, n.len() as int) =~= ".wav"@);
}

/// Recordings saved at different times get different file names, for every
/// year (names of years with more digits are longer).
pub proof fn law_distinct_times_distinct_names(a: LocalTime, b: LocalTime)
    requires
        fits_name(a),
        fits_name(b),
        a != b,
    ensures
        recording_name(a) != recording_name(b),
{
    reveal_strlit("-");
    reveal_strlit(".wav");
    lemma_name_layout(a);
    lemma_name_layout(b);
    let na = recording_name(a);
    let nb = recording_name(b);
    if na == nb {
        let l = padded(a.year as nat, 4).len() as int;
        assert(padded(b.year as nat, 4).len() == l);
        assert(na.subrange(0, l) =~= padded(a.year as nat, 4));
        assert(nb.subrange(0, l) =~= padded(b.year as nat, 4));
        assert(na.subrange(l, l + 2) =~= padded(a.month as nat, 2));
        assert(nb.subrange(l, l + 2) =~= padded(b.month as nat, 2));
        assert(na.subrange(l + 2, l + 4) =~= padded(a.day as nat, 2));
        assert(nb.subrange(l + 2, l + 4) =~= padded(b.day as nat, 2));
        assert(na.subrange(l + 5, l + 7) =~= padded(a.hour as nat, 2));
        assert(nb.subrange(l + 5, l + 7) =~= padded(b.hour as nat, 2));
        assert(na.subrange(l + 7, l + 9) =~= padded(a.minute as nat, 2));
        assert(nb.subrange(l + 7, l + 9) =~= padded(b.minute as nat, 2));
        assert(na.subrange(l + 9, l + 11) =~= padded(a.second as nat, 2));
        assert(nb.subrange(l + 9, l + 11) =~= padded(b.second as nat, 2));
        assert(na.subrange(l + 12, l + 15) =~= padded(a.millisecond as nat, 3));
        assert(nb.subrange(l + 12, l + 15) =~= padded(b.millisecond as nat, 3));
        lemma_padded_injective(a.year as nat, b.year as nat, 4);
        lemma_padded_injective(a.month as nat, b.month as nat, 2);
        lemma_padded_injective(a.day as nat, b.day as nat, 2);
        lemma_padded_injective(a.hour as nat, b.hour as nat, 2);
        lemma_padded_injective(a.minute as nat, b.minute as nat, 2);
        lemma_padded_injective(a.second as nat, b.second as nat, 2);
        lemma_padded_injective(a.millisecond as nat, b.millisecond as nat, 3);
    }
}

/// Recordings saved at different valid times get different file names.
pub proof fn law_valid_times_distinct_names(a: LocalTime, b: LocalTime)
    requires
        is_valid_time(a),
        is_valid_time(b),
        a != b,
    ensures
        recording_name(a) != recording_name(b),
{
    assert(month_days(a.year as int, a.month as int) <= 31);
    assert(month_days(b.year as int, b.month as int) <= 31);
    law_distinct_times_distinct_names(a, b);
}

} // verus!
