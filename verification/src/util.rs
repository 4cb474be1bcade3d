//! Time helpers: the current Unix time, and a wait rendered for people.

use std::time::{Duration, SystemTime, SystemTimeError, UNIX_EPOCH};
use vstd::prelude::*;
use vstd::string::*;

use crate::text::{
    int_text, is_digit, lemma_nat_text_reads_back, lemma_numbers_append, lemma_numbers_none,
    nat_text, numbers, push_int,
};

verus! {

#[verifier::external_type_specification]
#[verifier::external_body]
pub struct ExSystemTime(SystemTime);

#[verifier::external_type_specification]
#[verifier::external_body]
pub struct ExSystemTimeError(SystemTimeError);

/// `SystemTime::now`: the machine's clock at the time of the call. Nothing
/// is stated of it: it depends on the moment and the machine.
#[verifier::external_body]
fn system_now() -> SystemTime {
    SystemTime::now()
}

/// `SystemTime::duration_since(UNIX_EPOCH)`: the time elapsed since the
/// Unix epoch, or an error when the clock reads earlier than the epoch.
/// Nothing is stated of which: the clock reading is opaque here.
#[verifier::external_body]
fn since_unix_epoch(t: &SystemTime) -> Result<Duration, SystemTimeError> {
    t.duration_since(UNIX_EPOCH)
}

/// `Duration::as_secs`: the whole seconds of a duration. The duration is
/// opaque here, so nothing is stated of the number.
#[verifier::external_body]
fn whole_seconds(d: &Duration) -> u64 {
    d.as_secs()
}

/// A Unix timestamp from the whole seconds elapsed since the epoch, as
/// `as i64` converts them (a count above `i64::MAX` wraps around); `None`
/// stays `None`, for a clock that reads earlier than the epoch.
pub fn unix_timestamp_from(elapsed: Option<u64>) -> (r: Option<i64>)
    ensures
        r == match elapsed {
            Some(secs) => Some(secs as i64),
            None => None::<i64>,
        },
        elapsed matches Some(secs) ==> (secs <= i64::MAX ==> r is Some && r->0 == secs),
{
    match elapsed {
        Some(secs) => Some(
            #[verifier::truncate]
            (secs as i64),
        ),
        None => None,
    }
}

/// Seconds since the Unix epoch by the machine's clock, or `None` when the
/// clock reads earlier than the epoch (the bot then stops with
/// "System clock rolled backwards"). What the clock reads is not stated;
/// the conversion of its reading is `unix_timestamp_from`.
pub fn current_time_unix_epoch() -> Option<i64> {
    let now = system_now();
    let elapsed = match since_unix_epoch(&now) {
        Ok(duration) => Some(whole_seconds(&duration)),
        Err(_) => None,
    };
    unix_timestamp_from(elapsed)
}

/// Remainder of `a` divided by `b` rounded toward zero, as Rust's `%` on
/// signed integers computes it: it takes the sign of `a`.
pub open spec fn trunc_rem(a: int, b: int) -> int {
    if a >= 0 {
        a % b
    } else {
        -((-a) % b)
    }
}

/// Whole hours in a wait of `s` seconds (none when the wait is shorter than
/// an hour, negative waits included).
pub open spec fn hours_part(s: int) -> int {
    if s >= 3600 {
        s / 3600
    } else {
        0
    }
}

/// Whole minutes left over after the hours.
pub open spec fn minutes_part(s: int) -> int {
    let r = trunc_rem(s, 3600);
    if r >= 60 {
        r / 60
    } else {
        0
    }
}

/// Seconds left over after the hours and minutes.
pub open spec fn seconds_part(s: int) -> int {
    trunc_rem(trunc_rem(s, 3600), 60)
}

/// The text for a wait of `s` seconds: hours, minutes and seconds when it is
/// an hour or more, minutes and seconds when it is a minute or more, else
/// seconds alone.
pub open spec fn human_duration(s: int) -> Seq<char> {
    let h = hours_part(s);
    let m = minutes_part(s);
    let sec = seconds_part(s);
    if h > 0 {
        int_text(h) + " hours, "@ + int_text(m) + " minutes, and "@ + int_text(sec) + " seconds"@
    } else if m > 0 {
        int_text(m) + " minutes and "@ + int_text(sec) + " seconds"@
    } else {
        int_text(sec) + " seconds"@
    }
}

/// Rust's `%` on an `i64` by a positive divisor below 2^32.
fn rem_toward_zero(a: i64, b: i64) -> (r: i64)
    requires
        0 < b < 0x1_0000_0000,
    ensures
        r == trunc_rem(a as int, b as int),
        -b < r < b,
{
    if a >= 0 {
        ((a as u64) % (b as u64)) as i64
    } else {
        let magnitude: u64 = (0i128 - a as i128) as u64;
        0 - ((magnitude % (b as u64)) as i64)
    }
}

/// Renders a wait given in seconds for people, e.g. "2 hours, 5 minutes,
/// and 3 seconds", "5 minutes and 0 seconds" or "42 seconds".
pub fn seconds_to_human_readable(seconds: i64) -> (r: String)
    ensures
        r@ == human_duration(seconds as int),
{
    let hours: i64 = if seconds >= 3600 {
        ((seconds as u64) / 3600) as i64
    } else {
        0
    };
    let remainder_minutes_as_seconds = rem_toward_zero(seconds, 3600);
    let minutes: i64 = if remainder_minutes_as_seconds >= 60 {
        ((remainder_minutes_as_seconds as u64) / 60) as i64
    } else {
        0
    };
    let secs = rem_toward_zero(remainder_minutes_as_seconds, 60);
    assert(hours == hours_part(seconds as int));
    assert(minutes == minutes_part(seconds as int));
    assert(secs == seconds_part(seconds as int));
    let mut out = String::new();
    if hours > 0 {
        push_int(&mut out, hours);
        out.append(" hours, ");
        push_int(&mut out, minutes);
        out.append(" minutes, and ");
        push_int(&mut out, secs);
        out.append(" seconds");
    } else if minutes > 0 {
        push_int(&mut out, minutes);
        out.append(" minutes and ");
        push_int(&mut out, secs);
        out.append(" seconds");
    } else {
        push_int(&mut out, secs);
        out.append(" seconds");
    }
    assert(out@ =~= human_duration(seconds as int));
    out
}

/// For a wait that is not negative, the hours, minutes and seconds that the
/// text shows add back up to the wait, with minutes and seconds below 60.
pub proof fn lemma_human_duration_parts(s: int)
    requires
        0 <= s,
    ensures
        3600 * hours_part(s) + 60 * minutes_part(s) + seconds_part(s) == s,
        0 <= hours_part(s),
        0 <= minutes_part(s) < 60,
        0 <= seconds_part(s) < 60,
{
    let r = s % 3600;
    assert(s == 3600 * (s / 3600) + r);
    assert(r == 60 * (r / 60) + r % 60);
    assert(r % 60 == trunc_rem(r, 60));
}

/// The numbers read from a text, with zeros put before them to make three:
/// hours, minutes and seconds, where the text names fewer units.
pub open spec fn as_three(ns: Seq<int>) -> Seq<int> {
    Seq::new((3 - ns.len()) as nat, |i: int| 0int) + ns
}

/// A text between the numbers of a wait holds no digit.
proof fn lemma_unit_words_hold_no_number(t: Seq<char>)
    requires
        t.len() > 0,
        forall|i: int| 0 <= i < t.len() ==> !is_digit(#[trigger] t[i]),
    ensures
        numbers(t) == Seq::<int>::empty(),
        !is_digit(t[0]),
        !is_digit(t.last()),
{
    lemma_numbers_none(t);
}

/// Joining a text that ends in a digit or holds none with a text of unit
/// words, or the reverse, adds up their numbers.
proof fn lemma_join(a: Seq<char>, b: Seq<char>)
    requires
        a.len() > 0,
        b.len() > 0,
        !is_digit(a.last()) || !is_digit(b[0]),
    ensures
        numbers(a + b) == numbers(a) + numbers(b),
        (a + b).last() == b.last(),
{
    lemma_numbers_append(a, b);
}

/// Reading the numbers back out of the text for a wait of `s` seconds, and
/// taking them as hours, minutes and seconds (with zeros before them where
/// the text names fewer units), gives back `s`: there are one to three
/// numbers, minutes and seconds are below 60, the hours are shown only when
/// there are some, and the minutes, when no hours are shown, only when
/// there are some.
pub proof fn lemma_wait_text_reads_back(s: int)
    requires
        0 <= s,
    ensures
        1 <= numbers(human_duration(s)).len() <= 3,
        as_three(numbers(human_duration(s))).len() == 3,
        3600 * as_three(numbers(human_duration(s)))[0] + 60 * as_three(numbers(human_duration(s)))[1]
            + as_three(numbers(human_duration(s)))[2] == s,
        0 <= as_three(numbers(human_duration(s)))[1] < 60,
        0 <= as_three(numbers(human_duration(s)))[2] < 60,
        numbers(human_duration(s)).len() == 3 ==> as_three(numbers(human_duration(s)))[0] > 0,
        numbers(human_duration(s)).len() == 2 ==> as_three(numbers(human_duration(s)))[1] > 0,
{
    lemma_human_duration_parts(s);
    let h = hours_part(s);
    let m = minutes_part(s);
    let sec = seconds_part(s);
    reveal_strlit(" hours, ");
    reveal_strlit(" minutes, and ");
    reveal_strlit(" minutes and ");
    reveal_strlit(" seconds");
    let l_hours = " hours, "@;
    let l_minutes = " minutes, and "@;
    let l_minutes_short = " minutes and "@;
    let l_seconds = " seconds"@;
    lemma_unit_words_hold_no_number(l_hours);
    lemma_unit_words_hold_no_number(l_minutes);
    lemma_unit_words_hold_no_number(l_minutes_short);
    lemma_unit_words_hold_no_number(l_seconds);
    lemma_nat_text_reads_back(h as nat);
    lemma_nat_text_reads_back(m as nat);
    lemma_nat_text_reads_back(sec as nat);
    let th = nat_text(h as nat);
    let tm = nat_text(m as nat);
    let ts = nat_text(sec as nat);
    assert(int_text(h) == th);
    assert(int_text(m) == tm);
    assert(int_text(sec) == ts);
    let ns = numbers(human_duration(s));
    if h > 0 {
        lemma_join(th, l_hours);
        lemma_join(th + l_hours, tm);
        lemma_join(th + l_hours + tm, l_minutes);
        lemma_join(th + l_hours + tm + l_minutes, ts);
        lemma_join(th + l_hours + tm + l_minutes + ts, l_seconds);
        assert(ns =~= seq![h, m, sec]);
        assert(as_three(ns) =~= ns);
    } else if m > 0 {
        lemma_join(tm, l_minutes_short);
        lemma_join(tm + l_minutes_short, ts);
        lemma_join(tm + l_minutes_short + ts, l_seconds);
        assert(ns =~= seq![m, sec]);
        assert(as_three(ns) =~= seq![0, m, sec]);
    } else {
        lemma_join(ts, l_seconds);
        assert(ns =~= seq![sec]);
        assert(as_three(ns) =~= seq![0, 0, sec]);
    }
}

} // verus!
