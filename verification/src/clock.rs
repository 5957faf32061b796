//! The wall clock, and instants as text.

use vstd::prelude::*;
use crate::text::{decimal_text, digit_char};

verus! {

/// The current instant, in milliseconds since the Unix epoch, read with
/// `chrono::Utc::now` and `DateTime::timestamp_millis`. The clock is read
/// anew at each call; all that is known of the result is that it does not lie
/// before the epoch.
#[verifier::external_body]
pub(crate) fn now_millis() -> (r: i64)
    ensures
        r >= 0,
{
    chrono::Utc::now().timestamp_millis()
}

/// `n` in two decimal digits, for `n` below one hundred.
pub open spec fn two_digits(n: int) -> Seq<char> {
    seq![digit_char((n / 10) as nat), digit_char((n % 10) as nat)]
}

/// The second of the day, in universal time, of an instant given in
/// milliseconds since the epoch.
pub open spec fn second_of_day(millis: int) -> int {
    (millis / 1000) % 86400
}

/// The time of day of an instant, in universal time, as `HH:MM:SS`.
pub open spec fn time_of_day(millis: int) -> Seq<char> {
    let s = second_of_day(millis);
    two_digits(s / 3600) + seq![':'] + two_digits((s % 3600) / 60) + seq![':'] + two_digits(s % 60)
}

fn two_digit_text(n: u64) -> (r: String)
    requires
        n < 100,
    ensures
        r@ == two_digits(n as int),
{
    let mut s = decimal_text(n / 10);
    let low = decimal_text(n % 10);
    s.append(low.as_str());
    proof {
        reveal_with_fuel(crate::text::decimal, 2);
        assert(s@ =~= two_digits(n as int));
    }
    s
}

/// Writes the time of day of an instant, in universal time, as `HH:MM:SS`.
pub fn time_of_day_text(millis: i64) -> (r: String)
    ensures
        r@ == time_of_day(millis as int),
        r@.len() == 8,
{
    let whole = millis.checked_div_euclid(1000);
    assert(whole == Some((millis as int / 1000) as i64));
    let secs: i64 = whole.unwrap();
    let rest = secs.checked_rem_euclid(86400);
    assert(rest == Some((secs as int % 86400) as i64));
    let s: i64 = rest.unwrap();
    assert(0 <= s < 86400);
    let h = (s / 3600) as u64;
    let m = ((s % 3600) / 60) as u64;
    let sec = (s % 60) as u64;
    let mut out = two_digit_text(h);
    proof {
        reveal_strlit(":");
    }
    out.append(":");
    let mt = two_digit_text(m);
    out.append(mt.as_str());
    out.append(":");
    let st = two_digit_text(sec);
    out.append(st.as_str());
    assert(out@ =~= time_of_day(millis as int));
    out
}

} // verus!
