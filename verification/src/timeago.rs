//! How long ago something happened, in words.

use vstd::prelude::*;
use vstd::string::StringExecFns;

verus! {

pub const MINUTE_SECS: i64 = 60;

pub const HOUR_SECS: i64 = 3600;

pub const DAY_SECS: i64 = 86400;

/// The character of a decimal digit.
pub open spec fn digit(d: int) -> char
    recommends
        0 <= d < 10,
{
    ((48 + d) as u8) as char
}

/// A natural number in decimal, without leading zeros.
pub open spec fn decimal(n: nat) -> Seq<char>
    decreases n,
{
    if n < 10 {
        seq![digit(n as int)]
    } else {
        decimal(n / 10).push(digit((n % 10) as int))
    }
}

/// A count with its unit, in the plural unless the count is one.
pub open spec fn counted(n: nat, unit: Seq<char>) -> Seq<char> {
    decimal(n) + " "@ + unit + (if n == 1 {
        ""@
    } else {
        "s"@
    }) + " ago"@
}

/// How long ago `elapsed` seconds are, in the largest unit that fits.
pub open spec fn time_ago(elapsed: int) -> Seq<char> {
    if elapsed < MINUTE_SECS {
        "just now"@
    } else if elapsed < HOUR_SECS {
        counted((elapsed / MINUTE_SECS as int) as nat, "minute"@)
    } else if elapsed < DAY_SECS {
        counted((elapsed / HOUR_SECS as int) as nat, "hour"@)
    } else {
        counted((elapsed / DAY_SECS as int) as nat, "day"@)
    }
}

/// Collects characters into a `String` (`String::from_iter`): the text holds
/// the characters of the vector, in order.
#[verifier::external_body]
fn text_of(chars: &Vec<char>) -> (text: String)
    ensures
        text@ == chars@,
{
    chars.iter().collect()
}

/// A number in decimal.
pub fn decimal_text(n: u64) -> (text: String)
    ensures
        text@ == decimal(n as nat),
{
    let mut reversed: Vec<char> = Vec::new();
    let mut rest: u64 = n;
    while rest >= 10
        invariant
            forall|head: Seq<char>|
                #![trigger head + reversed@.reverse()]
                head == decimal(rest as nat) ==> head + reversed@.reverse() == decimal(n as nat),
        decreases rest,
    {
        let d: u8 = (rest % 10) as u8;
        let ghost before = reversed@;
        let ghost whole = rest;
        reversed.push((48u8 + d) as char);
        rest = rest / 10;
        proof {
            assert forall|head: Seq<char>|
                #![trigger head + reversed@.reverse()]
                head == decimal(rest as nat) implies head + reversed@.reverse() == decimal(
                n as nat,
            ) by {
                let c = digit((whole % 10) as int);
                assert(reversed@.reverse() =~= seq![c] + before.reverse());
                assert(head + reversed@.reverse() =~= head.push(c) + before.reverse());
                assert(head.push(c) == decimal(whole as nat));
            }
        }
    }
    let last: u8 = rest as u8;
    let ghost before = reversed@;
    reversed.push((48u8 + last) as char);
    let mut digits: Vec<char> = Vec::new();
    let mut i: usize = reversed.len();
    proof {
        let head = decimal(rest as nat);
        assert(reversed@.reverse() =~= head + before.reverse());
        assert(reversed@.reverse() == decimal(n as nat));
    }
    while i > 0
        invariant
            i <= reversed.len(),
            digits@ == reversed@.reverse().take((reversed.len() - i) as int),
        decreases i,
    {
        i -= 1;
        digits.push(reversed[i]);
        assert(digits@ =~= reversed@.reverse().take((reversed.len() - i) as int));
    }
    assert(digits@ =~= reversed@.reverse());
    text_of(&digits)
}

/// A count with its unit and the word "ago".
fn counted_text(n: u64, unit: &str) -> (text: String)
    ensures
        text@ == counted(n as nat, unit@),
{
    let mut text = decimal_text(n);
    text.append(" ");
    text.append(unit);
    if n != 1 {
        text.append("s");
    }
    text.append(" ago");
    proof {
        reveal_strlit("");
        assert(text@ =~= counted(n as nat, unit@));
    }
    text
}

/// How long before `now_secs` the instant `created_secs` lies, in words:
/// "just now" under a minute (and for an instant that is yet to come), then
/// whole minutes, whole hours, whole days.
pub fn format_time_ago(now_secs: i64, created_secs: i64) -> (text: String)
    ensures
        text@ == time_ago(now_secs - created_secs),
{
    let elapsed: i128 = now_secs as i128 - created_secs as i128;
    if elapsed < MINUTE_SECS as i128 {
        String::from_str("just now")
    } else if elapsed < HOUR_SECS as i128 {
        counted_text((elapsed / MINUTE_SECS as i128) as u64, "minute")
    } else if elapsed < DAY_SECS as i128 {
        counted_text((elapsed / HOUR_SECS as i128) as u64, "hour")
    } else {
        counted_text((elapsed / DAY_SECS as i128) as u64, "day")
    }
}

} // verus!
