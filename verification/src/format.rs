//! Rendering elapsed time as text.
//!
//! The stopwatch shows two fields side by side: `MM:SS` (zero-padded, the
//! minutes growing past two digits naturally, the seconds always `00`–`59`)
//! and a separate `:mmm` millisecond field (always three digits). Both are
//! produced here from a plain nanosecond count.

use vstd::prelude::*;

verus! {

pub const NANOS_PER_SECOND: u128 = 1_000_000_000;

pub const NANOS_PER_MILLI: u128 = 1_000_000;

pub const SECONDS_PER_MINUTE: u128 = 60;

pub const MILLIS_PER_SECOND: u128 = 1000;

/// The character for one decimal digit.
pub open spec fn spec_digit_char(d: int) -> char {
    if d == 0 {
        '0'
    } else if d == 1 {
        '1'
    } else if d == 2 {
        '2'
    } else if d == 3 {
        '3'
    } else if d == 4 {
        '4'
    } else if d == 5 {
        '5'
    } else if d == 6 {
        '6'
    } else if d == 7 {
        '7'
    } else if d == 8 {
        '8'
    } else {
        '9'
    }
}

/// The decimal digits of `n`, most significant first, with no leading zeros
/// (a single `'0'` for zero).
pub open spec fn spec_decimal(n: nat) -> Seq<char>
    decreases n,
{
    if n < 10 {
        seq![spec_digit_char(n as int)]
    } else {
        spec_decimal(n / 10).push(spec_digit_char((n % 10) as int))
    }
}

/// `digits` left-padded with `'0'` up to `width` characters; digits that are
/// already wide enough are unchanged.
pub open spec fn spec_zero_pad(digits: Seq<char>, width: nat) -> Seq<char> {
    if digits.len() >= width {
        digits
    } else {
        Seq::new((width - digits.len()) as nat, |i: int| '0') + digits
    }
}

/// `n` in decimal, zero-padded to at least `width` characters.
pub open spec fn spec_padded_decimal(n: nat, width: nat) -> Seq<char> {
    spec_zero_pad(spec_decimal(n), width)
}

/// The `MM:SS` field for an elapsed time of `nanos` nanoseconds: whole
/// minutes (at least two digits), a colon, then the seconds within the
/// current minute (exactly two digits).
pub open spec fn spec_minutes_seconds(nanos: u128) -> Seq<char> {
    let secs = nanos as nat / NANOS_PER_SECOND as nat;
    spec_padded_decimal(secs / SECONDS_PER_MINUTE as nat, 2) + seq![':'] + spec_padded_decimal(
        secs % SECONDS_PER_MINUTE as nat,
        2,
    )
}

/// The `:mmm` field for an elapsed time of `nanos` nanoseconds: a colon, then
/// the milliseconds within the current second, exactly three digits.
pub open spec fn spec_millis_field(nanos: u128) -> Seq<char> {
    seq![':'] + spec_padded_decimal(
        (nanos as nat / NANOS_PER_MILLI as nat) % MILLIS_PER_SECOND as nat,
        3,
    )
}

/// A one-character string for the digit `d`.
fn digit_str(d: u128) -> (s: &'static str)
    requires
        d < 10,
    ensures
        s@ == seq![spec_digit_char(d as int)],
{
    if d == 0 {
        proof {
            reveal_strlit("0");
            assert("0"@ =~= seq!['0']);
        }
        "0"
    } else if d == 1 {
        proof {
            reveal_strlit("1");
            assert("1"@ =~= seq!['1']);
        }
        "1"
    } else if d == 2 {
        proof {
            reveal_strlit("2");
            assert("2"@ =~= seq!['2']);
        }
        "2"
    } else if d == 3 {
        proof {
            reveal_strlit("3");
            assert("3"@ =~= seq!['3']);
        }
        "3"
    } else if d == 4 {
        proof {
            reveal_strlit("4");
            assert("4"@ =~= seq!['4']);
        }
        "4"
    } else if d == 5 {
        proof {
            reveal_strlit("5");
            assert("5"@ =~= seq!['5']);
        }
        "5"
    } else if d == 6 {
        proof {
            reveal_strlit("6");
            assert("6"@ =~= seq!['6']);
        }
        "6"
    } else if d == 7 {
        proof {
            reveal_strlit("7");
            assert("7"@ =~= seq!['7']);
        }
        "7"
    } else if d == 8 {
        proof {
            reveal_strlit("8");
            assert("8"@ =~= seq!['8']);
        }
        "8"
    } else {
        proof {
            reveal_strlit("9");
            assert("9"@ =~= seq!['9']);
        }
        "9"
    }
}

/// `n` in decimal with no padding.
pub fn decimal_string(n: u128) -> (s: String)
    ensures
        s@ == spec_decimal(n as nat),
    decreases n,
{
    if n < 10 {
        String::from_str(digit_str(n))
    } else {
        let mut s = decimal_string(n / 10);
        s.append(digit_str(n % 10));
        proof {
            assert(s@ =~= spec_decimal(n as nat));
        }
        s
    }
}

/// The length of a decimal rendering grows with the number.
pub proof fn lemma_decimal_len(n: nat)
    ensures
        spec_decimal(n).len() >= 1,
        n < 10 ==> spec_decimal(n).len() == 1,
        10 <= n < 100 ==> spec_decimal(n).len() == 2,
        n >= 100 ==> spec_decimal(n).len() >= 3,
    decreases n,
{
    if n >= 10 {
        lemma_decimal_len(n / 10);
    }
}

/// `n` in decimal, zero-padded to at least two characters.
pub fn two_digit_string(n: u128) -> (s: String)
    ensures
        s@ == spec_padded_decimal(n as nat, 2),
{
    proof {
        lemma_decimal_len(n as nat);
    }
    if n < 10 {
        let mut s = String::from_str("0");
        s.append(digit_str(n));
        proof {
            reveal_strlit("0");
            assert(s@ =~= spec_padded_decimal(n as nat, 2));
        }
        s
    } else {
        decimal_string(n)
    }
}

/// `n` in decimal, zero-padded to at least three characters.
pub fn three_digit_string(n: u128) -> (s: String)
    ensures
        s@ == spec_padded_decimal(n as nat, 3),
{
    proof {
        lemma_decimal_len(n as nat);
    }
    if n < 10 {
        let mut s = String::from_str("00");
        s.append(digit_str(n));
        proof {
            reveal_strlit("00");
            assert(s@ =~= spec_padded_decimal(n as nat, 3));
        }
        s
    } else if n < 100 {
        let mut s = String::from_str("0");
        s.append(decimal_string(n).as_str());
        proof {
            reveal_strlit("0");
            assert(s@ =~= spec_padded_decimal(n as nat, 3));
        }
        s
    } else {
        decimal_string(n)
    }
}

/// Render the `MM:SS` field of an elapsed time given in nanoseconds.
pub fn format_minutes_seconds(nanos: u128) -> (s: String)
    ensures
        s@ == spec_minutes_seconds(nanos),
{
    let secs: u128 = nanos / NANOS_PER_SECOND;
    let minutes: u128 = secs / SECONDS_PER_MINUTE;
    let within: u128 = secs % SECONDS_PER_MINUTE;
    let mut s = two_digit_string(minutes);
    s.append(":");
    s.append(two_digit_string(within).as_str());
    proof {
        reveal_strlit(":");
        assert(":"@ =~= seq![':']);
        assert(s@ =~= spec_minutes_seconds(nanos));
    }
    s
}

/// Render the `:mmm` field of an elapsed time given in nanoseconds.
pub fn format_millis_field(nanos: u128) -> (s: String)
    ensures
        s@ == spec_millis_field(nanos),
{
    let millis: u128 = (nanos / NANOS_PER_MILLI) % MILLIS_PER_SECOND;
    let mut s = String::from_str(":");
    s.append(three_digit_string(millis).as_str());
    proof {
        reveal_strlit(":");
        assert(":"@ =~= seq![':']);
        assert(s@ =~= spec_millis_field(nanos));
    }
    s
}

} // verus!

