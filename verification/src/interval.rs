//! The sampling interval from the command line: whole seconds, with a
//! silent fallback to the default on anything unparsable, too large,
//! or below one tick per interval.

use vstd::prelude::*;
use vstd::string::StrSliceExecFns;

verus! {

/// The default sampling interval, in seconds.
pub const DEFAULT_INTERVAL_SECS: u64 = 10;

/// Whether `c` is a decimal digit.
pub open spec fn is_digit(c: char) -> bool {
    c == '0' || c == '1' || c == '2' || c == '3' || c == '4' || c == '5' || c == '6' || c == '7'
        || c == '8' || c == '9'
}

/// The value of the digit `c`.
pub open spec fn digit_val(c: char) -> nat {
    if c == '0' {
        0
    } else if c == '1' {
        1
    } else if c == '2' {
        2
    } else if c == '3' {
        3
    } else if c == '4' {
        4
    } else if c == '5' {
        5
    } else if c == '6' {
        6
    } else if c == '7' {
        7
    } else if c == '8' {
        8
    } else {
        9
    }
}

/// Whether every character of `s` is a decimal digit.
pub open spec fn all_digits(s: Seq<char>) -> bool {
    forall|i: int| 0 <= i < s.len() ==> is_digit(s[i])
}

/// The number denoted by the digit string `s` (0 for the empty string).
pub open spec fn dec_value(s: Seq<char>) -> nat
    decreases s.len(),
{
    if s.len() == 0 {
        0
    } else {
        dec_value(s.drop_last()) * 10 + digit_val(s.last())
    }
}

/// Whether `s` is an interval the agent accepts as given: a non-empty
/// digit string denoting at least one second and fitting a `u64`.
pub open spec fn valid_interval(s: Seq<char>) -> bool {
    s.len() > 0 && all_digits(s) && 1 <= dec_value(s) <= u64::MAX
}

/// Longer digit prefixes denote no smaller a number.
proof fn lemma_dec_value_mono(s: Seq<char>, i: int, j: int)
    requires
        0 <= i <= j <= s.len(),
    ensures
        dec_value(s.subrange(0, i)) <= dec_value(s.subrange(0, j)),
    decreases j - i,
{
    if i < j {
        lemma_dec_value_mono(s, i, j - 1);
        assert(s.subrange(0, j).drop_last() =~= s.subrange(0, j - 1));
        assert(dec_value(s.subrange(0, j)) == dec_value(s.subrange(0, j - 1)) * 10 + digit_val(
            s.subrange(0, j).last(),
        ));
    }
}

/// Parses the interval argument: a well-formed count of seconds is
/// taken as given; anything else — empty, non-numeric, zero, or too
/// large for a `u64` — falls back to the default rather than failing
/// startup.
pub fn parse_interval(s: &str) -> (r: u64)
    ensures
        r == if valid_interval(s@) {
            dec_value(s@) as u64
        } else {
            DEFAULT_INTERVAL_SECS
        },
{
    let n = s.unicode_len();
    if n == 0 {
        return DEFAULT_INTERVAL_SECS;
    }
    let mut acc: u64 = 0;
    let mut i: usize = 0;
    while i < n
        invariant
            i <= n,
            n == s@.len(),
            all_digits(s@.subrange(0, i as int)),
            acc == dec_value(s@.subrange(0, i as int)),
        decreases n - i,
    {
        let c = s.get_char(i);
        proof {
            assert(s@.subrange(0, i as int + 1).drop_last() =~= s@.subrange(0, i as int));
            assert(s@.subrange(0, i as int + 1).last() == s@[i as int]);
        }
        let d: u64 = if c == '0' {
            0
        } else if c == '1' {
            1
        } else if c == '2' {
            2
        } else if c == '3' {
            3
        } else if c == '4' {
            4
        } else if c == '5' {
            5
        } else if c == '6' {
            6
        } else if c == '7' {
            7
        } else if c == '8' {
            8
        } else if c == '9' {
            9
        } else {
            proof {
                assert(!is_digit(s@[i as int]));
            }
            return DEFAULT_INTERVAL_SECS;
        };
        if acc > (u64::MAX - d) / 10 {
            proof {
                let prefix = s@.subrange(0, i as int + 1);
                assert(dec_value(prefix) == acc * 10 + d);
                assert(acc * 10 + d > u64::MAX) by (nonlinear_arith)
                    requires
                        acc > (u64::MAX - d) / 10,
                        d <= 9,
                        acc <= u64::MAX,
                ;
                lemma_dec_value_mono(s@, i as int + 1, s@.len() as int);
                assert(s@.subrange(0, s@.len() as int) =~= s@);
                assert(dec_value(s@) > u64::MAX);
            }
            return DEFAULT_INTERVAL_SECS;
        }
        proof {
            assert(acc * 10 + d <= u64::MAX) by (nonlinear_arith)
                requires
                    acc <= (u64::MAX - d) / 10,
                    d <= 9,
            ;
        }
        acc = acc * 10 + d;
        i = i + 1;
    }
    proof {
        assert(s@.subrange(0, n as int) =~= s@);
    }
    if acc == 0 {
        return DEFAULT_INTERVAL_SECS;
    }
    acc
}

} // verus!
