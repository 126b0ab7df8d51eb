//! Decimal renderings and parsings of integers, as the wire formats of
//! payment processors want them: amounts and numeric codes as digit
//! strings, version components read back from digit strings.

use vstd::prelude::*;

verus! {

/// The character for one decimal digit value.
pub open spec fn digit_char(d: int) -> char {
    if d == 0 {
        '0'
    } else if d == 1 {
        '1'
    } else if d == 2 {
        '2'
    } else if d == 3 {
        '3'
    } else if d == 4 {
        '4'
    } else if d == 5 {
        '5'
    } else if d == 6 {
        '6'
    } else if d == 7 {
        '7'
    } else if d == 8 {
        '8'
    } else {
        '9'
    }
}

/// The decimal digits of a natural number, most significant first,
/// without leading zeros (a single `'0'` for zero).
pub open spec fn dec_digits(n: nat) -> Seq<char>
    decreases n,
{
    if n < 10 {
        seq![digit_char(n as int)]
    } else {
        dec_digits(n / 10).push(digit_char((n % 10) as int))
    }
}

/// The decimal rendering of an integer: its digits, with a leading `'-'`
/// when it is negative.
pub open spec fn dec_str(n: int) -> Seq<char> {
    if n >= 0 {
        dec_digits(n as nat)
    } else {
        seq!['-'] + dec_digits((-n) as nat)
    }
}

/// Whether a character is a decimal digit.
pub open spec fn is_dec_digit(c: char) -> bool {
    48 <= c as u32 <= 57
}

/// The value of one decimal digit character.
pub open spec fn digit_val(c: char) -> nat
    recommends
        is_dec_digit(c),
{
    (c as u32 - 48) as nat
}

/// Whether every character of the sequence is a decimal digit.
pub open spec fn all_digits(s: Seq<char>) -> bool {
    forall|i: int| 0 <= i < s.len() ==> is_dec_digit(#[trigger] s[i])
}

/// The natural number a sequence of decimal digits denotes.
pub open spec fn seq_to_nat(s: Seq<char>) -> nat
    decreases s.len(),
{
    if s.len() == 0 {
        0
    } else {
        seq_to_nat(s.drop_last()) * 10 + digit_val(s.last())
    }
}

/// What reading a decimal integer out of a character sequence yields:
/// an optional sign, then at least one digit, and a value that fits in
/// an `i64`; anything else is rejected.
pub open spec fn spec_parse_i64(s: Seq<char>) -> Option<i64> {
    let neg = s.len() > 0 && s[0] == '-';
    let digits = if s.len() > 0 && (s[0] == '-' || s[0] == '+') {
        s.drop_first()
    } else {
        s
    };
    if digits.len() == 0 || !all_digits(digits) {
        None
    } else if neg {
        if seq_to_nat(digits) <= i64::MAX as int + 1 {
            Some((-(seq_to_nat(digits) as int)) as i64)
        } else {
            None
        }
    } else {
        if seq_to_nat(digits) <= i64::MAX as int {
            Some(seq_to_nat(digits) as i64)
        } else {
            None
        }
    }
}

/// The denoted value never shrinks as a digit sequence is extended.
pub proof fn lemma_seq_to_nat_prefix_le(s: Seq<char>, i: int, j: int, k: int)
    requires
        0 <= i <= j <= k <= s.len(),
    ensures
        seq_to_nat(s.subrange(i, j)) <= seq_to_nat(s.subrange(i, k)),
    decreases k - j,
{
    if j < k {
        assert(s.subrange(i, j + 1).drop_last() =~= s.subrange(i, j));
        assert(seq_to_nat(s.subrange(i, j + 1)) == seq_to_nat(s.subrange(i, j)) * 10 + digit_val(
            s[j],
        ));
        lemma_seq_to_nat_prefix_le(s, i, j + 1, k);
    }
}

fn digit_to_str(d: u64) -> (r: &'static str)
    requires
        d < 10,
    ensures
        r@ == seq![digit_char(d as int)],
{
    match d {
        0 => {
            proof {
                reveal_strlit("0");
                assert("0"@ =~= seq![digit_char(0)]);
            }
            "0"
        },
        1 => {
            proof {
                reveal_strlit("1");
                assert("1"@ =~= seq![digit_char(1)]);
            }
            "1"
        },
        2 => {
            proof {
                reveal_strlit("2");
                assert("2"@ =~= seq![digit_char(2)]);
            }
            "2"
        },
        3 => {
            proof {
                reveal_strlit("3");
                assert("3"@ =~= seq![digit_char(3)]);
            }
            "3"
        },
        4 => {
            proof {
                reveal_strlit("4");
                assert("4"@ =~= seq![digit_char(4)]);
            }
            "4"
        },
        5 => {
            proof {
                reveal_strlit("5");
                assert("5"@ =~= seq![digit_char(5)]);
            }
            "5"
        },
        6 => {
            proof {
                reveal_strlit("6");
                assert("6"@ =~= seq![digit_char(6)]);
            }
            "6"
        },
        7 => {
            proof {
                reveal_strlit("7");
                assert("7"@ =~= seq![digit_char(7)]);
            }
            "7"
        },
        8 => {
            proof {
                reveal_strlit("8");
                assert("8"@ =~= seq![digit_char(8)]);
            }
            "8"
        },
        _ => {
            proof {
                reveal_strlit("9");
                assert("9"@ =~= seq![digit_char(9)]);
            }
            "9"
        },
    }
}

/// The decimal rendering of an unsigned 64-bit integer.
pub fn u64_to_dec_string(n: u64) -> (r: String)
    ensures
        r@ == dec_digits(n as nat),
    decreases n,
{
    if n < 10 {
        digit_to_str(n).to_owned()
    } else {
        let mut s = u64_to_dec_string(n / 10);
        s.append(digit_to_str(n % 10));
        proof {
            assert(dec_digits((n as nat) / 10) + seq![digit_char((n % 10) as int)] =~= dec_digits(
                (n as nat) / 10,
            ).push(digit_char((n % 10) as int)));
        }
        s
    }
}

/// The decimal rendering of a signed 64-bit integer.
pub fn i64_to_dec_string(n: i64) -> (r: String)
    ensures
        r@ == dec_str(n as int),
{
    if n >= 0 {
        u64_to_dec_string(n as u64)
    } else {
        let mag: u64 = ((-(n + 1)) as u64) + 1;
        let mut s = "-".to_owned();
        let digits = u64_to_dec_string(mag);
        s.append(digits.as_str());
        proof {
            reveal_strlit("-");
            assert("-"@ + dec_digits(mag as nat) =~= seq!['-'] + dec_digits((-(n as int)) as nat));
        }
        s
    }
}

/// Reads a decimal integer out of the character range `[from, to)` of `s`,
/// exactly as [`spec_parse_i64`] describes: an optional sign, then at
/// least one digit, value within the `i64` range.
#[verifier::loop_isolation(false)]
pub fn parse_i64_range(s: &str, from: usize, to: usize) -> (r: Option<i64>)
    requires
        from <= to <= s@.len(),
    ensures
        r == spec_parse_i64(s@.subrange(from as int, to as int)),
{
    let ghost seg = s@.subrange(from as int, to as int);
    let mut i = from;
    let mut neg = false;
    if i < to {
        let c = s.get_char(i);
        if c == '-' {
            neg = true;
            i = i + 1;
        } else if c == '+' {
            i = i + 1;
        }
    }
    let ghost digits = s@.subrange(i as int, to as int);
    proof {
        if i > from {
            assert(digits =~= seg.drop_first());
        } else {
            assert(digits =~= seg);
        }
    }
    if i == to {
        return None;
    }
    let limit: u64 = if neg {
        9223372036854775808u64
    } else {
        9223372036854775807u64
    };
    let mut acc: u64 = 0;
    let mut j = i;
    while j < to
        invariant
            from <= i <= j <= to <= s@.len(),
            digits == s@.subrange(i as int, to as int),
            all_digits(s@.subrange(i as int, j as int)),
            acc == seq_to_nat(s@.subrange(i as int, j as int)),
            acc <= limit,
            limit == if neg {
                9223372036854775808u64
            } else {
                9223372036854775807u64
            },
        decreases to - j,
    {
        let c = s.get_char(j);
        let cv = c as u32;
        if cv < 48 || cv > 57 {
            proof {
                assert(digits[j - i] == s@[j as int]);
                assert(!is_dec_digit(digits[j - i]));
            }
            return None;
        }
        let d = (cv - 48) as u64;
        let wide: u128 = (acc as u128) * 10 + (d as u128);
        proof {
            assert(s@.subrange(i as int, j + 1).drop_last() =~= s@.subrange(i as int, j as int));
            assert(s@.subrange(i as int, j + 1).last() == s@[j as int]);
            assert(seq_to_nat(s@.subrange(i as int, j + 1)) == acc * 10 + digit_val(s@[j as int]));
        }
        if wide > limit as u128 {
            proof {
                lemma_seq_to_nat_prefix_le(s@, i as int, j + 1, to as int);
                assert(seq_to_nat(digits) > limit);
            }
            return None;
        }
        proof {
            assert forall|l: int| 0 <= l < j + 1 - i implies is_dec_digit(
                #[trigger] s@.subrange(i as int, j + 1)[l],
            ) by {
                if l < j - i {
                    assert(s@.subrange(i as int, j + 1)[l] == s@.subrange(i as int, j as int)[l]);
                } else {
                    assert(s@.subrange(i as int, j + 1)[l] == s@[j as int]);
                }
            }
        }
        acc = wide as u64;
        j = j + 1;
    }
    proof {
        assert(s@.subrange(i as int, j as int) =~= digits);
    }
    if neg {
        if acc == 9223372036854775808u64 {
            Some(i64::MIN)
        } else {
            Some(-(acc as i64))
        }
    } else {
        Some(acc as i64)
    }
}

/// The position of the first `'.'` at or after `from`, if any.
pub open spec fn first_dot_at(s: Seq<char>, from: int) -> Option<int>
    decreases s.len() - from,
{
    if !(0 <= from < s.len()) {
        None
    } else if s[from] == '.' {
        Some(from)
    } else {
        first_dot_at(s, from + 1)
    }
}

/// Finds the first `'.'` at or after `from`, as [`first_dot_at`] describes.
pub fn find_dot_from(s: &str, from: usize) -> (r: Option<usize>)
    requires
        from <= s@.len(),
    ensures
        match r {
            Some(k) => first_dot_at(s@, from as int) == Some(k as int) && from <= k < s@.len(),
            None => first_dot_at(s@, from as int) is None,
        },
{
    let n = s.unicode_len();
    let mut i = from;
    while i < n
        invariant
            from <= i <= n,
            n == s@.len(),
            first_dot_at(s@, from as int) == first_dot_at(s@, i as int),
        decreases n - i,
    {
        if s.get_char(i) == '.' {
            return Some(i);
        }
        i = i + 1;
    }
    None
}

} // verus!
