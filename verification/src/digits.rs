//! Decimal reading and writing of integers, used by the canonical parameter
//! form, error messages, and duration formatting.

use vstd::prelude::*;

verus! {

/// The digit character for a value below ten.
pub open spec fn spec_digit_char(d: int) -> char {
    if d == 0 {
        '0'
    } else if d == 1 {
        '1'
    } else if d == 2 {
        '2'
    } else if d == 3 {
        '3'
    } else if d == 4 {
        '4'
    } else if d == 5 {
        '5'
    } else if d == 6 {
        '6'
    } else if d == 7 {
        '7'
    } else if d == 8 {
        '8'
    } else {
        '9'
    }
}

/// The decimal digits of a non-negative integer, most significant first,
/// with no leading zeros (zero itself reads "0").
pub open spec fn spec_dec_digits(n: int) -> Seq<char>
    decreases n,
{
    if n < 10 {
        seq![spec_digit_char(n)]
    } else {
        spec_dec_digits(n / 10).push(spec_digit_char(n % 10))
    }
}

/// The decimal reading of a signed integer: a minus sign for negative
/// values, then the digits of the magnitude.
pub open spec fn spec_dec_signed(n: int) -> Seq<char> {
    if n < 0 {
        seq!['-'] + spec_dec_digits(-n)
    } else {
        spec_dec_digits(n)
    }
}

/// Whether `c` is a decimal digit.
pub open spec fn spec_is_digit(c: char) -> bool {
    48 <= c as u32 <= 57
}

/// Whether every character of `s` is a decimal digit.
pub open spec fn spec_all_digits(s: Seq<char>) -> bool {
    forall|i: int| 0 <= i < s.len() ==> spec_is_digit(#[trigger] s[i])
}

/// The value of a sequence of decimal digits, most significant first.
pub open spec fn spec_dec_value(s: Seq<char>) -> int
    decreases s.len(),
{
    if s.len() == 0 {
        0
    } else {
        spec_dec_value(s.drop_last()) * 10 + (s.last() as u32 - 48)
    }
}

/// The value of a digit sequence is non-negative.
pub proof fn lemma_dec_value_nonneg(s: Seq<char>)
    requires
        spec_all_digits(s),
    ensures
        spec_dec_value(s) >= 0,
    decreases s.len(),
{
    if s.len() > 0 {
        assert(spec_all_digits(s.drop_last()));
        lemma_dec_value_nonneg(s.drop_last());
    }
}

/// Extending a digit sequence on the right never shrinks its value.
pub proof fn lemma_dec_value_prefix(s: Seq<char>, n: int)
    requires
        spec_all_digits(s),
        0 <= n <= s.len(),
    ensures
        spec_dec_value(s.take(n)) <= spec_dec_value(s),
    decreases s.len() - n,
{
    if n < s.len() {
        lemma_dec_value_prefix(s, n + 1);
        let t = s.take(n + 1);
        assert(t.drop_last() =~= s.take(n));
        assert(spec_all_digits(s.take(n)));
        lemma_dec_value_nonneg(s.take(n));
        assert(spec_dec_value(t) == spec_dec_value(s.take(n)) * 10 + (t.last() as u32 - 48));
    } else {
        assert(s.take(n) =~= s);
    }
}

/// The one-character string for a digit value.
pub fn digit_str(d: u8) -> (r: &'static str)
    requires
        d < 10,
    ensures
        r@ =~= seq![spec_digit_char(d as int)],
        r@.len() == 1,
{
    proof {
        reveal_strlit("0");
        reveal_strlit("1");
        reveal_strlit("2");
        reveal_strlit("3");
        reveal_strlit("4");
        reveal_strlit("5");
        reveal_strlit("6");
        reveal_strlit("7");
        reveal_strlit("8");
        reveal_strlit("9");
    }
    match d {
        0 => "0",
        1 => "1",
        2 => "2",
        3 => "3",
        4 => "4",
        5 => "5",
        6 => "6",
        7 => "7",
        8 => "8",
        _ => "9",
    }
}

/// The decimal reading of an unsigned integer.
pub fn u64_to_string(n: u64) -> (s: String)
    ensures
        s@ == spec_dec_digits(n as int),
    decreases n,
{
    if n < 10 {
        digit_str(n as u8).to_owned()
    } else {
        let mut s = u64_to_string(n / 10);
        s.append(digit_str((n % 10) as u8));
        proof {
            assert(s@ =~= spec_dec_digits(n as int));
        }
        s
    }
}

/// The decimal reading of a signed integer.
pub fn i64_to_string(n: i64) -> (s: String)
    ensures
        s@ == spec_dec_signed(n as int),
{
    if n >= 0 {
        u64_to_string(n as u64)
    } else {
        let magnitude: u64 = (-(n as i128)) as u64;
        let mut s = "-".to_owned();
        let digits = u64_to_string(magnitude);
        s.append(digits.as_str());
        proof {
            reveal_strlit("-");
            assert(("-")@ =~= seq!['-']);
        }
        s
    }
}

/// Reads an unsigned integer from a string of decimal digits. Fails on an
/// empty string, on any non-digit character, and on a value above `u64::MAX`.
pub fn parse_u64(s: &str) -> (r: Option<u64>)
    ensures
        match r {
            Some(v) => s@.len() > 0 && spec_all_digits(s@) && v == spec_dec_value(s@),
            None => s@.len() == 0 || !spec_all_digits(s@) || spec_dec_value(s@) > u64::MAX,
        },
{
    let len = s.unicode_len();
    if len == 0 {
        return None;
    }
    let mut acc: u64 = 0;
    let mut i: usize = 0;
    while i < len
        invariant
            0 <= i <= len,
            len == s@.len(),
            spec_all_digits(s@.take(i as int)),
            acc == spec_dec_value(s@.take(i as int)),
        decreases len - i,
    {
        let c = s.get_char(i);
        let u = c as u32;
        if u < 48 || u > 57 {
            assert(!spec_is_digit(s@[i as int]));
            return None;
        }
        let d = (u - 48) as u64;
        proof {
            assert(s@.take(i as int + 1).drop_last() =~= s@.take(i as int));
        }
        let next = match acc.checked_mul(10) {
            Some(m) => m.checked_add(d),
            None => None,
        };
        match next {
            Some(v) => {
                acc = v;
            },
            None => {
                proof {
                    assert(spec_all_digits(s@.take(i as int + 1)));
                    assert(spec_dec_value(s@.take(i as int + 1)) > u64::MAX);
                    lemma_all_digits_take_implies(s@, i as int + 1);
                    lemma_dec_value_prefix_or_overflow(s@, i as int + 1);
                }
                return None;
            },
        }
        i = i + 1;
    }
    proof {
        assert(s@.take(len as int) =~= s@);
    }
    Some(acc)
}

/// When a prefix of `s` already reads above `u64::MAX`, either some later
/// character is not a digit or the whole string reads above `u64::MAX`.
proof fn lemma_dec_value_prefix_or_overflow(s: Seq<char>, n: int)
    requires
        0 <= n <= s.len(),
        spec_all_digits(s.take(n)),
        spec_dec_value(s.take(n)) > u64::MAX,
    ensures
        !spec_all_digits(s) || spec_dec_value(s) > u64::MAX,
{
    if spec_all_digits(s) {
        lemma_dec_value_prefix(s, n);
    }
}

/// Digits in a prefix of an all-digit string stay digits.
proof fn lemma_all_digits_take_implies(s: Seq<char>, n: int)
    requires
        0 <= n <= s.len(),
    ensures
        spec_all_digits(s) ==> spec_all_digits(s.take(n)),
{
}

/// Whether `s` is a decimal numeral with an optional leading minus sign.
pub open spec fn spec_is_signed_digits(s: Seq<char>) -> bool {
    if s.len() == 0 {
        false
    } else if s[0] == '-' {
        s.len() > 1 && spec_all_digits(s.skip(1))
    } else {
        spec_all_digits(s)
    }
}

/// The value of a signed decimal numeral.
pub open spec fn spec_signed_value(s: Seq<char>) -> int {
    if s.len() > 0 && s[0] == '-' {
        -spec_dec_value(s.skip(1))
    } else {
        spec_dec_value(s)
    }
}

/// Reads a signed integer from a decimal string with an optional leading
/// minus sign. Fails exactly on strings that are not such numerals and on
/// values outside the `i64` range.
pub fn parse_i64(s: &str) -> (r: Option<i64>)
    ensures
        match r {
            Some(v) => spec_is_signed_digits(s@) && v == spec_signed_value(s@),
            None => !(spec_is_signed_digits(s@) && i64::MIN <= spec_signed_value(s@) <= i64::MAX),
        },
{
    let len = s.unicode_len();
    if len == 0 {
        return None;
    }
    let first = s.get_char(0);
    if first as u32 == 45 {
        proof {
            lemma_char_from_u32(first, '-', 45);
        }
        let rest = s.substring_char(1, len);
        proof {
            assert(rest@ =~= s@.skip(1));
        }
        match parse_u64(rest) {
            Some(v) => {
                if v <= 9_223_372_036_854_775_807u64 {
                    let out: i64 = -(v as i64);
                    Some(out)
                } else if v == 9_223_372_036_854_775_808u64 {
                    Some(i64::MIN)
                } else {
                    None
                }
            },
            None => {
                proof {
                    if spec_all_digits(s@.skip(1)) && s@.skip(1).len() > 0 {
                        lemma_dec_value_nonneg(s@.skip(1));
                    }
                }
                None
            },
        }
    } else {
        proof {
            assert(s@[0] as u32 != 45);
            assert('-' as u32 == 45);
            assert(s@[0] != '-');
        }
        match parse_u64(s) {
            Some(v) => {
                if v <= 9_223_372_036_854_775_807u64 {
                    Some(v as i64)
                } else {
                    None
                }
            },
            None => {
                proof {
                    if spec_all_digits(s@) {
                        lemma_dec_value_nonneg(s@);
                    }
                }
                None
            },
        }
    }
}

/// The signed decimal reading of an integer is a signed numeral whose value
/// is the integer.
pub proof fn lemma_dec_signed_round_trip(n: int)
    ensures
        spec_is_signed_digits(spec_dec_signed(n)),
        spec_signed_value(spec_dec_signed(n)) == n,
{
    if n < 0 {
        lemma_dec_round_trip(-n);
        let s = seq!['-'] + spec_dec_digits(-n);
        assert(s.skip(1) =~= spec_dec_digits(-n));
    } else {
        lemma_dec_round_trip(n);
        lemma_dec_digits_no_sign(n);
    }
}

/// The decimal digits of a non-negative integer never start with a sign.
pub proof fn lemma_dec_digits_no_sign(n: int)
    requires
        n >= 0,
    ensures
        spec_dec_digits(n)[0] != '-',
    decreases n,
{
    if n < 10 {
        assert(spec_digit_char(n) as u32 >= 48);
        assert('-' as u32 == 45);
        assert(spec_digit_char(n) != '-') by {
            if n == 0 {
                assert('0' as u32 == 48);
            } else if n == 1 {
                assert('1' as u32 == 49);
            } else if n == 2 {
                assert('2' as u32 == 50);
            } else if n == 3 {
                assert('3' as u32 == 51);
            } else if n == 4 {
                assert('4' as u32 == 52);
            } else if n == 5 {
                assert('5' as u32 == 53);
            } else if n == 6 {
                assert('6' as u32 == 54);
            } else if n == 7 {
                assert('7' as u32 == 55);
            } else if n == 8 {
                assert('8' as u32 == 56);
            } else {
                assert('9' as u32 == 57);
            }
        }
    } else {
        lemma_dec_digits_no_sign(n / 10);
        assert(spec_dec_digits(n)[0] == spec_dec_digits(n / 10)[0]);
    }
}

/// Two characters with the same scalar value are the same character.
proof fn lemma_char_from_u32(a: char, b: char, u: u32)
    requires
        a as u32 == u,
        b as u32 == u,
    ensures
        a == b,
{
    vstd::utf8::char_u32_cast(a, u);
    vstd::utf8::char_u32_cast(b, u);
}

/// Reading back the decimal digits of a non-negative integer yields the
/// integer.
pub proof fn lemma_dec_round_trip(n: int)
    requires
        n >= 0,
    ensures
        spec_all_digits(spec_dec_digits(n)),
        spec_dec_value(spec_dec_digits(n)) == n,
    decreases n,
{
    if n < 10 {
        assert(spec_dec_digits(n) =~= seq![spec_digit_char(n)]);
        let d = seq![spec_digit_char(n)];
        assert(d.drop_last() =~= Seq::<char>::empty());
        assert(d.len() == 1);
        assert(d.last() == spec_digit_char(n));
        assert(spec_dec_value(Seq::<char>::empty()) == 0);
        assert(spec_dec_value(d) == spec_dec_value(d.drop_last()) * 10 + (d.last() as u32 - 48));
        assert(spec_dec_value(d) == spec_digit_char(n) as u32 - 48);
        assert(spec_digit_char(n) as u32 == 48 + n) by {
            if n == 0 {
                assert('0' as u32 == 48);
            } else if n == 1 {
                assert('1' as u32 == 49);
            } else if n == 2 {
                assert('2' as u32 == 50);
            } else if n == 3 {
                assert('3' as u32 == 51);
            } else if n == 4 {
                assert('4' as u32 == 52);
            } else if n == 5 {
                assert('5' as u32 == 53);
            } else if n == 6 {
                assert('6' as u32 == 54);
            } else if n == 7 {
                assert('7' as u32 == 55);
            } else if n == 8 {
                assert('8' as u32 == 56);
            } else {
                assert('9' as u32 == 57);
            }
        }
    } else {
        lemma_dec_round_trip(n / 10);
        let d = spec_dec_digits(n);
        assert(d.drop_last() =~= spec_dec_digits(n / 10));
        assert(d.last() == spec_digit_char(n % 10));
    }
}

} // verus!
