//! Utility functions: the current time and human-readable durations.
//!
//! A duration reads as `1h 1m 1s 42ms`, dropping the leading parts that are
//! zero. A duration is read back from a string of numeral/unit components:
//! digits (with one optional decimal point) accumulate into a numeral,
//! letters into a unit, and whitespace flushes a complete component;
//! components with an unknown unit or an unreadable numeral contribute
//! nothing. The accumulated span saturates at the largest representable
//! duration.

use vstd::prelude::*;

use crate::digits::{spec_all_digits, spec_dec_digits, spec_dec_value, spec_is_digit, u64_to_string};
use crate::time::{Duration, Time};

verus! {

/// The largest representable duration, in nanoseconds.
pub open spec fn spec_max_nanos() -> int {
    u64::MAX * 1_000_000_000 + 999_999_999
}

/// The human-readable text of a duration.
pub open spec fn spec_duration_string(d: Duration) -> Seq<char> {
    let total = d.secs as int;
    let hours = total / 3600;
    let minutes = (total % 3600) / 60;
    let seconds = total % 60;
    let millis = d.nanos as int / 1_000_000;
    if hours > 0 {
        spec_dec_digits(hours) + ("h ")@ + spec_dec_digits(minutes) + ("m ")@ + spec_dec_digits(
            seconds,
        ) + ("s ")@ + spec_dec_digits(millis) + ("ms")@
    } else if minutes > 0 {
        spec_dec_digits(minutes) + ("m ")@ + spec_dec_digits(seconds) + ("s ")@ + spec_dec_digits(
            millis,
        ) + ("ms")@
    } else if seconds > 0 {
        spec_dec_digits(seconds) + ("s ")@ + spec_dec_digits(millis) + ("ms")@
    } else {
        spec_dec_digits(millis) + ("ms")@
    }
}

/// The current time.
pub fn now() -> (r: Time)
    ensures
        r.wf(),
{
    Time::now()
}

/// Writes a duration as human-readable text.
pub fn duration_to_string(duration: Duration) -> (r: String)
    ensures
        r@ == spec_duration_string(duration),
{
    let total_secs = duration.secs;
    let hours = total_secs / 3600;
    let minutes = (total_secs % 3600) / 60;
    let seconds = total_secs % 60;
    let millis = duration.nanos / 1_000_000;
    let mut out: String;
    if hours > 0 {
        out = u64_to_string(hours);
        out.append("h ");
        out.append(u64_to_string(minutes).as_str());
        out.append("m ");
        out.append(u64_to_string(seconds).as_str());
        out.append("s ");
        out.append(u64_to_string(millis as u64).as_str());
        out.append("ms");
    } else if minutes > 0 {
        out = u64_to_string(minutes);
        out.append("m ");
        out.append(u64_to_string(seconds).as_str());
        out.append("s ");
        out.append(u64_to_string(millis as u64).as_str());
        out.append("ms");
    } else if seconds > 0 {
        out = u64_to_string(seconds);
        out.append("s ");
        out.append(u64_to_string(millis as u64).as_str());
        out.append("ms");
    } else {
        out = u64_to_string(millis as u64);
        out.append("ms");
    }
    proof {
        assert(out@ =~= spec_duration_string(duration));
    }
    out
}

/// Whether a character is an ASCII letter.
pub open spec fn spec_is_letter(c: char) -> bool {
    (65 <= c as u32 <= 90) || (97 <= c as u32 <= 122)
}

/// Whether a character is ASCII whitespace.
pub open spec fn spec_is_space(c: char) -> bool {
    c as u32 == 32 || c as u32 == 9 || c as u32 == 10 || c as u32 == 13 || c as u32 == 11 || c
        as u32 == 12
}

/// The position of the first decimal point in `s` at or after `i`, or the
/// length when there is none.
pub open spec fn spec_first_dot(s: Seq<char>, i: int) -> int
    decreases s.len() - i,
{
    if i < 0 || i >= s.len() {
        s.len() as int
    } else if s[i] as u32 == 46 {
        i
    } else {
        spec_first_dot(s, i + 1)
    }
}

/// Ten to the power `k`.
pub open spec fn spec_pow10(k: int) -> int
    decreases k,
{
    if k <= 0 {
        1
    } else {
        10 * spec_pow10(k - 1)
    }
}

/// The numeral `s` read as an integer part, a fraction numerator, and the
/// fraction's denominator, when `s` is digits with one optional decimal
/// point, at least one digit, and an integer part that fits 64 bits. The
/// fraction is truncated to nine digits.
pub open spec fn spec_parse_decimal(s: Seq<char>) -> Option<(int, int, int)> {
    let dot = spec_first_dot(s, 0);
    let ipart = s.take(dot);
    let fpart = if dot < s.len() {
        s.skip(dot + 1)
    } else {
        Seq::empty()
    };
    if spec_all_digits(ipart) && spec_all_digits(fpart) && ipart.len() + fpart.len() > 0
        && spec_dec_value(ipart) <= u64::MAX {
        let f9 = fpart.take(if fpart.len() < 9 {
            fpart.len() as int
        } else {
            9
        });
        Some((spec_dec_value(ipart), spec_dec_value(f9), spec_pow10(f9.len() as int)))
    } else {
        None
    }
}

/// The second-multiplier and nanosecond-multiplier of a unit name, when the
/// name is known. A second-family unit (`h`, `m`, `s` and their long forms)
/// keeps the fraction down to whole seconds; a subsecond unit (`ms`, `us`,
/// `ns` and their long forms) keeps only the whole units.
pub open spec fn spec_unit_scale(u: Seq<char>) -> Option<(int, int)> {
    if u == ("h")@ || u == ("hr")@ || u == ("hrs")@ || u == ("hour")@ || u == ("hours")@ {
        Some((3600, 1_000_000_000))
    } else if u == ("m")@ || u == ("min")@ || u == ("mins")@ || u == ("minute")@ || u == (
    "minutes")@ {
        Some((60, 1_000_000_000))
    } else if u == ("s")@ || u == ("sec")@ || u == ("secs")@ || u == ("second")@ || u == (
    "seconds")@ {
        Some((1, 1_000_000_000))
    } else if u == ("ms")@ || u == ("millisecond")@ || u == ("milliseconds")@ {
        Some((1, 1_000_000))
    } else if u == ("us")@ || u == ("microsecond")@ || u == ("microseconds")@ {
        Some((1, 1_000))
    } else if u == ("ns")@ || u == ("nanosecond")@ || u == ("nanoseconds")@ {
        Some((1, 1))
    } else {
        None
    }
}

/// What one numeral/unit component contributes, in nanoseconds: for a
/// second-family unit, the numeral times the seconds of the unit, floored
/// to whole seconds and saturated at 64 bits; for a subsecond unit, the
/// whole units. `None` when the numeral or the unit is unreadable.
pub open spec fn spec_component(value: Seq<char>, unit: Seq<char>) -> Option<int> {
    match spec_parse_decimal(value) {
        Some((ipart, fnum, fden)) => match spec_unit_scale(unit) {
            Some((secs_mult, nanos_mult)) => {
                if nanos_mult == 1_000_000_000 {
                    let whole = ipart * secs_mult + (fnum * secs_mult) / fden;
                    let capped = if whole > u64::MAX {
                        u64::MAX as int
                    } else {
                        whole
                    };
                    Some(capped * nanos_mult)
                } else {
                    Some(ipart * nanos_mult)
                }
            },
            None => None,
        },
        None => None,
    }
}

/// The contribution of a component when it reads, zero when it does not.
pub open spec fn spec_component_or_zero(value: Seq<char>, unit: Seq<char>) -> int {
    match spec_component(value, unit) {
        Some(n) => n,
        None => 0,
    }
}

/// The total span, in nanoseconds, still to be read from position `i` with
/// the numeral and unit accumulated so far.
pub open spec fn spec_scan(s: Seq<char>, i: int, value: Seq<char>, unit: Seq<char>) -> int
    decreases s.len() - i,
{
    if i < 0 || i >= s.len() {
        if value.len() > 0 && unit.len() > 0 {
            spec_component_or_zero(value, unit)
        } else {
            0
        }
    } else {
        let c = s[i];
        if spec_is_digit(c) || c as u32 == 46 {
            spec_scan(s, i + 1, value.push(c), unit)
        } else if spec_is_letter(c) {
            spec_scan(s, i + 1, value, unit.push(c))
        } else if spec_is_space(c) && value.len() > 0 && unit.len() > 0 {
            spec_component_or_zero(value, unit) + spec_scan(s, i + 1, Seq::empty(), Seq::empty())
        } else {
            spec_scan(s, i + 1, value, unit)
        }
    }
}

/// The span a duration string stands for, in nanoseconds.
pub open spec fn spec_str_duration_nanos(s: Seq<char>) -> int {
    spec_scan(s, 0, Seq::empty(), Seq::empty())
}

/// A component contributes a non-negative span.
proof fn lemma_component_nonneg(value: Seq<char>, unit: Seq<char>)
    ensures
        spec_component_or_zero(value, unit) >= 0,
{
    match spec_parse_decimal(value) {
        Some((ipart, fnum, fden)) => {
            let dot = spec_first_dot(value, 0);
            crate::digits::lemma_dec_value_nonneg(value.take(dot));
            let fpart = if dot < value.len() {
                value.skip(dot + 1)
            } else {
                Seq::<char>::empty()
            };
            let f9 = fpart.take(if fpart.len() < 9 {
                fpart.len() as int
            } else {
                9
            });
            crate::digits::lemma_dec_value_nonneg(f9);
            lemma_pow10_pos(f9.len() as int);
            match spec_unit_scale(unit) {
                Some((secs_mult, nanos_mult)) => {
                    assert(spec_component_or_zero(value, unit) >= 0) by (nonlinear_arith)
                        requires
                            spec_component_or_zero(value, unit) == (if nanos_mult
                                == 1_000_000_000 {
                                (if ipart * secs_mult + (fnum * secs_mult) / fden > u64::MAX {
                                    u64::MAX as int
                                } else {
                                    ipart * secs_mult + (fnum * secs_mult) / fden
                                }) * nanos_mult
                            } else {
                                ipart * nanos_mult
                            }),
                            ipart >= 0,
                            fnum >= 0,
                            fden >= 1,
                            secs_mult >= 1,
                            nanos_mult >= 1,
                    ;
                },
                None => {},
            }
        },
        None => {},
    }
}

/// Powers of ten are positive.
proof fn lemma_pow10_pos(k: int)
    ensures
        spec_pow10(k) >= 1,
    decreases k,
{
    if k > 0 {
        lemma_pow10_pos(k - 1);
    }
}

/// What remains to be read is a non-negative span.
proof fn lemma_scan_nonneg(s: Seq<char>, i: int, value: Seq<char>, unit: Seq<char>)
    ensures
        spec_scan(s, i, value, unit) >= 0,
    decreases s.len() - i,
{
    if i < 0 || i >= s.len() {
        lemma_component_nonneg(value, unit);
    } else {
        let c = s[i];
        if spec_is_digit(c) || c as u32 == 46 {
            lemma_scan_nonneg(s, i + 1, value.push(c), unit);
        } else if spec_is_letter(c) {
            lemma_scan_nonneg(s, i + 1, value, unit.push(c));
        } else if spec_is_space(c) && value.len() > 0 && unit.len() > 0 {
            lemma_component_nonneg(value, unit);
            lemma_scan_nonneg(s, i + 1, Seq::empty(), Seq::empty());
        } else {
            lemma_scan_nonneg(s, i + 1, value, unit);
        }
    }
}

/// Whether the characters of a vector read the same as a string.
fn chars_eq_str(v: &Vec<char>, s: &str) -> (r: bool)
    ensures
        r == (v@ == s@),
{
    let n = s.unicode_len();
    if v.len() != n {
        proof {
            assert(v@ != s@);
        }
        return false;
    }
    let mut i: usize = 0;
    while i < n
        invariant
            0 <= i <= n,
            n == s@.len(),
            n == v@.len(),
            forall|j: int| 0 <= j < i ==> v@[j] == s@[j],
        decreases n - i,
    {
        let a = v[i];
        let b = s.get_char(i);
        if a as u32 != b as u32 {
            proof {
                vstd::utf8::char_u32_cast(a, a as u32);
                vstd::utf8::char_u32_cast(b, b as u32);
            }
            return false;
        }
        proof {
            vstd::utf8::char_u32_cast(a, a as u32);
            vstd::utf8::char_u32_cast(b, b as u32);
        }
        i = i + 1;
    }
    proof {
        assert(v@ =~= s@);
    }
    true
}

/// Reads the scale of a unit name.
fn unit_scale(unit: &Vec<char>) -> (r: Option<(u64, u64)>)
    ensures
        match r {
            Some(pair) => spec_unit_scale(unit@) == Some((pair.0 as int, pair.1 as int)),
            None => spec_unit_scale(unit@) is None,
        },
{
    if chars_eq_str(unit, "h") || chars_eq_str(unit, "hr") || chars_eq_str(unit, "hrs")
        || chars_eq_str(unit, "hour") || chars_eq_str(unit, "hours") {
        Some((3600, 1_000_000_000))
    } else if chars_eq_str(unit, "m") || chars_eq_str(unit, "min") || chars_eq_str(unit, "mins")
        || chars_eq_str(unit, "minute") || chars_eq_str(unit, "minutes") {
        Some((60, 1_000_000_000))
    } else if chars_eq_str(unit, "s") || chars_eq_str(unit, "sec") || chars_eq_str(unit, "secs")
        || chars_eq_str(unit, "second") || chars_eq_str(unit, "seconds") {
        Some((1, 1_000_000_000))
    } else if chars_eq_str(unit, "ms") || chars_eq_str(unit, "millisecond") || chars_eq_str(
        unit,
        "milliseconds",
    ) {
        Some((1, 1_000_000))
    } else if chars_eq_str(unit, "us") || chars_eq_str(unit, "microsecond") || chars_eq_str(
        unit,
        "microseconds",
    ) {
        Some((1, 1_000))
    } else if chars_eq_str(unit, "ns") || chars_eq_str(unit, "nanosecond") || chars_eq_str(
        unit,
        "nanoseconds",
    ) {
        Some((1, 1))
    } else {
        None
    }
}

/// The position of the first decimal point, or the length when none.
fn find_dot(value: &Vec<char>) -> (r: usize)
    ensures
        r as int == spec_first_dot(value@, 0),
        r <= value@.len(),
{
    let n = value.len();
    let mut i: usize = 0;
    while i < n
        invariant
            0 <= i <= n,
            n == value@.len(),
            forall|j: int| 0 <= j < i ==> value@[j] as u32 != 46,
        decreases n - i,
    {
        if value[i] as u32 == 46 {
            proof {
                lemma_first_dot_found(value@, 0, i as int);
            }
            return i;
        }
        i = i + 1;
    }
    proof {
        lemma_first_dot_none(value@, 0);
    }
    n
}

/// Reads a numeral of digits with one optional decimal point.
fn parse_decimal(value: &Vec<char>) -> (r: Option<(u64, u64, u64)>)
    ensures
        match r {
            Some(t) => spec_parse_decimal(value@) == Some((t.0 as int, t.1 as int, t.2 as int))
                && t.1 < 1_000_000_000 && 1 <= t.2 <= 1_000_000_000,
            None => spec_parse_decimal(value@) is None,
        },
{
    let n = value.len();
    let ghost s = value@;
    let dot = find_dot(value);
    let ghost spec_dot = spec_first_dot(s, 0);
    // integer part
    let mut ipart_val: u64 = 0;
    let mut k: usize = 0;
    while k < dot
        invariant
            0 <= k <= dot <= n,
            n == s.len(),
            s == value@,
            dot as int == spec_dot,
            spec_dot == spec_first_dot(s, 0),
            spec_dot <= s.len(),
            spec_all_digits(s.take(spec_dot).take(k as int)),
            ipart_val == spec_dec_value(s.take(spec_dot).take(k as int)),
        decreases dot - k,
    {
        let c = value[k];
        let u = c as u32;
        if u < 48 || u > 57 {
            proof {
                assert(!spec_is_digit(s.take(spec_dot)[k as int]));
                assert(!spec_all_digits(s.take(spec_dot)));
            }
            return None;
        }
        let d = (u - 48) as u64;
        proof {
            assert(s.take(spec_dot).take(k as int + 1).drop_last() =~= s.take(spec_dot).take(
                k as int,
            ));
            assert(s.take(spec_dot).take(k as int + 1).last() == s[k as int]);
        }
        let next = match ipart_val.checked_mul(10) {
            Some(m) => m.checked_add(d),
            None => None,
        };
        match next {
            Some(v) => {
                ipart_val = v;
            },
            None => {
                proof {
                    lemma_decimal_overflow(s, spec_dot, k as int + 1);
                }
                return None;
            },
        }
        k = k + 1;
    }
    proof {
        assert(s.take(spec_dot).take(dot as int) =~= s.take(spec_dot));
    }
    // fraction part, truncated to nine digits
    let fstart = if dot < n {
        dot + 1
    } else {
        n
    };
    let ghost fpart = if spec_dot < s.len() {
        s.skip(spec_dot + 1)
    } else {
        Seq::<char>::empty()
    };
    proof {
        if spec_dot < s.len() {
            assert(fpart =~= s.skip(spec_dot + 1));
        }
    }
    // all fraction characters must be digits
    let mut k2: usize = fstart;
    while k2 < n
        invariant
            fstart <= k2 <= n,
            n == s.len(),
            s == value@,
            dot as int == spec_dot,
            spec_dot == spec_first_dot(s, 0),
            fstart as int == (if dot < n {
                dot as int + 1
            } else {
                n as int
            }),
            fpart == (if spec_dot < s.len() {
                s.skip(spec_dot + 1)
            } else {
                Seq::<char>::empty()
            }),
            forall|j: int| 0 <= j < k2 - fstart ==> spec_is_digit(#[trigger] fpart[j]),
        decreases n - k2,
    {
        let c = value[k2];
        let u = c as u32;
        if u < 48 || u > 57 {
            proof {
                assert(fpart[k2 - fstart] == s[k2 as int]);
                assert(!spec_is_digit(fpart[k2 - fstart]));
                assert(!spec_all_digits(fpart));
            }
            return None;
        }
        proof {
            assert(fpart[k2 - fstart] == s[k2 as int]);
        }
        k2 = k2 + 1;
    }
    proof {
        assert(spec_all_digits(fpart));
    }
    if dot == n && n == 0 {
        return None;
    }
    if dot < n && n == 1 {
        // a lone decimal point has no digits
        proof {
            assert(s.take(spec_dot).len() + fpart.len() == 0);
        }
        return None;
    }
    if dot == 0 && dot + 1 == n {
        proof {
            assert(s.take(spec_dot).len() + fpart.len() == 0);
        }
        return None;
    }
    // read the first nine fraction digits
    let fcount = if n - fstart < 9 {
        n - fstart
    } else {
        9
    };
    let ghost f9 = fpart.take(fcount as int);
    let mut fnum: u64 = 0;
    let mut fden: u64 = 1;
    let mut k3: usize = 0;
    while k3 < fcount
        invariant
            0 <= k3 <= fcount <= 9,
            fcount <= n - fstart,
            fstart + fcount <= n,
            n == s.len(),
            s == value@,
            spec_all_digits(f9),
            f9 == fpart.take(fcount as int),
            fpart == (if spec_dot < s.len() {
                s.skip(spec_dot + 1)
            } else {
                Seq::<char>::empty()
            }),
            dot as int == spec_dot,
            spec_dot == spec_first_dot(s, 0),
            fstart as int == (if dot < n {
                dot as int + 1
            } else {
                n as int
            }),
            fnum == spec_dec_value(f9.take(k3 as int)),
            fden == spec_pow10(k3 as int),
            fnum < 1_000_000_000,
            1 <= fden <= 1_000_000_000,
        decreases fcount - k3,
    {
        let c = value[fstart + k3];
        proof {
            assert(f9[k3 as int] == fpart[k3 as int]);
            assert(fpart[k3 as int] == s[fstart + k3 as int]);
            assert(spec_is_digit(f9[k3 as int]));
            assert(f9.take(k3 as int + 1).drop_last() =~= f9.take(k3 as int));
            assert(f9.take(k3 as int + 1).last() == f9[k3 as int]);
            crate::digits::lemma_dec_value_nonneg(f9.take(k3 as int));
            lemma_dec_value_digits_bound(f9.take(k3 as int + 1));
        }
        let d = (c as u32 - 48) as u64;
        fnum = fnum * 10 + d;
        fden = fden * 10;
        k3 = k3 + 1;
    }
    proof {
        assert(f9.take(fcount as int) =~= f9);
    }
    Some((ipart_val, fnum, fden))
}

/// A digit string of at most nine digits reads below ten to the ninth.
proof fn lemma_dec_value_digits_bound(s: Seq<char>)
    requires
        spec_all_digits(s),
        s.len() <= 9,
    ensures
        spec_dec_value(s) < spec_pow10(s.len() as int),
        spec_pow10(s.len() as int) <= 1_000_000_000,
    decreases s.len(),
{
    if s.len() == 0 {
    } else {
        assert(spec_all_digits(s.drop_last()));
        lemma_dec_value_digits_bound(s.drop_last());
        assert(spec_pow10(s.len() as int) == 10 * spec_pow10(s.len() as int - 1));
        assert(spec_pow10(9) == 1_000_000_000) by {
            reveal_with_fuel(spec_pow10, 11);
        }
        lemma_pow10_mono(s.len() as int, 9);
    }
}

/// Powers of ten grow with the exponent.
proof fn lemma_pow10_mono(a: int, b: int)
    requires
        a <= b,
    ensures
        spec_pow10(a) <= spec_pow10(b),
    decreases b - a,
{
    if a < b {
        lemma_pow10_mono(a, b - 1);
        lemma_pow10_pos(b - 1);
    }
}

/// The first decimal point at or after zero is at `found` when nothing
/// before it is a point and it is one.
proof fn lemma_first_dot_found(s: Seq<char>, from: int, found: int)
    requires
        0 <= from <= found < s.len(),
        forall|j: int| from <= j < found ==> s[j] as u32 != 46,
        s[found] as u32 == 46,
    ensures
        spec_first_dot(s, from) == found,
    decreases found - from,
{
    if from < found {
        lemma_first_dot_found(s, from + 1, found);
    }
}

/// There is no decimal point at or after `from` when no character from
/// there on is one.
proof fn lemma_first_dot_none(s: Seq<char>, from: int)
    requires
        0 <= from <= s.len(),
        forall|j: int| from <= j < s.len() ==> s[j] as u32 != 46,
    ensures
        spec_first_dot(s, from) == s.len(),
    decreases s.len() - from,
{
    if from < s.len() {
        lemma_first_dot_none(s, from + 1);
    }
}

/// When a prefix of the integer part already exceeds 64 bits, the numeral
/// does not read.
proof fn lemma_decimal_overflow(s: Seq<char>, dot: int, k: int)
    requires
        0 <= k <= dot <= s.len(),
        dot == spec_first_dot(s, 0),
        spec_all_digits(s.take(dot).take(k)),
        spec_dec_value(s.take(dot).take(k)) > u64::MAX,
    ensures
        spec_parse_decimal(s) is None,
{
    let ipart = s.take(dot);
    if spec_all_digits(ipart) {
        crate::digits::lemma_dec_value_prefix(ipart, k);
        assert(ipart.take(k) == s.take(dot).take(k));
    }
}

/// What one numeral/unit component contributes, in nanoseconds.
fn component_nanos(value: &Vec<char>, unit: &Vec<char>) -> (r: Option<u128>)
    ensures
        match r {
            Some(n) => spec_component(value@, unit@) == Some(n as int) && n <= u64::MAX as u128
                * 1_000_000_000,
            None => spec_component(value@, unit@) is None,
        },
{
    let decimal = match parse_decimal(value) {
        Some(d) => d,
        None => {
            return None;
        },
    };
    let scale = match unit_scale(unit) {
        Some(sc) => sc,
        None => {
            return None;
        },
    };
    let (ipart, fnum, fden) = decimal;
    let (secs_mult, nanos_mult) = scale;
    proof {
        lemma_pow10_pos(9);
    }
    if nanos_mult == 1_000_000_000 {
        proof {
            assert((ipart as int) * (secs_mult as int) <= u64::MAX * 3600) by (nonlinear_arith)
                requires
                    0 <= ipart <= u64::MAX,
                    0 <= secs_mult <= 3600,
            ;
            assert((fnum as int) * (secs_mult as int) / (fden as int) <= (fnum as int) * (
            secs_mult as int)) by (nonlinear_arith)
                requires
                    fden >= 1,
                    fnum >= 0,
                    secs_mult >= 0,
            ;
            assert(0 <= (fnum as int) * (secs_mult as int) <= 1_000_000_000 * 3600)
                by (nonlinear_arith)
                requires
                    0 <= fnum <= 1_000_000_000,
                    0 <= secs_mult <= 3600,
            ;
            assert(0 <= (fnum as int) * (secs_mult as int) / (fden as int)) by (nonlinear_arith)
                requires
                    fden >= 1,
                    0 <= (fnum as int) * (secs_mult as int),
            ;
        }
        let whole: u128 = (ipart as u128) * (secs_mult as u128) + ((fnum as u128) * (secs_mult
            as u128)) / (fden as u128);
        let capped: u128 = if whole > u64::MAX as u128 {
            u64::MAX as u128
        } else {
            whole
        };
        proof {
            assert(capped * 1_000_000_000 <= u64::MAX as u128 * 1_000_000_000)
                by (nonlinear_arith)
                requires
                    capped <= u64::MAX as u128,
            ;
        }
        Some(capped * 1_000_000_000)
    } else {
        proof {
            assert((ipart as int) * (nanos_mult as int) <= u64::MAX * 1_000_000)
                by (nonlinear_arith)
                requires
                    0 <= ipart <= u64::MAX,
                    0 <= nanos_mult <= 1_000_000,
            ;
        }
        Some((ipart as u128) * (nanos_mult as u128))
    }
}

/// Reads one numeral/unit component (such as `10s` split into `10` and
/// `s`) as a duration.
pub fn parse_duration_component(value: &str, unit: &str) -> (r: Option<Duration>)
    ensures
        match r {
            Some(d) => d.wf() && spec_component(value@, unit@) == Some(d.spec_nanos()),
            None => spec_component(value@, unit@) is None,
        },
{
    let value_chars = str_chars(value);
    let unit_chars = str_chars(unit);
    match component_nanos(&value_chars, &unit_chars) {
        Some(nanos) => Some(duration_of_nanos(nanos)),
        None => None,
    }
}

/// The characters of a string.
fn str_chars(s: &str) -> (r: Vec<char>)
    ensures
        r@ == s@,
{
    let n = s.unicode_len();
    let mut out: Vec<char> = Vec::new();
    let mut i: usize = 0;
    while i < n
        invariant
            0 <= i <= n,
            n == s@.len(),
            out@ == s@.take(i as int),
        decreases n - i,
    {
        out.push(s.get_char(i));
        proof {
            assert(out@ =~= s@.take(i as int + 1));
        }
        i = i + 1;
    }
    proof {
        assert(out@ =~= s@);
    }
    out
}

/// The duration of a nanosecond count that fits the representation.
fn duration_of_nanos(nanos: u128) -> (r: Duration)
    requires
        nanos <= u64::MAX as u128 * 1_000_000_000 + 999_999_999,
    ensures
        r.wf(),
        r.spec_nanos() == nanos,
{
    let secs: u64 = (nanos / 1_000_000_000) as u64;
    let sub: u32 = (nanos % 1_000_000_000) as u32;
    proof {
        assert(nanos / 1_000_000_000 <= u64::MAX as u128) by (nonlinear_arith)
            requires
                nanos <= u64::MAX as u128 * 1_000_000_000 + 999_999_999,
        ;
        assert(nanos % 1_000_000_000 < 1_000_000_000);
        assert(nanos == 1_000_000_000 * (nanos / 1_000_000_000) + nanos % 1_000_000_000);
    }
    Duration { secs, nanos: sub }
}

/// Reads a duration from a string of numeral/unit components. Always
/// yields a duration: unreadable components contribute nothing, and the
/// total saturates at the largest representable duration.
pub fn string_to_duration(s: &str) -> (r: Option<Duration>)
    ensures
        r matches Some(d) && d.wf() && ({
            if spec_str_duration_nanos(s@) <= spec_max_nanos() {
                d.spec_nanos() == spec_str_duration_nanos(s@)
            } else {
                d.spec_nanos() == spec_max_nanos()
            }
        }),
{
    let n = s.unicode_len();
    let mut value: Vec<char> = Vec::new();
    let mut unit: Vec<char> = Vec::new();
    let mut total: u128 = 0;
    let ghost mut exact: int = 0int;
    let max_nanos: u128 = 0xffff_ffff_ffff_ffffu128 * 1_000_000_000 + 999_999_999;
    proof {
        assert(value@ =~= Seq::<char>::empty());
        assert(unit@ =~= Seq::<char>::empty());
    }
    let mut i: usize = 0;
    while i < n
        invariant
            0 <= i <= n,
            n == s@.len(),
            max_nanos as int == spec_max_nanos(),
            exact >= 0,
            total as int == (if exact <= spec_max_nanos() {
                exact
            } else {
                spec_max_nanos()
            }),
            spec_str_duration_nanos(s@) == exact + spec_scan(s@, i as int, value@, unit@),
        decreases n - i,
    {
        let ghost old_value = value@;
        let ghost old_unit = unit@;
        let c = s.get_char(i);
        let u = c as u32;
        if (48 <= u && u <= 57) || u == 46 {
            value.push(c);
            proof {
                assert(spec_scan(s@, i as int, old_value, old_unit) == spec_scan(
                    s@,
                    i as int + 1,
                    old_value.push(c),
                    old_unit,
                ));
            }
        } else if (65 <= u && u <= 90) || (97 <= u && u <= 122) {
            unit.push(c);
            proof {
                assert(spec_scan(s@, i as int, old_value, old_unit) == spec_scan(
                    s@,
                    i as int + 1,
                    old_value,
                    old_unit.push(c),
                ));
            }
        } else if (u == 32 || u == 9 || u == 10 || u == 13 || u == 11 || u == 12) && value.len()
            > 0 && unit.len() > 0 {
            let contribution: u128 = match component_nanos(&value, &unit) {
                Some(nanos) => nanos,
                None => 0,
            };
            proof {
                assert(contribution as int == spec_component_or_zero(old_value, old_unit));
                assert(contribution <= 0xffff_ffff_ffff_ffffu128 * 1_000_000_000);
                lemma_component_nonneg(old_value, old_unit);
                assert(spec_scan(s@, i as int, old_value, old_unit) == spec_component_or_zero(
                    old_value,
                    old_unit,
                ) + spec_scan(s@, i as int + 1, Seq::<char>::empty(), Seq::<char>::empty()));
                exact = exact + spec_component_or_zero(old_value, old_unit);
            }
            total = if total >= max_nanos - contribution {
                max_nanos
            } else {
                total + contribution
            };
            value = Vec::new();
            unit = Vec::new();
            proof {
                assert(value@ =~= Seq::<char>::empty());
                assert(unit@ =~= Seq::<char>::empty());
            }
        } else {
            proof {
                assert(spec_scan(s@, i as int, old_value, old_unit) == spec_scan(
                    s@,
                    i as int + 1,
                    old_value,
                    old_unit,
                ));
            }
        }
        i = i + 1;
    }
    let final_contribution: u128 = if value.len() > 0 && unit.len() > 0 {
        match component_nanos(&value, &unit) {
            Some(nanos) => nanos,
            None => 0,
        }
    } else {
        0
    };
    proof {
        assert(final_contribution as int == (if value@.len() > 0 && unit@.len() > 0 {
            spec_component_or_zero(value@, unit@)
        } else {
            0int
        }));
        assert(final_contribution <= 0xffff_ffff_ffff_ffffu128 * 1_000_000_000);
        lemma_component_nonneg(value@, unit@);
        assert(spec_scan(s@, n as int, value@, unit@) == (if value@.len() > 0 && unit@.len() > 0 {
            spec_component_or_zero(value@, unit@)
        } else {
            0int
        }));
        exact = exact + (if value@.len() > 0 && unit@.len() > 0 {
            spec_component_or_zero(value@, unit@)
        } else {
            0int
        });
        assert(exact == spec_str_duration_nanos(s@));
    }
    let total = if total >= max_nanos - final_contribution {
        max_nanos
    } else {
        total + final_contribution
    };
    Some(duration_of_nanos(total))
}

} // verus!
