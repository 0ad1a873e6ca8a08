//! Command-line level values as plain data, and the duration parser: a
//! decimal number followed by an optional unit (`ms`, `s`, `m`, `h`; bare
//! numbers are seconds), with whitespace around the unit ignored.

use vstd::prelude::*;
use vstd::string::StrSliceExecFns;

verus! {

/// Preset probing profiles.
#[derive(Clone, Copy, Debug, PartialEq, Eq, Structural)]
pub enum PingMode {
    Gaming,
    Standard,
    Monitor,
}

/// Default probe interval of each mode, in milliseconds.
pub open spec fn mode_interval_ms(mode: PingMode) -> u64 {
    match mode {
        PingMode::Gaming => 200,
        PingMode::Standard => 1000,
        PingMode::Monitor => 5000,
    }
}

impl PingMode {
    /// Default probe interval of this mode, in milliseconds.
    pub fn default_interval_ms(self) -> (r: u64)
        ensures
            r == mode_interval_ms(self),
    {
        match self {
            PingMode::Gaming => 200,
            PingMode::Standard => 1000,
            PingMode::Monitor => 5000,
        }
    }
}

/// The run's configuration as plain values; argument parsing proper stays at
/// the boundary.
pub struct Args {
    pub target: Option<String>,
    pub mode: PingMode,
    pub duration: Option<String>,
    pub interval: Option<String>,
    pub no_gateway: bool,
}

/// An ASCII decimal digit.
pub open spec fn is_digit_char(c: char) -> bool {
    48 <= c as u32 && c as u32 <= 57
}

/// The numeric value of one ASCII digit.
pub open spec fn digit_val(c: char) -> int {
    c as u32 - 48
}

/// A character the parser skips around the unit: the Unicode `White_Space`
/// set, as `str::trim` skips it.
pub open spec fn is_space_char(c: char) -> bool {
    ||| c == ' '
    ||| c == '\t'
    ||| c == '\n'
    ||| c == '\u{b}'
    ||| c == '\u{c}'
    ||| c == '\r'
    ||| c == '\u{85}'
    ||| c == '\u{a0}'
    ||| c == '\u{1680}'
    ||| ('\u{2000}' <= c && c <= '\u{200a}')
    ||| c == '\u{2028}'
    ||| c == '\u{2029}'
    ||| c == '\u{202f}'
    ||| c == '\u{205f}'
    ||| c == '\u{3000}'
}

/// How many leading characters of `s` are digits.
pub open spec fn digit_prefix_len(s: Seq<char>) -> int
    decreases s.len(),
{
    if s.len() == 0 || !is_digit_char(s[0]) {
        0
    } else {
        1 + digit_prefix_len(s.drop_first())
    }
}

/// The number a sequence of digits denotes, most significant first.
pub open spec fn digits_value(s: Seq<char>) -> int
    decreases s.len(),
{
    if s.len() == 0 {
        0
    } else {
        digits_value(s.drop_last()) * 10 + digit_val(s.last())
    }
}

/// `s` with leading and trailing whitespace removed.
pub open spec fn trim_spaces(s: Seq<char>) -> Seq<char>
    decreases s.len(),
{
    if s.len() > 0 && is_space_char(s[0]) {
        trim_spaces(s.drop_first())
    } else if s.len() > 0 && is_space_char(s.last()) {
        trim_spaces(s.drop_last())
    } else {
        s
    }
}

/// Milliseconds denoted by one unit suffix; a bare number means seconds.
pub open spec fn unit_factor_ms(u: Seq<char>) -> Option<u64> {
    if u == Seq::<char>::empty() || u == seq!['s'] {
        Some(1000u64)
    } else if u == seq!['m', 's'] {
        Some(1u64)
    } else if u == seq!['m'] {
        Some(60000u64)
    } else if u == seq!['h'] {
        Some(3600000u64)
    } else {
        None
    }
}

/// What the duration parser accepts: a non-empty digit prefix whose value
/// fits a `u64`, followed (after whitespace) by a known unit, provided the
/// resulting millisecond count also fits a `u64`.
pub open spec fn parse_duration_spec(s: Seq<char>) -> Option<u64> {
    let k = digit_prefix_len(s);
    if k == 0 {
        None
    } else {
        let v = digits_value(s.subrange(0, k));
        if v > u64::MAX {
            None
        } else {
            match unit_factor_ms(trim_spaces(s.subrange(k, s.len() as int))) {
                Some(f) => if v * f <= u64::MAX {
                    Some((v * f) as u64)
                } else {
                    None
                },
                None => None,
            }
        }
    }
}

proof fn lemma_digit_prefix_len_at(s: Seq<char>, k: int)
    requires
        0 <= k <= s.len(),
        forall|j: int| 0 <= j < k ==> is_digit_char(s[j]),
        k == s.len() || !is_digit_char(s[k]),
    ensures
        digit_prefix_len(s) == k,
    decreases k,
{
    if k > 0 {
        lemma_digit_prefix_len_at(s.drop_first(), k - 1);
    }
}

proof fn lemma_digits_value_nonneg(s: Seq<char>)
    requires
        forall|j: int| 0 <= j < s.len() ==> is_digit_char(s[j]),
    ensures
        digits_value(s) >= 0,
    decreases s.len(),
{
    if s.len() > 0 {
        lemma_digits_value_nonneg(s.drop_last());
    }
}

/// Extending a digit string to the right never shrinks its value.
proof fn lemma_digits_value_prefix_le(s: Seq<char>, i: int)
    requires
        forall|j: int| 0 <= j < s.len() ==> is_digit_char(s[j]),
        0 <= i <= s.len(),
    ensures
        digits_value(s.subrange(0, i)) <= digits_value(s),
    decreases s.len() - i,
{
    if i < s.len() {
        let t = s.subrange(0, i + 1);
        assert(t.drop_last() =~= s.subrange(0, i));
        lemma_digits_value_nonneg(s.subrange(0, i));
        assert(digits_value(s.subrange(0, i)) <= digits_value(t));
        lemma_digits_value_prefix_le(s, i + 1);
        assert(s.subrange(0, s.len() as int) =~= s);
    } else {
        assert(s.subrange(0, s.len() as int) =~= s);
    }
}

proof fn lemma_trim_spaces_at(s: Seq<char>, lo: int, hi: int)
    requires
        0 <= lo <= hi <= s.len(),
        forall|j: int| 0 <= j < lo ==> is_space_char(s[j]),
        forall|j: int| hi <= j < s.len() ==> is_space_char(s[j]),
        lo < hi ==> !is_space_char(s[lo]) && !is_space_char(s[hi - 1]),
    ensures
        trim_spaces(s) == s.subrange(lo, hi),
    decreases s.len(),
{
    if lo > 0 {
        assert(is_space_char(s[0]));
        lemma_trim_spaces_at(s.drop_first(), lo - 1, hi - 1);
        assert(s.drop_first().subrange(lo - 1, hi - 1) =~= s.subrange(lo, hi));
    } else if hi < s.len() {
        assert(is_space_char(s.last()));
        if s.len() > 0 && is_space_char(s[0]) {
            assert(lo < hi ==> !is_space_char(s[lo]));
            assert(lo == hi);
            lemma_trim_spaces_at(s.drop_first(), 0, 0);
            assert(s.drop_first().subrange(0, 0) =~= s.subrange(lo, hi));
        } else {
            lemma_trim_spaces_at(s.drop_last(), lo, hi);
            assert(s.drop_last().subrange(lo, hi) =~= s.subrange(lo, hi));
        }
    } else {
        assert(s.subrange(0, s.len() as int) =~= s);
    }
}

/// Whether the character at `i` is an ASCII digit.
fn digit_at(s: &str, i: usize) -> (b: bool)
    requires
        i < s@.len(),
    ensures
        b == is_digit_char(s@[i as int]),
{
    let c = s.get_char(i);
    let u = c as u32;
    48 <= u && u <= 57
}

/// Whether the character at `i` is whitespace.
fn space_at(s: &str, i: usize) -> (b: bool)
    requires
        i < s@.len(),
    ensures
        b == is_space_char(s@[i as int]),
{
    let c = s.get_char(i);
    c == ' ' || c == '\t' || c == '\n' || c == '\u{b}' || c == '\u{c}' || c == '\r' || c == '\u{85}'
        || c == '\u{a0}' || c == '\u{1680}' || ('\u{2000}' <= c && c <= '\u{200a}') || c
        == '\u{2028}' || c == '\u{2029}' || c == '\u{202f}' || c == '\u{205f}' || c == '\u{3000}'
}

/// Parses a duration such as `90`, `90s`, `1500ms`, `5m` or `2h` into
/// milliseconds. Returns `None` when the string does not start with a digit,
/// when the unit is unknown, or when the duration does not fit.
pub fn parse_duration_string(s: &str) -> (r: Option<u64>)
    ensures
        r == parse_duration_spec(s@),
{
    let n = s.unicode_len();
    let mut k: usize = 0;
    while k < n && digit_at(s, k)
        invariant
            k <= n,
            n == s@.len(),
            forall|j: int| 0 <= j < k ==> is_digit_char(s@[j]),
        decreases n - k,
    {
        k += 1;
    }
    proof {
        lemma_digit_prefix_len_at(s@, k as int);
    }
    if k == 0 {
        return None;
    }
    let ghost digits = s@.subrange(0, k as int);
    let mut val: u64 = 0;
    let mut overflowed = false;
    let mut i: usize = 0;
    proof {
        assert(digits.subrange(0, 0) =~= Seq::<char>::empty());
    }
    while i < k
        invariant
            i <= k,
            k <= n,
            n == s@.len(),
            digits == s@.subrange(0, k as int),
            forall|j: int| 0 <= j < k ==> is_digit_char(s@[j]),
            !overflowed ==> val == digits_value(digits.subrange(0, i as int)),
            overflowed ==> digits_value(digits) > u64::MAX,
        decreases k - i,
    {
        let c = s.get_char(i);
        let d = (c as u32 - 48) as u64;
        proof {
            assert(digits[i as int] == s@[i as int]);
            assert(digits.subrange(0, i + 1).drop_last() =~= digits.subrange(0, i as int));
        }
        if !overflowed {
            let next = match val.checked_mul(10) {
                Some(m) => m.checked_add(d),
                None => None,
            };
            match next {
                Some(v) => {
                    val = v;
                },
                None => {
                    overflowed = true;
                    proof {
                        lemma_digits_value_prefix_le(digits, i + 1);
                    }
                },
            }
        }
        i += 1;
    }
    proof {
        assert(digits.subrange(0, k as int) =~= digits);
    }
    if overflowed {
        return None;
    }
    let mut lo = k;
    while lo < n && space_at(s, lo)
        invariant
            k <= lo <= n,
            n == s@.len(),
            forall|j: int| k <= j < lo ==> is_space_char(s@[j]),
        decreases n - lo,
    {
        lo += 1;
    }
    let mut hi = n;
    while hi > lo && space_at(s, hi - 1)
        invariant
            lo <= hi <= n,
            n == s@.len(),
            forall|j: int| hi <= j < n ==> is_space_char(s@[j]),
        decreases hi,
    {
        hi -= 1;
    }
    let ghost rest = s@.subrange(k as int, n as int);
    let ghost unit = s@.subrange(lo as int, hi as int);
    proof {
        assert(rest.subrange(lo - k, hi - k) =~= unit);
        lemma_trim_spaces_at(rest, lo - k, hi - k);
    }
    let factor: Option<u64> = if hi - lo == 0 {
        proof {
            assert(unit =~= Seq::<char>::empty());
        }
        Some(1000)
    } else if hi - lo == 1 {
        let c = s.get_char(lo);
        proof {
            assert(unit.len() == 1 && unit[0] == s@[lo as int]);
        }
        if c == 's' {
            proof {
                assert(unit =~= seq!['s']);
            }
            Some(1000)
        } else if c == 'm' {
            proof {
                assert(unit =~= seq!['m']);
            }
            Some(60000)
        } else if c == 'h' {
            proof {
                assert(unit =~= seq!['h']);
            }
            Some(3600000)
        } else {
            None
        }
    } else if hi - lo == 2 {
        let c0 = s.get_char(lo);
        let c1 = s.get_char(lo + 1);
        if c0 == 'm' && c1 == 's' {
            proof {
                assert(unit =~= seq!['m', 's']);
            }
            Some(1)
        } else {
            None
        }
    } else {
        None
    };
    match factor {
        Some(f) => {
            match val.checked_mul(f) {
                Some(ms) => Some(ms),
                None => None,
            }
        },
        None => None,
    }
}

} // verus!
