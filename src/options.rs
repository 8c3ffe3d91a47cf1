//! Parsing the values of the command-line options.
//!
//! `--memory` takes decimal digits with an optional unit suffix `K`, `M` or `G` (either case),
//! meaning KiB, MiB or GiB; without a suffix the value is in bytes. `--clock` takes `manual`,
//! `free`, or a positive decimal frequency in Hz.

use vstd::prelude::*;

verus! {

/// Whether `c` is a decimal digit.
pub open spec fn is_digit(c: char) -> bool {
    '0' <= c <= '9'
}

/// Whether every character of `s` is a decimal digit.
pub open spec fn all_digits(s: Seq<char>) -> bool {
    forall|i: int| 0 <= i < s.len() ==> #[trigger] is_digit(s[i])
}

/// The value of the decimal digits `s`.
pub open spec fn decimal(s: Seq<char>) -> int
    decreases s.len(),
{
    if s.len() == 0 {
        0
    } else {
        decimal(s.drop_last()) * 10 + (s.last() as int - 48)
    }
}

/// The value of the non-empty decimal digits `s`, if `s` is such and the value fits in a
/// `usize`.
pub open spec fn spec_parse_decimal(s: Seq<char>) -> Option<usize> {
    if s.len() > 0 && all_digits(s) && decimal(s) <= usize::MAX {
        Some(decimal(s) as usize)
    } else {
        None
    }
}

/// The number of bytes that the last character of a memory size stands for: a unit suffix,
/// or 1 for a digit.
pub open spec fn memory_unit(c: char) -> Option<int> {
    if c == 'K' || c == 'k' {
        Some(1024)
    } else if c == 'M' || c == 'm' {
        Some(1048576)
    } else if c == 'G' || c == 'g' {
        Some(1073741824)
    } else if is_digit(c) {
        Some(1)
    } else {
        None
    }
}

/// The number of bytes that the memory size `s` gives, if `s` is valid and the number fits in
/// a `usize`.
pub open spec fn spec_parse_memory(s: Seq<char>) -> Option<usize> {
    if s.len() == 0 {
        None
    } else {
        match memory_unit(s.last()) {
            None => None,
            Some(unit) => {
                let digits = if unit == 1 {
                    s
                } else {
                    s.drop_last()
                };
                if digits.len() > 0 && all_digits(digits) && decimal(digits) * unit <= usize::MAX {
                    Some((decimal(digits) * unit) as usize)
                } else {
                    None
                }
            },
        }
    }
}

/// Each further digit can only make a number of decimal digits larger.
proof fn lemma_decimal_prefix(s: Seq<char>, i: int)
    requires
        0 <= i <= s.len(),
        all_digits(s),
    ensures
        0 <= decimal(s.subrange(0, i)) <= decimal(s),
    decreases s.len() - i,
{
    if i < s.len() {
        lemma_decimal_prefix(s, i + 1);
        assert(s.subrange(0, i + 1).drop_last() =~= s.subrange(0, i));
        assert(is_digit(s[i]));
    } else {
        assert(s.subrange(0, i) =~= s);
    }
    lemma_decimal_nonnegative(s.subrange(0, i));
}

proof fn lemma_decimal_nonnegative(s: Seq<char>)
    requires
        all_digits(s),
    ensures
        decimal(s) >= 0,
    decreases s.len(),
{
    if s.len() > 0 {
        assert(is_digit(s.last()));
        assert(all_digits(s.drop_last()));
        lemma_decimal_nonnegative(s.drop_last());
    }
}

/// Parse the first `len` characters of `s` as non-empty decimal digits.
fn parse_decimal(s: &str, len: usize) -> (r: Option<usize>)
    requires
        len <= s@.len(),
    ensures
        r == spec_parse_decimal(s@.subrange(0, len as int)),
{
    let ghost digits = s@.subrange(0, len as int);
    if len == 0 {
        return None;
    }
    let mut value: usize = 0;
    let mut overflow = false;
    let mut i: usize = 0;
    while i < len
        invariant
            i <= len <= s@.len(),
            digits == s@.subrange(0, len as int),
            all_digits(s@.subrange(0, i as int)),
            !overflow ==> value == decimal(s@.subrange(0, i as int)),
            overflow ==> decimal(s@.subrange(0, i as int)) > usize::MAX,
        decreases len - i,
    {
        let c = s.get_char(i);
        if !('0' <= c && c <= '9') {
            assert(!is_digit(digits[i as int]));
            return None;
        }
        let ghost prefix = s@.subrange(0, i as int);
        let ghost next = s@.subrange(0, i + 1);
        proof {
            assert(next.drop_last() =~= prefix);
            assert(next.last() == c);
            assert(all_digits(next));
            lemma_decimal_nonnegative(prefix);
        }
        if !overflow {
            let d = (c as u32 - 48) as usize;
            match value.checked_mul(10) {
                Some(v) => match v.checked_add(d) {
                    Some(v2) => {
                        value = v2;
                    },
                    None => {
                        overflow = true;
                    },
                },
                None => {
                    overflow = true;
                },
            }
        }
        i = i + 1;
    }
    proof {
        assert(s@.subrange(0, len as int) =~= digits);
        if overflow {
            lemma_decimal_prefix(digits, len as int);
        }
    }
    if overflow {
        None
    } else {
        Some(value)
    }
}

/// Parse a memory size: decimal digits, optionally followed by `K`, `M` or `G` (either case),
/// which multiply by 2^10, 2^20 or 2^30. `None` when the text is empty, has any other suffix or
/// character, or gives a size that does not fit in a `usize`.
pub fn parse_memory(memory: &str) -> (r: Option<usize>)
    ensures
        r == spec_parse_memory(memory@),
{
    let n = memory.unicode_len();
    if n == 0 {
        return None;
    }
    let last = memory.get_char(n - 1);
    let unit: usize = if last == 'K' || last == 'k' {
        1024
    } else if last == 'M' || last == 'm' {
        1048576
    } else if last == 'G' || last == 'g' {
        1073741824
    } else if '0' <= last && last <= '9' {
        1
    } else {
        return None;
    };
    assert(memory@.last() == last);
    let len = if unit == 1 {
        n
    } else {
        n - 1
    };
    proof {
        if unit == 1 {
            assert(memory@.subrange(0, len as int) =~= memory@);
        } else {
            assert(memory@.subrange(0, len as int) =~= memory@.drop_last());
        }
    }
    match parse_decimal(memory, len) {
        None => {
            proof {
                let digits = memory@.subrange(0, len as int);
                if digits.len() > 0 && all_digits(digits) {
                    assert(decimal(digits) > usize::MAX);
                    assert(decimal(digits) * unit > usize::MAX) by (nonlinear_arith)
                        requires
                            decimal(digits) > usize::MAX,
                            unit >= 1,
                    ;
                }
            }
            None
        },
        Some(value) => {
            let ghost digits = if unit == 1 {
                memory@
            } else {
                memory@.drop_last()
            };
            assert(digits =~= memory@.subrange(0, len as int));
            proof {
                lemma_decimal_nonnegative(digits);
            }
            value.checked_mul(unit)
        },
    }
}

/// The clock that a `--clock` value selects.
#[derive(Clone, Copy, Debug, PartialEq, Eq, Structural, Hash)]
pub enum ClockChoice {
    /// Advance on each manual tick.
    Manual,
    /// Run as fast as possible.
    Free,
    /// Tick every `period` nanoseconds.
    Fixed(u64),
}

/// The clock that the `--clock` value `s` selects: `manual`, `free`, or a frequency in Hz whose
/// period, `1_000_000_000 / frequency` nanoseconds, is at least one nanosecond.
pub open spec fn spec_parse_clock(s: Seq<char>) -> Option<ClockChoice> {
    if s == "manual"@ {
        Some(ClockChoice::Manual)
    } else if s == "free"@ {
        Some(ClockChoice::Free)
    } else {
        match spec_parse_decimal(s) {
            Some(f) => if 0 < f <= 1_000_000_000 {
                Some(ClockChoice::Fixed((1_000_000_000int / (f as int)) as u64))
            } else {
                None
            },
            None => None,
        }
    }
}

/// Whether the texts `a` and `b` are equal.
fn text_eq(a: &str, b: &str) -> (r: bool)
    ensures
        r == (a@ == b@),
{
    let n = a.unicode_len();
    if n != b.unicode_len() {
        return false;
    }
    let mut i: usize = 0;
    while i < n
        invariant
            i <= n,
            n == a@.len(),
            n == b@.len(),
            a@.subrange(0, i as int) == b@.subrange(0, i as int),
        decreases n - i,
    {
        if a.get_char(i) != b.get_char(i) {
            return false;
        }
        assert(a@.subrange(0, i + 1) =~= a@.subrange(0, i as int).push(a@[i as int]));
        assert(b@.subrange(0, i + 1) =~= b@.subrange(0, i as int).push(b@[i as int]));
        i = i + 1;
    }
    assert(a@ =~= a@.subrange(0, n as int));
    assert(b@ =~= b@.subrange(0, n as int));
    true
}

/// Parse a `--clock` value: `manual`, `free`, or a positive frequency in Hz of at most 1 GHz.
/// `None` for anything else.
pub fn parse_clock(clock: &str) -> (r: Option<ClockChoice>)
    ensures
        r == spec_parse_clock(clock@),
{
    if text_eq(clock, "manual") {
        return Some(ClockChoice::Manual);
    }
    if text_eq(clock, "free") {
        return Some(ClockChoice::Free);
    }
    proof {
        assert(clock@.subrange(0, clock@.len() as int) =~= clock@);
    }
    match parse_decimal(clock, clock.unicode_len()) {
        Some(freq) => if 0 < freq && freq <= 1_000_000_000 {
            Some(ClockChoice::Fixed((1_000_000_000 / freq) as u64))
        } else {
            None
        },
        None => None,
    }
}

} // verus!
