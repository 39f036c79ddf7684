//! Verified parsing of resource quantities.
//!
//! A cpu quantity is a whole number of cores (`"2"`) or of millicores
//! (`"250m"`); a memory quantity is a whole number of bytes (`"1048576"`),
//! optionally scaled by a decimal (`K`, `M`, `G`) or binary (`Ki`, `Mi`,
//! `Gi`) unit.  Digit counts are bounded (15 for cpu, 9 for memory) so that
//! every accepted quantity fits in a `u64` after scaling; anything longer is
//! refused as unparseable, like any other malformed quantity.

use vstd::prelude::*;
use vstd::string::*;

verus! {

pub open spec fn spec_digit(c: char) -> bool {
    48 <= c as int <= 57
}

pub open spec fn spec_digit_val(c: char) -> int {
    c as int - 48
}

/// A non-empty run of decimal digits.
pub open spec fn spec_is_digits(s: Seq<char>) -> bool {
    s.len() > 0 && forall|i: int| 0 <= i < s.len() ==> spec_digit(s[i])
}

/// The number the digits denote.
pub open spec fn spec_digits_value(s: Seq<char>) -> int
    decreases s.len(),
{
    if s.len() == 0 {
        0
    } else {
        spec_digits_value(s.drop_last()) * 10 + spec_digit_val(s.last())
    }
}

pub open spec fn pow10(n: nat) -> int
    decreases n,
{
    if n == 0 {
        1
    } else {
        10 * pow10((n - 1) as nat)
    }
}

pub proof fn lemma_digits_value_bound(s: Seq<char>)
    requires
        forall|i: int| 0 <= i < s.len() ==> spec_digit(s[i]),
    ensures
        0 <= spec_digits_value(s) < pow10(s.len()),
    decreases s.len(),
{
    if s.len() > 0 {
        lemma_digits_value_bound(s.drop_last());
        assert(spec_digit(s.last()));
    }
}

/// Maximum digit count accepted for a cpu quantity.
pub const MAX_CPU_DIGITS: usize = 15;

/// Maximum digit count accepted for a memory quantity.
pub const MAX_MEM_DIGITS: usize = 9;

/// Millicores denoted by a cpu quantity, if it is well formed.
pub open spec fn spec_cpu_millis(s: Seq<char>) -> Option<int> {
    if spec_is_digits(s) && s.len() <= MAX_CPU_DIGITS {
        Some(spec_digits_value(s) * 1000)
    } else if s.len() >= 2 && s.last() == 'm' && spec_is_digits(s.drop_last()) && s.len() <= 16 {
        Some(spec_digits_value(s.drop_last()))
    } else {
        None
    }
}

/// Bytes denoted by a memory quantity, if it is well formed.
pub open spec fn spec_mem_bytes(s: Seq<char>) -> Option<int> {
    let n = s.len() as int;
    if spec_is_digits(s) && n <= MAX_MEM_DIGITS {
        Some(spec_digits_value(s))
    } else if n >= 3 && s[n - 1] == 'i' && (s[n - 2] == 'K' || s[n - 2] == 'M' || s[n - 2] == 'G')
        && spec_is_digits(s.take(n - 2)) && n - 2 <= MAX_MEM_DIGITS {
        Some(
            spec_digits_value(s.take(n - 2)) * (if s[n - 2] == 'K' {
                1024int
            } else if s[n - 2] == 'M' {
                1048576int
            } else {
                1073741824int
            }),
        )
    } else if n >= 2 && (s[n - 1] == 'K' || s[n - 1] == 'M' || s[n - 1] == 'G') && spec_is_digits(
        s.take(n - 1),
    ) && n - 1 <= MAX_MEM_DIGITS {
        Some(
            spec_digits_value(s.take(n - 1)) * (if s[n - 1] == 'K' {
                1000int
            } else if s[n - 1] == 'M' {
                1000000int
            } else {
                1000000000int
            }),
        )
    } else {
        None
    }
}

/// Parse the first `to` characters of `s` as digits, refusing an empty or
/// over-long run.
fn parse_digits(s: &str, to: usize, max_len: usize) -> (r: Option<u64>)
    requires
        to <= s@.len(),
        max_len <= 15,
    ensures
        r is Some <==> (spec_is_digits(s@.take(to as int)) && 1 <= to <= max_len),
        r is Some ==> r->Some_0 == spec_digits_value(s@.take(to as int)),
{
    if to == 0 || to > max_len {
        return None;
    }
    let mut acc: u64 = 0;
    let mut i: usize = 0;
    while i < to
        invariant
            to <= s@.len(),
            i <= to,
            to <= max_len <= 15,
            forall|j: int| 0 <= j < i ==> spec_digit(s@.take(to as int)[j]),
            acc == spec_digits_value(s@.take(i as int)),
            acc < pow10(i as nat),
        decreases to - i,
    {
        let c = s.get_char(i);
        let cv = c as u32;
        if cv < 48 || cv > 57 {
            proof {
                assert(!spec_digit(s@.take(to as int)[i as int]));
            }
            return None;
        }
        proof {
            reveal_with_fuel(pow10, 17);
            assert(s@.take(i + 1).drop_last() =~= s@.take(i as int));
            assert(forall|j: int|
                0 <= j < i ==> s@.take(i as int)[j] == s@.take(to as int)[j]);
            lemma_digits_value_bound(s@.take(i as int));
        }
        acc = acc * 10 + ((cv - 48) as u64);
        i += 1;
    }
    proof {
        assert(s@.take(to as int) =~= s@.take(i as int));
    }
    Some(acc)
}

/// Parse a cpu quantity into millicores.
pub fn parse_cpu_millis(s: &str) -> (r: Option<u64>)
    ensures
        r is Some <==> spec_cpu_millis(s@) is Some,
        r is Some ==> Some(r->Some_0 as int) == spec_cpu_millis(s@),
{
    let n = s.unicode_len();
    if n == 0 {
        return None;
    }
    let last = s.get_char(n - 1);
    if last == 'm' {
        proof {
            assert(s@.take(n - 1 as int) =~= s@.drop_last());
            if spec_is_digits(s@) {
                assert(spec_digit(s@.last()));
            }
        }
        match parse_digits(s, n - 1, 15) {
            Some(v) => {
                proof {
                    assert(n <= 16);
                }
                Some(v)
            },
            None => None,
        }
    } else {
        proof {
            if spec_is_digits(s@) && s@.len() <= 15 {
                assert(s@.take(n as int) =~= s@);
            }
        }
        match parse_digits(s, n, 15) {
            Some(v) => {
                proof {
                    assert(s@.take(n as int) =~= s@);
                    lemma_digits_value_bound(s@);
                    reveal_with_fuel(pow10, 16);
                }
                Some(v * 1000)
            },
            None => None,
        }
    }
}

/// Parse a memory quantity into bytes.
pub fn parse_mem_bytes(s: &str) -> (r: Option<u64>)
    ensures
        r is Some <==> spec_mem_bytes(s@) is Some,
        r is Some ==> Some(r->Some_0 as int) == spec_mem_bytes(s@),
{
    let n = s.unicode_len();
    if n == 0 {
        return None;
    }
    let last = s.get_char(n - 1);
    if last == 'i' {
        if n < 3 {
            return None;
        }
        let unit = s.get_char(n - 2);
        if unit != 'K' && unit != 'M' && unit != 'G' {
            return None;
        }
        let mult: u64 = if unit == 'K' {
            1024
        } else if unit == 'M' {
            1048576
        } else {
            1073741824
        };
        match parse_digits(s, n - 2, 9) {
            Some(v) => {
                proof {
                    lemma_digits_value_bound(s@.take(n - 2 as int));
                    reveal_with_fuel(pow10, 10);
                    assert(v * mult <= (pow10(9) - 1) * 1073741824) by (nonlinear_arith)
                        requires
                            0 <= v < pow10(9),
                            1 <= mult <= 1073741824,
                            pow10(9) == 1000000000,
                    ;
                }
                Some(v * mult)
            },
            None => None,
        }
    } else if last == 'K' || last == 'M' || last == 'G' {
        if n < 2 {
            proof {
                assert(s@.len() == 1 && !spec_digit(s@[0]));
            }
            return None;
        }
        let mult: u64 = if last == 'K' {
            1000
        } else if last == 'M' {
            1000000
        } else {
            1000000000
        };
        match parse_digits(s, n - 1, 9) {
            Some(v) => {
                proof {
                    lemma_digits_value_bound(s@.take(n - 1 as int));
                    reveal_with_fuel(pow10, 10);
                    assert(v * mult <= (pow10(9) - 1) * 1000000000) by (nonlinear_arith)
                        requires
                            0 <= v < pow10(9),
                            1 <= mult <= 1000000000,
                            pow10(9) == 1000000000,
                    ;
                }
                Some(v * mult)
            },
            None => None,
        }
    } else {
        proof {
            if spec_is_digits(s@) && s@.len() <= 9 {
                assert(s@.take(n as int) =~= s@);
            }
        }
        match parse_digits(s, n, 9) {
            Some(v) => {
                proof {
                    assert(s@.take(n as int) =~= s@);
                }
                Some(v)
            },
            None => None,
        }
    }
}

/// Well-formed quantities denote non-negative values.
pub proof fn lemma_parse_nonneg(s: Seq<char>)
    ensures
        spec_cpu_millis(s) is Some ==> spec_cpu_millis(s)->Some_0 >= 0,
        spec_mem_bytes(s) is Some ==> spec_mem_bytes(s)->Some_0 >= 0,
{
    let n = s.len() as int;
    if spec_is_digits(s) {
        lemma_digits_value_bound(s);
    }
    if n >= 2 && s.last() == 'm' && spec_is_digits(s.drop_last()) {
        lemma_digits_value_bound(s.drop_last());
    }
    if n >= 3 && spec_is_digits(s.take(n - 2)) {
        lemma_digits_value_bound(s.take(n - 2));
        let v = spec_digits_value(s.take(n - 2));
        assert(v * 1024 >= 0 && v * 1048576 >= 0 && v * 1073741824 >= 0) by (nonlinear_arith)
            requires
                v >= 0,
        ;
    }
    if n >= 2 && spec_is_digits(s.take(n - 1)) {
        lemma_digits_value_bound(s.take(n - 1));
        let v = spec_digits_value(s.take(n - 1));
        assert(v * 1000 >= 0 && v * 1000000 >= 0 && v * 1000000000 >= 0) by (nonlinear_arith)
            requires
                v >= 0,
        ;
    }
    if spec_is_digits(s) {
        let v = spec_digits_value(s);
        assert(v * 1000 >= 0) by (nonlinear_arith)
            requires
                v >= 0,
        ;
    }
}

/// Addition clipped at the top of `u64`.
pub fn add_sat(a: u64, b: u64) -> (r: u64)
    ensures
        r == if a + b <= u64::MAX {
            a + b
        } else {
            u64::MAX as int
        },
{
    if a <= u64::MAX - b {
        a + b
    } else {
        u64::MAX
    }
}

/// Multiplication clipped at the top of `u64`.
pub fn mul_sat(a: u64, b: u64) -> (r: u64)
    ensures
        r == if a * b <= u64::MAX {
            a * b
        } else {
            u64::MAX as int
        },
{
    if b == 0 {
        return 0;
    }
    let q = u64::MAX / b;
    if a <= q {
        proof {
            assert(a * b <= u64::MAX) by (nonlinear_arith)
                requires
                    b > 0,
                    a <= u64::MAX as int / b as int,
            ;
        }
        a * b
    } else {
        proof {
            assert(a * b > u64::MAX) by (nonlinear_arith)
                requires
                    b > 0,
                    a > u64::MAX as int / b as int,
            ;
        }
        u64::MAX
    }
}

} // verus!
