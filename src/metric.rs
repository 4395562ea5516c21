use vstd::prelude::*;
use vstd::string::*;

verus! {

/// How many decimal places a metric keeps.
pub const FRACTION_DIGITS: u32 = 18;

/// A non-negative number read from a report, in units of 10^-18: the
/// metric 12.34 is held as 12_340_000_000_000_000_000.
#[derive(Clone, Copy, Debug, PartialEq, Eq, Structural)]
pub struct Metric {
    pub scaled: u128,
}

pub open spec fn pow10(n: nat) -> nat
    decreases n,
{
    if n == 0 {
        1
    } else {
        10 * pow10((n - 1) as nat)
    }
}

pub open spec fn is_digit(c: char) -> bool {
    '0' <= c && c <= '9'
}

/// A non-empty run of decimal digits.
pub open spec fn digit_run(s: Seq<char>) -> bool {
    s.len() > 0 && forall|i: int| 0 <= i < s.len() ==> is_digit(#[trigger] s[i])
}

/// The number that a run of decimal digits writes.
pub open spec fn digits_value(s: Seq<char>) -> nat
    decreases s.len(),
{
    if s.len() == 0 {
        0
    } else {
        digits_value(s.drop_last()) * 10 + (s.last() as int - '0' as int) as nat
    }
}

/// `s` is `w.f` with the point at `d`, `w` and `f` runs of digits.
pub open spec fn point_at(s: Seq<char>, d: int) -> bool {
    0 <= d < s.len() && s[d] == '.' && digit_run(s.take(d)) && digit_run(s.skip(d + 1))
}

/// The metric that the text `s` writes, scaled by 10^18: `s` is a run of
/// digits `w`, or `w.f` with `f` at most 18 digits long; `w` is at most
/// `u64::MAX`.
pub open spec fn metric_value(s: Seq<char>) -> Option<nat> {
    if digit_run(s) {
        if digits_value(s) <= u64::MAX {
            Some(digits_value(s) * pow10(18))
        } else {
            None
        }
    } else if exists|d: int| point_at(s, d) {
        let d = choose|d: int| point_at(s, d);
        let w = s.take(d);
        let f = s.skip(d + 1);
        if digits_value(w) <= u64::MAX && f.len() <= 18 {
            Some(digits_value(w) * pow10(18) + digits_value(f) * pow10((18 - f.len()) as nat))
        } else {
            None
        }
    } else {
        None
    }
}

proof fn lemma_pow10_18()
    ensures
        pow10(18) == 1_000_000_000_000_000_000,
{
    reveal_with_fuel(pow10, 19);
}

proof fn lemma_pow10_mono(i: nat, j: nat)
    requires
        i <= j,
    ensures
        1 <= pow10(i) <= pow10(j),
    decreases j,
{
    if j > 0 {
        if i < j {
            lemma_pow10_mono(i, (j - 1) as nat);
        } else {
            lemma_pow10_mono((i - 1) as nat, (j - 1) as nat);
        }
    }
}

proof fn lemma_pow10_add(i: nat, j: nat)
    ensures
        pow10(i) * pow10(j) == pow10(i + j),
    decreases i,
{
    if i == 0 {
        assert(pow10(0) == 1);
    } else {
        let k = (i - 1) as nat;
        lemma_pow10_add(k, j);
        assert(pow10(k + j + 1) == 10 * pow10(k + j));
        assert(pow10(k + 1) * pow10(j) == 10 * (pow10(k) * pow10(j))) by (nonlinear_arith)
            requires
                pow10(k + 1) == 10 * pow10(k),
        ;
        assert(i == k + 1);
    }
}

/// A run of `n` digits writes a number below `10^n`.
proof fn lemma_digits_below(s: Seq<char>)
    requires
        forall|i: int| 0 <= i < s.len() ==> is_digit(#[trigger] s[i]),
    ensures
        digits_value(s) < pow10(s.len()),
    decreases s.len(),
{
    if s.len() > 0 {
        let t = s.drop_last();
        assert forall|i: int| 0 <= i < t.len() implies is_digit(#[trigger] t[i]) by {
            assert(t[i] == s[i]);
        }
        lemma_digits_below(t);
        assert(is_digit(s[s.len() - 1]));
    }
}

/// Adding digits at the end never makes the number smaller.
proof fn lemma_prefix_not_larger(s: Seq<char>, k: int)
    requires
        0 <= k <= s.len(),
    ensures
        digits_value(s.take(k)) <= digits_value(s),
    decreases s.len(),
{
    if k == s.len() {
        assert(s.take(k) =~= s);
    } else {
        let t = s.drop_last();
        assert(t.take(k) =~= s.take(k));
        lemma_prefix_not_larger(t, k);
    }
}

/// The number written by the characters of `s` from `lo` to `hi`, where
/// that is a non-empty run of digits and the number fits in a `u64`.
pub(crate) fn run_value(s: &str, lo: usize, hi: usize) -> (r: Option<u64>)
    requires
        lo <= hi <= s@.len(),
    ensures
        match r {
            Some(v) => digit_run(s@.subrange(lo as int, hi as int)) && v == digits_value(
                s@.subrange(lo as int, hi as int),
            ),
            None => !(digit_run(s@.subrange(lo as int, hi as int)) && digits_value(
                s@.subrange(lo as int, hi as int),
            ) <= u64::MAX),
        },
{
    if lo == hi {
        return None;
    }
    let ghost full = s@.subrange(lo as int, hi as int);
    let mut acc: u64 = 0;
    let mut i: usize = lo;
    while i < hi
        invariant
            lo <= i <= hi <= s@.len(),
            full == s@.subrange(lo as int, hi as int),
            full.len() > 0,
            forall|j: int| lo <= j < i ==> is_digit(#[trigger] s@[j]),
            acc == digits_value(s@.subrange(lo as int, i as int)),
        decreases hi - i,
    {
        let c = s.get_char(i);
        proof {
            assert(s@.subrange(lo as int, i + 1).drop_last() =~= s@.subrange(lo as int, i as int));
            assert(full.take(i + 1 - lo) =~= s@.subrange(lo as int, i + 1));
        }
        if !('0' <= c && c <= '9') {
            assert(full[i - lo] == c);
            return None;
        }
        let d: u64 = (c as u32 - '0' as u32) as u64;
        let next = acc.checked_mul(10);
        match next {
            None => {
                proof {
                    lemma_prefix_not_larger(full, i + 1 - lo);
                }
                return None;
            },
            Some(m) => match m.checked_add(d) {
                None => {
                    proof {
                        lemma_prefix_not_larger(full, i + 1 - lo);
                    }
                    return None;
                },
                Some(v) => {
                    acc = v;
                },
            },
        }
        i = i + 1;
    }
    proof {
        assert(s@.subrange(lo as int, i as int) =~= full);
        assert forall|j: int| 0 <= j < full.len() implies is_digit(#[trigger] full[j]) by {
            assert(full[j] == s@[lo + j]);
        }
    }
    Some(acc)
}

fn pow10_u64(k: u32) -> (r: u64)
    requires
        k <= 18,
    ensures
        r == pow10(k as nat),
{
    let mut r: u64 = 1;
    let mut i: u32 = 0;
    while i < k
        invariant
            i <= k <= 18,
            r == pow10(i as nat),
        decreases k - i,
    {
        proof {
            lemma_pow10_mono((i + 1) as nat, 18);
            lemma_pow10_18();
        }
        r = r * 10;
        i = i + 1;
    }
    r
}

/// Reads a metric written as digits with an optional fraction (`12.34`).
pub fn parse_metric(s: &str) -> (r: Option<Metric>)
    ensures
        match metric_value(s@) {
            Some(v) => r == Some(Metric { scaled: v as u128 }),
            None => r is None,
        },
{
    let n = s.unicode_len();
    let mut d: usize = 0;
    while d < n
        invariant
            d <= n == s@.len(),
            forall|j: int| 0 <= j < d ==> s@[j] != '.',
        ensures
            d <= n,
            d < n ==> s@[d as int] == '.',
            forall|j: int| 0 <= j < d ==> s@[j] != '.',
        decreases n - d,
    {
        if s.get_char(d) == '.' {
            break;
        }
        d = d + 1;
    }
    proof {
        lemma_pow10_18();
    }
    if d == n {
        assert(s@.subrange(0, n as int) =~= s@);
        assert(!exists|e: int| point_at(s@, e));
        match run_value(s, 0, n) {
            None => {
                return None;
            },
            Some(w) => {
                let scaled = (w as u128) * 1_000_000_000_000_000_000u128;
                return Some(Metric { scaled });
            },
        }
    }
    proof {
        assert(s@[d as int] == '.');
        assert(!digit_run(s@));
        assert forall|e: int| point_at(s@, e) implies e == d by {
            if e > d {
                assert(s@.take(e)[d as int] == '.');
            }
        }
        assert(s@.take(d as int) =~= s@.subrange(0, d as int));
        assert(s@.skip(d + 1) =~= s@.subrange(d + 1, n as int));
    }
    if n - (d + 1) > 18 {
        return None;
    }
    let flen: u32 = (n - (d + 1)) as u32;
    let w = match run_value(s, 0, d) {
        None => {
            return None;
        },
        Some(w) => w,
    };
    proof {
        let f = s@.subrange(d + 1, n as int);
        if digit_run(f) {
            lemma_digits_below(f);
            lemma_pow10_mono(flen as nat, 18);
        }
    }
    let f = match run_value(s, d + 1, n) {
        None => {
            return None;
        },
        Some(f) => f,
    };
    assert(point_at(s@, d as int));
    let p = pow10_u64(18 - flen);
    proof {
        lemma_digits_below(s@.subrange(d + 1, n as int));
        lemma_pow10_add(flen as nat, (18 - flen) as nat);
        assert(f * p < 1_000_000_000_000_000_000) by (nonlinear_arith)
            requires
                f < pow10(flen as nat),
                p == pow10((18 - flen) as nat),
                pow10(flen as nat) * pow10((18 - flen) as nat) == 1_000_000_000_000_000_000,
        ;
        assert((w as u128) * 1_000_000_000_000_000_000u128 <= u64::MAX * 1_000_000_000_000_000_000)
            by (nonlinear_arith)
            requires
                w <= u64::MAX,
        ;
    }
    let scaled = (w as u128) * 1_000_000_000_000_000_000u128 + (f as u128) * (p as u128);
    Some(Metric { scaled })
}

} // verus!
