//! Fixed-point numbers.
//!
//! Real-valued quantities of the metadata (sample rate, frequencies,
//! probabilities, gain, ...) are held as signed fixed-point numbers with nine
//! decimal fractional digits: a value is `units / FIXED_SCALE`. Callers that
//! obtain such quantities in another form convert at the boundary.

use vstd::prelude::*;

verus! {

/// Number of fixed-point units per whole unit (ten to the ninth).
pub const FIXED_SCALE: i128 = 1_000_000_000;

/// A signed fixed-point number; the represented value is `units / FIXED_SCALE`.
#[derive(Clone, Copy, Debug, PartialEq, Eq, Structural)]
pub struct Fixed {
    pub units: i128,
}

impl View for Fixed {
    type V = int;

    open spec fn view(&self) -> int {
        self.units as int
    }
}

impl Fixed {
    /// The number holding exactly the given units.
    pub fn from_units(units: i128) -> (r: Fixed)
        ensures
            r@ == units as int,
    {
        Fixed { units }
    }

    /// Zero.
    pub fn zero() -> (r: Fixed)
        ensures
            r@ == 0,
    {
        Fixed { units: 0 }
    }

    /// The raw units.
    pub fn units(&self) -> (r: i128)
        ensures
            r as int == self@,
    {
        self.units
    }

    /// `self >= other` on the represented values.
    pub fn ge(&self, other: &Fixed) -> (r: bool)
        ensures
            r == (self@ >= other@),
    {
        self.units >= other.units
    }
}

/// Duration in fixed-point units of `num_samples` samples at `rate_units`
/// fixed-point samples per second; zero when the rate is not positive (the
/// documented policy for a missing or nonsensical sample rate).
pub open spec fn spec_duration_units(num_samples: int, rate_units: int) -> int {
    if rate_units <= 0 {
        0
    } else {
        (num_samples * FIXED_SCALE * FIXED_SCALE) / rate_units
    }
}

/// Computes the duration of `num_samples` samples at sample rate `rate`.
pub fn duration_fixed(num_samples: u64, rate: Fixed) -> (r: Fixed)
    ensures
        r@ == spec_duration_units(num_samples as int, rate@),
{
    if rate.units <= 0 {
        Fixed { units: 0 }
    } else {
        proof {
            assert(0 <= (num_samples as int) * FIXED_SCALE <= i128::MAX) by (nonlinear_arith)
                requires
                    0 <= num_samples as int <= 18446744073709551615,
            ;
            assert(0 <= (num_samples as int) * FIXED_SCALE * FIXED_SCALE <= i128::MAX)
                by (nonlinear_arith)
                requires
                    0 <= num_samples as int <= 18446744073709551615,
            ;
        }
        let prod: i128 = (num_samples as i128) * FIXED_SCALE * FIXED_SCALE;
        Fixed { units: prod / rate.units }
    }
}

/// Whether `c` is a decimal digit.
pub open spec fn is_digit(c: char) -> bool {
    '0' as u32 <= c as u32 && c as u32 <= '9' as u32
}

/// The value of a decimal digit.
pub open spec fn digit_val(c: char) -> int {
    c as u32 - '0' as u32
}

/// Whether every character of `s` is a decimal digit.
pub open spec fn all_digits(s: Seq<char>) -> bool {
    forall|i: int| 0 <= i < s.len() ==> is_digit(#[trigger] s[i])
}

/// The number denoted by a sequence of decimal digits (most significant
/// first); an empty sequence denotes zero.
pub open spec fn digits_val(s: Seq<char>) -> int
    decreases s.len(),
{
    if s.len() == 0 {
        0
    } else {
        digits_val(s.drop_last()) * 10 + digit_val(s.last())
    }
}

/// Ten to the `n`.
pub open spec fn pow10(n: nat) -> int
    decreases n,
{
    if n == 0 {
        1
    } else {
        10 * pow10((n - 1) as nat)
    }
}

/// Index of the first `'.'` in `s`, or `s.len()` if there is none.
pub open spec fn find_dot(s: Seq<char>) -> int
    decreases s.len(),
{
    if s.len() == 0 {
        0
    } else if s[0] == '.' {
        0
    } else {
        1 + find_dot(s.drop_first())
    }
}

/// The digits of `s` before the first `'.'`.
pub open spec fn int_part(s: Seq<char>) -> Seq<char> {
    s.take(find_dot(s))
}

/// The digits of `s` after the first `'.'`; empty if there is no `'.'`.
pub open spec fn frac_part(s: Seq<char>) -> Seq<char> {
    if find_dot(s) == s.len() {
        Seq::empty()
    } else {
        s.skip(find_dot(s) + 1)
    }
}

/// Whether an unsigned number body is well formed: at most one `'.'`, all
/// other characters decimal digits, and at least one digit.
pub open spec fn valid_body(s: Seq<char>) -> bool {
    &&& s.len() > 0
    &&& all_digits(int_part(s))
    &&& all_digits(frac_part(s))
    &&& int_part(s).len() + frac_part(s).len() > 0
}

/// The value in fixed-point units of a fraction-digit sequence, truncated
/// beyond nine digits.
pub open spec fn frac_units(f: Seq<char>) -> int {
    if f.len() >= 9 {
        digits_val(f.take(9))
    } else {
        digits_val(f) * pow10((9 - f.len()) as nat)
    }
}

/// The magnitude in fixed-point units of a well-formed unsigned body.
pub open spec fn body_units(s: Seq<char>) -> int {
    digits_val(int_part(s)) * FIXED_SCALE + frac_units(frac_part(s))
}

/// The number denoted by decimal filter text, in fixed-point units.
///
/// Grammar: an optional `'+'` or `'-'` sign, then digits with at most one
/// `'.'` and at least one digit. Fraction digits beyond the ninth are
/// truncated. Text outside the grammar, or a value whose magnitude exceeds
/// `i128::MAX` units, denotes nothing.
pub open spec fn spec_parse_fixed(s: Seq<char>) -> Option<int> {
    let signed = s.len() > 0 && (s[0] == '-' || s[0] == '+');
    let neg = s.len() > 0 && s[0] == '-';
    let body = if signed {
        s.drop_first()
    } else {
        s
    };
    if !valid_body(body) {
        None
    } else {
        let mag = body_units(body);
        if mag > i128::MAX as int {
            None
        } else if neg {
            Some(-mag)
        } else {
            Some(mag)
        }
    }
}

/// The signed 64-bit integer denoted by decimal filter text: an optional
/// sign and digits, with at least one digit. Text outside the grammar, or a
/// value outside the `i64` range, denotes nothing.
pub open spec fn spec_parse_i64(s: Seq<char>) -> Option<int> {
    let signed = s.len() > 0 && (s[0] == '-' || s[0] == '+');
    let neg = s.len() > 0 && s[0] == '-';
    let body = if signed {
        s.drop_first()
    } else {
        s
    };
    if body.len() == 0 || !all_digits(body) {
        None
    } else {
        let v = if neg {
            -digits_val(body)
        } else {
            digits_val(body)
        };
        if i64::MIN as int <= v <= i64::MAX as int {
            Some(v)
        } else {
            None
        }
    }
}

/// A digit sequence denotes a nonnegative number.
pub proof fn lemma_digits_val_nonneg(s: Seq<char>)
    requires
        all_digits(s),
    ensures
        digits_val(s) >= 0,
    decreases s.len(),
{
    if s.len() > 0 {
        assert(all_digits(s.drop_last()));
        lemma_digits_val_nonneg(s.drop_last());
    }
}

/// A digit sequence of length `n` denotes less than ten to the `n`.
pub proof fn lemma_digits_val_bound(s: Seq<char>)
    requires
        all_digits(s),
    ensures
        digits_val(s) < pow10(s.len()),
    decreases s.len(),
{
    if s.len() > 0 {
        assert(all_digits(s.drop_last()));
        lemma_digits_val_bound(s.drop_last());
        assert(digit_val(s.last()) <= 9);
    }
}

/// Ten to the `n` is positive.
pub proof fn lemma_pow10_pos(n: nat)
    ensures
        pow10(n) >= 1,
    decreases n,
{
    if n > 0 {
        lemma_pow10_pos((n - 1) as nat);
    }
}

/// Extending a digit sequence can only increase its value.
pub proof fn lemma_digits_val_prefix(s: Seq<char>, k: int)
    requires
        all_digits(s),
        0 <= k <= s.len(),
    ensures
        digits_val(s) >= digits_val(s.take(k)),
    decreases s.len(),
{
    if k < s.len() {
        assert(all_digits(s.drop_last()));
        assert(s.drop_last().take(k) =~= s.take(k));
        lemma_digits_val_prefix(s.drop_last(), k);
        lemma_digits_val_nonneg(s.drop_last());
    } else {
        assert(s.take(k) =~= s);
    }
}

/// Fraction units are nonnegative for digit sequences.
pub proof fn lemma_frac_units_nonneg(f: Seq<char>)
    requires
        all_digits(f),
    ensures
        frac_units(f) >= 0,
{
    if f.len() >= 9 {
        assert(all_digits(f.take(9)));
        lemma_digits_val_nonneg(f.take(9));
    } else {
        lemma_digits_val_nonneg(f);
        lemma_pow10_pos((9 - f.len()) as nat);
    }
}

/// `find_dot` is characterized by: everything before it differs from `'.'`,
/// and it either lands on a `'.'` or at the end.
pub proof fn lemma_find_dot_is(s: Seq<char>, p: int)
    requires
        0 <= p <= s.len(),
        p < s.len() ==> s[p] == '.',
        forall|i: int| 0 <= i < p ==> s[i] != '.',
    ensures
        find_dot(s) == p,
    decreases s.len(),
{
    if s.len() == 0 {
    } else if s[0] == '.' {
        assert(p == 0);
    } else {
        assert(p >= 1);
        let t = s.drop_first();
        assert(forall|i: int| 0 <= i < p - 1 ==> t[i] != '.');
        lemma_find_dot_is(t, p - 1);
    }
}

/// Above this accumulator value, one more digit certainly pushes the
/// magnitude past `i128::MAX` units. The value is `(i128::MAX - 9) / 10`.
pub(crate) const PARSE_ACC_LIMIT: i128 = 17_014_118_346_046_923_173_168_730_371_588_410_571;

/// Ten to the `e` for small exponents.
fn pow10_exec(e: usize) -> (r: i128)
    requires
        e <= 9,
    ensures
        r == pow10(e as nat),
{
    proof {
        reveal_with_fuel(pow10, 11);
    }
    match e {
        0 => 1,
        1 => 10,
        2 => 100,
        3 => 1_000,
        4 => 10_000,
        5 => 100_000,
        6 => 1_000_000,
        7 => 10_000_000,
        8 => 100_000_000,
        _ => 1_000_000_000,
    }
}

impl Fixed {
    /// Parses decimal text per [`spec_parse_fixed`]; `None` exactly on text
    /// that denotes nothing.
    pub fn from_text(s: &str) -> (r: Option<Fixed>)
        ensures
            r is Some <==> spec_parse_fixed(s@) is Some,
            r matches Some(f) ==> spec_parse_fixed(s@) == Some(f@),
    {
        let cs = crate::strutil::chars_of(s);
        parse_fixed_chars(&cs)
    }
}

/// Outcome of scanning an integer-part digit run.
pub(crate) enum DigitScan {
    /// All characters were digits; carries their value.
    Value(i128),
    /// The value certainly exceeds what fits in fixed-point units.
    TooBig,
    /// A non-digit character was found.
    NonDigit,
}

/// Scans `cs[from..to)` as decimal digits, giving up early once the value
/// certainly cannot fit.
#[verifier::loop_isolation(false)]
pub(crate) fn scan_int_digits(cs: &Vec<char>, from: usize, to: usize) -> (r: DigitScan)
    requires
        from <= to <= cs.len(),
    ensures
        ({
            let sub = cs@.subrange(from as int, to as int);
            match r {
                DigitScan::Value(v) => all_digits(sub) && v == digits_val(sub) && 0 <= v,
                DigitScan::TooBig => all_digits(sub) ==> digits_val(sub) > PARSE_ACC_LIMIT,
                DigitScan::NonDigit => !all_digits(sub),
            }
        }),
{
    let ghost sub = cs@.subrange(from as int, to as int);
    let mut acc: i128 = 0;
    let mut k: usize = from;
    while k < to
        invariant
            from <= k <= to,
            all_digits(cs@.subrange(from as int, k as int)),
            acc == digits_val(cs@.subrange(from as int, k as int)),
            0 <= acc <= PARSE_ACC_LIMIT / 10 * 10 + 9,
        decreases to - k,
    {
        let c = cs[k];
        let cu = c as u32;
        if cu < '0' as u32 || cu > '9' as u32 {
            proof {
                assert(sub[k - from] == cs@[k as int]);
            }
            return DigitScan::NonDigit;
        }
        if acc > PARSE_ACC_LIMIT / 10 {
            proof {
                let pre = cs@.subrange(from as int, k as int + 1);
                assert(pre.drop_last() =~= cs@.subrange(from as int, k as int));
                assert(pre.last() == c);
                assert(digits_val(pre) > PARSE_ACC_LIMIT);
                if all_digits(sub) {
                    assert(pre =~= sub.take(k + 1 - from));
                    lemma_digits_val_prefix(sub, k + 1 - from);
                }
            }
            return DigitScan::TooBig;
        }
        acc = acc * 10 + ((cu - '0' as u32) as i128);
        proof {
            let pre = cs@.subrange(from as int, k as int);
            let post = cs@.subrange(from as int, k as int + 1);
            assert(post.drop_last() =~= pre);
            assert(post.last() == c);
        }
        k += 1;
    }
    proof {
        assert(cs@.subrange(from as int, to as int) =~= sub);
    }
    DigitScan::Value(acc)
}

/// Scans `cs[from..to)` as fraction digits: accumulates the first nine and
/// validates the rest; `None` exactly when a non-digit occurs.
#[verifier::loop_isolation(false)]
fn scan_frac_digits(cs: &Vec<char>, from: usize, to: usize) -> (r: Option<(i128, usize)>)
    requires
        from <= to <= cs.len(),
    ensures
        ({
            let sub = cs@.subrange(from as int, to as int);
            match r {
                Some(p) => all_digits(sub) && p.1 == if sub.len() <= 9 {
                    sub.len() as int
                } else {
                    9
                } && p.0 == digits_val(sub.take(p.1 as int)) && 0 <= p.0 < 1_000_000_000,
                None => !all_digits(sub),
            }
        }),
{
    let ghost sub = cs@.subrange(from as int, to as int);
    let mut facc: i128 = 0;
    let mut fdig: usize = 0;
    let mut k: usize = from;
    while k < to
        invariant
            from <= k <= to,
            all_digits(cs@.subrange(from as int, k as int)),
            fdig == if k - from <= 9 {
                k - from
            } else {
                9
            },
            facc == digits_val(cs@.subrange(from as int, from as int + fdig as int)),
            0 <= facc < 1_000_000_000,
        decreases to - k,
    {
        let c = cs[k];
        let cu = c as u32;
        if cu < '0' as u32 || cu > '9' as u32 {
            proof {
                assert(sub[k - from] == cs@[k as int]);
            }
            return None;
        }
        if fdig < 9 {
            facc = facc * 10 + ((cu - '0' as u32) as i128);
            fdig += 1;
            proof {
                let pre = cs@.subrange(from as int, from as int + fdig - 1);
                let post = cs@.subrange(from as int, from as int + fdig as int);
                assert(post.drop_last() =~= pre);
                assert(post.last() == c);
                assert(all_digits(post));
                lemma_digits_val_bound(post);
                lemma_pow10_le_9(post.len() as nat);
            }
        }
        k += 1;
    }
    proof {
        assert(cs@.subrange(from as int, from as int + fdig as int) =~= sub.take(fdig as int));
    }
    Some((facc, fdig))
}

/// Parses a character vector per [`spec_parse_fixed`].
#[verifier::loop_isolation(false)]
#[verifier::rlimit(60)]
fn parse_fixed_chars(cs: &Vec<char>) -> (r: Option<Fixed>)
    ensures
        r is Some <==> spec_parse_fixed(cs@) is Some,
        r matches Some(f) ==> spec_parse_fixed(cs@) == Some(f@),
{
    let n = cs.len();
    let mut neg = false;
    let mut start: usize = 0;
    if n > 0 && (cs[0] == '-' || cs[0] == '+') {
        neg = cs[0] == '-';
        start = 1;
    }
    let ghost body = cs@.skip(start as int);
    proof {
        if start == 1 {
            assert(cs@.skip(1) =~= cs@.drop_first());
        } else {
            assert(cs@.skip(0) =~= cs@);
        }
    }
    if start >= n {
        assert(body.len() == 0);
        return None;
    }
    // Locate the first '.' at or after `start`.
    let mut j: usize = start;
    let mut dot: usize = n;
    let mut found = false;
    while j < n
        invariant
            start <= j <= n,
            !found ==> dot == n && (forall|k: int| start <= k < j ==> cs@[k] != '.'),
            found ==> start <= dot < j && cs@[dot as int] == '.' && (forall|k: int|
                start <= k < dot ==> cs@[k] != '.'),
        decreases n - j,
    {
        if !found && cs[j] == '.' {
            dot = j;
            found = true;
        }
        j += 1;
    }
    proof {
        assert(forall|i: int| 0 <= i < body.len() ==> body[i] == cs@[start + i]);
        lemma_find_dot_is(body, dot - start);
        assert(int_part(body) =~= cs@.subrange(start as int, dot as int));
        if dot < n {
            assert(frac_part(body) =~= cs@.subrange(dot as int + 1, n as int));
        }
    }
    // Only a sign and a dot, no digit at all.
    if dot == start && n == dot + 1 {
        assert(int_part(body).len() + frac_part(body).len() == 0);
        return None;
    }
    // Integer part.
    let acc = match scan_int_digits(cs, start, dot) {
        DigitScan::NonDigit => {
            proof {
                assert(!all_digits(int_part(body)));
            }
            return None;
        },
        DigitScan::TooBig => {
            proof {
                if valid_body(body) {
                    lemma_frac_units_nonneg(frac_part(body));
                    assert(digits_val(int_part(body)) * FIXED_SCALE > i128::MAX)
                        by (nonlinear_arith)
                        requires
                            digits_val(int_part(body)) > PARSE_ACC_LIMIT,
                    ;
                }
            }
            return None;
        },
        DigitScan::Value(v) => v,
    };
    // Fraction part.
    let (facc, fdig) = if dot < n {
        match scan_frac_digits(cs, dot + 1, n) {
            None => {
                proof {
                    assert(!all_digits(frac_part(body)));
                }
                return None;
            },
            Some(p) => p,
        }
    } else {
        (0, 0)
    };
    proof {
        assert(all_digits(frac_part(body)));
        assert(valid_body(body));
        if dot < n {
            assert(cs@.subrange(dot as int + 1, n as int).take(fdig as int) =~= cs@.subrange(
                dot as int + 1,
                dot as int + 1 + fdig as int,
            ));
        }
    }
    // Scale the fraction out to nine digits.
    let pw = pow10_exec(9 - fdig);
    proof {
        lemma_pow10_le_9((9 - fdig) as nat);
        assert(0 <= facc * pw <= 999_999_999 * 1_000_000_000) by (nonlinear_arith)
            requires
                0 <= facc < 1_000_000_000,
                1 <= pw <= 1_000_000_000,
        ;
    }
    let fval = facc * pw;
    proof {
        lemma_fval_is_frac_units(cs@, body, start as int, dot as int, fdig as int, facc as int);
        lemma_frac_units_nonneg(frac_part(body));
    }
    match acc.checked_mul(FIXED_SCALE) {
        None => {
            proof {
                assert(acc * FIXED_SCALE > i128::MAX) by (nonlinear_arith)
                    requires
                        acc >= 0,
                        (acc * FIXED_SCALE > i128::MAX || acc * FIXED_SCALE < i128::MIN),
                ;
                assert(body_units(body) > i128::MAX as int);
            }
            None
        },
        Some(p) => {
            match p.checked_add(fval) {
                None => {
                    proof {
                        assert(body_units(body) > i128::MAX as int);
                    }
                    None
                },
                Some(m) => {
                    proof {
                        assert(m == body_units(body));
                    }
                    let units = if neg {
                        -m
                    } else {
                        m
                    };
                    Some(Fixed { units })
                },
            }
        },
    }
}

/// Parses decimal text as a signed 64-bit integer per [`spec_parse_i64`];
/// `None` exactly on text that denotes nothing.
#[verifier::loop_isolation(false)]
pub fn parse_i64(s: &str) -> (r: Option<i64>)
    ensures
        r is Some <==> spec_parse_i64(s@) is Some,
        r matches Some(v) ==> spec_parse_i64(s@) == Some(v as int),
{
    let cs = crate::strutil::chars_of(s);
    let n = cs.len();
    let mut neg = false;
    let mut start: usize = 0;
    if n > 0 && (cs[0] == '-' || cs[0] == '+') {
        neg = cs[0] == '-';
        start = 1;
    }
    let ghost body = cs@.skip(start as int);
    proof {
        if start == 1 {
            assert(cs@.skip(1) =~= cs@.drop_first());
        } else {
            assert(cs@.skip(0) =~= cs@);
        }
    }
    if start >= n {
        assert(body.len() == 0);
        return None;
    }
    match scan_int_digits(&cs, start, n) {
        DigitScan::NonDigit => {
            proof {
                assert(cs@.subrange(start as int, n as int) =~= body);
            }
            None
        },
        DigitScan::TooBig => {
            proof {
                assert(cs@.subrange(start as int, n as int) =~= body);
                if all_digits(body) {
                    assert(digits_val(body) > PARSE_ACC_LIMIT);
                }
            }
            None
        },
        DigitScan::Value(v) => {
            proof {
                assert(cs@.subrange(start as int, n as int) =~= body);
            }
            if neg {
                if v > 9_223_372_036_854_775_808i128 {
                    None
                } else {
                    Some((-v) as i64)
                }
            } else {
                if v > i64::MAX as i128 {
                    None
                } else {
                    Some(v as i64)
                }
            }
        },
    }
}

/// Bounds and scaling facts tying the fraction accumulator to `frac_units`.
proof fn lemma_fval_is_frac_units(s: Seq<char>, body: Seq<char>, start: int, dot: int, fdig: int, facc: int)
    requires
        0 <= start <= dot <= s.len(),
        body == s.skip(start),
        find_dot(body) == dot - start,
        dot < s.len() ==> frac_part(body) =~= s.subrange(dot + 1, s.len() as int),
        dot == s.len() ==> frac_part(body) =~= Seq::<char>::empty(),
        fdig == if frac_part(body).len() <= 9 {
            frac_part(body).len() as int
        } else {
            9
        },
        dot < s.len() ==> facc == digits_val(s.subrange(dot + 1, dot + 1 + fdig)),
        dot == s.len() ==> facc == 0,
        all_digits(frac_part(body)),
    ensures
        facc * pow10((9 - fdig) as nat) == frac_units(frac_part(body)),
{
    let f = frac_part(body);
    if dot == s.len() {
        assert(f.len() == 0);
        assert(frac_units(f) == digits_val(f) * pow10(9));
    } else {
        if f.len() >= 9 {
            assert(fdig == 9);
            assert(s.subrange(dot + 1, dot + 1 + 9) =~= f.take(9));
            assert(pow10(0) == 1);
        } else {
            assert(fdig == f.len());
            assert(s.subrange(dot + 1, dot + 1 + fdig) =~= f);
        }
    }
}

/// Ten to the `n` stays within a billion for `n` at most nine.
proof fn lemma_pow10_le_9(n: nat)
    requires
        n <= 9,
    ensures
        1 <= pow10(n) <= 1_000_000_000,
    decreases n,
{
    reveal_with_fuel(pow10, 11);
    if n > 0 {
        lemma_pow10_le_9((n - 1) as nat);
        assert(pow10(n) == 10 * pow10((n - 1) as nat));
        lemma_pow10_mono_le_9(n);
    }
}

/// Monotonicity of `pow10` up to nine, by direct evaluation.
proof fn lemma_pow10_mono_le_9(n: nat)
    requires
        1 <= n <= 9,
    ensures
        pow10(n) <= 1_000_000_000,
{
    reveal_with_fuel(pow10, 11);
    assert(pow10(1) == 10);
    assert(pow10(2) == 100);
    assert(pow10(3) == 1000);
    assert(pow10(4) == 10000);
    assert(pow10(5) == 100000);
    assert(pow10(6) == 1000000);
    assert(pow10(7) == 10000000);
    assert(pow10(8) == 100000000);
    assert(pow10(9) == 1000000000);
}

} // verus!
