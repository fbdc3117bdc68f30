use vstd::prelude::*;

verus! {

pub open spec fn is_digit(c: char) -> bool {
    '0' <= c <= '9'
}

pub open spec fn all_digits(s: Seq<char>) -> bool {
    forall|i: int| 0 <= i < s.len() ==> #[trigger] is_digit(s[i])
}

/// The number written by the decimal digits `s` (zero when empty).
pub open spec fn digits_value(s: Seq<char>) -> nat
    decreases s.len(),
{
    if s.len() == 0 {
        0
    } else {
        10 * digits_value(s.drop_last()) + ((s.last() as u32) - 48) as nat
    }
}

/// Position of the first `c` in `s`, or `s.len()` when there is none.
pub open spec fn first_index(s: Seq<char>, c: char) -> nat
    decreases s.len(),
{
    if s.len() == 0 {
        0
    } else if first_index(s.drop_last(), c) < s.len() - 1 {
        first_index(s.drop_last(), c)
    } else if s.last() == c {
        (s.len() - 1) as nat
    } else {
        s.len()
    }
}

/// Fraction digits `f` as millionths: the first six digits, zero-padded.
pub open spec fn fraction_micro(f: Seq<char>) -> nat
    decreases 6 - f.len(),
{
    if f.len() >= 6 {
        digits_value(f.take(6))
    } else {
        fraction_micro(f.push('0'))
    }
}

/// The value, in millionths, of a plain decimal number `I` or `I.F` (`I`
/// one or more digits, `F` any number of digits, digits past the sixth
/// fraction digit ignored); `None` for any other text or a value beyond
/// `u64::MAX`.
pub open spec fn spec_parse_micro(s: Seq<char>) -> Option<u64> {
    let d = first_index(s, '.') as int;
    let int_part = s.take(d);
    let frac = if d < s.len() { s.skip(d + 1) } else { Seq::empty() };
    if int_part.len() == 0 || !all_digits(int_part) || !all_digits(frac) {
        None
    } else if digits_value(int_part) * 1_000_000 + fraction_micro(frac) > u64::MAX {
        None
    } else {
        Some((digits_value(int_part) * 1_000_000 + fraction_micro(frac)) as u64)
    }
}

/// The value of a run of decimal digits; `None` for an empty run, any other
/// character, or a value beyond `u64::MAX`.
pub open spec fn spec_parse_u64(s: Seq<char>) -> Option<u64> {
    if s.len() == 0 || !all_digits(s) || digits_value(s) > u64::MAX {
        None
    } else {
        Some(digits_value(s) as u64)
    }
}

/// Reads the digits of `s[from..to]` as a number, `None` past `u64::MAX`
/// or at a non-digit.
fn digits_in(s: &str, from: usize, to: usize) -> (r: Option<u64>)
    requires
        from <= to <= s@.len(),
    ensures
        match r {
            Some(v) => all_digits(s@.subrange(from as int, to as int)) && v == digits_value(
                s@.subrange(from as int, to as int),
            ),
            None => !all_digits(s@.subrange(from as int, to as int)) || digits_value(
                s@.subrange(from as int, to as int),
            ) > u64::MAX,
        },
{
    let mut v: u64 = 0;
    let mut i: usize = from;
    while i < to
        invariant
            from <= i <= to <= s@.len(),
            all_digits(s@.subrange(from as int, i as int)),
            v == digits_value(s@.subrange(from as int, i as int)),
        decreases to - i,
    {
        let c = s.get_char(i);
        assert(s@.subrange(from as int, i + 1).drop_last() =~= s@.subrange(from as int, i as int));
        if !('0' <= c && c <= '9') {
            assert(!is_digit(s@.subrange(from as int, to as int)[i - from]));
            return None;
        }
        let d: u64 = (c as u32 - 48) as u64;
        if v > (u64::MAX - d) / 10 {
            proof {
                let whole = s@.subrange(from as int, to as int);
                let k = i + 1 - from;
                lemma_digits_prefix_grows(whole, k);
                assert(whole.take(k) =~= s@.subrange(from as int, i + 1));
                assert(10 * v + d > u64::MAX) by (nonlinear_arith)
                    requires
                        v > (u64::MAX - d) / 10,
                        d <= 9,
                ;
                assert(digits_value(s@.subrange(from as int, i + 1)) == 10 * v + d);
            }
            return None;
        }
        v = 10 * v + d;
        i = i + 1;
    }
    Some(v)
}

/// A longer run of digits is worth at least as much as its prefix.
proof fn lemma_digits_prefix_grows(s: Seq<char>, k: int)
    requires
        0 <= k <= s.len(),
        all_digits(s.take(k)) ==> true,
    ensures
        all_digits(s) ==> digits_value(s.take(k)) <= digits_value(s),
    decreases s.len() - k,
{
    if k < s.len() {
        lemma_digits_prefix_grows(s, k + 1);
        assert(s.take(k + 1).drop_last() =~= s.take(k));
        if all_digits(s) {
            assert(is_digit(s[k]));
        }
    } else {
        assert(s.take(k) =~= s);
    }
}

/// Parses a run of decimal digits as a `u64`.
pub fn parse_u64(s: &str) -> (r: Option<u64>)
    ensures
        r == spec_parse_u64(s@),
{
    let n = s.unicode_len();
    if n == 0 {
        return None;
    }
    let r = digits_in(s, 0, n);
    assert(s@.subrange(0, n as int) =~= s@);
    r
}

/// `i` is the first position of `c` in `s` (or `s.len()` when there is
/// none) exactly when no earlier position holds `c` and position `i` does.
pub proof fn lemma_first_index(s: Seq<char>, c: char, i: int)
    requires
        0 <= i <= s.len(),
        forall|j: int| 0 <= j < i ==> s[j] != c,
        i < s.len() ==> s[i] == c,
    ensures
        first_index(s, c) == i,
    decreases s.len(),
{
    if s.len() > 0 {
        if i < s.len() {
            lemma_first_index(s.drop_last(), c, if i < s.len() - 1 { i } else { s.len() - 1 });
        } else {
            lemma_first_index(s.drop_last(), c, s.len() - 1);
        }
    }
}

proof fn lemma_fraction_micro(f: Seq<char>)
    requires
        f.len() <= 6,
    ensures
        fraction_micro(f) == digits_value(f) * crate::text::pow10((6 - f.len()) as nat),
    decreases 6 - f.len(),
{
    if f.len() < 6 {
        lemma_fraction_micro(f.push('0'));
        assert(f.push('0').drop_last() =~= f);
        let g = f.push('0');
        let p = crate::text::pow10((6 - g.len()) as nat);
        assert(fraction_micro(f) == fraction_micro(g));
        assert(fraction_micro(g) == digits_value(g) * p);
        assert(digits_value(g) == 10 * digits_value(f));
        assert(crate::text::pow10((6 - f.len()) as nat) == 10 * p);
        assert(10 * digits_value(f) * p == digits_value(f) * (10 * p)) by (nonlinear_arith);
        assert(fraction_micro(f) == digits_value(f) * crate::text::pow10((6 - f.len()) as nat));
    } else {
        assert(f.take(6) =~= f);
        assert(crate::text::pow10(0) == 1);
        assert((6 - f.len()) as nat == 0);
        assert(crate::text::pow10((6 - f.len()) as nat) == 1);
        assert(fraction_micro(f) == digits_value(f));
    }
}

/// Whether every character of `s[from..to]` is a decimal digit.
fn digits_only(s: &str, from: usize, to: usize) -> (r: bool)
    requires
        from <= to <= s@.len(),
    ensures
        r == all_digits(s@.subrange(from as int, to as int)),
{
    let mut i: usize = from;
    while i < to
        invariant
            from <= i <= to <= s@.len(),
            all_digits(s@.subrange(from as int, i as int)),
        decreases to - i,
    {
        let c = s.get_char(i);
        if !('0' <= c && c <= '9') {
            assert(!is_digit(s@.subrange(from as int, to as int)[i - from]));
            return false;
        }
        assert(forall|j: int| 0 <= j < i + 1 - from ==> #[trigger] s@.subrange(from as int, i + 1)[j] == s@.subrange(
            from as int,
            i as int,
        ).push(c)[j]);
        i = i + 1;
    }
    true
}

/// Parses a plain decimal number (`I` or `I.F`) into millionths.
pub fn parse_micro(s: &str) -> (r: Option<u64>)
    ensures
        r == spec_parse_micro(s@),
{
    let n = s.unicode_len();
    let mut d: usize = 0;
    while d < n && s.get_char(d) != '.'
        invariant
            d <= n == s@.len(),
            forall|j: int| 0 <= j < d ==> s@[j] != '.',
        decreases n - d,
    {
        d = d + 1;
    }
    proof {
        lemma_first_index(s@, '.', d as int);
    }
    let ghost int_part = s@.take(d as int);
    let ghost frac = if d < n { s@.skip(d + 1) } else { Seq::empty() };
    assert(s@.subrange(0, d as int) =~= int_part);
    if d == 0 {
        return None;
    }
    let fstart: usize = if d < n { d + 1 } else { n };
    assert(s@.subrange(fstart as int, n as int) =~= frac);
    let whole = match digits_in(s, 0, d) {
        Some(v) => v,
        None => {
            return None;
        },
    };
    if !digits_only(s, fstart, n) {
        return None;
    }
    let flen: usize = n - fstart;
    let taken: usize = if flen > 6 { 6 } else { flen };
    assert(s@.subrange(fstart as int, (fstart + taken) as int) =~= frac.take(taken as int));
    proof {
        assert(all_digits(frac.take(taken as int))) by {
            assert forall|i: int| 0 <= i < taken implies #[trigger] is_digit(frac.take(taken as int)[i]) by {
                assert(is_digit(frac[i]));
            }
        }
        lemma_digits_bound(frac.take(taken as int));
        lemma_pow10_monotonic(taken as nat, 6);
        assert(crate::text::pow10(6) == 1_000_000) by {
            reveal_with_fuel(crate::text::pow10, 7);
        }
    }
    let fv = match digits_in(s, fstart, fstart + taken) {
        Some(v) => v,
        None => {
            return None;
        },
    };
    let mut scale: u64 = 1;
    let mut k: usize = taken;
    while k < 6
        invariant
            taken <= k <= 6,
            scale == crate::text::pow10((k - taken) as nat),
            scale <= 1_000_000,
        decreases 6 - k,
    {
        assert(crate::text::pow10((k + 1 - taken) as nat) == 10 * crate::text::pow10((k - taken) as nat));
        assert(crate::text::pow10((k + 1 - taken) as nat) <= crate::text::pow10((6 - taken) as nat)) by {
            lemma_pow10_monotonic((k + 1 - taken) as nat, (6 - taken) as nat);
        }
        proof {
            assert(crate::text::pow10(6) == 1_000_000) by {
                reveal_with_fuel(crate::text::pow10, 7);
            }
            lemma_pow10_monotonic((6 - taken) as nat, 6);
        }
        scale = scale * 10;
        k = k + 1;
    }
    proof {
        if flen > 6 {
            assert(frac.take(6) =~= frac.take(taken as int));
        } else {
            assert(frac.take(taken as int) =~= frac);
            lemma_fraction_micro(frac);
        }
        lemma_pow10_monotonic((6 - taken) as nat, 6);
        assert(fv < crate::text::pow10(taken as nat)) by {
            lemma_digits_bound(frac.take(taken as int));
        }
        assert(fv * scale < 1_000_000) by {
            assert(crate::text::pow10(taken as nat) * crate::text::pow10((6 - taken) as nat) == 1_000_000) by {
                lemma_pow10_add(taken as nat, (6 - taken) as nat);
                reveal_with_fuel(crate::text::pow10, 7);
            }
            assert(fv * scale < crate::text::pow10(taken as nat) * scale) by (nonlinear_arith)
                requires
                    fv < crate::text::pow10(taken as nat),
                    scale >= 1,
            ;
        }
    }
    let frac_micro: u64 = fv * scale;
    if whole > (u64::MAX - frac_micro) / 1_000_000 {
        assert(whole * 1_000_000 + frac_micro > u64::MAX) by (nonlinear_arith)
            requires
                whole > (u64::MAX - frac_micro) / 1_000_000,
                frac_micro < 1_000_000,
        ;
        return None;
    }
    assert(whole * 1_000_000 + frac_micro <= u64::MAX) by (nonlinear_arith)
        requires
            whole <= (u64::MAX - frac_micro) / 1_000_000,
            frac_micro < 1_000_000,
    ;
    Some(whole * 1_000_000 + frac_micro)
}

proof fn lemma_pow10_monotonic(a: nat, b: nat)
    requires
        a <= b,
    ensures
        crate::text::pow10(a) <= crate::text::pow10(b),
        crate::text::pow10(a) >= 1,
    decreases b,
{
    if b > 0 && a < b {
        lemma_pow10_monotonic(a, (b - 1) as nat);
    } else if a > 0 {
        lemma_pow10_monotonic((a - 1) as nat, (a - 1) as nat);
    }
}

proof fn lemma_pow10_add(a: nat, b: nat)
    ensures
        crate::text::pow10(a) * crate::text::pow10(b) == crate::text::pow10(a + b),
    decreases a,
{
    if a > 0 {
        lemma_pow10_add((a - 1) as nat, b);
        assert(crate::text::pow10(a + b) == 10 * crate::text::pow10((a - 1 + b) as nat));
        assert(crate::text::pow10(a) * crate::text::pow10(b) == 10 * (crate::text::pow10((a - 1) as nat)
            * crate::text::pow10(b))) by (nonlinear_arith)
            requires
                crate::text::pow10(a) == 10 * crate::text::pow10((a - 1) as nat),
        ;
    } else {
        assert(crate::text::pow10(0) == 1);
    }
}

proof fn lemma_digits_bound(s: Seq<char>)
    requires
        all_digits(s),
    ensures
        digits_value(s) < crate::text::pow10(s.len()),
    decreases s.len(),
{
    if s.len() > 0 {
        assert(all_digits(s.drop_last())) by {
            assert forall|i: int| 0 <= i < s.drop_last().len() implies #[trigger] is_digit(s.drop_last()[i]) by {
                assert(is_digit(s[i]));
            }
        }
        lemma_digits_bound(s.drop_last());
        assert(is_digit(s.last()));
    }
}

} // verus!
