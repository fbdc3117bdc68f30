use vstd::prelude::*;

verus! {

/// The ASCII digit for `d < 10`.
pub open spec fn digit_char(d: nat) -> char {
    ((48 + d) as u8) as char
}

/// Decimal text of `n`, without leading zeros.
pub open spec fn spec_decimal(n: nat) -> Seq<char>
    decreases n,
{
    if n < 10 {
        seq![digit_char(n)]
    } else {
        spec_decimal(n / 10).push(digit_char(n % 10))
    }
}

pub open spec fn pow10(w: nat) -> nat
    decreases w,
{
    if w == 0 {
        1
    } else {
        10 * pow10((w - 1) as nat)
    }
}

/// The last `w` decimal digits of `f`, zero-padded on the left.
pub open spec fn spec_padded(f: nat, w: nat) -> Seq<char>
    decreases w,
{
    if w == 0 {
        Seq::empty()
    } else {
        spec_padded(f / 10, (w - 1) as nat).push(digit_char(f % 10))
    }
}

/// The fraction digits of `f` over `w` places with trailing zeros dropped.
pub open spec fn spec_fraction(f: nat, w: nat) -> Seq<char>
    decreases w,
{
    if w == 0 {
        Seq::empty()
    } else if f % 10 == 0 {
        spec_fraction(f / 10, (w - 1) as nat)
    } else {
        spec_padded(f, w)
    }
}

/// A count of millionths as a decimal number with no trailing fraction
/// zeros: `2500000` reads `2.5`, `3000000` reads `3`.
pub open spec fn spec_micro_text(v: nat) -> Seq<char> {
    if v % 1_000_000 == 0 {
        spec_decimal(v / 1_000_000)
    } else {
        spec_decimal(v / 1_000_000) + seq!['.'] + spec_fraction(v % 1_000_000, 6)
    }
}

/// Microseconds as seconds with exactly three decimals, rounded to the
/// nearest millisecond: `1234567` reads `1.235`.
pub open spec fn spec_millis_text(us: nat) -> Seq<char> {
    let ms = (us + 500) / 1000;
    spec_decimal(ms / 1000) + seq!['.'] + spec_padded(ms % 1000, 3)
}

/// `parts` joined with `sep` between neighbours.
pub open spec fn spec_join(parts: Seq<Seq<char>>, sep: char) -> Seq<char>
    decreases parts.len(),
{
    if parts.len() == 0 {
        Seq::empty()
    } else if parts.len() == 1 {
        parts[0]
    } else {
        spec_join(parts.drop_last(), sep) + seq![sep] + parts.last()
    }
}

/// Relies on std's `Display` for `u64`: decimal digits, no sign, no padding.
#[verifier::external_body]
pub(crate) fn decimal_text(n: u64) -> (r: String)
    ensures
        r@ == spec_decimal(n as nat),
{
    n.to_string()
}

/// Appends the last `w` digits of `f`, zero-padded.
pub fn push_padded(s: &mut String, f: u64, w: u32)
    ensures
        final(s)@ == old(s)@ + spec_padded(f as nat, w as nat),
    decreases w,
{
    if w > 0 {
        push_padded(s, f / 10, w - 1);
        let d = decimal_text(f % 10);
        proof {
            assert(spec_decimal((f % 10) as nat) == seq![digit_char((f % 10) as nat)]);
        }
        s.append(d.as_str());
        proof {
            assert(final(s)@ =~= old(s)@ + spec_padded(f as nat, w as nat));
        }
    }
}

/// Text of a count of millionths, as `spec_micro_text` gives it.
pub fn micro_text(v: u64) -> (r: String)
    ensures
        r@ == spec_micro_text(v as nat),
{
    let mut s = decimal_text(v / 1_000_000);
    let mut f: u64 = v % 1_000_000;
    if f == 0 {
        return s;
    }
    s.append(".");
    let mut w: u32 = 6;
    assert(pow10(6) == 1_000_000) by {
        reveal_with_fuel(pow10, 7);
    }
    while w > 0 && f % 10 == 0
        invariant
            w <= 6,
            spec_fraction(f as nat, w as nat) == spec_fraction((v % 1_000_000) as nat, 6),
            f != 0,
            f < pow10(w as nat),
        decreases w,
    {
        f = f / 10;
        w = w - 1;
    }
    assert(w > 0);
    push_padded(&mut s, f, w);
    assert(s@ =~= spec_micro_text(v as nat)) by {
        reveal_strlit(".");
    }
    s
}

/// Text of microseconds as seconds with three decimals.
pub fn millis_text(us: u64) -> (r: String)
    ensures
        r@ == spec_millis_text(us as nat),
{
    let ms: u64 = us / 1000 + if us % 1000 >= 500 { 1 } else { 0 };
    assert(ms == (us + 500) / 1000);
    let mut s = decimal_text(ms / 1000);
    s.append(".");
    push_padded(&mut s, ms % 1000, 3);
    assert(s@ =~= spec_millis_text(us as nat)) by {
        reveal_strlit(".");
    }
    s
}

/// Joins `parts` with `sep` between neighbours.
pub fn join_with(parts: &Vec<String>, sep: &str) -> (r: String)
    requires
        sep@.len() == 1,
    ensures
        r@ == spec_join(parts@.map_values(|p: String| p@), sep@[0]),
{
    let ghost views = parts@.map_values(|p: String| p@);
    let mut out = String::new();
    let mut i: usize = 0;
    while i < parts.len()
        invariant
            sep@.len() == 1,
            views == parts@.map_values(|p: String| p@),
            i <= parts@.len(),
            out@ == spec_join(views.subrange(0, i as int), sep@[0]),
        decreases parts@.len() - i,
    {
        let ghost prev = views.subrange(0, i as int);
        let ghost next = views.subrange(0, i + 1);
        assert(next.drop_last() =~= prev);
        if i > 0 {
            out.append(sep);
            assert(sep@ =~= seq![sep@[0]]);
        }
        out.append(parts[i].as_str());
        assert(out@ =~= spec_join(next, sep@[0]));
        i = i + 1;
    }
    assert(views.subrange(0, parts@.len() as int) =~= views);
    out
}

} // verus!

verus! {

/// The texts of a list of strings.
pub open spec fn views(v: Seq<String>) -> Seq<Seq<char>> {
    v.map_values(|s: String| s@)
}

/// Appends a copy of `s` to an argument list.
pub fn push_arg(v: &mut Vec<String>, s: &str)
    ensures
        views(final(v)@) == views(old(v)@).push(s@),
{
    v.push(String::from_str(s));
    assert(views(final(v)@) =~= views(old(v)@).push(s@));
}

} // verus!

verus! {

/// `s` with every trailing copy of `suffix` removed.
pub open spec fn spec_trim_suffix(s: Seq<char>, suffix: Seq<char>) -> Seq<char>
    decreases s.len(),
{
    if suffix.len() > 0 && s.len() >= suffix.len() && s.subrange(s.len() - suffix.len(), s.len() as int)
        == suffix {
        spec_trim_suffix(s.subrange(0, s.len() - suffix.len()), suffix)
    } else {
        s
    }
}

/// `s` with each `from` replaced by `to`.
pub open spec fn spec_replace_char(s: Seq<char>, from: char, to: char) -> Seq<char> {
    s.map_values(|c: char| if c == from { to } else { c })
}

/// Relies on `str::trim_end_matches` with a string pattern: removes the
/// suffix repeatedly while it matches.
#[verifier::external_body]
pub(crate) fn trim_suffix(s: &str, suffix: &str) -> (r: String)
    ensures
        r@ == spec_trim_suffix(s@, suffix@),
{
    s.trim_end_matches(suffix).to_string()
}

/// Relies on `str::replace` with a `char` pattern: every occurrence of `from`
/// becomes `to`, the rest is kept in order.
#[verifier::external_body]
pub(crate) fn replace_char(s: &str, from: char, to: char) -> (r: String)
    ensures
        r@ == spec_replace_char(s@, from, to),
{
    s.replace(from, &to.to_string())
}

/// `n` in decimal, zero-padded to at least `w` digits.
pub open spec fn spec_padded_min(n: nat, w: nat) -> Seq<char> {
    if spec_decimal(n).len() >= w {
        spec_decimal(n)
    } else {
        spec_padded(n, w)
    }
}

/// `n` in decimal, zero-padded to at least `w` digits.
pub fn padded_min(n: u64, w: u32) -> (r: String)
    ensures
        r@ == spec_padded_min(n as nat, w as nat),
{
    let d = decimal_text(n);
    if d.as_str().unicode_len() >= w as usize {
        d
    } else {
        let mut s = String::new();
        push_padded(&mut s, n, w);
        assert(s@ =~= spec_padded(n as nat, w as nat));
        s
    }
}

} // verus!
