use vstd::prelude::*;
use crate::parse::{parse_u64, spec_parse_u64};

verus! {

/// `pat` occurs in `s` at `i`.
pub open spec fn occurs_at(s: Seq<char>, pat: Seq<char>, i: int) -> bool {
    0 <= i && i + pat.len() <= s.len() && s.subrange(i, i + pat.len()) == pat
}

pub open spec fn contains(s: Seq<char>, pat: Seq<char>) -> bool {
    exists|i: int| occurs_at(s, pat, i)
}

/// The first position of `pat` in `s`.
pub fn find_text(s: &str, pat: &str) -> (r: Option<usize>)
    ensures
        r matches Some(i) ==> occurs_at(s@, pat@, i as int) && forall|j: int| 0 <= j < i ==> !occurs_at(s@, pat@, j),
        r is None ==> !contains(s@, pat@),
{
    let n = s.unicode_len();
    let m = pat.unicode_len();
    if m > n {
        return None;
    }
    let mut i: usize = 0;
    while i <= n - m
        invariant
            n == s@.len(),
            m == pat@.len(),
            m <= n,
            i <= n - m + 1,
            forall|j: int| 0 <= j < i ==> !occurs_at(s@, pat@, j),
        decreases n - m + 1 - i,
    {
        let mut k: usize = 0;
        while k < m && s.get_char(i + k) == pat.get_char(k)
            invariant
                n == s@.len(),
                m == pat@.len(),
                i + m <= n,
                k <= m,
                forall|t: int| 0 <= t < k ==> s@[i + t] == pat@[t],
            decreases m - k,
        {
            k = k + 1;
        }
        if k == m {
            assert(s@.subrange(i as int, i + m) =~= pat@);
            return Some(i);
        }
        assert(!occurs_at(s@, pat@, i as int)) by {
            if occurs_at(s@, pat@, i as int) {
                assert(s@.subrange(i as int, i + m)[k as int] == pat@[k as int]);
            }
        }
        i = i + 1;
    }
    assert forall|j: int| !occurs_at(s@, pat@, j) by {
        if 0 <= j && j + m <= n {
            assert(j < i);
        }
    }
    None
}

/// Whether `pat` occurs in `s`.
pub fn contains_text(s: &str, pat: &str) -> (r: bool)
    ensures
        r == contains(s@, pat@),
{
    match find_text(s, pat) {
        Some(_) => true,
        None => false,
    }
}

pub open spec fn is_blank(c: char) -> bool {
    c == ' ' || c == '\t' || c == '\r' || c == '\n'
}

/// `s` without leading and trailing spaces, tabs and line breaks.
pub open spec fn spec_trim(s: Seq<char>) -> Seq<char>
    decreases s.len(),
{
    if s.len() > 0 && is_blank(s[0]) {
        spec_trim(s.skip(1))
    } else if s.len() > 0 && is_blank(s.last()) {
        spec_trim(s.drop_last())
    } else {
        s
    }
}

/// `s[from..to]` without surrounding blanks, as positions.
fn trim_range(s: &str, from: usize, to: usize) -> (r: (usize, usize))
    requires
        from <= to <= s@.len(),
    ensures
        from <= r.0 <= r.1 <= to,
        s@.subrange(r.0 as int, r.1 as int) == spec_trim(s@.subrange(from as int, to as int)),
{
    let mut a = from;
    let mut b = to;
    while a < b && is_blank_char(s.get_char(a))
        invariant
            from <= a <= b <= to <= s@.len(),
            spec_trim(s@.subrange(a as int, b as int)) == spec_trim(s@.subrange(from as int, to as int)),
        decreases b - a,
    {
        assert(s@.subrange(a as int, b as int).skip(1) =~= s@.subrange(a + 1, b as int));
        a = a + 1;
    }
    while a < b && is_blank_char(s.get_char(b - 1))
        invariant
            from <= a <= b <= to <= s@.len(),
            a < b ==> !is_blank(s@[a as int]),
            spec_trim(s@.subrange(a as int, b as int)) == spec_trim(s@.subrange(from as int, to as int)),
        decreases b - a,
    {
        assert(s@.subrange(a as int, b as int).drop_last() =~= s@.subrange(a as int, b - 1));
        b = b - 1;
    }
    (a, b)
}

fn is_blank_char(c: char) -> (r: bool)
    ensures
        r == is_blank(c),
{
    c == ' ' || c == '\t' || c == '\r' || c == '\n'
}

/// Where the shot detector says it is.
#[derive(Debug, Clone, Copy, PartialEq, Eq, Structural)]
pub enum ShotStage {
    Loading,
    Extracting,
    Analyzing,
    Done,
}

/// A progress report of the shot detector: `current` of `total` frames
/// analysed where it says so, else zeros.
#[derive(Debug, Clone, Copy, PartialEq, Eq, Structural)]
pub struct ShotProgress {
    pub stage: ShotStage,
    pub current: u64,
    pub total: u64,
}

/// What follows the first `frames` in a `Processing video frames a/b`
/// line: `(a, b)` when, trimmed, it holds exactly one `/`; an unreadable
/// `a` counts as 0 and an unreadable `b` as 1.
pub open spec fn spec_frame_counts(rest: Seq<char>) -> Option<(u64, u64)> {
    let t = spec_trim(rest);
    if exists|k: int| 0 <= k < t.len() && t[k] == '/' && forall|j: int| 0 <= j < t.len() && j != k ==> t[j] != '/' {
        let k = choose|k: int| 0 <= k < t.len() && t[k] == '/' && forall|j: int| 0 <= j < t.len() && j != k ==> t[j] != '/';
        let a = match spec_parse_u64(spec_trim(t.take(k))) {
            Some(v) => v,
            None => 0,
        };
        let b = match spec_parse_u64(spec_trim(t.skip(k + 1))) {
            Some(v) => v,
            None => 1,
        };
        Some((a, b))
    } else {
        None
    }
}

/// Reads the frame counts of a `Processing video frames` line from the
/// text `s[from..to]` that follows its first `frames`.
fn frame_counts(s: &str, from: usize, to: usize) -> (r: Option<(u64, u64)>)
    requires
        from <= to <= s@.len(),
    ensures
        r == spec_frame_counts(s@.subrange(from as int, to as int)),
{
    let (a, b) = trim_range(s, from, to);
    let ghost t = s@.subrange(a as int, b as int);
    let mut k: usize = a;
    while k < b && s.get_char(k) != '/'
        invariant
            a <= k <= b <= s@.len(),
            t == s@.subrange(a as int, b as int),
            forall|j: int| 0 <= j < k - a ==> t[j] != '/',
        decreases b - k,
    {
        k = k + 1;
    }
    if k == b {
        assert(!exists|q: int| 0 <= q < t.len() && t[q] == '/' && forall|j: int| 0 <= j < t.len() && j != q ==> t[j] != '/');
        return None;
    }
    let mut m: usize = k + 1;
    while m < b && s.get_char(m) != '/'
        invariant
            k < m <= b <= s@.len(),
            a <= k,
            t == s@.subrange(a as int, b as int),
            forall|j: int| k - a < j < m - a ==> t[j] != '/',
        decreases b - m,
    {
        m = m + 1;
    }
    let ghost q = k - a;
    if m < b {
        assert(t[q] == '/' && t[m - a] == '/');
        assert(!exists|p: int| 0 <= p < t.len() && t[p] == '/' && forall|j: int| 0 <= j < t.len() && j != p ==> t[j] != '/') by {
            if exists|p: int| 0 <= p < t.len() && t[p] == '/' && forall|j: int| 0 <= j < t.len() && j != p ==> t[j] != '/' {
                let p = choose|p: int| 0 <= p < t.len() && t[p] == '/' && forall|j: int| 0 <= j < t.len() && j != p ==> t[j] != '/';
                assert(p == q || p == m - a);
            }
        }
        return None;
    }
    assert(forall|j: int| 0 <= j < t.len() && j != q ==> t[j] != '/');
    assert(t[q] == '/');
    assert(exists|p: int| 0 <= p < t.len() && t[p] == '/' && forall|j: int| 0 <= j < t.len() && j != p ==> t[j] != '/') by {
        assert(0 <= q < t.len() && t[q] == '/' && forall|j: int| 0 <= j < t.len() && j != q ==> t[j] != '/');
    }
    let ghost chosen = choose|p: int| 0 <= p < t.len() && t[p] == '/' && forall|j: int| 0 <= j < t.len() && j != p ==> t[j] != '/';
    assert(chosen == q);
    let (l0, l1) = trim_range(s, a, k);
    let (r0, r1) = trim_range(s, k + 1, b);
    assert(s@.subrange(a as int, k as int) =~= t.take(q));
    assert(s@.subrange(k + 1, b as int) =~= t.skip(q + 1));
    let left = s.substring_char(l0, l1);
    let right = s.substring_char(r0, r1);
    let x = match parse_u64(left) {
        Some(v) => v,
        None => 0,
    };
    let y = match parse_u64(right) {
        Some(v) => v,
        None => 1,
    };
    Some((x, y))
}

/// The first position of `pat` in `s`.
pub open spec fn first_occurrence(s: Seq<char>, pat: Seq<char>) -> int {
    choose|i: int| occurs_at(s, pat, i) && forall|j: int| 0 <= j < i ==> !occurs_at(s, pat, j)
}

/// What `line.split("frames").nth(1)` gives: the text after the first
/// `frames`, up to the next `frames` or the end.
pub open spec fn after_frames(line: Seq<char>) -> Seq<char> {
    let rest = line.skip(first_occurrence(line, "frames"@) + 6);
    if contains(rest, "frames"@) {
        rest.take(first_occurrence(rest, "frames"@))
    } else {
        rest
    }
}

/// How the shot detector's diagnostic `line` moves its progress, if at all.
pub open spec fn spec_shot_line(line: Seq<char>) -> Option<ShotProgress> {
    if contains(line, "Extracting frames"@) {
        Some(ShotProgress { stage: ShotStage::Extracting, current: 0, total: 0 })
    } else if contains(line, "Extracted"@) && contains(line, "frames"@) {
        Some(ShotProgress { stage: ShotStage::Analyzing, current: 0, total: 0 })
    } else if contains(line, "Processing video frames"@) {
        match spec_frame_counts(after_frames(line)) {
            Some((a, b)) => Some(ShotProgress { stage: ShotStage::Analyzing, current: a, total: b }),
            None => None,
        }
    } else if contains(line, "Found"@) && contains(line, "scenes"@) {
        Some(ShotProgress { stage: ShotStage::Done, current: 0, total: 0 })
    } else {
        None
    }
}

proof fn lemma_first_occurrence(s: Seq<char>, pat: Seq<char>, i: int)
    requires
        occurs_at(s, pat, i),
        forall|j: int| 0 <= j < i ==> !occurs_at(s, pat, j),
    ensures
        first_occurrence(s, pat) == i,
{
    let c = first_occurrence(s, pat);
    assert(occurs_at(s, pat, c) && forall|j: int| 0 <= j < c ==> !occurs_at(s, pat, j));
    if c < i {
        assert(!occurs_at(s, pat, c));
    } else if c > i {
        assert(!occurs_at(s, pat, i));
    }
}

/// Classifies one diagnostic line of the shot detector.
pub fn shot_line(line: &str) -> (r: Option<ShotProgress>)
    ensures
        r == spec_shot_line(line@),
{
    if contains_text(line, "Extracting frames") {
        return Some(ShotProgress { stage: ShotStage::Extracting, current: 0, total: 0 });
    }
    if contains_text(line, "Extracted") && contains_text(line, "frames") {
        return Some(ShotProgress { stage: ShotStage::Analyzing, current: 0, total: 0 });
    }
    if contains_text(line, "Processing video frames") {
        proof {
            reveal_strlit("Processing video frames");
            reveal_strlit("frames");
            let w = choose|w: int| occurs_at(line@, "Processing video frames"@, w);
            assert(line@.subrange(w + 17, w + 23) =~= line@.subrange(w, w + 23).subrange(17, 23));
            assert("Processing video frames"@.subrange(17, 23) =~= "frames"@);
            assert(occurs_at(line@, "frames"@, w + 17));
        }
        let i = match find_text(line, "frames") {
            Some(i) => i,
            None => {
                return None;
            },
        };
        proof {
            lemma_first_occurrence(line@, "frames"@, i as int);
            reveal_strlit("frames");
        }
        let n = line.unicode_len();
        let rest = line.substring_char(i + 6, n);
        assert(rest@ =~= line@.skip(i + 6));
        let end = match find_text(rest, "frames") {
            Some(j) => {
                proof {
                    lemma_first_occurrence(rest@, "frames"@, j as int);
                }
                i + 6 + j
            },
            None => n,
        };
        assert(line@.subrange(i + 6, end as int) =~= after_frames(line@));
        return match frame_counts(line, i + 6, end) {
            Some((a, b)) => Some(ShotProgress { stage: ShotStage::Analyzing, current: a, total: b }),
            None => None,
        };
    }
    if contains_text(line, "Found") && contains_text(line, "scenes") {
        return Some(ShotProgress { stage: ShotStage::Done, current: 0, total: 0 });
    }
    None
}

/// A line that holds the detector's result: trimmed, it starts with `[`
/// and ends with `]`.
pub open spec fn is_result_line(line: Seq<char>) -> bool {
    let t = spec_trim(line);
    t.len() > 0 && t[0] == '[' && t.last() == ']'
}

/// The last result line among `lines`, if any.
pub fn result_line(lines: &Vec<String>) -> (r: Option<usize>)
    ensures
        r matches Some(i) ==> i < lines@.len() && is_result_line(lines@[i as int]@) && forall|j: int|
            i < j < lines@.len() ==> !is_result_line(#[trigger] lines@[j]@),
        r is None ==> forall|j: int| 0 <= j < lines@.len() ==> !is_result_line(#[trigger] lines@[j]@),
{
    let mut i: usize = lines.len();
    while i > 0
        invariant
            i <= lines@.len(),
            forall|j: int| i <= j < lines@.len() ==> !is_result_line(#[trigger] lines@[j]@),
        decreases i,
    {
        let line = lines[i - 1].as_str();
        let n = line.unicode_len();
        let (a, b) = trim_range(line, 0, n);
        assert(line@.subrange(0, n as int) =~= line@);
        if a < b && line.get_char(a) == '[' && line.get_char(b - 1) == ']' {
            return Some(i - 1);
        }
        i = i - 1;
    }
    None
}

} // verus!
