//! Character-level text operations shared by the matching and extraction code.
//!
//! Every function here works on the sequence of `char`s that a string holds,
//! so the contracts speak of `Seq<char>` throughout.

use vstd::prelude::*;
use vstd::string::StringExecFns;

verus! {

/// What `str::to_lowercase` makes of a text.
pub uninterp spec fn lowercase(s: Seq<char>) -> Seq<char>;

/// `str::to_lowercase`: the result is the lowercase form of the text, which
/// depends on the text alone.
pub assume_specification[ str::to_lowercase ](s: &str) -> (r: String)
    ensures
        r@ == lowercase(s@),
;

/// `String::push`: appends one character at the end.
pub assume_specification[ String::push ](s: &mut String, c: char)
    ensures
        final(s)@ == old(s)@.push(c),
;

/// White space as Unicode defines it (the `White_Space` property).
pub open spec fn is_whitespace(c: char) -> bool {
    let n = c as u32;
    ||| 0x09 <= n <= 0x0D
    ||| n == 0x20
    ||| n == 0x85
    ||| n == 0xA0
    ||| n == 0x1680
    ||| 0x2000 <= n <= 0x200A
    ||| n == 0x2028
    ||| n == 0x2029
    ||| n == 0x202F
    ||| n == 0x205F
    ||| n == 0x3000
}

/// Tells whether `c` is white space.
pub fn char_is_whitespace(c: char) -> (r: bool)
    ensures
        r == is_whitespace(c),
{
    let n: u32 = c as u32;
    (0x09 <= n && n <= 0x0D) || n == 0x20 || n == 0x85 || n == 0xA0 || n == 0x1680 || (0x2000 <= n
        && n <= 0x200A) || n == 0x2028 || n == 0x2029 || n == 0x202F || n == 0x205F || n == 0x3000
}

/// The characters of `s`, in order.
pub fn to_chars(s: &str) -> (r: Vec<char>)
    ensures
        r@ == s@,
{
    let mut out: Vec<char> = Vec::new();
    for c in it: s.chars()
        invariant
            it.seq() == s@,
            out@ == s@.take(it.index() as int),
    {
        out.push(c);
        assert(s@.take(it.index() + 1) == s@.take(it.index() as int).push(c));
    }
    assert(s@.take(s@.len() as int) == s@);
    out
}

/// The string made of the characters `v[from..to]`.
pub fn from_chars(v: &Vec<char>, from: usize, to: usize) -> (r: String)
    requires
        from <= to <= v.len(),
    ensures
        r@ == v@.subrange(from as int, to as int),
{
    let mut out = String::new();
    let mut i: usize = from;
    while i < to
        invariant
            from <= i <= to <= v.len(),
            out@ == v@.subrange(from as int, i as int),
        decreases to - i,
    {
        out.push(v[i]);
        assert(v@.subrange(from as int, i as int + 1) == v@.subrange(from as int, i as int).push(
            v@[i as int],
        ));
        i += 1;
    }
    out
}

/// What is taken away at the two ends of a text.
#[derive(Clone, Copy, Debug, PartialEq, Eq)]
pub enum Strip {
    /// White space.
    Whitespace,
    /// Copies of one character.
    Char(char),
}

impl Strip {
    /// Whether `c` is among the characters that are taken away.
    pub open spec fn takes(self, c: char) -> bool {
        match self {
            Strip::Whitespace => is_whitespace(c),
            Strip::Char(q) => c == q,
        }
    }

    /// Tells whether `c` is among the characters that are taken away.
    pub fn accepts(self, c: char) -> (r: bool)
        ensures
            r == self.takes(c),
    {
        match self {
            Strip::Whitespace => char_is_whitespace(c),
            Strip::Char(q) => c == q,
        }
    }
}

/// The index of the first character of `s[lo..hi]` that `p` leaves, or `hi`.
pub open spec fn lead(s: Seq<char>, p: Strip, lo: int, hi: int) -> int
    decreases hi - lo,
{
    if lo < hi && p.takes(s[lo]) {
        lead(s, p, lo + 1, hi)
    } else {
        lo
    }
}

/// One past the index of the last character of `s[lo..hi]` that `p` leaves, or `lo`.
pub open spec fn trail(s: Seq<char>, p: Strip, lo: int, hi: int) -> int
    decreases hi - lo,
{
    if lo < hi && p.takes(s[hi - 1]) {
        trail(s, p, lo, hi - 1)
    } else {
        hi
    }
}

/// `s` without the characters at its start and at its end that `p` takes.
pub open spec fn strip(s: Seq<char>, p: Strip) -> Seq<char> {
    let a = lead(s, p, 0, s.len() as int);
    s.subrange(a, trail(s, p, a, s.len() as int))
}

/// `s` without leading and trailing white space.
pub open spec fn trimmed(s: Seq<char>) -> Seq<char> {
    strip(s, Strip::Whitespace)
}

/// `lead` on a slice of `s` is `lead` on `s` within the slice's bounds.
pub proof fn lemma_lead_subrange(s: Seq<char>, p: Strip, lo: int, hi: int, i: int)
    requires
        0 <= lo <= i <= hi <= s.len(),
    ensures
        lead(s.subrange(lo, hi), p, i - lo, hi - lo) == lead(s, p, i, hi) - lo,
        i <= lead(s, p, i, hi) <= hi,
    decreases hi - i,
{
    if i < hi && p.takes(s[i]) {
        lemma_lead_subrange(s, p, lo, hi, i + 1);
    }
}

/// `trail` on a slice of `s` is `trail` on `s` within the slice's bounds.
pub proof fn lemma_trail_subrange(s: Seq<char>, p: Strip, lo: int, hi: int, a: int, j: int)
    requires
        0 <= lo <= a <= j <= hi <= s.len(),
    ensures
        trail(s.subrange(lo, hi), p, a - lo, j - lo) == trail(s, p, a, j) - lo,
        a <= trail(s, p, a, j) <= j,
    decreases j - a,
{
    if a < j && p.takes(s[j - 1]) {
        lemma_trail_subrange(s, p, lo, hi, a, j - 1);
    }
}

/// Stripping a slice of `s` gives the slice of `s` between `lead` and `trail`.
pub proof fn lemma_strip_subrange(s: Seq<char>, p: Strip, lo: int, hi: int)
    requires
        0 <= lo <= hi <= s.len(),
    ensures
        ({
            let a = lead(s, p, lo, hi);
            let b = trail(s, p, a, hi);
            &&& lo <= a <= b <= hi
            &&& strip(s.subrange(lo, hi), p) == s.subrange(a, b)
        }),
{
    let t = s.subrange(lo, hi);
    let a = lead(s, p, lo, hi);
    let b = trail(s, p, a, hi);
    lemma_lead_subrange(s, p, lo, hi, lo);
    lemma_trail_subrange(s, p, lo, hi, a, hi);
    assert(t.subrange(a - lo, b - lo) == s.subrange(a, b));
}

/// Stripping leaves nothing exactly where `p` takes every character of `s`.
pub proof fn lemma_strip_all(s: Seq<char>, p: Strip)
    ensures
        strip(s, p).len() == 0 <==> forall|k: int| 0 <= k < s.len() ==> p.takes(#[trigger] s[k]),
{
    let n = s.len() as int;
    lemma_lead_all(s, p, 0);
    let a = lead(s, p, 0, n);
    lemma_trail_stops(s, p, a, n);
    if a < n {
        assert(!p.takes(s[a]));
    }
}

proof fn lemma_lead_all(s: Seq<char>, p: Strip, i: int)
    requires
        0 <= i <= s.len(),
    ensures
        i <= lead(s, p, i, s.len() as int) <= s.len(),
        forall|k: int| i <= k < lead(s, p, i, s.len() as int) ==> p.takes(#[trigger] s[k]),
        lead(s, p, i, s.len() as int) < s.len() ==> !p.takes(s[lead(s, p, i, s.len() as int)]),
    decreases s.len() - i,
{
    if i < s.len() && p.takes(s[i]) {
        lemma_lead_all(s, p, i + 1);
    }
}

proof fn lemma_trail_stops(s: Seq<char>, p: Strip, a: int, j: int)
    requires
        0 <= a <= j <= s.len(),
        a < s.len() ==> !p.takes(s[a]),
    ensures
        a <= trail(s, p, a, j) <= j,
        a < j ==> a < trail(s, p, a, j),
    decreases j - a,
{
    if a < j && p.takes(s[j - 1]) {
        lemma_trail_stops(s, p, a, j - 1);
    }
}

/// The bounds of `v[lo..hi]` without the characters at its two ends that `p` takes.
pub fn strip_bounds(v: &Vec<char>, lo: usize, hi: usize, p: Strip) -> (r: (usize, usize))
    requires
        lo <= hi <= v.len(),
    ensures
        lo <= r.0 <= r.1 <= hi,
        v@.subrange(r.0 as int, r.1 as int) == strip(v@.subrange(lo as int, hi as int), p),
{
    let mut a: usize = lo;
    while a < hi && p.accepts(v[a])
        invariant
            lo <= a <= hi <= v.len(),
            lead(v@, p, lo as int, hi as int) == lead(v@, p, a as int, hi as int),
        decreases hi - a,
    {
        a += 1;
    }
    let mut b: usize = hi;
    while a < b && p.accepts(v[b - 1])
        invariant
            a <= b <= hi <= v.len(),
            trail(v@, p, a as int, hi as int) == trail(v@, p, a as int, b as int),
        decreases b - a,
    {
        b -= 1;
    }
    proof {
        lemma_strip_subrange(v@, p, lo as int, hi as int);
    }
    (a, b)
}

/// `needle` stands in `hay` at index `i`.
pub open spec fn occurs_at(needle: Seq<char>, hay: Seq<char>, i: int) -> bool {
    &&& 0 <= i
    &&& i + needle.len() <= hay.len()
    &&& hay.subrange(i, i + needle.len()) == needle
}

/// `needle` stands somewhere in `hay`.
pub open spec fn is_substring(needle: Seq<char>, hay: Seq<char>) -> bool {
    exists|i: int| occurs_at(needle, hay, i)
}

/// Tells whether `needle[from..to]` stands in `hay` at index `at`.
pub fn matches_at(hay: &Vec<char>, at: usize, needle: &Vec<char>, from: usize, to: usize) -> (r:
    bool)
    requires
        from <= to <= needle.len(),
        at + (to - from) <= hay.len(),
    ensures
        r == occurs_at(needle@.subrange(from as int, to as int), hay@, at as int),
{
    let n: usize = to - from;
    let ghost want = needle@.subrange(from as int, to as int);
    let mut k: usize = 0;
    while k < n
        invariant
            from <= to <= needle.len(),
            n == to - from,
            want == needle@.subrange(from as int, to as int),
            at + n <= hay.len(),
            k <= n,
            forall|j: int| 0 <= j < k ==> hay@[at + j] == want[j],
        decreases n - k,
    {
        if hay[at + k] != needle[from + k] {
            proof {
                assert(hay@.subrange(at as int, at + n)[k as int] != want[k as int]);
            }
            return false;
        }
        k += 1;
    }
    assert(hay@.subrange(at as int, at + n) =~= want);
    true
}

/// Tells whether `needle[from..to]` stands somewhere in `hay`.
pub fn contains_range(hay: &Vec<char>, needle: &Vec<char>, from: usize, to: usize) -> (r: bool)
    requires
        from <= to <= needle.len(),
    ensures
        r == is_substring(needle@.subrange(from as int, to as int), hay@),
{
    let n: usize = to - from;
    let ghost want = needle@.subrange(from as int, to as int);
    if n == 0 {
        assert(occurs_at(want, hay@, 0)) by {
            assert(hay@.subrange(0, 0) =~= want);
        }
        return true;
    }
    if n > hay.len() {
        assert(forall|i: int| !occurs_at(want, hay@, i));
        return false;
    }
    let last: usize = hay.len() - n;
    let mut i: usize = 0;
    while i <= last
        invariant
            from <= to <= needle.len(),
            n == to - from,
            want == needle@.subrange(from as int, to as int),
            n >= 1,
            last == hay.len() - n,
            i <= last + 1,
            forall|j: int| 0 <= j < i ==> !occurs_at(want, hay@, j),
        decreases last + 1 - i,
    {
        if matches_at(hay, i, needle, from, to) {
            return true;
        }
        i += 1;
    }
    assert(forall|j: int| !occurs_at(want, hay@, j));
    false
}

/// Tells whether `needle` stands somewhere in `hay`.
pub fn contains(hay: &Vec<char>, needle: &Vec<char>) -> (r: bool)
    ensures
        r == is_substring(needle@, hay@),
{
    assert(needle@.subrange(0, needle@.len() as int) == needle@);
    contains_range(hay, needle, 0, needle.len())
}

/// `s` with each occurrence of `from` replaced by `to`, the occurrences taken
/// from left to right and not overlapping.
pub open spec fn replaced(s: Seq<char>, from: Seq<char>, to: Seq<char>) -> Seq<char>
    decreases s.len(),
{
    if from.len() == 0 || s.len() < from.len() {
        s
    } else if s.subrange(0, from.len() as int) == from {
        to + replaced(s.subrange(from.len() as int, s.len() as int), from, to)
    } else {
        seq![s[0]] + replaced(s.subrange(1, s.len() as int), from, to)
    }
}

/// Replaces each occurrence of `from` in `s` by `to`.
pub fn replace_all(s: &str, from: &str, to: &str) -> (r: String)
    ensures
        r@ == replaced(s@, from@, to@),
{
    let text = to_chars(s);
    let pattern = to_chars(from);
    let n: usize = text.len();
    let m: usize = pattern.len();
    if m == 0 || n < m {
        return String::from_str(s);
    }
    assert(pattern@.subrange(0, m as int) == pattern@);
    let mut out = String::new();
    let mut i: usize = 0;
    assert(text@.subrange(0, n as int) == text@);
    while i <= n - m
        invariant
            text@ == s@,
            pattern@ == from@,
            n == text.len(),
            m == pattern.len(),
            0 < m <= n,
            i <= n,
            pattern@.subrange(0, m as int) == pattern@,
            out@ + replaced(text@.subrange(i as int, n as int), from@, to@) == replaced(
                s@,
                from@,
                to@,
            ),
        decreases n - i,
    {
        let ghost rest = text@.subrange(i as int, n as int);
        if matches_at(&text, i, &pattern, 0, m) {
            proof {
                assert(rest.subrange(0, m as int) == text@.subrange(i as int, i + m));
                assert(rest.subrange(m as int, rest.len() as int) == text@.subrange(
                    i + m,
                    n as int,
                ));
                assert((out@ + to@) + replaced(text@.subrange(i + m, n as int), from@, to@) == out@
                    + (to@ + replaced(text@.subrange(i + m, n as int), from@, to@)));
            }
            out.append(to);
            i += m;
        } else {
            proof {
                assert(rest.subrange(0, m as int) == text@.subrange(i as int, i + m));
                assert(rest.subrange(1, rest.len() as int) == text@.subrange(i + 1, n as int));
                assert(rest[0] == text@[i as int]);
                assert(out@.push(text@[i as int]) + replaced(
                    text@.subrange(i + 1, n as int),
                    from@,
                    to@,
                ) == out@ + (seq![text@[i as int]] + replaced(
                    text@.subrange(i + 1, n as int),
                    from@,
                    to@,
                )));
            }
            out.push(text[i]);
            i += 1;
        }
    }
    while i < n
        invariant
            text@ == s@,
            n == text.len(),
            m == pattern.len(),
            pattern@ == from@,
            0 < m,
            n < i + m,
            i <= n,
            out@ + text@.subrange(i as int, n as int) == replaced(s@, from@, to@),
        decreases n - i,
    {
        proof {
            assert(out@.push(text@[i as int]) + text@.subrange(i + 1, n as int) == out@
                + text@.subrange(i as int, n as int));
        }
        out.push(text[i]);
        i += 1;
    }
    assert(out@ + text@.subrange(n as int, n as int) == out@);
    out
}

/// Tells whether two texts hold the same characters.
pub fn same_text(a: &str, b: &str) -> (r: bool)
    ensures
        r == (a@ == b@),
{
    let x = to_chars(a);
    let y = to_chars(b);
    if x.len() != y.len() {
        assert(a@.len() != b@.len());
        return false;
    }
    let mut i: usize = 0;
    while i < x.len()
        invariant
            x@ == a@,
            y@ == b@,
            x.len() == y.len(),
            i <= x.len(),
            forall|j: int| 0 <= j < i ==> x@[j] == y@[j],
        decreases x.len() - i,
    {
        if x[i] != y[i] {
            assert(a@[i as int] != b@[i as int]);
            return false;
        }
        i += 1;
    }
    assert(x@ =~= y@);
    true
}

} // verus!
