//! Character classes and sequence helpers shared by the text-processing modules.
//!
//! Strings are handled as `Vec<char>` whose view is the string's `Seq<char>`.

use vstd::prelude::*;
use vstd::std_specs::iter::IteratorSpec;

verus! {

// ---------------------------------------------------------------------------
// Character classes
// ---------------------------------------------------------------------------

/// ASCII lowercase letter `a`..=`z`.
pub open spec fn is_ascii_lower(c: char) -> bool {
    'a' <= c && c <= 'z'
}

/// ASCII uppercase letter `A`..=`Z`.
pub open spec fn is_ascii_upper(c: char) -> bool {
    'A' <= c && c <= 'Z'
}

/// ASCII decimal digit `0`..=`9`.
pub open spec fn is_ascii_digit(c: char) -> bool {
    '0' <= c && c <= '9'
}

/// ASCII letter or digit.
pub open spec fn is_ascii_alnum(c: char) -> bool {
    is_ascii_lower(c) || is_ascii_upper(c) || is_ascii_digit(c)
}

/// ASCII hexadecimal digit (either case).
pub open spec fn is_ascii_hexdigit(c: char) -> bool {
    is_ascii_digit(c) || ('a' <= c && c <= 'f') || ('A' <= c && c <= 'F')
}

/// The hex digits are exactly `0`..=`9`, `a`..=`f` and `A`..=`F`.
pub proof fn lemma_hexdigit_ranges(c: char)
    ensures
        is_ascii_hexdigit(c) <==> ('0' <= c <= '9' || 'a' <= c <= 'f' || 'A' <= c <= 'F'),
{
}

/// Characters with the Unicode `White_Space` property.
pub open spec fn is_whitespace(c: char) -> bool {
    ||| ('\t' <= c && c <= '\r')
    ||| c == ' '
    ||| c == '\u{85}'
    ||| c == '\u{a0}'
    ||| c == '\u{1680}'
    ||| ('\u{2000}' <= c && c <= '\u{200a}')
    ||| c == '\u{2028}'
    ||| c == '\u{2029}'
    ||| c == '\u{202f}'
    ||| c == '\u{205f}'
    ||| c == '\u{3000}'
}

pub fn ascii_lower(c: char) -> (r: bool)
    ensures
        r == is_ascii_lower(c),
{
    'a' <= c && c <= 'z'
}

pub fn ascii_digit(c: char) -> (r: bool)
    ensures
        r == is_ascii_digit(c),
{
    '0' <= c && c <= '9'
}

pub fn ascii_alnum(c: char) -> (r: bool)
    ensures
        r == is_ascii_alnum(c),
{
    ('a' <= c && c <= 'z') || ('A' <= c && c <= 'Z') || ('0' <= c && c <= '9')
}

pub fn ascii_hexdigit(c: char) -> (r: bool)
    ensures
        r == is_ascii_hexdigit(c),
{
    ('0' <= c && c <= '9') || ('a' <= c && c <= 'f') || ('A' <= c && c <= 'F')
}

pub fn whitespace(c: char) -> (r: bool)
    ensures
        r == is_whitespace(c),
{
    ('\t' <= c && c <= '\r') || c == ' ' || c == '\u{85}' || c == '\u{a0}' || c == '\u{1680}'
        || ('\u{2000}' <= c && c <= '\u{200a}') || c == '\u{2028}' || c == '\u{2029}' || c
        == '\u{202f}' || c == '\u{205f}' || c == '\u{3000}'
}

/// Unicode lowercase mapping of a whole string, as `str::to_lowercase` computes it.
pub uninterp spec fn unicode_lowercase(s: Seq<char>) -> Seq<char>;

/// Whether a character has the Unicode `Alphabetic` or `Numeric` property,
/// as `char::is_alphanumeric` decides it.
pub uninterp spec fn unicode_alphanumeric(c: char) -> bool;

/// `str::to_lowercase`: its result is named by `unicode_lowercase`. Every
/// ASCII capital has a lowercase mapping, so none is left in the result.
#[verifier::external_body]
pub(crate) fn to_lowercase(s: &str) -> (r: String)
    ensures
        r@ == unicode_lowercase(s@),
        forall|i: int| 0 <= i < r@.len() ==> !('A' <= #[trigger] r@[i] <= 'Z'),
{
    s.to_lowercase()
}

/// `char::is_alphanumeric`: its result is named by `unicode_alphanumeric`.
#[verifier::external_body]
pub(crate) fn alphanumeric(c: char) -> (r: bool)
    ensures
        r == unicode_alphanumeric(c),
{
    c.is_alphanumeric()
}

/// The characters of a string slice, in order.
pub(crate) fn chars_of(s: &str) -> (v: Vec<char>)
    ensures
        v@ == s@,
{
    broadcast use vstd::string::axiom_spec_iter, vstd::string::next_postcondition;
    let mut v: Vec<char> = Vec::new();
    let mut it = s.chars();
    loop
        invariant
            s@ == v@ + it.remaining(),
            it.obeys_prophetic_iter_laws(),
            it.decrease() is Some,
        decreases it.decrease()->0,
    {
        match it.next() {
            Some(c) => {
                v.push(c);
            },
            None => {
                assert(v@ + it.remaining() =~= v@);
                return v;
            },
        }
    }
}

/// A `String` holding exactly the given characters (`FromIterator<char>`).
#[verifier::external_body]
pub(crate) fn string_of(v: &Vec<char>) -> (s: String)
    ensures
        s@ == v@,
{
    v.iter().collect()
}

// ---------------------------------------------------------------------------
// Runs and joins
// ---------------------------------------------------------------------------

/// The delimiters by which a string is cut into runs.
#[derive(Clone, Copy, PartialEq, Eq, Debug)]
pub enum Delimiter {
    /// Any Unicode whitespace character.
    Whitespace,
    /// The ASCII hyphen `-`.
    Hyphen,
}

impl Delimiter {
    pub open spec fn matches(self, c: char) -> bool {
        match self {
            Delimiter::Whitespace => is_whitespace(c),
            Delimiter::Hyphen => c == '-',
        }
    }

    pub fn is_delimiter(&self, c: char) -> (r: bool)
        ensures
            r == self.matches(c),
    {
        match self {
            Delimiter::Whitespace => whitespace(c),
            Delimiter::Hyphen => c == '-',
        }
    }
}

/// The maximal non-empty runs of non-delimiter characters of `s`, in order.
pub open spec fn runs(s: Seq<char>, d: Delimiter) -> Seq<Seq<char>>
    decreases s.len(),
{
    if s.len() == 0 {
        seq![]
    } else {
        let p = s.drop_last();
        let c = s.last();
        let r = runs(p, d);
        if d.matches(c) {
            r
        } else if p.len() > 0 && !d.matches(p.last()) {
            r.update(r.len() - 1, r.last().push(c))
        } else {
            r.push(seq![c])
        }
    }
}

/// The parts joined with one separator character between neighbours.
pub open spec fn join(parts: Seq<Seq<char>>, sep: char) -> Seq<char>
    decreases parts.len(),
{
    if parts.len() == 0 {
        seq![]
    } else if parts.len() == 1 {
        parts[0]
    } else {
        join(parts.drop_last(), sep) + seq![sep] + parts.last()
    }
}

/// A run is still open at the end of `s` exactly when `s` ends in a non-delimiter.
pub proof fn lemma_runs_open(s: Seq<char>, d: Delimiter)
    ensures
        (s.len() > 0 && !d.matches(s.last())) ==> runs(s, d).len() > 0,
    decreases s.len(),
{
    if s.len() > 0 {
        lemma_runs_open(s.drop_last(), d);
    }
}

/// Every run is non-empty and holds no delimiter.
pub proof fn lemma_runs_shape(s: Seq<char>, d: Delimiter)
    ensures
        forall|k: int|
            0 <= k < runs(s, d).len() ==> #[trigger] runs(s, d)[k].len() > 0 && (forall|j: int|
                0 <= j < runs(s, d)[k].len() ==> !d.matches(#[trigger] runs(s, d)[k][j])),
    decreases s.len(),
{
    if s.len() > 0 {
        let p = s.drop_last();
        lemma_runs_shape(p, d);
        lemma_runs_open(p, d);
        let r = runs(p, d);
        let c = s.last();
        if d.matches(c) {
        } else if p.len() > 0 && !d.matches(p.last()) {
            let r2 = r.update(r.len() - 1, r.last().push(c));
            assert forall|k: int| 0 <= k < r2.len() implies #[trigger] r2[k].len() > 0 && (forall|
                j: int,
            |
                0 <= j < r2[k].len() ==> !d.matches(#[trigger] r2[k][j])) by {
                if k == r.len() - 1 {
                    assert forall|j: int| 0 <= j < r2[k].len() implies !d.matches(
                        #[trigger] r2[k][j],
                    ) by {
                        if j < r[k].len() {
                            assert(r2[k][j] == r[k][j]);
                        }
                    }
                } else {
                    assert(r2[k] == r[k]);
                }
            }
        } else {
            let r2 = r.push(seq![c]);
            assert forall|k: int| 0 <= k < r2.len() implies #[trigger] r2[k].len() > 0 && (forall|
                j: int,
            |
                0 <= j < r2[k].len() ==> !d.matches(#[trigger] r2[k][j])) by {
                if k < r.len() {
                    assert(r2[k] == r[k]);
                }
            }
        }
    }
}

proof fn lemma_join_extend(parts: Seq<Seq<char>>, sep: char, c: char)
    requires
        parts.len() > 0,
    ensures
        join(parts.update(parts.len() - 1, parts.last().push(c)), sep) == join(parts, sep).push(c),
{
    let u = parts.update(parts.len() - 1, parts.last().push(c));
    if parts.len() == 1 {
    } else {
        assert(u.drop_last() =~= parts.drop_last());
        assert(join(u, sep) =~= join(parts, sep).push(c));
    }
}

proof fn lemma_join_push(parts: Seq<Seq<char>>, sep: char, w: Seq<char>)
    ensures
        parts.len() == 0 ==> join(parts.push(w), sep) == w,
        parts.len() > 0 ==> join(parts.push(w), sep) == join(parts, sep) + seq![sep] + w,
{
    assert(parts.push(w).drop_last() =~= parts);
}

/// Every part is non-empty and holds no delimiter.
pub open spec fn clean_parts(parts: Seq<Seq<char>>, d: Delimiter) -> bool {
    forall|k: int|
        0 <= k < parts.len() ==> #[trigger] parts[k].len() > 0 && (forall|j: int|
            0 <= j < parts[k].len() ==> !d.matches(#[trigger] parts[k][j]))
}

/// `s` neither starts nor ends with a delimiter, never has two delimiters in a
/// row, and every delimiter in it is `sep`.
pub open spec fn separated(s: Seq<char>, sep: char, d: Delimiter) -> bool {
    &&& s.len() > 0 ==> !d.matches(s[0]) && !d.matches(s.last())
    &&& forall|i: int, j: int|
        0 <= i && j == i + 1 && j < s.len() ==> !(d.matches(#[trigger] s[i]) && d.matches(
            #[trigger] s[j],
        ))
    &&& forall|i: int| 0 <= i < s.len() && d.matches(#[trigger] s[i]) ==> s[i] == sep
}

/// Joining clean parts with a delimiter gives a separated sequence, which is
/// empty only when there are no parts.
pub proof fn lemma_join_separated(parts: Seq<Seq<char>>, sep: char, d: Delimiter)
    requires
        d.matches(sep),
        clean_parts(parts, d),
    ensures
        parts.len() > 0 ==> join(parts, sep).len() > 0,
        separated(join(parts, sep), sep, d),
    decreases parts.len(),
{
    if parts.len() == 1 {
        assert(parts[0].len() > 0);
    } else if parts.len() > 1 {
        let q = parts.drop_last();
        assert(clean_parts(q, d)) by {
            assert forall|k: int| 0 <= k < q.len() implies #[trigger] q[k].len() > 0 && (forall|
                j: int,
            | 0 <= j < q[k].len() ==> !d.matches(#[trigger] q[k][j])) by {
                assert(q[k] == parts[k]);
            }
        }
        lemma_join_separated(q, sep, d);
        let p = join(q, sep);
        let w = parts.last();
        let s = join(parts, sep);
        assert(w == parts[parts.len() - 1]);
        assert(w.len() > 0);
        assert(s == p + seq![sep] + w);
        assert(!d.matches(w[0]));
        assert(!d.matches(w[w.len() - 1]));
        assert forall|i: int| 0 <= i < s.len() && d.matches(#[trigger] s[i]) implies s[i]
            == sep by {
            if i < p.len() {
                assert(s[i] == p[i]);
            } else if i > p.len() {
                assert(s[i] == w[i - p.len() - 1]);
            }
        }
        assert forall|i: int, j: int| 0 <= i && j == i + 1 && j < s.len() implies !(d.matches(
            #[trigger] s[i],
        ) && d.matches(#[trigger] s[j])) by {
            if j < p.len() {
                assert(s[i] == p[i]);
                assert(s[j] == p[j]);
            } else if j == p.len() {
                assert(s[i] == p[p.len() - 1]);
            } else if j == p.len() + 1 {
                assert(s[j] == w[0]);
            } else {
                assert(s[j] == w[j - p.len() - 1]);
            }
        }
    }
}

/// The runs of `s` (cut at `d`) joined with `sep`.
pub fn join_runs(s: &Vec<char>, d: Delimiter, sep: char) -> (r: Vec<char>)
    ensures
        r@ == join(runs(s@, d), sep),
{
    let mut out: Vec<char> = Vec::new();
    let mut any = false;
    let mut in_run = false;
    let mut i: usize = 0;
    while i < s.len()
        invariant
            i <= s.len(),
            out@ == join(runs(s@.take(i as int), d), sep),
            any == (runs(s@.take(i as int), d).len() > 0),
            in_run == (i > 0 && !d.matches(s@[i - 1])),
        decreases s.len() - i,
    {
        let c = s[i];
        let ghost pre = s@.take(i as int);
        let ghost r = runs(pre, d);
        proof {
            assert(s@.take(i + 1).drop_last() =~= pre);
            assert(s@.take(i + 1).last() == c);
            lemma_runs_open(pre, d);
            if i > 0 {
                assert(pre.last() == s@[i - 1]);
            }
        }
        if d.is_delimiter(c) {
            in_run = false;
        } else if in_run {
            proof {
                lemma_join_extend(r, sep, c);
            }
            out.push(c);
        } else {
            proof {
                lemma_join_push(r, sep, seq![c]);
            }
            if any {
                out.push(sep);
            }
            out.push(c);
            any = true;
            in_run = true;
        }
        i = i + 1;
    }
    proof {
        assert(s@.take(s.len() as int) =~= s@);
    }
    out
}

// ---------------------------------------------------------------------------
// Trimming, selecting, searching
// ---------------------------------------------------------------------------

/// `s` without its leading delimiter characters.
pub open spec fn trim_start(s: Seq<char>, d: Delimiter) -> Seq<char>
    decreases s.len(),
{
    if s.len() > 0 && d.matches(s[0]) {
        trim_start(s.drop_first(), d)
    } else {
        s
    }
}

/// `s` without its trailing delimiter characters.
pub open spec fn trim_end(s: Seq<char>, d: Delimiter) -> Seq<char>
    decreases s.len(),
{
    if s.len() > 0 && d.matches(s.last()) {
        trim_end(s.drop_last(), d)
    } else {
        s
    }
}

/// `s` without leading and trailing delimiter characters.
pub open spec fn trim(s: Seq<char>, d: Delimiter) -> Seq<char> {
    trim_end(trim_start(s, d), d)
}

/// Every character of `s` satisfies `p`.
pub open spec fn all_chars(s: Seq<char>, p: spec_fn(char) -> bool) -> bool {
    forall|i: int| 0 <= i < s.len() ==> p(#[trigger] s[i])
}

proof fn lemma_trim_start_keeps(s: Seq<char>, d: Delimiter, p: spec_fn(char) -> bool)
    requires
        all_chars(s, p),
    ensures
        all_chars(trim_start(s, d), p),
        trim_start(s, d).len() > 0 ==> !d.matches(trim_start(s, d)[0]),
    decreases s.len(),
{
    if s.len() > 0 && d.matches(s[0]) {
        let t = s.drop_first();
        assert forall|i: int| 0 <= i < t.len() implies p(#[trigger] t[i]) by {
            assert(t[i] == s[i + 1]);
        }
        lemma_trim_start_keeps(t, d, p);
    }
}

proof fn lemma_trim_end_keeps(s: Seq<char>, d: Delimiter, p: spec_fn(char) -> bool)
    requires
        all_chars(s, p),
    ensures
        all_chars(trim_end(s, d), p),
        trim_end(s, d).len() <= s.len(),
        trim_end(s, d) == s.take(trim_end(s, d).len() as int),
        trim_end(s, d).len() > 0 ==> !d.matches(trim_end(s, d).last()),
        s.len() > 0 && !d.matches(s[0]) ==> trim_end(s, d).len() > 0,
    decreases s.len(),
{
    if s.len() > 0 && d.matches(s.last()) {
        let t = s.drop_last();
        assert forall|i: int| 0 <= i < t.len() implies p(#[trigger] t[i]) by {
            assert(t[i] == s[i]);
        }
        lemma_trim_end_keeps(t, d, p);
        let n = trim_end(t, d).len() as int;
        assert(t.take(n) =~= s.take(n));
        if s.len() > 0 && !d.matches(s[0]) && s.len() > 1 {
            assert(t[0] == s[0]);
        }
    } else {
        assert(s.take(s.len() as int) =~= s);
    }
}

/// Trimming keeps every property that all characters have, and leaves no
/// delimiter at either end.
pub proof fn lemma_trim_keeps(s: Seq<char>, d: Delimiter, p: spec_fn(char) -> bool)
    requires
        all_chars(s, p),
    ensures
        all_chars(trim(s, d), p),
        trim(s, d).len() > 0 ==> !d.matches(trim(s, d)[0]) && !d.matches(trim(s, d).last()),
{
    lemma_trim_start_keeps(s, d, p);
    let t = trim_start(s, d);
    lemma_trim_end_keeps(t, d, p);
    let u = trim_end(t, d);
    if u.len() > 0 {
        assert(u[0] == t[0]);
    }
}

/// The characters of the runs of `s` are characters of `s`.
pub proof fn lemma_runs_keep(s: Seq<char>, d: Delimiter, p: spec_fn(char) -> bool)
    requires
        all_chars(s, p),
    ensures
        forall|k: int| 0 <= k < runs(s, d).len() ==> all_chars(#[trigger] runs(s, d)[k], p),
    decreases s.len(),
{
    if s.len() > 0 {
        let q = s.drop_last();
        assert forall|i: int| 0 <= i < q.len() implies p(#[trigger] q[i]) by {
            assert(q[i] == s[i]);
        }
        lemma_runs_keep(q, d, p);
        lemma_runs_open(q, d);
        let r = runs(q, d);
        let c = s.last();
        assert(p(c)) by {
            assert(c == s[s.len() - 1]);
        }
        if d.matches(c) {
        } else if q.len() > 0 && !d.matches(q.last()) {
            let r2 = r.update(r.len() - 1, r.last().push(c));
            assert forall|k: int| 0 <= k < r2.len() implies all_chars(#[trigger] r2[k], p) by {
                if k == r.len() - 1 {
                    assert(all_chars(r[k], p));
                    assert forall|j: int| 0 <= j < r2[k].len() implies p(#[trigger] r2[k][j]) by {
                        if j < r[k].len() {
                            assert(r2[k][j] == r[k][j]);
                        }
                    }
                } else {
                    assert(r2[k] == r[k]);
                }
            }
        } else {
            let r2 = r.push(seq![c]);
            assert forall|k: int| 0 <= k < r2.len() implies all_chars(#[trigger] r2[k], p) by {
                if k < r.len() {
                    assert(r2[k] == r[k]);
                } else {
                    assert(r2[k] == seq![c]);
                }
            }
        }
    }
}

/// Joining parts whose characters all satisfy `p` with a separator that does
/// gives characters that all satisfy `p`.
pub proof fn lemma_join_keeps(parts: Seq<Seq<char>>, sep: char, p: spec_fn(char) -> bool)
    requires
        p(sep),
        forall|k: int| 0 <= k < parts.len() ==> all_chars(#[trigger] parts[k], p),
    ensures
        all_chars(join(parts, sep), p),
    decreases parts.len(),
{
    if parts.len() == 1 {
        assert(all_chars(parts[0], p));
    } else if parts.len() > 1 {
        let q = parts.drop_last();
        assert forall|k: int| 0 <= k < q.len() implies all_chars(#[trigger] q[k], p) by {
            assert(q[k] == parts[k]);
        }
        lemma_join_keeps(q, sep, p);
        let a = join(q, sep);
        let w = parts.last();
        assert(all_chars(parts[parts.len() - 1], p));
        let s2 = join(parts, sep);
        assert(s2 == a + seq![sep] + w);
        assert forall|i: int| 0 <= i < s2.len() implies p(#[trigger] s2[i]) by {
            if i < a.len() {
                assert(s2[i] == a[i]);
            } else if i > a.len() {
                assert(s2[i] == w[i - a.len() - 1]);
            }
        }
    }
}

/// Some character of `s` satisfies `p`.
pub open spec fn some_char(s: Seq<char>, p: spec_fn(char) -> bool) -> bool {
    exists|i: int| 0 <= i < s.len() && p(#[trigger] s[i])
}

/// Some character of some part satisfies `p`.
pub open spec fn some_part_char(parts: Seq<Seq<char>>, p: spec_fn(char) -> bool) -> bool {
    exists|k: int, j: int| 0 <= k < parts.len() && 0 <= j < parts[k].len() && p(#[trigger] parts[k][j])
}

proof fn lemma_trim_start_finds(s: Seq<char>, d: Delimiter, p: spec_fn(char) -> bool)
    requires
        some_char(s, p),
        forall|c: char| p(c) ==> !d.matches(c),
    ensures
        some_char(trim_start(s, d), p),
    decreases s.len(),
{
    if s.len() > 0 && d.matches(s[0]) {
        let i = choose|i: int| 0 <= i < s.len() && p(#[trigger] s[i]);
        let t = s.drop_first();
        assert(i != 0);
        assert(t[i - 1] == s[i]);
        lemma_trim_start_finds(t, d, p);
    }
}

proof fn lemma_trim_end_finds(s: Seq<char>, d: Delimiter, p: spec_fn(char) -> bool)
    requires
        some_char(s, p),
        forall|c: char| p(c) ==> !d.matches(c),
    ensures
        some_char(trim_end(s, d), p),
    decreases s.len(),
{
    if s.len() > 0 && d.matches(s.last()) {
        let i = choose|i: int| 0 <= i < s.len() && p(#[trigger] s[i]);
        let t = s.drop_last();
        assert(i != s.len() - 1);
        assert(t[i] == s[i]);
        lemma_trim_end_finds(t, d, p);
    }
}

/// Trimming delimiters keeps every character that is no delimiter.
pub proof fn lemma_trim_finds(s: Seq<char>, d: Delimiter, p: spec_fn(char) -> bool)
    requires
        some_char(s, p),
        forall|c: char| p(c) ==> !d.matches(c),
    ensures
        some_char(trim(s, d), p),
{
    lemma_trim_start_finds(s, d, p);
    lemma_trim_end_finds(trim_start(s, d), d, p);
}

/// A character of `s` that is no delimiter lies in one of its runs.
pub proof fn lemma_runs_find(s: Seq<char>, d: Delimiter, p: spec_fn(char) -> bool)
    requires
        some_char(s, p),
        forall|c: char| p(c) ==> !d.matches(c),
    ensures
        some_part_char(runs(s, d), p),
    decreases s.len(),
{
    let q = s.drop_last();
    let c = s.last();
    let i = choose|i: int| 0 <= i < s.len() && p(#[trigger] s[i]);
    lemma_runs_open(q, d);
    let r = runs(q, d);
    if i == s.len() - 1 {
        assert(p(c));
        if q.len() > 0 && !d.matches(q.last()) {
            let r2 = r.update(r.len() - 1, r.last().push(c));
            let k = r.len() - 1;
            assert(r2[k][r[k].len() as int] == c);
        } else {
            let r2 = r.push(seq![c]);
            assert(r2[r.len() as int][0] == c);
        }
    } else {
        assert(q[i] == s[i]);
        lemma_runs_find(q, d, p);
        let (k, j) = choose|k: int, j: int|
            0 <= k < r.len() && 0 <= j < r[k].len() && p(#[trigger] r[k][j]);
        if d.matches(c) {
        } else if q.len() > 0 && !d.matches(q.last()) {
            let r2 = r.update(r.len() - 1, r.last().push(c));
            assert(r2[k][j] == r[k][j]);
        } else {
            let r2 = r.push(seq![c]);
            assert(r2[k][j] == r[k][j]);
        }
    }
}

/// A character of a part lies in the joined sequence.
pub proof fn lemma_join_finds(parts: Seq<Seq<char>>, sep: char, p: spec_fn(char) -> bool)
    requires
        some_part_char(parts, p),
    ensures
        some_char(join(parts, sep), p),
    decreases parts.len(),
{
    let (k, j) = choose|k: int, j: int|
        0 <= k < parts.len() && 0 <= j < parts[k].len() && p(#[trigger] parts[k][j]);
    if parts.len() == 1 {
        assert(join(parts, sep)[j] == parts[0][j]);
    } else {
        let q = parts.drop_last();
        let a = join(q, sep);
        let w = parts.last();
        let s2 = join(parts, sep);
        assert(s2 == a + seq![sep] + w);
        if k == parts.len() - 1 {
            assert(s2[a.len() + 1 + j] == w[j]);
        } else {
            assert(q[k][j] == parts[k][j]);
            lemma_join_finds(q, sep, p);
            let i = choose|i: int| 0 <= i < a.len() && p(#[trigger] a[i]);
            assert(s2[i] == a[i]);
        }
    }
}

pub fn trim_delimiters(s: &Vec<char>, d: Delimiter) -> (r: Vec<char>)
    ensures
        r@ == trim(s@, d),
{
    let mut a: usize = 0;
    proof {
        assert(s@.skip(0) =~= s@);
    }
    while a < s.len() && d.is_delimiter(s[a])
        invariant
            a <= s.len(),
            trim_start(s@, d) == trim_start(s@.skip(a as int), d),
        decreases s.len() - a,
    {
        proof {
            assert(s@.skip(a as int).drop_first() =~= s@.skip(a + 1));
        }
        a = a + 1;
    }
    let ghost t = s@.skip(a as int);
    proof {
        assert(t =~= s@.subrange(a as int, s.len() as int));
    }
    let mut b: usize = s.len();
    while b > a && d.is_delimiter(s[b - 1])
        invariant
            a <= b <= s.len(),
            t == s@.skip(a as int),
            trim_start(s@, d) == t,
            trim_end(t, d) == trim_end(s@.subrange(a as int, b as int), d),
        decreases b,
    {
        proof {
            assert(s@.subrange(a as int, b as int).drop_last() =~= s@.subrange(
                a as int,
                b - 1,
            ));
        }
        b = b - 1;
    }
    slice_of(s, a, b)
}

/// Whether `pat` occurs in `s` at position `i`.
pub open spec fn occurs_at(s: Seq<char>, pat: Seq<char>, i: int) -> bool {
    0 <= i && i + pat.len() <= s.len() && s.subrange(i, i + pat.len()) == pat
}

/// The first position at or after `from` where `pat` occurs in `s`.
pub open spec fn find_from(s: Seq<char>, pat: Seq<char>, from: int) -> Option<int>
    decreases s.len() + 1 - from,
{
    if from < 0 || from + pat.len() > s.len() {
        None
    } else if occurs_at(s, pat, from) {
        Some(from)
    } else {
        find_from(s, pat, from + 1)
    }
}

/// The first position where `pat` occurs in `s`.
pub open spec fn find(s: Seq<char>, pat: Seq<char>) -> Option<int> {
    find_from(s, pat, 0)
}

pub proof fn lemma_find_from_facts(s: Seq<char>, pat: Seq<char>, from: int)
    requires
        0 <= from,
    ensures
        find_from(s, pat, from) matches Some(i) ==> from <= i && occurs_at(s, pat, i) && forall|
            j: int,
        |
            from <= j < i ==> !occurs_at(s, pat, j),
        find_from(s, pat, from) is None ==> forall|j: int| from <= j ==> !occurs_at(s, pat, j),
    decreases s.len() + 1 - from,
{
    if from + pat.len() > s.len() {
    } else if occurs_at(s, pat, from) {
    } else {
        lemma_find_from_facts(s, pat, from + 1);
    }
}

/// `find` gives the first occurrence, and `None` only when there is none.
pub proof fn lemma_find(s: Seq<char>, pat: Seq<char>)
    ensures
        find(s, pat) matches Some(i) ==> occurs_at(s, pat, i) && forall|j: int|
            0 <= j < i ==> !occurs_at(s, pat, j),
        find(s, pat) is None ==> forall|j: int| !occurs_at(s, pat, j),
{
    lemma_find_from_facts(s, pat, 0);
}

/// Search for `pat` in `s` starting at `from`.
pub fn find_at(s: &Vec<char>, pat: &Vec<char>, from: usize) -> (r: Option<usize>)
    requires
        from <= s.len(),
    ensures
        r matches Some(i) ==> find_from(s@, pat@, from as int) == Some(i as int),
        r is None ==> find_from(s@, pat@, from as int) is None,
{
    if pat.len() > s.len() {
        return None;
    }
    let last = s.len() - pat.len();
    let mut i = from;
    while i <= last
        invariant
            from <= i,
            last + pat.len() == s.len(),
            find_from(s@, pat@, from as int) == find_from(s@, pat@, i as int),
        decreases last + 1 - i,
    {
        let mut j: usize = 0;
        let mut ok = true;
        while j < pat.len()
            invariant
                i <= last,
                last + pat.len() == s.len(),
                j <= pat.len(),
                ok == (forall|k: int| 0 <= k < j ==> s@[i + k] == pat@[k]),
            decreases pat.len() - j,
        {
            if s[i + j] != pat[j] {
                ok = false;
            }
            j = j + 1;
        }
        proof {
            if ok {
                assert(s@.subrange(i as int, i + pat.len()) =~= pat@);
            } else {
                assert(!occurs_at(s@, pat@, i as int)) by {
                    if occurs_at(s@, pat@, i as int) {
                        assert forall|k: int| 0 <= k < pat.len() implies s@[i + k] == pat@[k] by {
                            assert(s@.subrange(i as int, i + pat.len())[k] == s@[i + k]);
                        }
                    }
                }
            }
        }
        if ok {
            return Some(i);
        }
        i = i + 1;
    }
    None
}

/// Whether `pat` occurs somewhere in `s`.
pub open spec fn has_substring(s: Seq<char>, pat: Seq<char>) -> bool {
    exists|i: int| occurs_at(s, pat, i)
}

/// Whether `pat` occurs in `s` (`str::contains` with a string pattern).
pub fn str_contains(s: &str, pat: &str) -> (r: bool)
    ensures
        r == has_substring(s@, pat@),
{
    let a = chars_of(s);
    let b = chars_of(pat);
    let found = find_at(&a, &b, 0);
    proof {
        lemma_find_from_facts(a@, b@, 0);
        if found is None {
            assert forall|i: int| !occurs_at(s@, pat@, i) by {
                if i >= 0 {
                    assert(!occurs_at(a@, b@, i));
                }
            }
        }
    }
    found.is_some()
}

/// The slice `s[a..b]` as a fresh vector.
pub fn slice_of(s: &Vec<char>, a: usize, b: usize) -> (r: Vec<char>)
    requires
        a <= b <= s.len(),
    ensures
        r@ == s@.subrange(a as int, b as int),
{
    let mut out: Vec<char> = Vec::new();
    let mut k = a;
    while k < b
        invariant
            a <= k <= b <= s.len(),
            out@ == s@.subrange(a as int, k as int),
        decreases b - k,
    {
        out.push(s[k]);
        proof {
            assert(s@.subrange(a as int, k + 1) =~= s@.subrange(a as int, k as int).push(
                s@[k as int],
            ));
        }
        k = k + 1;
    }
    out
}

/// Append all of `b` to `a`.
pub fn append_all(a: &mut Vec<char>, b: &Vec<char>)
    ensures
        final(a)@ == old(a)@ + b@,
{
    let mut k: usize = 0;
    let ghost a0 = a@;
    while k < b.len()
        invariant
            k <= b.len(),
            a@ == a0 + b@.take(k as int),
        decreases b.len() - k,
    {
        a.push(b[k]);
        proof {
            assert(b@.take(k + 1) =~= b@.take(k as int).push(b@[k as int]));
        }
        k = k + 1;
    }
    proof {
        assert(b@.take(b.len() as int) =~= b@);
    }
}

/// Whether two strings hold the same characters.
pub fn str_eq(a: &str, b: &str) -> (r: bool)
    ensures
        r == (a@ == b@),
{
    let x = chars_of(a);
    let y = chars_of(b);
    if x.len() != y.len() {
        return false;
    }
    let mut i: usize = 0;
    while i < x.len()
        invariant
            i <= x.len() == y.len(),
            x@ == a@,
            y@ == b@,
            forall|j: int| 0 <= j < i ==> x@[j] == y@[j],
        decreases x.len() - i,
    {
        if x[i] != y[i] {
            return false;
        }
        i = i + 1;
    }
    assert(x@ =~= y@);
    true
}

/// Whether some string of `v` equals `s`.
pub open spec fn contains_text(v: Seq<String>, s: Seq<char>) -> bool {
    exists|i: int| 0 <= i < v.len() && (#[trigger] v[i])@ == s
}

/// Whether some string of `v` equals `s`.
pub fn contains_str(v: &Vec<String>, s: &str) -> (r: bool)
    ensures
        r == contains_text(v@, s@),
{
    let mut i: usize = 0;
    while i < v.len()
        invariant
            i <= v.len(),
            forall|j: int| 0 <= j < i ==> (#[trigger] v@[j])@ != s@,
        decreases v.len() - i,
    {
        if str_eq(v[i].as_str(), s) {
            return true;
        }
        i = i + 1;
    }
    false
}

// ---------------------------------------------------------------------------
// Decimal numerals
// ---------------------------------------------------------------------------

pub open spec fn digit_char(d: nat) -> char {
    if d == 0 {
        '0'
    } else if d == 1 {
        '1'
    } else if d == 2 {
        '2'
    } else if d == 3 {
        '3'
    } else if d == 4 {
        '4'
    } else if d == 5 {
        '5'
    } else if d == 6 {
        '6'
    } else if d == 7 {
        '7'
    } else if d == 8 {
        '8'
    } else {
        '9'
    }
}

/// The decimal numeral of `n`, without leading zeros.
pub open spec fn decimal(n: nat) -> Seq<char>
    decreases n,
{
    if n < 10 {
        seq![digit_char(n)]
    } else {
        decimal(n / 10).push(digit_char(n % 10))
    }
}

fn digit(d: u64) -> (c: char)
    requires
        d < 10,
    ensures
        c == digit_char(d as nat),
{
    match d {
        0 => '0',
        1 => '1',
        2 => '2',
        3 => '3',
        4 => '4',
        5 => '5',
        6 => '6',
        7 => '7',
        8 => '8',
        _ => '9',
    }
}

/// Append the decimal numeral of `n` to `out`.
pub fn push_decimal(out: &mut Vec<char>, n: u64)
    ensures
        final(out)@ == old(out)@ + decimal(n as nat),
    decreases n,
{
    if n < 10 {
        out.push(digit(n));
    } else {
        push_decimal(out, n / 10);
        out.push(digit(n % 10));
    }
}

} // verus!
