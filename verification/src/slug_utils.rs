//! Slug previews: the slug a display name gives, and the free variant of it
//! that a new account would receive.

use vstd::prelude::*;

use crate::text::{
    all_chars, alphanumeric, chars_of, decimal, lemma_trim_keeps, push_decimal, string_of,
    to_lowercase, trim, trim_delimiters, unicode_alphanumeric, unicode_lowercase, Delimiter,
};
use crate::user_slug::{search_outcome, slug_candidate, lemma_search_outcome_first_free, SlugSearch};

verus! {

/// `s` with spaces turned into hyphens and every character dropped that is
/// neither alphanumeric nor a hyphen.
pub open spec fn dash_filter(s: Seq<char>) -> Seq<char>
    decreases s.len(),
{
    if s.len() == 0 {
        s
    } else {
        let c = s.last();
        let p = dash_filter(s.drop_last());
        if c == ' ' || c == '-' {
            p.push('-')
        } else if unicode_alphanumeric(c) {
            p.push(c)
        } else {
            p
        }
    }
}

/// The preview slug of a display name: lowercase it, trim it, turn spaces
/// into hyphens, keep alphanumerics and hyphens, trim hyphens from the ends.
pub open spec fn display_slug(name: Seq<char>) -> Seq<char> {
    trim(dash_filter(trim(unicode_lowercase(name), Delimiter::Whitespace)), Delimiter::Hyphen)
}

/// The decimal numeral of an integer, with a leading minus when negative.
pub open spec fn signed_decimal(n: int) -> Seq<char> {
    if n < 0 {
        seq!['-'] + decimal((-n) as nat)
    } else {
        decimal(n as nat)
    }
}

/// The answer of a slug search: whether the base itself is free, and the slug
/// to use. When every numbered variant is taken, the base gets the timestamp
/// as its suffix.
pub open spec fn availability(
    base: Seq<char>,
    outcome: Option<Seq<char>>,
    timestamp: int,
) -> (bool, Seq<char>) {
    match outcome {
        Some(s) => (s == base, s),
        None => (false, base + seq!['-'] + signed_decimal(timestamp)),
    }
}

/// Slug helpers over the user store.
pub struct SlugUtils<P> {
    pool: P,
}

impl<P> SlugUtils<P> {
    pub closed spec fn pool_view(&self) -> P {
        self.pool
    }

    pub fn new(pool: P) -> (r: Self)
        ensures
            r.pool_view() == pool,
    {
        SlugUtils { pool }
    }

    /// The store the slugs are checked against.
    pub fn pool(&self) -> (r: &P)
        ensures
            *r == self.pool_view(),
    {
        &self.pool
    }

    /// The preview slug of a display name.
    pub fn generate_slug(display_name: &str) -> (r: String)
        ensures
            r@ == display_slug(display_name@),
    {
        let lower = to_lowercase(display_name);
        let chars = chars_of(lower.as_str());
        let trimmed = trim_delimiters(&chars, Delimiter::Whitespace);
        let mut kept: Vec<char> = Vec::new();
        let mut i: usize = 0;
        while i < trimmed.len()
            invariant
                i <= trimmed.len(),
                kept@ == dash_filter(trimmed@.take(i as int)),
            decreases trimmed.len() - i,
        {
            let c = trimmed[i];
            proof {
                assert(trimmed@.take(i + 1).drop_last() =~= trimmed@.take(i as int));
            }
            if c == ' ' || c == '-' {
                kept.push('-');
            } else if alphanumeric(c) {
                kept.push(c);
            }
            i = i + 1;
        }
        proof {
            assert(trimmed@.take(trimmed.len() as int) =~= trimmed@);
        }
        let out = trim_delimiters(&kept, Delimiter::Hyphen);
        string_of(&out)
    }

    /// Whether a requested profile slug is already in the form the preview
    /// would give it; a profile update through the slug helper refuses any other.
    pub fn is_canonical_slug(slug: &str) -> (r: bool)
        ensures
            r == (display_slug(slug@) == slug@),
    {
        let g = Self::generate_slug(slug);
        crate::text::str_eq(g.as_str(), slug)
    }

    /// Begin the search for a free slug: the base itself, then the base with
    /// `-2` up to `-999`.
    pub fn find_available_slug(base_slug: &str) -> (r: SlugSearch)
        ensures
            r.wf(),
            r.base_view() == base_slug@,
            r.first_view() == 2,
            r.limit_view() == 1000,
            r.tries_view() == 0,
    {
        SlugSearch::new(base_slug, 2, 1000)
    }

    /// Finish a slug search: `outcome` is the free slug it found, or `None`
    /// when every variant was taken, in which case `timestamp` (seconds since
    /// the epoch) makes the suffix.
    pub fn available_slug(base_slug: &str, outcome: Option<String>, timestamp: i64) -> (r: (
        bool,
        String,
    ))
        ensures
            (r.0, r.1@) == availability(
                base_slug@,
                match outcome {
                    Some(s) => Some(s@),
                    None => None,
                },
                timestamp as int,
            ),
    {
        match outcome {
            Some(s) => {
                let same = crate::text::str_eq(s.as_str(), base_slug);
                (same, s)
            },
            None => {
                let mut out = chars_of(base_slug);
                out.push('-');
                if timestamp < 0 {
                    out.push('-');
                    let magnitude: i128 = 0i128 - (timestamp as i128);
                    push_decimal(&mut out, magnitude as u64);
                } else {
                    push_decimal(&mut out, timestamp as u64);
                }
                let r = string_of(&out);
                proof {
                    assert(r@ =~= base_slug@ + seq!['-'] + signed_decimal(timestamp as int));
                }
                (false, r)
            },
        }
    }
}

/// A search's outcome differs from its base exactly when the base is taken:
/// numbered variants are longer than the base.
pub proof fn lemma_base_free_iff_found_itself(
    base: Seq<char>,
    first: nat,
    limit: nat,
    taken: spec_fn(Seq<char>) -> bool,
)
    requires
        first <= limit,
    ensures
        (search_outcome(base, first, limit, 0, taken) == Some(base)) <==> !taken(base),
{
    lemma_search_outcome_first_free(base, first, limit, 0, taken);
    if taken(base) {
        if let Some(c) = search_outcome(base, first, limit, 0, taken) {
            let k = choose|k: nat|
                0 <= k <= limit - first && c == slug_candidate(base, first, k) && !taken(c)
                    && forall|j: nat| 0 <= j < k ==> #[trigger] taken(slug_candidate(base, first, j));
            if k == 0 {
                assert(c == base);
            } else {
                assert(c.len() > base.len());
            }
        }
    } else {
        assert(slug_candidate(base, first, 0) == base);
    }
}

/// A preview reports its slug available exactly when the slug it gives is
/// the base itself.
pub proof fn lemma_available_iff_unchanged(
    base: Seq<char>,
    outcome: Option<Seq<char>>,
    timestamp: int,
)
    ensures
        availability(base, outcome, timestamp).0 <==> availability(base, outcome, timestamp).1
            == base,
{
    if outcome is None {
        let s = base + seq!['-'] + signed_decimal(timestamp);
        assert(s.len() > base.len());
    }
}

proof fn lemma_dash_filter_keeps(s: Seq<char>)
    ensures
        all_chars(dash_filter(s), |c: char| unicode_alphanumeric(c) || c == '-'),
    decreases s.len(),
{
    if s.len() > 0 {
        lemma_dash_filter_keeps(s.drop_last());
        let f = dash_filter(s.drop_last());
        let g = dash_filter(s);
        assert forall|i: int| 0 <= i < g.len() implies unicode_alphanumeric(#[trigger] g[i])
            || g[i] == '-' by {
            if i < f.len() {
                assert(g[i] == f[i]);
            }
        }
    }
}

/// A preview slug holds only alphanumerics and hyphens, and neither starts
/// nor ends with a hyphen.
pub proof fn lemma_display_slug_shape(name: Seq<char>)
    ensures
        all_chars(display_slug(name), |c: char| unicode_alphanumeric(c) || c == '-'),
        display_slug(name).len() > 0 ==> display_slug(name)[0] != '-' && display_slug(name).last()
            != '-',
{
    let f = dash_filter(trim(unicode_lowercase(name), Delimiter::Whitespace));
    lemma_dash_filter_keeps(trim(unicode_lowercase(name), Delimiter::Whitespace));
    lemma_trim_keeps(f, Delimiter::Hyphen, |c: char| unicode_alphanumeric(c) || c == '-');
}

/// Only spaces become hyphens: the dash filter drops every character that is
/// neither alphanumeric, a space nor a hyphen, and turns each space into a
/// hyphen, keeping the order of what it keeps.
pub proof fn lemma_dash_filter_is_filter(s: Seq<char>)
    ensures
        dash_filter(s) == s.filter(|c: char| unicode_alphanumeric(c) || c == ' ' || c == '-')
            .map_values((|c: char| if c == ' ' { '-' } else { c })),
    decreases s.len(),
{
    let k = |c: char| unicode_alphanumeric(c) || c == ' ' || c == '-';
    let m = (|c: char| if c == ' ' { '-' } else { c });
    reveal(Seq::filter);
    if s.len() > 0 {
        lemma_dash_filter_is_filter(s.drop_last());
        let f = s.drop_last().filter(k);
        let c = s.last();
        if k(c) {
            assert(s.filter(k) == f.push(c));
            assert(f.push(c).map_values(m) =~= f.map_values(m).push(m(c)));
        } else {
            assert(s.filter(k) == f);
        }
    }
}

/// Characters that are neither alphanumeric, a space nor a hyphen make no
/// difference to the dash filter: removing them first gives the same result.
pub proof fn lemma_dash_filter_ignores_others(s: Seq<char>)
    ensures
        dash_filter(s.filter(|c: char| unicode_alphanumeric(c) || c == ' ' || c == '-'))
            == dash_filter(s),
{
    let k = |c: char| unicode_alphanumeric(c) || c == ' ' || c == '-';
    let f = s.filter(k);
    lemma_dash_filter_is_filter(s);
    lemma_dash_filter_is_filter(f);
    assert forall|i: int| 0 <= i < f.len() implies k(#[trigger] f[i]) by {
        s.lemma_filter_pred(k, i);
    }
    lemma_filter_all_kept(f, k);
}

proof fn lemma_filter_all_kept(f: Seq<char>, k: spec_fn(char) -> bool)
    requires
        forall|i: int| 0 <= i < f.len() ==> k(#[trigger] f[i]),
    ensures
        f.filter(k) == f,
    decreases f.len(),
{
    reveal(Seq::filter);
    if f.len() > 0 {
        let q = f.drop_last();
        assert forall|i: int| 0 <= i < q.len() implies k(#[trigger] q[i]) by {
            assert(q[i] == f[i]);
        }
        lemma_filter_all_kept(q, k);
        assert(k(f[f.len() - 1]));
        assert(q.push(f.last()) =~= f);
    }
}

/// The preview slug of a display name, stated without the dash filter: of the
/// lowercased, trimmed name keep alphanumerics, spaces and hyphens, turn the
/// spaces into hyphens, and trim hyphens from the ends.
pub proof fn lemma_display_slug_by_filter(name: Seq<char>)
    ensures
        display_slug(name) == trim(
            trim(unicode_lowercase(name), Delimiter::Whitespace).filter(
                |c: char| unicode_alphanumeric(c) || c == ' ' || c == '-',
            ).map_values((|c: char| if c == ' ' { '-' } else { c })),
            Delimiter::Hyphen,
        ),
{
    lemma_dash_filter_is_filter(trim(unicode_lowercase(name), Delimiter::Whitespace));
}

} // verus!
