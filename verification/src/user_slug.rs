//! User profile slugs: format validation, derivation from display names and
//! the search for a free slug among numbered variants.

use vstd::prelude::*;

use crate::text::{
    all_chars, append_all, ascii_alnum, ascii_digit, ascii_lower, chars_of,
    decimal, is_ascii_alnum, is_ascii_digit, is_ascii_lower, is_whitespace, join, join_runs,
    lemma_join_finds, lemma_join_keeps, lemma_runs_find, lemma_runs_keep, lemma_runs_shape,
    lemma_trim_finds, lemma_trim_keeps, push_decimal, runs, some_char,
    string_of, to_lowercase, trim, trim_delimiters, unicode_lowercase,
    whitespace, Delimiter,
};

verus! {

// ---------------------------------------------------------------------------
// Format
// ---------------------------------------------------------------------------

/// A character allowed in a profile slug.
pub open spec fn is_slug_char(c: char) -> bool {
    is_ascii_lower(c) || is_ascii_digit(c) || c == '-'
}

/// A well-formed profile slug: non-empty, no hyphen at either end, and only
/// lowercase ASCII letters, digits and hyphens.
pub open spec fn valid_slug(s: Seq<char>) -> bool {
    &&& s.len() > 0
    &&& s[0] != '-'
    &&& s.last() != '-'
    &&& forall|i: int| 0 <= i < s.len() ==> is_slug_char(#[trigger] s[i])
}

/// Validate slug format for profile updates.
pub fn is_valid_slug(slug: &str) -> (r: bool)
    ensures
        r == valid_slug(slug@),
{
    let s = chars_of(slug);
    if s.len() == 0 {
        return false;
    }
    if s[0] == '-' || s[s.len() - 1] == '-' {
        return false;
    }
    let mut i: usize = 0;
    while i < s.len()
        invariant
            i <= s.len(),
            s@ == slug@,
            forall|j: int| 0 <= j < i ==> is_slug_char(#[trigger] s@[j]),
        decreases s.len() - i,
    {
        let c = s[i];
        if !(ascii_lower(c) || ascii_digit(c) || c == '-') {
            return false;
        }
        i = i + 1;
    }
    true
}

// ---------------------------------------------------------------------------
// Derivation from display names
// ---------------------------------------------------------------------------

/// Characters kept when deriving a slug: ASCII letters and digits, whitespace
/// and hyphens.
pub open spec fn keeps_for_slug(c: char) -> bool {
    is_ascii_alnum(c) || is_whitespace(c) || c == '-'
}

/// `s` restricted to the characters kept for a slug.
pub open spec fn slug_filter(s: Seq<char>) -> Seq<char>
    decreases s.len(),
{
    if s.len() == 0 {
        s
    } else if keeps_for_slug(s.last()) {
        slug_filter(s.drop_last()).push(s.last())
    } else {
        slug_filter(s.drop_last())
    }
}

/// The slug derived from a display name: lowercase it, trim it, keep ASCII
/// letters, digits, whitespace and hyphens, join the words with hyphens and
/// trim hyphens from both ends.
pub open spec fn display_name_slug(name: Seq<char>) -> Seq<char> {
    trim(
        join(
            runs(
                slug_filter(trim(unicode_lowercase(name), Delimiter::Whitespace)),
                Delimiter::Whitespace,
            ),
            '-',
        ),
        Delimiter::Hyphen,
    )
}

/// Generate a slug from a display name by filtering invalid characters.
pub fn generate_slug_from_display_name(display_name: &str) -> (r: String)
    ensures
        r@ == display_name_slug(display_name@),
        r@.len() == 0 || valid_slug(r@),
        r@.len() == 0 <==> !some_char(
            unicode_lowercase(display_name@),
            |c: char| is_ascii_alnum(c),
        ),
{
    let lower = to_lowercase(display_name);
    proof {
        let nu = |c: char| !('A' <= c <= 'Z');
        assert forall|i: int| 0 <= i < lower@.len() implies nu(#[trigger] lower@[i]) by {}
        lemma_display_name_slug_valid_or_empty(display_name@);
        lemma_display_name_slug_empty(display_name@);
    }
    let chars = chars_of(lower.as_str());
    let trimmed = trim_delimiters(&chars, Delimiter::Whitespace);
    let mut kept: Vec<char> = Vec::new();
    let mut i: usize = 0;
    while i < trimmed.len()
        invariant
            i <= trimmed.len(),
            kept@ == slug_filter(trimmed@.take(i as int)),
        decreases trimmed.len() - i,
    {
        let c = trimmed[i];
        proof {
            assert(trimmed@.take(i + 1).drop_last() =~= trimmed@.take(i as int));
        }
        if ascii_alnum(c) || whitespace(c) || c == '-' {
            kept.push(c);
        }
        i = i + 1;
    }
    proof {
        assert(trimmed@.take(trimmed.len() as int) =~= trimmed@);
    }
    let joined = join_runs(&kept, Delimiter::Whitespace, '-');
    let out = trim_delimiters(&joined, Delimiter::Hyphen);
    string_of(&out)
}

proof fn lemma_slug_filter_keeps(s: Seq<char>)
    ensures
        all_chars(slug_filter(s), |c: char| keeps_for_slug(c)),
    decreases s.len(),
{
    if s.len() > 0 {
        lemma_slug_filter_keeps(s.drop_last());
        let f = slug_filter(s.drop_last());
        if keeps_for_slug(s.last()) {
            let g = f.push(s.last());
            assert forall|i: int| 0 <= i < g.len() implies keeps_for_slug(#[trigger] g[i]) by {
                if i < f.len() {
                    assert(g[i] == f[i]);
                }
            }
        }
    }
}

/// A slug derived from a display name holds only ASCII letters, digits and
/// hyphens, and neither starts nor ends with a hyphen.
pub proof fn lemma_display_name_slug_shape(name: Seq<char>)
    ensures
        forall|i: int|
            0 <= i < display_name_slug(name).len() ==> is_ascii_alnum(
                #[trigger] display_name_slug(name)[i],
            ) || display_name_slug(name)[i] == '-',
        display_name_slug(name).len() > 0 ==> display_name_slug(name)[0] != '-'
            && display_name_slug(name).last() != '-',
{
    let f = slug_filter(trim(unicode_lowercase(name), Delimiter::Whitespace));
    let q = |c: char| is_ascii_alnum(c) || c == '-';
    lemma_slug_filter_keeps(trim(unicode_lowercase(name), Delimiter::Whitespace));
    lemma_runs_keep(f, Delimiter::Whitespace, |c: char| keeps_for_slug(c));
    lemma_runs_shape(f, Delimiter::Whitespace);
    let r = runs(f, Delimiter::Whitespace);
    assert forall|k: int| 0 <= k < r.len() implies all_chars(#[trigger] r[k], q) by {
        assert(all_chars(r[k], |c: char| keeps_for_slug(c)));
        assert forall|j: int| 0 <= j < r[k].len() implies q(#[trigger] r[k][j]) by {
            assert(keeps_for_slug(r[k][j]));
            assert(!Delimiter::Whitespace.matches(r[k][j]));
        }
    }
    lemma_join_keeps(r, '-', q);
    lemma_trim_keeps(join(r, '-'), Delimiter::Hyphen, q);
    let t = display_name_slug(name);
    assert forall|i: int| 0 <= i < t.len() implies is_ascii_alnum(#[trigger] t[i]) || t[i]
        == '-' by {
        assert(q(t[i]));
    }
}

/// A slug derived from a display name passes the profile-slug check exactly
/// when it is non-empty and holds no uppercase ASCII letter.
pub proof fn lemma_display_name_slug_valid(name: Seq<char>)
    ensures
        valid_slug(display_name_slug(name)) <==> display_name_slug(name).len() > 0 && forall|
            i: int,
        |
            0 <= i < display_name_slug(name).len() ==> !('A' <= #[trigger] display_name_slug(
                name,
            )[i] <= 'Z'),
{
    lemma_display_name_slug_shape(name);
    let t = display_name_slug(name);
    if t.len() > 0 && forall|i: int| 0 <= i < t.len() ==> !('A' <= #[trigger] t[i] <= 'Z') {
        assert forall|i: int| 0 <= i < t.len() implies is_slug_char(#[trigger] t[i]) by {
            assert(is_ascii_alnum(t[i]) || t[i] == '-');
            assert(!('A' <= t[i] <= 'Z'));
        }
    }
    if valid_slug(t) {
        assert forall|i: int| 0 <= i < t.len() implies !('A' <= #[trigger] t[i] <= 'Z') by {
            assert(is_slug_char(t[i]));
        }
    }
}

proof fn lemma_slug_filter_sub(s: Seq<char>, p: spec_fn(char) -> bool)
    requires
        all_chars(s, p),
    ensures
        all_chars(slug_filter(s), p),
    decreases s.len(),
{
    if s.len() > 0 {
        let q = s.drop_last();
        assert forall|i: int| 0 <= i < q.len() implies p(#[trigger] q[i]) by {
            assert(q[i] == s[i]);
        }
        lemma_slug_filter_sub(q, p);
        let f = slug_filter(q);
        assert(p(s[s.len() - 1]));
        if keeps_for_slug(s.last()) {
            let g = f.push(s.last());
            assert forall|i: int| 0 <= i < g.len() implies p(#[trigger] g[i]) by {
                if i < f.len() {
                    assert(g[i] == f[i]);
                }
            }
        }
    }
}

proof fn lemma_slug_filter_finds(s: Seq<char>)
    requires
        some_char(s, |c: char| is_ascii_alnum(c)),
    ensures
        some_char(slug_filter(s), |c: char| is_ascii_alnum(c)),
    decreases s.len(),
{
    let q = s.drop_last();
    let i = choose|i: int| 0 <= i < s.len() && is_ascii_alnum(#[trigger] s[i]);
    if i == s.len() - 1 {
        let f = slug_filter(q);
        assert(slug_filter(s)[f.len() as int] == s.last());
    } else {
        assert(q[i] == s[i]);
        lemma_slug_filter_finds(q);
        let f = slug_filter(q);
        let j = choose|j: int| 0 <= j < f.len() && is_ascii_alnum(#[trigger] f[j]);
        if keeps_for_slug(s.last()) {
            assert(slug_filter(s)[j] == f[j]);
        }
    }
}

/// Every property that all characters of the lowercased name have, and a
/// hyphen has too, holds of every character of the derived slug.
pub proof fn lemma_display_name_slug_keeps(name: Seq<char>, p: spec_fn(char) -> bool)
    requires
        all_chars(unicode_lowercase(name), p),
        p('-'),
    ensures
        all_chars(display_name_slug(name), p),
{
    let l = unicode_lowercase(name);
    lemma_trim_keeps(l, Delimiter::Whitespace, p);
    let t = trim(l, Delimiter::Whitespace);
    lemma_slug_filter_sub(t, p);
    let f = slug_filter(t);
    lemma_runs_keep(f, Delimiter::Whitespace, p);
    lemma_join_keeps(runs(f, Delimiter::Whitespace), '-', p);
    lemma_trim_keeps(join(runs(f, Delimiter::Whitespace), '-'), Delimiter::Hyphen, p);
}

/// A display name gives an empty slug exactly when its lowercase form holds
/// no ASCII letter or digit.
pub proof fn lemma_display_name_slug_empty(name: Seq<char>)
    ensures
        display_name_slug(name).len() == 0 <==> !some_char(
            unicode_lowercase(name),
            |c: char| is_ascii_alnum(c),
        ),
{
    let a = |c: char| is_ascii_alnum(c);
    let l = unicode_lowercase(name);
    let t = display_name_slug(name);
    if some_char(l, a) {
        assert forall|c: char| a(c) implies !Delimiter::Whitespace.matches(c) by {}
        lemma_trim_finds(l, Delimiter::Whitespace, a);
        let tr = trim(l, Delimiter::Whitespace);
        lemma_slug_filter_finds(tr);
        let f = slug_filter(tr);
        lemma_runs_find(f, Delimiter::Whitespace, a);
        lemma_join_finds(runs(f, Delimiter::Whitespace), '-', a);
        assert forall|c: char| a(c) implies !Delimiter::Hyphen.matches(c) by {}
        lemma_trim_finds(join(runs(f, Delimiter::Whitespace), '-'), Delimiter::Hyphen, a);
    } else {
        let na = |c: char| !is_ascii_alnum(c);
        assert forall|i: int| 0 <= i < l.len() implies na(#[trigger] l[i]) by {
            if is_ascii_alnum(l[i]) {
                assert(a(l[i]));
            }
        }
        lemma_display_name_slug_keeps(name, na);
        lemma_display_name_slug_shape(name);
        if t.len() > 0 {
            assert(na(t[0]));
        }
    }
}

/// When the lowercased name holds no ASCII capital, the derived slug passes
/// the profile-slug check exactly when it is non-empty.
pub proof fn lemma_display_name_slug_valid_or_empty(name: Seq<char>)
    requires
        all_chars(unicode_lowercase(name), |c: char| !('A' <= c <= 'Z')),
    ensures
        valid_slug(display_name_slug(name)) <==> display_name_slug(name).len() > 0,
{
    let nu = |c: char| !('A' <= c <= 'Z');
    lemma_display_name_slug_keeps(name, nu);
    lemma_display_name_slug_valid(name);
    let t = display_name_slug(name);
    assert forall|i: int| 0 <= i < t.len() implies !('A' <= #[trigger] t[i] <= 'Z') by {
        assert(nu(t[i]));
    }
}

/// Why a display name cannot give a slug.
#[derive(Clone, Copy, PartialEq, Eq, Debug)]
pub enum SlugError {
    /// Nothing but hyphens (or nothing at all) remains after filtering.
    NoLetterOrNumber,
    /// Every numbered variant that was tried is taken.
    Exhausted,
}

impl SlugError {
    /// The text of the message for this error.
    pub open spec fn text(self) -> Seq<char> {
        match self {
            SlugError::NoLetterOrNumber => "Display name must contain at least one letter or number"@,
            SlugError::Exhausted => "Unable to generate unique slug"@,
        }
    }

    /// The message shown for this error.
    pub fn message(&self) -> (r: String)
        ensures
            r@ == self.text(),
    {
        match self {
            SlugError::NoLetterOrNumber => "Display name must contain at least one letter or number".to_owned(),
            SlugError::Exhausted => "Unable to generate unique slug".to_owned(),
        }
    }
}

/// A base slug is usable when it holds at least one ASCII letter or digit.
pub open spec fn usable_base(s: Seq<char>) -> bool {
    exists|i: int| 0 <= i < s.len() && is_ascii_alnum(#[trigger] s[i])
}

/// Check that a derived base slug holds at least one ASCII letter or digit.
pub fn check_base_slug(base: &str) -> (r: Result<(), SlugError>)
    ensures
        r is Ok <==> usable_base(base@),
        r is Err ==> r == Err::<(), SlugError>(SlugError::NoLetterOrNumber),
{
    let s = chars_of(base);
    let mut i: usize = 0;
    while i < s.len()
        invariant
            i <= s.len(),
            s@ == base@,
            forall|j: int| 0 <= j < i ==> !is_ascii_alnum(#[trigger] s@[j]),
        decreases s.len() - i,
    {
        if ascii_alnum(s[i]) {
            return Ok(());
        }
        i = i + 1;
    }
    Err(SlugError::NoLetterOrNumber)
}

// ---------------------------------------------------------------------------
// Searching for a free slug
// ---------------------------------------------------------------------------

/// The candidate tried after `tries` collisions: the base itself, then the
/// base with the numbers `first`, `first + 1`, ... appended after a hyphen.
pub open spec fn slug_candidate(base: Seq<char>, first: nat, tries: nat) -> Seq<char> {
    if tries == 0 {
        base
    } else {
        base + seq!['-'] + decimal((first + tries - 1) as nat)
    }
}

/// The slug a search ends with when `taken` tells which candidates exist:
/// the first candidate from `tries` on that is not taken, or `None` once the
/// numbered suffix would pass `limit`.
pub open spec fn search_outcome(
    base: Seq<char>,
    first: nat,
    limit: nat,
    tries: nat,
    taken: spec_fn(Seq<char>) -> bool,
) -> Option<Seq<char>>
    decreases limit + 1 - (first + tries),
{
    let c = slug_candidate(base, first, tries);
    if !taken(c) {
        Some(c)
    } else if first + tries + 1 > limit {
        None
    } else {
        search_outcome(base, first, limit, tries + 1, taken)
    }
}

/// The state of a search for a free slug: the candidate to check next.
///
/// The caller checks whether `candidate()` is taken and hands the answer to
/// `step`, until it gives `Found` or `Exhausted`.
pub struct SlugSearch {
    base: Vec<char>,
    first: u32,
    limit: u32,
    tries: u32,
    candidate: Vec<char>,
}

/// What a search does after an answer.
pub enum SlugStep {
    /// The candidate was free: it is the slug.
    Found(String),
    /// The candidate was taken: check the next one.
    Next(SlugSearch),
    /// Every numbered variant up to the limit was taken.
    Exhausted,
}

impl SlugSearch {
    pub closed spec fn base_view(&self) -> Seq<char> {
        self.base@
    }

    pub closed spec fn first_view(&self) -> nat {
        self.first as nat
    }

    pub closed spec fn limit_view(&self) -> nat {
        self.limit as nat
    }

    pub closed spec fn tries_view(&self) -> nat {
        self.tries as nat
    }

    /// The candidate this state asks about.
    pub closed spec fn current(&self) -> Seq<char> {
        self.candidate@
    }

    pub closed spec fn wf(&self) -> bool {
        &&& self.candidate@ == slug_candidate(self.base@, self.first as nat, self.tries as nat)
        &&& self.first + self.tries <= self.limit
    }

    /// Start a search at `base`, numbering from `first` up to `limit`.
    pub fn new(base: &str, first: u32, limit: u32) -> (r: SlugSearch)
        requires
            first <= limit,
        ensures
            r.wf(),
            r.base_view() == base@,
            r.first_view() == first,
            r.limit_view() == limit,
            r.tries_view() == 0,
            r.current() == base@,
    {
        let b = chars_of(base);
        let c = chars_of(base);
        SlugSearch { base: b, first, limit, tries: 0, candidate: c }
    }

    /// The candidate to check next.
    pub fn candidate(&self) -> (r: String)
        ensures
            r@ == self.current(),
    {
        string_of(&self.candidate)
    }

    /// Advance the search with the answer for the current candidate.
    pub fn step(self, taken: bool) -> (r: SlugStep)
        requires
            self.wf(),
        ensures
            !taken ==> (r matches SlugStep::Found(s) && s@ == self.current()),
            taken && self.first_view() + self.tries_view() + 1 > self.limit_view() ==> r
                is Exhausted,
            taken && self.first_view() + self.tries_view() + 1 <= self.limit_view() ==> (r matches SlugStep::Next(n)
                && n.wf() && n.base_view() == self.base_view() && n.first_view()
                == self.first_view() && n.limit_view() == self.limit_view() && n.tries_view()
                == self.tries_view() + 1),
    {
        if !taken {
            return SlugStep::Found(string_of(&self.candidate));
        }
        let counter = self.first + self.tries;
        if counter as u64 + 1 > self.limit as u64 {
            return SlugStep::Exhausted;
        }
        let mut next: Vec<char> = Vec::new();
        append_all(&mut next, &self.base);
        next.push('-');
        push_decimal(&mut next, counter as u64);
        proof {
            assert(next@ =~= slug_candidate(
                self.base@,
                self.first as nat,
                (self.tries + 1) as nat,
            ));
        }
        SlugStep::Next(
            SlugSearch {
                base: self.base,
                first: self.first,
                limit: self.limit,
                tries: self.tries + 1,
                candidate: next,
            },
        )
    }
}

/// One step keeps the outcome of the search: a free candidate is the outcome,
/// exhaustion means no outcome, and the next state has the same outcome.
pub proof fn lemma_step_keeps_outcome(
    s: SlugSearch,
    taken: spec_fn(Seq<char>) -> bool,
)
    requires
        s.wf(),
    ensures
        !taken(s.current()) ==> search_outcome(
            s.base_view(),
            s.first_view(),
            s.limit_view(),
            s.tries_view(),
            taken,
        ) == Some(s.current()),
        taken(s.current()) && s.first_view() + s.tries_view() + 1 > s.limit_view()
            ==> search_outcome(
            s.base_view(),
            s.first_view(),
            s.limit_view(),
            s.tries_view(),
            taken,
        ) is None,
        taken(s.current()) && s.first_view() + s.tries_view() + 1 <= s.limit_view()
            ==> search_outcome(
            s.base_view(),
            s.first_view(),
            s.limit_view(),
            s.tries_view(),
            taken,
        ) == search_outcome(
            s.base_view(),
            s.first_view(),
            s.limit_view(),
            s.tries_view() + 1,
            taken,
        ),
{
    assert(s.current() == slug_candidate(s.base_view(), s.first_view(), s.tries_view()));
}

/// A search ends with the first free candidate, and with no slug only when
/// every candidate up to the limit is taken.
pub proof fn lemma_search_outcome_first_free(
    base: Seq<char>,
    first: nat,
    limit: nat,
    tries: nat,
    taken: spec_fn(Seq<char>) -> bool,
)
    requires
        first + tries <= limit,
    ensures
        search_outcome(base, first, limit, tries, taken) matches Some(c) ==> exists|k: nat|
            tries <= k <= limit - first && c == slug_candidate(base, first, k) && !taken(c)
                && forall|j: nat|
                tries <= j < k ==> #[trigger] taken(slug_candidate(base, first, j)),
        search_outcome(base, first, limit, tries, taken) is None ==> forall|j: nat|
            tries <= j <= limit - first ==> #[trigger] taken(slug_candidate(base, first, j)),
    decreases limit + 1 - (first + tries),
{
    let c = slug_candidate(base, first, tries);
    if !taken(c) {
        assert(tries <= tries <= limit - first && c == slug_candidate(base, first, tries));
    } else if first + tries + 1 > limit {
        assert forall|j: nat| tries <= j <= limit - first implies #[trigger] taken(
            slug_candidate(base, first, j),
        ) by {
            assert(j == tries);
        }
    } else {
        lemma_search_outcome_first_free(base, first, limit, tries + 1, taken);
        if let Some(c2) = search_outcome(base, first, limit, tries + 1, taken) {
            let k = choose|k: nat|
                tries + 1 <= k <= limit - first && c2 == slug_candidate(base, first, k) && !taken(
                    c2,
                ) && forall|j: nat|
                    tries + 1 <= j < k ==> #[trigger] taken(slug_candidate(base, first, j));
            assert forall|j: nat| tries <= j < k implies #[trigger] taken(
                slug_candidate(base, first, j),
            ) by {
                if j == tries {
                } else {
                }
            }
        } else {
            assert forall|j: nat| tries <= j <= limit - first implies #[trigger] taken(
                slug_candidate(base, first, j),
            ) by {
                if j == tries {
                } else {
                }
            }
        }
    }
}

/// Numbering of the search for a registration slug: `-1` to `-998`.
pub const REGISTRATION_FIRST_SUFFIX: u32 = 1;
pub const REGISTRATION_SUFFIX_LIMIT: u32 = 999;

/// Begin generating a unique slug from a display name for registration.
///
/// Fails when no ASCII letter or digit survives the filtering; otherwise the
/// returned search starts at the derived slug and numbers collisions from 1.
pub fn generate_slug(display_name: &str) -> (r: Result<SlugSearch, SlugError>)
    ensures
        r is Err <==> !usable_base(display_name_slug(display_name@)),
        r is Err ==> r == Err::<SlugSearch, SlugError>(SlugError::NoLetterOrNumber),
        r matches Ok(s) ==> s.wf() && s.base_view() == display_name_slug(display_name@)
            && s.first_view() == 1 && s.limit_view() == 999 && s.tries_view() == 0,
{
    let base = generate_slug_from_display_name(display_name);
    match check_base_slug(base.as_str()) {
        Err(e) => Err(e),
        Ok(()) => Ok(
            SlugSearch::new(base.as_str(), REGISTRATION_FIRST_SUFFIX, REGISTRATION_SUFFIX_LIMIT),
        ),
    }
}

/// Begin making an OAuth user's slug unique: numbering collisions from 1,
/// giving up once the counter passes 1000.
pub fn ensure_unique_slug(base_slug: &str) -> (r: SlugSearch)
    ensures
        r.wf() && r.base_view() == base_slug@ && r.first_view() == 1 && r.limit_view() == 1000
            && r.tries_view() == 0,
{
    SlugSearch::new(base_slug, 1, 1000)
}

} // verus!
