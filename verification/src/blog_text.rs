//! Blog text utilities: URL slugs from titles, plain text from markdown,
//! word-boundary truncation and excerpts.

use vstd::prelude::*;
use vstd::string::*;
use vstd::utf8::*;

use crate::text::{
    alphanumeric, append_all, chars_of, find, find_at, find_from, join, join_runs, lemma_find,
    lemma_find_from_facts, lemma_join_keeps, lemma_join_separated, lemma_runs_keep,
    lemma_runs_shape, lemma_trim_keeps, occurs_at, runs, separated, all_chars,
    slice_of, string_of, to_lowercase, trim, trim_delimiters, unicode_alphanumeric,
    unicode_lowercase, Delimiter,
};

verus! {

// ---------------------------------------------------------------------------
// Slugs from titles
// ---------------------------------------------------------------------------

/// Every character that is not alphanumeric becomes a hyphen.
pub open spec fn hyphenate(s: Seq<char>) -> Seq<char> {
    s.map_values(|c: char| if unicode_alphanumeric(c) { c } else { '-' })
}

/// The slug of a title: the alphanumeric runs of the lowercased, trimmed title,
/// joined by single hyphens.
pub open spec fn title_slug(title: Seq<char>) -> Seq<char> {
    join(
        runs(hyphenate(trim(unicode_lowercase(title), Delimiter::Whitespace)), Delimiter::Hyphen),
        '-',
    )
}

/// Every property that all characters of the lowercased title have, and a
/// hyphen has too, holds of every character of its slug.
pub proof fn lemma_title_slug_keeps(title: Seq<char>, p: spec_fn(char) -> bool)
    requires
        all_chars(unicode_lowercase(title), p),
        p('-'),
    ensures
        all_chars(title_slug(title), p),
{
    let t = trim(unicode_lowercase(title), Delimiter::Whitespace);
    lemma_trim_keeps(unicode_lowercase(title), Delimiter::Whitespace, p);
    let h = hyphenate(t);
    assert forall|i: int| 0 <= i < h.len() implies p(#[trigger] h[i]) by {
        assert(p(t[i]));
    }
    lemma_runs_keep(h, Delimiter::Hyphen, p);
    lemma_join_keeps(runs(h, Delimiter::Hyphen), '-', p);
}

/// Generate a URL-friendly slug from a blog post title.
pub fn generate_slug(title: &str) -> (r: String)
    ensures
        r@ == title_slug(title@),
        forall|i: int| 0 <= i < r@.len() ==> !('A' <= #[trigger] r@[i] <= 'Z'),
        forall|i: int| 0 <= i < r@.len() ==> unicode_alphanumeric(#[trigger] r@[i]) || r@[i] == '-',
{
    let lower = to_lowercase(title);
    proof {
        lemma_title_slug_chars(title@);
        let nu = |c: char| !('A' <= c <= 'Z');
        assert forall|i: int| 0 <= i < lower@.len() implies nu(#[trigger] lower@[i]) by {}
        lemma_title_slug_keeps(title@, nu);
    }
    let chars = chars_of(lower.as_str());
    let trimmed = trim_delimiters(&chars, Delimiter::Whitespace);
    let mut mapped: Vec<char> = Vec::new();
    let mut i: usize = 0;
    while i < trimmed.len()
        invariant
            i <= trimmed.len(),
            mapped@ == hyphenate(trimmed@.take(i as int)),
        decreases trimmed.len() - i,
    {
        let c = trimmed[i];
        if alphanumeric(c) {
            mapped.push(c);
        } else {
            mapped.push('-');
        }
        proof {
            assert(hyphenate(trimmed@.take(i + 1)) =~= hyphenate(trimmed@.take(i as int)).push(
                if unicode_alphanumeric(c) {
                    c
                } else {
                    '-'
                },
            ));
        }
        i = i + 1;
    }
    proof {
        assert(trimmed@.take(trimmed.len() as int) =~= trimmed@);
    }
    let joined = join_runs(&mapped, Delimiter::Hyphen, '-');
    string_of(&joined)
}

// ---------------------------------------------------------------------------
// Markdown to plain text
// ---------------------------------------------------------------------------

pub open spec fn fence() -> Seq<char> {
    seq!['`', '`', '`']
}

/// Remove fenced code blocks: repeatedly cut from the first "```" through the
/// next "```" after it, until no such pair remains.
pub open spec fn strip_code_blocks(s: Seq<char>) -> Seq<char>
    decreases s.len(),
{
    match find(s, fence()) {
        None => s,
        Some(start) => match find_from(s, fence(), start + 3) {
            None => s,
            Some(close) => {
                proof {
                    lemma_find(s, fence());
                    lemma_find_from(s, fence(), start + 3);
                }
                strip_code_blocks(s.take(start) + s.skip(close + 3))
            },
        },
    }
}

/// Replace links by their text: repeatedly take the first `[`, the first `](`
/// at or after it and the first `)` at or after that, and keep only the text
/// between `[` and `](`; stop at the first `[` that does not start such a link.
pub open spec fn strip_links(s: Seq<char>) -> Seq<char>
    decreases s.len(),
{
    match find(s, seq!['[']) {
        None => s,
        Some(start) => match find_from(s, seq![']', '('], start) {
            None => s,
            Some(mid) => match find_from(s, seq![')'], mid) {
                None => s,
                Some(end) => {
                    proof {
                        lemma_find(s, seq!['[']);
                        lemma_find_from(s, seq![']', '('], start);
                        lemma_find_from(s, seq![')'], mid);
                        assert(s.subrange(start, start + 1)[0] == s[start]);
                        assert(s.subrange(mid, mid + 2)[0] == s[mid]);
                        assert(s.subrange(mid, mid + 2)[1] == s[mid + 1]);
                        assert(s.subrange(end, end + 1)[0] == s[end]);
                    }
                    strip_links(s.take(start) + s.subrange(start + 1, mid) + s.skip(end + 1))
                },
            },
        },
    }
}

/// Inline code and emphasis markers.
pub open spec fn is_marker(c: char) -> bool {
    c == '`' || c == '*' || c == '_'
}

/// `s` without any inline code or emphasis marker.
pub open spec fn strip_markers(s: Seq<char>) -> Seq<char>
    decreases s.len(),
{
    if s.len() == 0 {
        s
    } else if is_marker(s.last()) {
        strip_markers(s.drop_last())
    } else {
        strip_markers(s.drop_last()).push(s.last())
    }
}

/// `s` without the `#` characters that open a line (those between a line start
/// and the line's first other character).
pub open spec fn strip_heading_marks(s: Seq<char>, at_line_start: bool) -> Seq<char>
    decreases s.len(),
{
    if s.len() == 0 {
        s
    } else if at_line_start && s[0] == '#' {
        strip_heading_marks(s.drop_first(), true)
    } else {
        seq![s[0]] + strip_heading_marks(s.drop_first(), s[0] == '\n')
    }
}

/// The plain text of markdown: code blocks removed, links replaced by their
/// text, markers and heading marks removed, and the words joined by single spaces.
pub open spec fn markdown_plain_text(md: Seq<char>) -> Seq<char> {
    join(
        runs(
            strip_heading_marks(strip_markers(strip_links(strip_code_blocks(md))), true),
            Delimiter::Whitespace,
        ),
        ' ',
    )
}

pub proof fn lemma_find_from(s: Seq<char>, pat: Seq<char>, from: int)
    requires
        0 <= from,
    ensures
        find_from(s, pat, from) matches Some(i) ==> from <= i && occurs_at(s, pat, i),
{
    lemma_find_from_facts(s, pat, from);
}

fn remove_code_blocks(s: Vec<char>) -> (r: Vec<char>)
    ensures
        r@ == strip_code_blocks(s@),
{
    let fence_v: Vec<char> = vec!['`', '`', '`'];
    assert(fence_v@ =~= fence());
    let mut cur = s;
    loop
        invariant
            fence_v@ == fence(),
            strip_code_blocks(s@) == strip_code_blocks(cur@),
        decreases cur.len(),
    {
        match find_at(&cur, &fence_v, 0) {
            None => {
                return cur;
            },
            Some(start) => {
                proof {
                    lemma_find(cur@, fence());
                }
                match find_at(&cur, &fence_v, start + 3) {
                    None => {
                        return cur;
                    },
                    Some(close) => {
                        proof {
                            lemma_find_from(cur@, fence(), start + 3);
                        }
                        let mut next = slice_of(&cur, 0, start);
                        let tail = slice_of(&cur, close + 3, cur.len());
                        append_all(&mut next, &tail);
                        proof {
                            assert(cur@.take(start as int) =~= cur@.subrange(0, start as int));
                            assert(cur@.skip(close + 3) =~= cur@.subrange(
                                close + 3,
                                cur.len() as int,
                            ));
                        }
                        cur = next;
                    },
                }
            },
        }
    }
}

fn replace_links(s: Vec<char>) -> (r: Vec<char>)
    ensures
        r@ == strip_links(s@),
{
    let open_v: Vec<char> = vec!['['];
    let mid_v: Vec<char> = vec![']', '('];
    let close_v: Vec<char> = vec![')'];
    assert(open_v@ =~= seq!['[']);
    assert(mid_v@ =~= seq![']', '(']);
    assert(close_v@ =~= seq![')']);
    let mut cur = s;
    loop
        invariant
            open_v@ == seq!['['],
            mid_v@ == seq![']', '('],
            close_v@ == seq![')'],
            strip_links(s@) == strip_links(cur@),
        decreases cur.len(),
    {
        let start = match find_at(&cur, &open_v, 0) {
            None => {
                return cur;
            },
            Some(i) => i,
        };
        proof {
            lemma_find(cur@, seq!['[']);
        }
        let mid = match find_at(&cur, &mid_v, start) {
            None => {
                return cur;
            },
            Some(i) => i,
        };
        proof {
            lemma_find_from(cur@, seq![']', '('], start as int);
            assert(cur@.subrange(start as int, start + 1)[0] == cur@[start as int]);
            assert(cur@.subrange(mid as int, mid + 2)[0] == cur@[mid as int]);
        }
        let end = match find_at(&cur, &close_v, mid) {
            None => {
                return cur;
            },
            Some(i) => i,
        };
        proof {
            lemma_find_from(cur@, seq![')'], mid as int);
            assert(cur@.subrange(end as int, end + 1)[0] == cur@[end as int]);
        }
        let mut next = slice_of(&cur, 0, start);
        let text = slice_of(&cur, start + 1, mid);
        let tail = slice_of(&cur, end + 1, cur.len());
        append_all(&mut next, &text);
        append_all(&mut next, &tail);
        proof {
            assert(cur@.take(start as int) =~= cur@.subrange(0, start as int));
            assert(cur@.skip(end + 1) =~= cur@.subrange(end + 1, cur.len() as int));
        }
        cur = next;
    }
}

fn remove_markers(s: &Vec<char>) -> (r: Vec<char>)
    ensures
        r@ == strip_markers(s@),
{
    let mut out: Vec<char> = Vec::new();
    let mut i: usize = 0;
    while i < s.len()
        invariant
            i <= s.len(),
            out@ == strip_markers(s@.take(i as int)),
        decreases s.len() - i,
    {
        let c = s[i];
        proof {
            assert(s@.take(i + 1).drop_last() =~= s@.take(i as int));
        }
        if !(c == '`' || c == '*' || c == '_') {
            out.push(c);
        }
        i = i + 1;
    }
    proof {
        assert(s@.take(s.len() as int) =~= s@);
    }
    out
}

fn remove_heading_marks(s: &Vec<char>) -> (r: Vec<char>)
    ensures
        r@ == strip_heading_marks(s@, true),
{
    let mut out: Vec<char> = Vec::new();
    let mut at_start = true;
    let mut i: usize = 0;
    proof {
        assert(s@.skip(0) =~= s@);
    }
    while i < s.len()
        invariant
            i <= s.len(),
            out@ + strip_heading_marks(s@.skip(i as int), at_start) == strip_heading_marks(
                s@,
                true,
            ),
        decreases s.len() - i,
    {
        let c = s[i];
        let ghost rest = s@.skip(i as int);
        proof {
            assert(rest[0] == c);
            assert(rest.drop_first() =~= s@.skip(i + 1));
        }
        if at_start && c == '#' {
        } else {
            proof {
                assert(out@.push(c) + strip_heading_marks(s@.skip(i + 1), c == '\n') =~= out@ + (
                seq![c] + strip_heading_marks(s@.skip(i + 1), c == '\n')));
            }
            out.push(c);
            at_start = c == '\n';
        }
        i = i + 1;
    }
    proof {
        assert(s@.skip(s.len() as int) =~= Seq::<char>::empty());
        assert(out@ + Seq::<char>::empty() =~= out@);
    }
    out
}

/// Strip markdown formatting to get plain text.
pub fn strip_markdown(markdown: &str) -> (r: String)
    ensures
        r@ == markdown_plain_text(markdown@),
{
    let chars = chars_of(markdown);
    let a = remove_code_blocks(chars);
    let b = replace_links(a);
    let c = remove_markers(&b);
    let d = remove_heading_marks(&c);
    let e = join_runs(&d, Delimiter::Whitespace, ' ');
    string_of(&e)
}

// ---------------------------------------------------------------------------
// Truncation on UTF-8 byte lengths
// ---------------------------------------------------------------------------

/// Number of bytes in the UTF-8 encoding of `s`.
pub open spec fn utf8_len(s: Seq<char>) -> nat {
    encode_utf8(s).len()
}

/// Byte offset `n` falls between two characters of `s` (or at its end).
pub open spec fn is_byte_boundary(s: Seq<char>, n: int) -> bool {
    exists|k: int| 0 <= k <= s.len() && utf8_len(s.take(k)) == n
}

/// The number of characters that make up the first `n` bytes of `s`.
pub open spec fn chars_in_bytes(s: Seq<char>, n: int) -> int {
    choose|k: int| 0 <= k <= s.len() && utf8_len(s.take(k)) == n
}

/// The position of the last occurrence of `c` in `s`.
pub open spec fn rfind_char(s: Seq<char>, c: char) -> Option<int>
    decreases s.len(),
{
    if s.len() == 0 {
        None
    } else if s.last() == c {
        Some(s.len() - 1)
    } else {
        rfind_char(s.drop_last(), c)
    }
}

pub open spec fn ellipsis() -> Seq<char> {
    seq!['.', '.', '.']
}

/// `text` when it fits in `max_len` bytes; otherwise its first `max_len`
/// bytes cut back to the last space in them (if any), followed by "...".
pub open spec fn truncated(text: Seq<char>, max_len: int) -> Seq<char> {
    if utf8_len(text) <= max_len {
        text
    } else {
        let head = text.take(chars_in_bytes(text, max_len));
        match rfind_char(head, ' ') {
            Some(pos) => text.take(pos) + ellipsis(),
            None => head + ellipsis(),
        }
    }
}

proof fn lemma_encode_utf8_concat(a: Seq<char>, b: Seq<char>)
    ensures
        encode_utf8(a + b) == encode_utf8(a) + encode_utf8(b),
    decreases a.len(),
{
    if a.len() == 0 {
        assert(a + b =~= b);
        assert(encode_utf8(a) =~= Seq::<u8>::empty());
        assert(encode_utf8(b) =~= Seq::<u8>::empty() + encode_utf8(b));
    } else {
        assert((a + b).drop_first() =~= a.drop_first() + b);
        assert((a + b)[0] == a[0]);
        lemma_encode_utf8_concat(a.drop_first(), b);
        assert(encode_utf8(a + b) =~= encode_utf8(a) + encode_utf8(b));
    }
}

proof fn lemma_utf8_len_take_step(s: Seq<char>, k: int)
    requires
        0 <= k < s.len(),
    ensures
        utf8_len(s.take(k + 1)) == utf8_len(s.take(k)) + encode_scalar(s[k] as u32).len(),
        encode_scalar(s[k] as u32).len() >= 1,
{
    assert(s.take(k + 1) =~= s.take(k) + seq![s[k]]);
    lemma_encode_utf8_concat(s.take(k), seq![s[k]]);
    assert(seq![s[k]].drop_first() =~= Seq::<char>::empty());
    assert(encode_utf8(seq![s[k]]) =~= encode_scalar(s[k] as u32) + encode_utf8(
        Seq::<char>::empty(),
    ));
}

proof fn lemma_utf8_len_take_monotone(s: Seq<char>, j: int, k: int)
    requires
        0 <= j < k <= s.len(),
    ensures
        utf8_len(s.take(j)) < utf8_len(s.take(k)),
    decreases k - j,
{
    lemma_utf8_len_take_step(s, k - 1);
    if j < k - 1 {
        lemma_utf8_len_take_monotone(s, j, k - 1);
    }
}

/// Byte width of one character in UTF-8.
fn utf8_width(c: char) -> (w: usize)
    ensures
        w == encode_scalar(c as u32).len(),
{
    proof {
        char_is_scalar(c);
    }
    let v = c as u32;
    if v <= 0x7F {
        1
    } else if v <= 0x7FF {
        2
    } else if v <= 0xFFFF {
        3
    } else {
        4
    }
}

fn last_space(s: &Vec<char>, n: usize) -> (r: Option<usize>)
    requires
        n <= s.len(),
    ensures
        r matches Some(p) ==> rfind_char(s@.take(n as int), ' ') == Some(p as int),
        r is None ==> rfind_char(s@.take(n as int), ' ') is None,
{
    let mut j = n;
    while j > 0
        invariant
            j <= n <= s.len(),
            rfind_char(s@.take(n as int), ' ') == rfind_char(s@.take(j as int), ' '),
        decreases j,
    {
        proof {
            assert(s@.take(j as int).drop_last() =~= s@.take(j - 1));
            assert(s@.take(j as int).last() == s@[j - 1]);
        }
        if s[j - 1] == ' ' {
            return Some(j - 1);
        }
        j = j - 1;
    }
    None
}

/// Truncate text to at most `max_len` bytes, breaking at a word boundary and
/// appending "..." when anything was cut.
/// The number of bytes of a string's UTF-8 encoding.
fn byte_len(text: &str) -> (n: usize)
    ensures
        n == utf8_len(text@),
{
    let b = text.as_bytes();
    proof {
        assert(text.spec_bytes() == encode_utf8(text@));
    }
    b.len()
}

pub fn truncate_text(text: &str, max_len: usize) -> (r: String)
    requires
        utf8_len(text@) > max_len ==> is_byte_boundary(text@, max_len as int),
    ensures
        r@ == truncated(text@, max_len as int),
{
    let n = byte_len(text);
    if n <= max_len {
        return text.to_owned();
    }
    let chars = chars_of(text);
    let ghost s = chars@;
    let mut k: usize = 0;
    let mut bytes: usize = 0;
    assert(s.take(0) =~= Seq::<char>::empty());
    let ghost kk = chars_in_bytes(s, max_len as int);
    proof {
        if kk < 0 {
        }
    }
    while bytes < max_len
        invariant
            k <= chars.len(),
            s == chars@,
            bytes == utf8_len(s.take(k as int)),
            bytes <= max_len,
            0 <= kk <= s.len(),
            utf8_len(s.take(kk)) == max_len,
            k <= kk,
        decreases max_len - bytes,
    {
        proof {
            if k == kk {
                assert(false);
            }
            lemma_utf8_len_take_step(s, k as int);
            if k + 1 < kk {
                lemma_utf8_len_take_monotone(s, k + 1, kk);
            }
        }
        let w = utf8_width(chars[k]);
        bytes = bytes + w;
        k = k + 1;
    }
    proof {
        if k < kk {
            lemma_utf8_len_take_monotone(s, k as int, kk);
        }
    }
    assert(k == kk);
    let mut out = match last_space(&chars, k) {
        Some(pos) => {
            proof {
                lemma_rfind_bound(s.take(k as int), ' ');
                assert(s.take(k as int).take(pos as int) =~= s.take(pos as int));
            }
            slice_of(&chars, 0, pos)
        },
        None => slice_of(&chars, 0, k),
    };
    proof {
        assert(s.take(0) =~= s.subrange(0, 0));
    }
    out.push('.');
    out.push('.');
    out.push('.');
    proof {
        assert(out@ =~= truncated(text@, max_len as int));
    }
    string_of(&out)
}

proof fn lemma_rfind_bound(s: Seq<char>, c: char)
    ensures
        rfind_char(s, c) matches Some(p) ==> 0 <= p < s.len() && s[p] == c,
    decreases s.len(),
{
    if s.len() > 0 {
        lemma_rfind_bound(s.drop_last(), c);
        if s.last() != c {
            if let Some(p) = rfind_char(s.drop_last(), c) {
                assert(s.drop_last()[p] == s[p]);
            }
        }
    }
}

/// Whether `truncate_text(text, max_len)` can run: when the text is longer
/// than `max_len` bytes, byte `max_len` falls between two characters.
pub fn can_truncate(text: &str, max_len: usize) -> (r: bool)
    ensures
        r == (utf8_len(text@) > max_len ==> is_byte_boundary(text@, max_len as int)),
{
    let total = byte_len(text);
    let chars = chars_of(text);
    let ghost s = chars@;
    let mut bytes: usize = 0;
    let mut hit = max_len == 0;
    let mut i: usize = 0;
    assert(s.take(0) =~= Seq::<char>::empty());
    while i < chars.len()
        invariant
            i <= chars.len(),
            s == chars@,
            s == text@,
            total == utf8_len(s),
            bytes == utf8_len(s.take(i as int)),
            hit == (exists|k: int| 0 <= k <= i && utf8_len(s.take(k)) == max_len),
        decreases chars.len() - i,
    {
        proof {
            lemma_utf8_len_take_step(s, i as int);
        }
        let w = utf8_width(chars[i]);
        if bytes > usize::MAX - w {
            proof {
                assert(utf8_len(s.take(i + 1)) > usize::MAX);
                if i + 1 < s.len() {
                    lemma_utf8_len_take_monotone(s, i + 1, s.len() as int);
                }
                assert(s.take(s.len() as int) =~= s);
            }
            return false;
        }
        bytes = bytes + w;
        i = i + 1;
        if bytes == max_len {
            hit = true;
        }
        proof {
            if !hit {
                assert forall|k: int| 0 <= k <= i implies utf8_len(s.take(k)) != max_len by {
                    if k == i {
                    } else {
                        assert(k <= i - 1);
                    }
                }
            }
        }
    }
    proof {
        assert(s.take(s.len() as int) =~= s);
        if !hit && bytes > max_len {
            assert forall|k: int| 0 <= k <= s.len() implies utf8_len(s.take(k)) != max_len by {}
        }
    }
    bytes <= max_len || hit
}

/// Plain-text excerpt of markdown content, truncated to `max_len` bytes.
pub fn generate_excerpt(markdown: &str, max_len: usize) -> (r: String)
    requires
        utf8_len(markdown_plain_text(markdown@)) > max_len ==> is_byte_boundary(
            markdown_plain_text(markdown@),
            max_len as int,
        ),
    ensures
        r@ == truncated(markdown_plain_text(markdown@), max_len as int),
{
    let plain = strip_markdown(markdown);
    truncate_text(plain.as_str(), max_len)
}

// ---------------------------------------------------------------------------
// Laws
// ---------------------------------------------------------------------------

/// A title slug never starts or ends with a hyphen and never holds two
/// hyphens in a row: runs of non-alphanumerics collapse into one hyphen.
pub proof fn lemma_title_slug_separated(title: Seq<char>)
    ensures
        separated(title_slug(title), '-', Delimiter::Hyphen),
{
    let h = hyphenate(trim(unicode_lowercase(title), Delimiter::Whitespace));
    lemma_runs_shape(h, Delimiter::Hyphen);
    lemma_join_separated(runs(h, Delimiter::Hyphen), '-', Delimiter::Hyphen);
}

/// The plain text of markdown never starts or ends with whitespace, never
/// holds two whitespace characters in a row, and separates words by single
/// spaces.
pub proof fn lemma_plain_text_separated(md: Seq<char>)
    ensures
        separated(markdown_plain_text(md), ' ', Delimiter::Whitespace),
{
    let t = strip_heading_marks(strip_markers(strip_links(strip_code_blocks(md))), true);
    lemma_runs_shape(t, Delimiter::Whitespace);
    lemma_join_separated(runs(t, Delimiter::Whitespace), ' ', Delimiter::Whitespace);
}

/// Every character of a title slug is alphanumeric or a hyphen: whatever
/// else the title holds becomes a hyphen.
pub proof fn lemma_title_slug_chars(title: Seq<char>)
    ensures
        all_chars(title_slug(title), |c: char| unicode_alphanumeric(c) || c == '-'),
{
    let p = |c: char| unicode_alphanumeric(c) || c == '-';
    let h = hyphenate(trim(unicode_lowercase(title), Delimiter::Whitespace));
    assert forall|i: int| 0 <= i < h.len() implies p(#[trigger] h[i]) by {}
    lemma_runs_keep(h, Delimiter::Hyphen, p);
    lemma_join_keeps(runs(h, Delimiter::Hyphen), '-', p);
}

/// Code-block removal leaves no pair of fences behind: after the first
/// "```" of the result, no other "```" follows.
pub proof fn lemma_no_fence_pair_left(s: Seq<char>)
    ensures
        find(strip_code_blocks(s), fence()) matches Some(i) ==> find_from(
            strip_code_blocks(s),
            fence(),
            i + 3,
        ) is None,
    decreases s.len(),
{
    match find(s, fence()) {
        None => {},
        Some(start) => match find_from(s, fence(), start + 3) {
            None => {},
            Some(close) => {
                lemma_find(s, fence());
                lemma_find_from(s, fence(), start + 3);
                lemma_no_fence_pair_left(s.take(start) + s.skip(close + 3));
            },
        },
    }
}

proof fn lemma_ellipsis_len()
    ensures
        utf8_len(ellipsis()) == 3,
{
    let one: Seq<char> = seq!['.'];
    let two: Seq<char> = seq!['.', '.'];
    assert(encode_scalar('.' as u32).len() == 1);
    assert(one.drop_first() =~= Seq::<char>::empty());
    assert(one[0] == '.');
    assert(encode_utf8(one.drop_first()).len() == 0);
    assert(encode_utf8(one).len() == 1);
    assert(two.drop_first() =~= one);
    assert(two[0] == '.');
    assert(encode_utf8(two).len() == 2);
    assert(ellipsis().drop_first() =~= two);
}

/// Truncation keeps a text that fits, and otherwise gives at most `max_len`
/// bytes of it followed by "...": never more than `max_len + 3` bytes. What
/// it keeps is a prefix of the text, cut just before a space when the first
/// `max_len` bytes hold one.
pub proof fn lemma_truncated_fits(text: Seq<char>, max_len: int)
    requires
        0 <= max_len,
        utf8_len(text) > max_len ==> is_byte_boundary(text, max_len),
    ensures
        utf8_len(text) <= max_len ==> truncated(text, max_len) == text,
        utf8_len(text) > max_len ==> truncated(text, max_len).len() >= 3
            && truncated(text, max_len).subrange(
            truncated(text, max_len).len() - 3,
            truncated(text, max_len).len() as int,
        ) == ellipsis(),
        utf8_len(truncated(text, max_len)) <= max_len + 3,
        utf8_len(text) > max_len ==> ({
            let r = truncated(text, max_len);
            let kept = r.take(r.len() - 3);
            &&& kept == text.take(kept.len() as int)
            &&& (rfind_char(text.take(chars_in_bytes(text, max_len)), ' ') is Some ==> kept.len()
                < text.len() && text[kept.len() as int] == ' ')
        }),
{
    if utf8_len(text) > max_len {
        let k = chars_in_bytes(text, max_len);
        assert(0 <= k <= text.len() && utf8_len(text.take(k)) == max_len);
        let head = text.take(k);
        lemma_ellipsis_len();
        match rfind_char(head, ' ') {
            Some(pos) => {
                lemma_rfind_bound(head, ' ');
                if pos < k {
                    lemma_utf8_len_take_monotone(text, pos, k);
                }
                lemma_encode_utf8_concat(text.take(pos), ellipsis());
                let r = text.take(pos) + ellipsis();
                assert(r.subrange(r.len() - 3, r.len() as int) =~= ellipsis());
                assert(r.take(r.len() - 3) =~= text.take(pos));
                assert(head[pos] == text[pos]);
            },
            None => {
                lemma_encode_utf8_concat(head, ellipsis());
                let r = head + ellipsis();
                assert(r.subrange(r.len() - 3, r.len() as int) =~= ellipsis());
                assert(r.take(r.len() - 3) =~= head);
            },
        }
    }
}

proof fn lemma_strip_markers_clean(s: Seq<char>)
    ensures
        all_chars(strip_markers(s), |c: char| !is_marker(c)),
    decreases s.len(),
{
    if s.len() > 0 {
        lemma_strip_markers_clean(s.drop_last());
        let f = strip_markers(s.drop_last());
        if !is_marker(s.last()) {
            let g = f.push(s.last());
            assert forall|i: int| 0 <= i < g.len() implies !is_marker(#[trigger] g[i]) by {
                if i < f.len() {
                    assert(g[i] == f[i]);
                }
            }
        }
    }
}

proof fn lemma_heading_marks_keep(s: Seq<char>, at_line_start: bool, p: spec_fn(char) -> bool)
    requires
        all_chars(s, p),
    ensures
        all_chars(strip_heading_marks(s, at_line_start), p),
    decreases s.len(),
{
    if s.len() > 0 {
        let t = s.drop_first();
        assert forall|i: int| 0 <= i < t.len() implies p(#[trigger] t[i]) by {
            assert(t[i] == s[i + 1]);
        }
        assert(p(s[0]));
        if at_line_start && s[0] == '#' {
            lemma_heading_marks_keep(t, true, p);
        } else {
            lemma_heading_marks_keep(t, s[0] == '\n', p);
            let rest = strip_heading_marks(t, s[0] == '\n');
            let g = seq![s[0]] + rest;
            assert forall|i: int| 0 <= i < g.len() implies p(#[trigger] g[i]) by {
                if i > 0 {
                    assert(g[i] == rest[i - 1]);
                }
            }
        }
    }
}

/// The plain text of markdown holds no inline-code or emphasis marker
/// (`` ` ``, `*`, `_`).
pub proof fn lemma_plain_text_has_no_markers(md: Seq<char>)
    ensures
        all_chars(markdown_plain_text(md), |c: char| !is_marker(c)),
{
    let p = |c: char| !is_marker(c);
    let m = strip_markers(strip_links(strip_code_blocks(md)));
    lemma_strip_markers_clean(strip_links(strip_code_blocks(md)));
    lemma_heading_marks_keep(m, true, p);
    let t = strip_heading_marks(m, true);
    lemma_runs_keep(t, Delimiter::Whitespace, p);
    lemma_join_keeps(runs(t, Delimiter::Whitespace), ' ', p);
}

} // verus!
