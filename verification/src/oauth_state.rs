//! The OAuth `state` parameter: a CSRF token, optionally followed by `|` and
//! the base64 encoding of an internal redirect path.

use base64::Engine;
use vstd::prelude::*;
use vstd::string::*;
use vstd::utf8::*;

use crate::text::{append_all, chars_of, find, find_at, lemma_find, occurs_at, slice_of, string_of};

verus! {

// ---------------------------------------------------------------------------
// Outside calls
// ---------------------------------------------------------------------------

/// What base64 (standard alphabet, padded) decoding gives for a string, or
/// `None` when the string is not valid base64.
pub uninterp spec fn base64_standard_decode(s: Seq<char>) -> Option<Seq<u8>>;

/// The base64 (standard alphabet, padded) encoding of a byte sequence.
pub uninterp spec fn base64_standard_encode(bytes: Seq<u8>) -> Seq<char>;

/// `base64::engine::general_purpose::STANDARD.encode`: the result is named by
/// `base64_standard_encode`, and decoding it gives the bytes back.
#[verifier::external_body]
fn base64_encode(bytes: &[u8]) -> (r: String)
    ensures
        r@ == base64_standard_encode(bytes@),
        base64_standard_decode(r@) == Some(bytes@),
{
    base64::engine::general_purpose::STANDARD.encode(bytes)
}

/// `base64::engine::general_purpose::STANDARD.decode`: the result is named by
/// `base64_standard_decode`; a decode error becomes `None`. The engine
/// requires canonical padding and no trailing bits, so only the canonical
/// encoding of the decoded bytes decodes.
#[verifier::external_body]
fn base64_decode(s: &str) -> (r: Option<Vec<u8>>)
    ensures
        r matches Some(v) ==> base64_standard_decode(s@) == Some(v@)
            && base64_standard_encode(v@) == s@,
        r is None ==> base64_standard_decode(s@) is None,
{
    base64::engine::general_purpose::STANDARD.decode(s).ok()
}

/// `String::from_utf8`: `Some` exactly for valid UTF-8, with the decoded text.
#[verifier::external_body]
fn utf8_string(bytes: Vec<u8>) -> (r: Option<String>)
    ensures
        r matches Some(s) ==> valid_utf8(bytes@) && s@ == decode_utf8(bytes@),
        r is None ==> !valid_utf8(bytes@),
{
    String::from_utf8(bytes).ok()
}

// ---------------------------------------------------------------------------
// Redirect paths
// ---------------------------------------------------------------------------

/// An internal redirect: starts with `/` but not with `//`.
pub open spec fn is_internal_redirect(url: Seq<char>) -> bool {
    &&& url.len() > 0
    &&& url[0] == '/'
    &&& !(url.len() >= 2 && url[1] == '/')
}

/// Validate a redirect URL: only internal redirects are allowed.
pub fn validate_redirect_url(url: &str) -> (r: bool)
    ensures
        r == is_internal_redirect(url@),
{
    let s = chars_of(url);
    if s.len() == 0 {
        return false;
    }
    if s[0] != '/' {
        return false;
    }
    if s.len() >= 2 && s[1] == '/' {
        return false;
    }
    true
}

// ---------------------------------------------------------------------------
// Parsing and building the state
// ---------------------------------------------------------------------------

/// The redirect carried by an encoded part, if it decodes to UTF-8 text that
/// is an internal redirect.
pub open spec fn decoded_redirect(encoded: Seq<char>) -> Option<Seq<char>> {
    match base64_standard_decode(encoded) {
        Some(bytes) => if valid_utf8(bytes) && is_internal_redirect(decode_utf8(bytes)) {
            Some(decode_utf8(bytes))
        } else {
            None
        },
        None => None,
    }
}

/// The CSRF token and optional redirect of a state parameter: split at the
/// first `|`; without one the whole state is the token.
pub open spec fn parsed_state(state: Seq<char>) -> (Seq<char>, Option<Seq<char>>) {
    match find(state, seq!['|']) {
        None => (state, None),
        Some(i) => (state.take(i), decoded_redirect(state.skip(i + 1))),
    }
}

/// Parse an OAuth state parameter into its CSRF token and optional redirect URL.
pub fn parse_state_parameter(state: &str) -> (r: (String, Option<String>))
    ensures
        r.0@ == parsed_state(state@).0,
        r.1 matches Some(u) ==> parsed_state(state@).1 == Some(u@),
        r.1 is None ==> parsed_state(state@).1 is None,
        r.1 matches Some(u) ==> state@ == state_with_redirect(r.0@, u@),
{
    let s = chars_of(state);
    let bar: Vec<char> = vec!['|'];
    assert(bar@ =~= seq!['|']);
    match find_at(&s, &bar, 0) {
        None => (string_of(&s), None),
        Some(i) => {
            proof {
                lemma_find(s@, seq!['|']);
            }
            let csrf = slice_of(&s, 0, i);
            let encoded = slice_of(&s, i + 1, s.len());
            proof {
                assert(s@.take(i as int) =~= csrf@);
                assert(s@.skip(i + 1) =~= encoded@);
            }
            let encoded_s = string_of(&encoded);
            let redirect = match base64_decode(encoded_s.as_str()) {
                None => None,
                Some(bytes) => {
                    let ghost b = bytes@;
                    match utf8_string(bytes) {
                        None => None,
                        Some(text) => if validate_redirect_url(text.as_str()) {
                            proof {
                                decode_utf8_encode_utf8(b);
                                assert(s@ =~= csrf@ + seq!['|'] + encoded@);
                            }
                            Some(text)
                        } else {
                            None
                        },
                    }
                },
            };
            (string_of(&csrf), redirect)
        },
    }
}

/// A redirect taken from a state parameter is always internal: a state can
/// never send the user to another site.
pub proof fn lemma_parsed_redirect_is_internal(state: Seq<char>)
    ensures
        parsed_state(state).1 matches Some(u) ==> is_internal_redirect(u),
{
}

/// The state that carries `redirect` after the CSRF token.
pub open spec fn state_with_redirect(csrf: Seq<char>, redirect: Seq<char>) -> Seq<char> {
    csrf + seq!['|'] + base64_standard_encode(encode_utf8(redirect))
}

/// Build the state for an authorization request: with an internal redirect the
/// state is `{csrf}|{base64(redirect)}`; otherwise there is no custom state.
///
/// Parsing the built state gives back the token and the redirect when the
/// token holds no `|`.
pub fn build_state_parameter(csrf: &str, redirect: Option<String>) -> (r: Option<String>)
    ensures
        r matches Some(st) ==> (redirect matches Some(u) && is_internal_redirect(u@) && st@
            == state_with_redirect(csrf@, u@)),
        r is None ==> (redirect matches Some(u) ==> !is_internal_redirect(u@)),
        r matches Some(st) ==> (!csrf@.contains('|') ==> parsed_state(st@) == (
            csrf@,
            Some(redirect->0@),
        )),
{
    match redirect {
        None => None,
        Some(u) => {
            if !validate_redirect_url(u.as_str()) {
                return None;
            }
            let us = u.as_str();
            let bytes = us.as_bytes();
            proof {
                assert(us.spec_bytes() == encode_utf8(us@));
            }
            let enc = base64_encode(bytes);
            let mut out = chars_of(csrf);
            out.push('|');
            let enc_chars = chars_of(enc.as_str());
            append_all(&mut out, &enc_chars);
            proof {
                let st = out@;
                assert(st =~= state_with_redirect(csrf@, u@));
                if !csrf@.contains('|') {
                    let n = csrf@.len() as int;
                    lemma_find(st, seq!['|']);
                    assert(st.subrange(n, n + 1) =~= seq!['|']);
                    assert(occurs_at(st, seq!['|'], n));
                    assert forall|j: int| 0 <= j < n implies !occurs_at(st, seq!['|'], j) by {
                        if occurs_at(st, seq!['|'], j) {
                            assert(st.subrange(j, j + 1)[0] == st[j]);
                            assert(st[j] == csrf@[j]);
                        }
                    }
                    assert(find(st, seq!['|']) == Some(n));
                    assert(st.take(n) =~= csrf@);
                    assert(st.skip(n + 1) =~= enc@);
                    encode_utf8_valid_utf8(u@);
                    encode_utf8_decode_utf8(u@);
                }
            }
            Some(string_of(&out))
        },
    }
}

/// The key under which the PKCE verifier is stored: the custom state when
/// there is one, otherwise the plain CSRF token.
pub fn pkce_storage_key(custom_state: Option<String>, csrf_token: &str) -> (r: String)
    ensures
        custom_state matches Some(s) ==> r@ == s@,
        custom_state is None ==> r@ == csrf_token@,
{
    match custom_state {
        Some(s) => s,
        None => csrf_token.to_owned(),
    }
}

} // verus!
