//! Two-stage decoding of OIDC authorization requests.
//!
//! Stage one extracts `client_id`, `redirect_uri`, and `state`; its failures
//! render as HTTP 400, because no redirect URI has been attested yet. Stage
//! two parses everything else; its failures redirect to the (by then
//! validated) redirect URI carrying `error`, `error_description`, `state`.

use crate::codec::{all_digits, val_of, EntityId, ID_LIMIT, ID_MIN};
use crate::errors::ApiError;
use crate::query::{append_query_pair, with_query_param};
use crate::scopes::{split_spaces, views_of, Scopes};
use vstd::prelude::*;
use vstd::utf8::encode_utf8;

verus! {

/// A decoded query or form body: its `key=value` pairs, in order.
pub type QueryPairs = Vec<(String, String)>;

/// The value bound to the first occurrence of `key`, if any.
pub open spec fn first_value(q: Seq<(String, String)>, key: Seq<char>) -> Option<Seq<char>>
    decreases q.len(),
{
    if q.len() == 0 {
        None
    } else if q[0].0@ == key {
        Some(q[0].1@)
    } else {
        first_value(q.skip(1), key)
    }
}

/// Characterization: if the first `k` keys differ from `key` and position `k`
/// matches (or is the end), the first value is at `k` (or absent).
pub proof fn lemma_first_value_at(q: Seq<(String, String)>, key: Seq<char>, k: int)
    requires
        0 <= k <= q.len(),
        forall|j: int| 0 <= j < k ==> q[j].0@ != key,
        k == q.len() || q[k].0@ == key,
    ensures
        k == q.len() ==> first_value(q, key) is None,
        k < q.len() ==> first_value(q, key) == Some(q[k].1@),
    decreases q.len(),
{
    if q.len() > 0 && q[0].0@ != key {
        let t = q.skip(1);
        assert(forall|j: int| 0 <= j < t.len() ==> t[j] == q[j + 1]);
        lemma_first_value_at(t, key, k - 1);
    }
}

/// Look the first value for `key` up.
pub fn lookup<'a>(q: &'a QueryPairs, key: &str) -> (r: Option<&'a String>)
    ensures
        r matches Some(v) ==> first_value(q@, key@) == Some(v@),
        r is None ==> first_value(q@, key@) is None,
{
    let key_owned = String::from_str(key);
    let n = q.len();
    let mut i: usize = 0;
    while i < n
        invariant
            i <= n,
            n == q@.len(),
            key_owned@ == key@,
            forall|j: int| 0 <= j < i ==> q@[j].0@ != key@,
        decreases n - i,
    {
        if q[i].0 == key_owned {
            proof {
                lemma_first_value_at(q@, key@, i as int);
            }
            return Some(&q[i].1);
        }
        i = i + 1;
    }
    proof {
        lemma_first_value_at(q@, key@, n as int);
    }
    None
}

/// An ASCII letter.
pub open spec fn is_ascii_alpha(c: char) -> bool {
    (65 <= c as u32 <= 90) || (97 <= c as u32 <= 122)
}

/// A character allowed in a URL scheme after the first.
pub open spec fn is_scheme_char(c: char) -> bool {
    is_ascii_alpha(c) || (48 <= c as u32 <= 57) || c == '+' || c == '-' || c == '.'
}

/// Position `i` ends a URL scheme: a letter, then letters, digits, `+`,
/// `-`, `.`, then this colon, with at least one character after it.
pub open spec fn url_scheme_at(s: Seq<char>, i: int) -> bool {
    1 <= i < s.len() - 1 && s[i] == ':' && is_ascii_alpha(s[0]) && (forall|j: int|
        1 <= j < i ==> is_scheme_char(#[trigger] s[j]))
}

/// The shape of an absolute URL: a scheme, a colon, and at least one
/// character after it. Only such strings may name a redirect target.
pub open spec fn is_abs_url(s: Seq<char>) -> bool {
    exists|i: int| url_scheme_at(s, i)
}

/// Whether `s` has the shape of an absolute URL.
pub fn abs_url_check(s: &String) -> (r: bool)
    ensures
        r == is_abs_url(s@),
{
    let st = s.as_str();
    let n = st.unicode_len();
    let mut i: usize = 0;
    while i < n && st.get_char(i) != ':'
        invariant
            i <= n,
            n == s@.len(),
            st@ == s@,
            forall|j: int| 0 <= j < i ==> s@[j] != ':',
        decreases n - i,
    {
        i = i + 1;
    }
    if i == n {
        proof {
            if is_abs_url(s@) {
                let w = choose|w: int| url_scheme_at(s@, w);
                assert(s@[w] != ':');
            }
        }
        return false;
    }
    if i == 0 || i + 1 >= n {
        proof {
            if is_abs_url(s@) {
                let w = choose|w: int| url_scheme_at(s@, w);
                if i == 0 {
                    assert(!is_ascii_alpha(s@[0]));
                } else {
                    assert(w < i);
                    assert(s@[w] != ':');
                }
            }
        }
        return false;
    }
    let c0 = st.get_char(0);
    let v0 = c0 as u32;
    if !((65 <= v0 && v0 <= 90) || (97 <= v0 && v0 <= 122)) {
        proof {
            if is_abs_url(s@) {
                let w = choose|w: int| url_scheme_at(s@, w);
                assert(is_ascii_alpha(s@[0]));
            }
        }
        return false;
    }
    let mut j: usize = 1;
    while j < i
        invariant
            1 <= j <= i < n,
            n == s@.len(),
            st@ == s@,
            s@[i as int] == ':',
            forall|t: int| 0 <= t < i ==> s@[t] != ':',
            forall|t: int| 1 <= t < j ==> is_scheme_char(#[trigger] s@[t]),
        decreases i - j,
    {
        let c = st.get_char(j);
        let v = c as u32;
        let ok = (65 <= v && v <= 90) || (97 <= v && v <= 122) || (48 <= v && v <= 57) || v == 43
            || v == 45 || v == 46;
        if !ok {
            proof {
                assert(!is_scheme_char(s@[j as int]));
                if is_abs_url(s@) {
                    let w = choose|w: int| url_scheme_at(s@, w);
                    if w < i {
                        assert(s@[w] != ':');
                    }
                    assert(1 <= j < w);
                    assert(is_scheme_char(s@[j as int]));
                }
            }
            return false;
        }
        j = j + 1;
    }
    proof {
        assert(url_scheme_at(s@, i as int));
    }
    true
}

/// Stage one of the authorization request: the fields needed before any
/// error may be sent to the relying party.
pub struct OidcAuthRequestHead {
    pub client_id: EntityId,
    pub redirect_uri: String,
    pub state: String,
}

/// Stage one succeeds exactly when `client_id` parses as an entity id,
/// `redirect_uri` is present with the shape of an absolute URL, and `state`
/// is present.
pub open spec fn head_ok(q: Seq<(String, String)>) -> bool {
    &&& first_value(q, "client_id"@) matches Some(c) && c.len() == 8 && all_digits(c) && ID_MIN
        <= val_of(c) < ID_LIMIT
    &&& first_value(q, "redirect_uri"@) matches Some(u) && is_abs_url(u)
    &&& first_value(q, "state"@) is Some
}

/// Parse stage one. Failure is HTTP 400 problem+json: no redirect may carry
/// an error before the redirect URI has been attested.
pub fn parse_head(q: &QueryPairs) -> (r: Result<OidcAuthRequestHead, ApiError>)
    ensures
        head_ok(q@) ==> (r matches Ok(h) && ({
            &&& h.client_id.valid()
            &&& h.client_id.spec_raw() == val_of(first_value(q@, "client_id"@).unwrap())
            &&& Some(h.redirect_uri@) == first_value(q@, "redirect_uri"@)
            &&& Some(h.state@) == first_value(q@, "state"@)
        })),
        !head_ok(q@) ==> r == Err::<OidcAuthRequestHead, ApiError>(ApiError::BadRequest),
{
    let client_id_str = match lookup(q, "client_id") {
        Some(s) => s,
        None => {
            return Err(ApiError::BadRequest);
        },
    };
    let client_id = match EntityId::parse(client_id_str.as_str()) {
        Ok(id) => id,
        Err(_) => {
            return Err(ApiError::BadRequest);
        },
    };
    let redirect_uri = match lookup(q, "redirect_uri") {
        Some(s) => s.clone(),
        None => {
            return Err(ApiError::BadRequest);
        },
    };
    if !abs_url_check(&redirect_uri) {
        return Err(ApiError::BadRequest);
    }
    let state = match lookup(q, "state") {
        Some(s) => s.clone(),
        None => {
            return Err(ApiError::BadRequest);
        },
    };
    Ok(OidcAuthRequestHead { client_id, redirect_uri, state })
}

/// The fully parsed authorization request.
pub struct OidcAuthRequest {
    pub scope: Scopes,
    pub response_type: String,
    pub client_id: EntityId,
    pub redirect_uri: String,
    pub state: String,
    pub response_mode: Option<String>,
    pub nonce: Option<String>,
    pub display: Option<String>,
    pub prompt: Option<String>,
    pub max_age: Option<i64>,
    pub ui_locales: Vec<String>,
    pub id_token_hint: Option<String>,
    pub login_hint: Option<String>,
}

/// The view of an optional string.
pub open spec fn opt_view(o: Option<String>) -> Option<Seq<char>> {
    match o {
        Some(s) => Some(s@),
        None => None,
    }
}

/// Decimal digit test.
pub open spec fn is_dec_digit(c: char) -> bool {
    48 <= c as u32 <= 57
}

/// The value of a decimal digit string.
pub open spec fn dec_val(s: Seq<char>) -> int
    decreases s.len(),
{
    if s.len() == 0 {
        0
    } else {
        dec_val(s.drop_last()) * 10 + (s.last() as u32 - 48)
    }
}

pub open spec fn all_dec_digits(s: Seq<char>) -> bool {
    forall|i: int| 0 <= i < s.len() ==> is_dec_digit(s[i])
}

/// A well-formed `i64` literal: an optional minus sign, then digits, within
/// the `i64` range.
pub open spec fn valid_i64_str(s: Seq<char>) -> bool {
    if s.len() > 0 && s[0] == '-' {
        let d = s.skip(1);
        d.len() > 0 && all_dec_digits(d) && dec_val(d) <= 9223372036854775808
    } else {
        s.len() > 0 && all_dec_digits(s) && dec_val(s) <= 9223372036854775807
    }
}

/// The value a well-formed `i64` literal denotes.
pub open spec fn i64_value(s: Seq<char>) -> int {
    if s.len() > 0 && s[0] == '-' {
        -dec_val(s.skip(1))
    } else {
        dec_val(s)
    }
}

pub proof fn lemma_dec_val_nonneg(s: Seq<char>)
    requires
        all_dec_digits(s),
    ensures
        dec_val(s) >= 0,
    decreases s.len(),
{
    if s.len() > 0 {
        assert(all_dec_digits(s.drop_last()));
        lemma_dec_val_nonneg(s.drop_last());
    }
}

/// A digit string's value only grows as digits are appended.
pub proof fn lemma_dec_val_prefix(s: Seq<char>, i: int)
    requires
        all_dec_digits(s),
        0 <= i <= s.len(),
    ensures
        dec_val(s.take(i)) <= dec_val(s),
    decreases s.len() - i,
{
    if i < s.len() {
        lemma_dec_val_prefix(s, i + 1);
        assert(s.take(i + 1).drop_last() =~= s.take(i));
        assert(all_dec_digits(s.take(i)));
        lemma_dec_val_nonneg(s.take(i));
    } else {
        assert(s.take(i) =~= s);
    }
}

/// Parse a decimal `i64`, as the `max_age` parameter requires.
pub fn parse_i64(s: &str) -> (r: Result<i64, ()>)
    ensures
        valid_i64_str(s@) <==> r is Ok,
        r matches Ok(v) ==> v == i64_value(s@),
{
    let n = s.unicode_len();
    if n == 0 {
        return Err(());
    }
    let negative = s.get_char(0) == '-';
    let start: usize = if negative {
        1
    } else {
        0
    };
    if start == n {
        return Err(());
    }
    let limit: u64 = if negative {
        9223372036854775808
    } else {
        9223372036854775807
    };
    let ghost digits = if negative {
        s@.skip(1)
    } else {
        s@
    };
    let mut acc: u64 = 0;
    let mut i: usize = start;
    proof {
        assert(forall|j: int| 0 <= j < digits.len() ==> digits[j] == s@[j + start]);
        assert(digits.take(0) =~= Seq::<char>::empty());
    }
    while i < n
        invariant
            start <= i <= n,
            n == s@.len(),
            negative ==> start == 1 && s@[0] == '-' && limit == 9223372036854775808u64,
            !negative ==> start == 0 && s@[0] != '-' && limit == 9223372036854775807u64,
            digits == (if negative {
                s@.skip(1)
            } else {
                s@
            }),
            digits.len() == n - start,
            forall|j: int| 0 <= j < digits.len() ==> digits[j] == s@[j + start],
            all_dec_digits(digits.take(i - start)),
            acc == dec_val(digits.take(i - start)),
            acc <= limit,
        decreases n - i,
    {
        let c = s.get_char(i);
        let v = c as u32;
        if !(48 <= v && v <= 57) {
            proof {
                assert(digits[i - start] == s@[i as int]);
                assert(!is_dec_digit(digits[i - start]));
            }
            return Err(());
        }
        let d = (v - 48) as u64;
        proof {
            assert(digits.take(i - start + 1).drop_last() =~= digits.take(i - start));
            assert(digits.take(i - start + 1).last() == digits[i - start]);
        }
        if acc > (limit - d) / 10 {
            proof {
                assert(acc * 10 + d > limit) by (nonlinear_arith)
                    requires
                        acc > (limit - d) / 10,
                        d <= limit,
                        acc >= 0,
                ;
                assert(dec_val(digits.take(i - start + 1)) > limit);
                if valid_i64_str(s@) {
                    lemma_dec_val_prefix(digits, i - start + 1);
                }
            }
            return Err(());
        }
        proof {
            assert(acc * 10 + d <= limit) by (nonlinear_arith)
                requires
                    acc <= (limit - d) / 10,
                    d <= limit,
                    acc >= 0,
                    limit >= 10,
            ;
        }
        acc = acc * 10 + d;
        i = i + 1;
    }
    proof {
        assert(digits.take(n - start) =~= digits);
    }
    if negative {
        if acc == 9223372036854775808 {
            Ok(i64::MIN)
        } else {
            Ok(-(acc as i64))
        }
    } else {
        Ok(acc as i64)
    }
}

/// What stage two rejects, and the error description it reports: a missing
/// `scope`, a missing `response_type`, a `response_type` other than `code`
/// (the only flow this provider supports), or an unreadable `max_age`.
/// Everything else (unknown display modes, prompts, response modes, hints)
/// is carried through as text.
pub open spec fn stage_two_desc(q: Seq<(String, String)>) -> Option<Seq<char>> {
    if first_value(q, "scope"@) is None {
        Some("missing scope"@)
    } else if first_value(q, "response_type"@) is None {
        Some("missing response_type"@)
    } else if first_value(q, "response_type"@) != Some("code"@) {
        Some("unsupported response_type"@)
    } else if first_value(q, "max_age"@) matches Some(m) && !valid_i64_str(m) {
        Some("invalid max_age"@)
    } else {
        None
    }
}

/// The URL of an error redirect: the attested redirect URI carrying `error`,
/// `error_description`, and the request's `state`, in that order.
pub open spec fn error_redirect_url(
    redirect_uri: Seq<char>,
    state: Seq<char>,
    error: Seq<char>,
    desc: Seq<char>,
) -> Seq<char> {
    with_query_param(
        with_query_param(
            with_query_param(redirect_uri, "error"@, encode_utf8(error)),
            "error_description"@,
            encode_utf8(desc),
        ),
        "state"@,
        encode_utf8(state),
    )
}

/// Build the prepared error redirect.
pub fn error_redirect(redirect_uri: &String, state: &String, error: &str, desc: &str) -> (r:
    ApiError)
    ensures
        r matches ApiError::Redirect(u) && u@ == error_redirect_url(
            redirect_uri@,
            state@,
            error@,
            desc@,
        ),
{
    let step1 = append_query_pair(redirect_uri, "error", error);
    let step2 = append_query_pair(&step1, "error_description", desc);
    let step3 = append_query_pair(&step2, "state", state.as_str());
    ApiError::Redirect(step3)
}

impl OidcAuthRequestHead {
    /// Stage two: parse the remaining fields. Failure redirects to the
    /// attested redirect URI with `error=invalid_request`.
    pub fn next(self, q: &QueryPairs) -> (r: Result<OidcAuthRequest, ApiError>)
        ensures
            (stage_two_desc(q@) is None) <==> r is Ok,
            r matches Ok(full) ==> ({
                &&& full.client_id == self.client_id
                &&& full.redirect_uri@ == self.redirect_uri@
                &&& full.state@ == self.state@
                &&& full.scope.view_elems() == split_spaces(first_value(q@, "scope"@).unwrap())
                &&& Some(full.response_type@) == first_value(q@, "response_type"@)
                &&& opt_view(full.response_mode) == first_value(q@, "response_mode"@)
                &&& opt_view(full.nonce) == first_value(q@, "nonce"@)
                &&& opt_view(full.display) == first_value(q@, "display"@)
                &&& opt_view(full.prompt) == first_value(q@, "prompt"@)
                &&& (first_value(q@, "max_age"@) matches Some(m) ==> full.max_age == Some(
                    i64_value(m) as i64,
                ))
                &&& (first_value(q@, "max_age"@) is None ==> full.max_age is None)
                &&& (first_value(q@, "ui_locales"@) matches Some(l) ==> views_of(full.ui_locales@)
                    == split_spaces(l))
                &&& (first_value(q@, "ui_locales"@) is None ==> full.ui_locales@.len() == 0)
                &&& opt_view(full.id_token_hint) == first_value(q@, "id_token_hint"@)
                &&& opt_view(full.login_hint) == first_value(q@, "login_hint"@)
            }),
            r matches Err(e) ==> (e matches ApiError::Redirect(u) && u@ == error_redirect_url(
                self.redirect_uri@,
                self.state@,
                "invalid_request"@,
                stage_two_desc(q@).unwrap(),
            )),
    {
        let scope_str = match lookup(q, "scope") {
            Some(s) => s,
            None => {
                return Err(
                    error_redirect(
                        &self.redirect_uri,
                        &self.state,
                        "invalid_request",
                        "missing scope",
                    ),
                );
            },
        };
        let response_type = match lookup(q, "response_type") {
            Some(s) => s.clone(),
            None => {
                return Err(
                    error_redirect(
                        &self.redirect_uri,
                        &self.state,
                        "invalid_request",
                        "missing response_type",
                    ),
                );
            },
        };
        if !(response_type == String::from_str("code")) {
            return Err(
                error_redirect(
                    &self.redirect_uri,
                    &self.state,
                    "invalid_request",
                    "unsupported response_type",
                ),
            );
        }
        let max_age = match lookup(q, "max_age") {
            Some(m) => match parse_i64(m.as_str()) {
                Ok(v) => Some(v),
                Err(()) => {
                    return Err(
                        error_redirect(
                            &self.redirect_uri,
                            &self.state,
                            "invalid_request",
                            "invalid max_age",
                        ),
                    );
                },
            },
            None => None,
        };
        let scope = Scopes::parse(scope_str.as_str());
        let ui_locales: Vec<String> = match lookup(q, "ui_locales") {
            Some(l) => Scopes::parse(l.as_str()).0,
            None => Vec::new(),
        };
        let response_mode = clone_opt(lookup(q, "response_mode"));
        let nonce = clone_opt(lookup(q, "nonce"));
        let display = clone_opt(lookup(q, "display"));
        let prompt = clone_opt(lookup(q, "prompt"));
        let id_token_hint = clone_opt(lookup(q, "id_token_hint"));
        let login_hint = clone_opt(lookup(q, "login_hint"));
        Ok(
            OidcAuthRequest {
                scope,
                response_type,
                client_id: self.client_id,
                redirect_uri: self.redirect_uri,
                state: self.state,
                response_mode,
                nonce,
                display,
                prompt,
                max_age,
                ui_locales,
                id_token_hint,
                login_hint,
            },
        )
    }
}

/// Clone a looked-up optional value.
fn clone_opt(o: Option<&String>) -> (r: Option<String>)
    ensures
        o matches Some(s) ==> (r matches Some(c) && c@ == s@),
        o is None ==> r is None,
{
    match o {
        Some(s) => Some(s.clone()),
        None => None,
    }
}

/// The URL of a successful authorization redirect: the attested redirect URI
/// carrying `code` and the echoed `state`.
pub open spec fn success_redirect_url(
    redirect_uri: Seq<char>,
    code: Seq<char>,
    state: Seq<char>,
) -> Seq<char> {
    with_query_param(
        with_query_param(redirect_uri, "code"@, encode_utf8(code)),
        "state"@,
        encode_utf8(state),
    )
}

impl OidcAuthRequest {
    /// The redirect that delivers a fresh authorization code.
    pub fn proceed(&self, code: &String) -> (r: String)
        ensures
            r@ == success_redirect_url(self.redirect_uri@, code@, self.state@),
    {
        let step1 = append_query_pair(&self.redirect_uri, "code", code.as_str());
        append_query_pair(&step1, "state", self.state.as_str())
    }

    /// A prepared error redirect for this request.
    pub fn error(&self, error_code: &str, desc: &str) -> (r: ApiError)
        ensures
            r matches ApiError::Redirect(u) && u@ == error_redirect_url(
                self.redirect_uri@,
                self.state@,
                error_code@,
                desc@,
            ),
    {
        error_redirect(&self.redirect_uri, &self.state, error_code, desc)
    }
}

} // verus!
