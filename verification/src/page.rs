//! A response as plain values: status, headers in order, and body.
use vstd::prelude::*;

verus! {

/// A response the shop serves: status code, headers in the order they are
/// sent, and the body.
pub struct Page {
    pub status: u16,
    pub headers: Vec<(String, String)>,
    pub body: String,
}

/// The mathematical model of a [`Page`].
pub struct PageView {
    pub status: u16,
    pub headers: Seq<(Seq<char>, Seq<char>)>,
    pub body: Seq<char>,
}

impl View for Page {
    type V = PageView;

    open spec fn view(&self) -> PageView {
        PageView { status: self.status, headers: self.headers.deep_view(), body: self.body@ }
    }
}

pub const CONTENT_TYPE: &'static str = "content-type";
pub const CACHE_CONTROL: &'static str = "cache-control";
pub const ALLOW_ORIGIN: &'static str = "access-control-allow-origin";
pub const HTML_TYPE: &'static str = "text/html; charset=utf-8";
pub const NO_STORE: &'static str = "no-store, must-revalidate";
pub const ANY_ORIGIN: &'static str = "*";

/// A header as a pair of character sequences.
pub open spec fn hdr(name: &str, value: &str) -> (Seq<char>, Seq<char>) {
    (name@, value@)
}

/// Some header in `hs` is named `name`.
pub open spec fn has_header(hs: Seq<(Seq<char>, Seq<char>)>, name: Seq<char>) -> bool {
    exists|i: int| 0 <= i < hs.len() && #[trigger] hs[i].0 == name
}

/// The headers every HTML document carries, before any extra ones.
pub open spec fn html_base_headers() -> Seq<(Seq<char>, Seq<char>)> {
    seq![hdr(CONTENT_TYPE, HTML_TYPE), hdr(CACHE_CONTROL, NO_STORE)]
}

/// A character HTTP allows in a header name (a token character).
pub open spec fn is_token_char(c: char) -> bool {
    ||| ('a' <= c && c <= 'z')
    ||| ('A' <= c && c <= 'Z')
    ||| ('0' <= c && c <= '9')
    ||| c == '!' || c == '#' || c == '$' || c == '%' || c == '&' || c == '\''
    ||| c == '*' || c == '+' || c == '-' || c == '.' || c == '^' || c == '_'
    ||| c == '`' || c == '|' || c == '~'
}

/// A name HTTP accepts for a header: one to 65535 token characters.
pub open spec fn is_header_name(s: Seq<char>) -> bool {
    0 < s.len() <= 65535 && forall|i: int| 0 <= i < s.len() ==> #[trigger] is_token_char(s[i])
}

/// A character HTTP allows in a header value: a tab, or anything from the
/// space upward but the delete character.
pub open spec fn is_value_char(c: char) -> bool {
    c == '\t' || (' ' <= c && c != '\x7f')
}

/// A value HTTP accepts for a header.
pub open spec fn is_header_value(s: Seq<char>) -> bool {
    forall|i: int| 0 <= i < s.len() ==> #[trigger] is_value_char(s[i])
}

/// A header HTTP accepts, name and value.
pub open spec fn is_header(h: (Seq<char>, Seq<char>)) -> bool {
    is_header_name(h.0) && is_header_value(h.1)
}

/// `c` in lower case where it is an ASCII capital; otherwise `c` itself.
pub open spec fn lower_char(c: char) -> char {
    if 'A' <= c && c <= 'Z' {
        ((c as u32) + 32) as char
    } else {
        c
    }
}

/// `s` with its ASCII capitals in lower case.
pub open spec fn lower_ascii(s: Seq<char>) -> Seq<char> {
    s.map_values(|c: char| lower_char(c))
}

/// `s` holds no ASCII capital.
pub open spec fn has_no_upper(s: Seq<char>) -> bool {
    forall|i: int| 0 <= i < s.len() ==> !('A' <= #[trigger] s[i] && s[i] <= 'Z')
}

/// A header as HTTP keeps it: its name in lower case, its value as given.
pub open spec fn normalized(h: (Seq<char>, Seq<char>)) -> (Seq<char>, Seq<char>) {
    (lower_ascii(h.0), h.1)
}

/// The headers of `hs` that HTTP accepts, in their order, each as HTTP keeps
/// it.
pub open spec fn acceptable_headers(hs: Seq<(Seq<char>, Seq<char>)>) -> Seq<(Seq<char>, Seq<char>)>
    decreases hs.len(),
{
    if hs.len() == 0 {
        Seq::empty()
    } else if is_header(hs.last()) {
        acceptable_headers(hs.drop_last()).push(normalized(hs.last()))
    } else {
        acceptable_headers(hs.drop_last())
    }
}

/// A name without capitals is its own lower case.
pub proof fn lemma_lower_identity(s: Seq<char>)
    requires
        has_no_upper(s),
    ensures
        lower_ascii(s) == s,
{
    assert(lower_ascii(s) =~= s);
}

/// Lowering keeps a name acceptable and leaves no capital in it.
pub proof fn lemma_lower_name(s: Seq<char>)
    requires
        is_header_name(s),
    ensures
        is_header_name(lower_ascii(s)),
        has_no_upper(lower_ascii(s)),
{
    let l = lower_ascii(s);
    assert forall|i: int| 0 <= i < l.len() implies #[trigger] is_token_char(l[i]) by {
        assert(is_token_char(s[i]));
        assert(l[i] == lower_char(s[i]));
    }
    assert forall|i: int| 0 <= i < l.len() implies !('A' <= #[trigger] l[i] && l[i] <= 'Z') by {
        assert(l[i] == lower_char(s[i]));
    }
}

/// A value made of two acceptable values is acceptable, and only then.
pub proof fn lemma_value_concat(a: Seq<char>, b: Seq<char>)
    ensures
        is_header_value(a + b) <==> (is_header_value(a) && is_header_value(b)),
{
    if is_header_value(a + b) {
        assert forall|i: int| 0 <= i < a.len() implies #[trigger] is_value_char(a[i]) by {
            assert((a + b)[i] == a[i]);
        }
        assert forall|i: int| 0 <= i < b.len() implies #[trigger] is_value_char(b[i]) by {
            assert((a + b)[a.len() + i] == b[i]);
        }
    }
    if is_header_value(a) && is_header_value(b) {
        assert forall|i: int| 0 <= i < (a + b).len() implies #[trigger] is_value_char((a + b)[i]) by {
            if i < a.len() {
                assert((a + b)[i] == a[i]);
            } else {
                assert((a + b)[i] == b[i - a.len()]);
            }
        }
    }
}

/// When HTTP accepts every header of `hs` and no name holds a capital, none
/// is left out or changed.
pub proof fn lemma_all_acceptable(hs: Seq<(Seq<char>, Seq<char>)>)
    requires
        forall|i: int| 0 <= i < hs.len() ==> #[trigger] is_header(hs[i]) && has_no_upper(hs[i].0),
    ensures
        acceptable_headers(hs) == hs,
    decreases hs.len(),
{
    if hs.len() > 0 {
        assert forall|i: int| 0 <= i < hs.drop_last().len() implies #[trigger] is_header(hs.drop_last()[i])
            && has_no_upper(hs.drop_last()[i].0) by {
            assert(hs.drop_last()[i] == hs[i]);
        }
        lemma_all_acceptable(hs.drop_last());
        assert(hs.last() == hs[hs.len() - 1]);
        assert(is_header(hs[hs.len() - 1]));
        lemma_lower_identity(hs.last().0);
        assert(hs.drop_last().push(hs.last()) =~= hs);
    }
}

/// `h` is, as HTTP keeps it, some header of `hs` that HTTP accepts.
pub open spec fn kept_from(hs: Seq<(Seq<char>, Seq<char>)>, h: (Seq<char>, Seq<char>)) -> bool {
    exists|i: int| 0 <= i < hs.len() && is_header(hs[i]) && #[trigger] normalized(hs[i]) == h
}

/// Every header kept is one of `hs` as HTTP keeps it, and every header of
/// `hs` that HTTP accepts is kept so.
pub proof fn lemma_acceptable_members(hs: Seq<(Seq<char>, Seq<char>)>)
    ensures
        forall|j: int| 0 <= j < acceptable_headers(hs).len() ==> kept_from(hs, #[trigger] acceptable_headers(hs)[j]),
        forall|i: int| 0 <= i < hs.len() && is_header(hs[i]) ==> acceptable_headers(hs).contains(
            normalized(#[trigger] hs[i]),
        ),
    decreases hs.len(),
{
    if hs.len() > 0 {
        let init = hs.drop_last();
        lemma_acceptable_members(init);
        let r = acceptable_headers(hs);
        let ri = acceptable_headers(init);
        let n = hs.len() - 1;
        assert(hs[n] == hs.last());
        assert forall|j: int| 0 <= j < r.len() implies kept_from(hs, #[trigger] r[j]) by {
            if j < ri.len() {
                assert(r[j] == ri[j]);
                assert(kept_from(init, ri[j]));
                let k = choose|k: int| 0 <= k < init.len() && is_header(init[k]) && #[trigger] normalized(init[k]) == ri[j];
                assert(hs[k] == init[k]);
                assert(normalized(hs[k]) == r[j]);
            } else {
                assert(is_header(hs.last()));
                assert(r[j] == normalized(hs[n]));
            }
        }
        assert forall|i: int| 0 <= i < hs.len() && is_header(hs[i]) implies r.contains(normalized(#[trigger] hs[i])) by {
            if i < init.len() {
                assert(hs[i] == init[i]);
                let k = choose|k: int| 0 <= k < ri.len() && ri[k] == normalized(init[i]);
                assert(r[k] == ri[k]);
            } else {
                assert(r[r.len() - 1] == normalized(hs[n]));
            }
        }
    }
}

/// Two header lists that agree, index for index, in names, in whether HTTP
/// accepts them, and in values but where the name in lower case is
/// `except`, keep lists that agree in names and, but where the kept name is
/// `except`, in values.
pub proof fn lemma_acceptable_pointwise(
    h1: Seq<(Seq<char>, Seq<char>)>,
    h2: Seq<(Seq<char>, Seq<char>)>,
    except: Seq<char>,
)
    requires
        h1.len() == h2.len(),
        forall|i: int| 0 <= i < h1.len() ==> #[trigger] h1[i].0 == h2[i].0,
        forall|i: int| 0 <= i < h1.len() ==> #[trigger] is_header(h1[i]) == is_header(h2[i]),
        forall|i: int| 0 <= i < h1.len() && lower_ascii(#[trigger] h1[i].0) != except ==> h1[i] == h2[i],
    ensures
        acceptable_headers(h1).len() == acceptable_headers(h2).len(),
        forall|j: int| 0 <= j < acceptable_headers(h1).len() ==> #[trigger] acceptable_headers(h1)[j].0
            == acceptable_headers(h2)[j].0,
        forall|j: int| 0 <= j < acceptable_headers(h1).len() && #[trigger] acceptable_headers(h1)[j].0 != except
            ==> acceptable_headers(h1)[j] == acceptable_headers(h2)[j],
    decreases h1.len(),
{
    if h1.len() > 0 {
        let i1 = h1.drop_last();
        let i2 = h2.drop_last();
        assert forall|i: int| 0 <= i < i1.len() implies #[trigger] i1[i].0 == i2[i].0 by {
            assert(i1[i] == h1[i] && i2[i] == h2[i]);
        }
        assert forall|i: int| 0 <= i < i1.len() implies #[trigger] is_header(i1[i]) == is_header(i2[i]) by {
            assert(i1[i] == h1[i] && i2[i] == h2[i]);
        }
        assert forall|i: int| 0 <= i < i1.len() && lower_ascii(#[trigger] i1[i].0) != except implies i1[i] == i2[i] by {
            assert(i1[i] == h1[i] && i2[i] == h2[i]);
        }
        lemma_acceptable_pointwise(i1, i2, except);
        let n = h1.len() - 1;
        assert(h1.last() == h1[n] && h2.last() == h2[n]);
        let a1 = acceptable_headers(h1);
        let a2 = acceptable_headers(h2);
        let r1 = acceptable_headers(i1);
        let r2 = acceptable_headers(i2);
        assert forall|j: int| 0 <= j < a1.len() implies #[trigger] a1[j].0 == a2[j].0 by {
            if j < r1.len() {
                assert(a1[j] == r1[j] && a2[j] == r2[j]);
            }
        }
        assert forall|j: int| 0 <= j < a1.len() && #[trigger] a1[j].0 != except implies a1[j] == a2[j] by {
            if j < r1.len() {
                assert(a1[j] == r1[j] && a2[j] == r2[j]);
            }
        }
    }
}

/// An HTML document: status 200, `text/html`, never cached, then those of
/// `extra` that HTTP accepts, in order, their names in lower case.
pub open spec fn html_view(body: Seq<char>, extra: Seq<(Seq<char>, Seq<char>)>) -> PageView {
    PageView { status: 200, headers: html_base_headers() + acceptable_headers(extra), body }
}

/// Calls `http::HeaderName::from_bytes` (as axum re-exports it) on the
/// name's UTF-8 bytes and gives back the name it made, through `as_str`, or
/// `None` where it refused. Its source accepts one to 65535 bytes, each one
/// its table maps to a token character; every byte of a non-ASCII character
/// maps to none, so this is the same as one to 65535 token characters. The
/// same table turns ASCII capitals into lower case and keeps every other
/// token character, and `as_str` gives those bytes back.
#[verifier::external_body]
fn normalized_header_name(name: &str) -> (r: Option<String>)
    ensures
        r is Some <==> is_header_name(name@),
        r matches Some(n) ==> n@ == lower_ascii(name@),
{
    match axum::http::HeaderName::from_bytes(name.as_bytes()) {
        Ok(n) => Some(n.as_str().to_string()),
        Err(_) => None,
    }
}

/// Calls `http::HeaderValue::from_str` (as axum re-exports it) and reports
/// whether it accepted the value. Its source accepts exactly the byte
/// strings whose every byte is a tab, or at least a space and not the delete
/// byte; every byte of a non-ASCII character is such a byte.
#[verifier::external_body]
fn accepts_header_value(value: &str) -> (r: bool)
    ensures
        r == is_header_value(value@),
{
    axum::http::HeaderValue::from_str(value).is_ok()
}

/// A static asset: status 200, the given content type, never cached, and
/// readable from any origin.
pub open spec fn asset_view(content_type: Seq<char>, body: Seq<char>) -> PageView {
    PageView {
        status: 200,
        headers: seq![
            (CONTENT_TYPE@, content_type),
            hdr(CACHE_CONTROL, NO_STORE),
            hdr(ALLOW_ORIGIN, ANY_ORIGIN),
        ],
        body,
    }
}

/// A header pair built from two string slices.
pub fn header(name: &str, value: &str) -> (r: (String, String))
    ensures
        r.deep_view() == (name@, value@),
{
    (String::from_str(name), String::from_str(value))
}

/// Wraps `body` as an HTML document, with those `extra` headers that HTTP
/// accepts after the standard two, their names in lower case as HTTP keeps
/// them; the others are left out.
pub fn html(body: String, extra: Vec<(String, String)>) -> (r: Page)
    ensures
        r@ == html_view(body@, extra.deep_view()),
{
    let mut headers: Vec<(String, String)> = Vec::new();
    headers.push(header(CONTENT_TYPE, HTML_TYPE));
    headers.push(header(CACHE_CONTROL, NO_STORE));
    let ghost all = extra.deep_view();
    let mut i: usize = 0;
    while i < extra.len()
        invariant
            i <= extra.len(),
            all == extra.deep_view(),
            headers.deep_view() =~= html_base_headers() + acceptable_headers(all.take(i as int)),
        decreases extra.len() - i,
    {
        let (name, value) = &extra[i];
        assert(all.take(i + 1).drop_last() =~= all.take(i as int));
        assert(all.take(i + 1).last() == (name@, value@));
        let ghost before = headers.deep_view();
        let ghost next = all.take(i + 1);
        assert(acceptable_headers(next) == if is_header(next.last()) {
            acceptable_headers(next.drop_last()).push(normalized(next.last()))
        } else {
            acceptable_headers(next.drop_last())
        });
        let kept = normalized_header_name(name.as_str());
        if accepts_header_value(value.as_str()) {
            if let Some(lower) = kept {
                headers.push((lower, value.clone()));
                assert(headers.deep_view() =~= before.push(normalized((name@, value@))));
            }
        }
        i += 1;
    }
    assert(all.take(extra.len() as int) =~= all);
    Page { status: 200, headers, body }
}

/// A static asset: status 200, `content_type`, never cached, readable from
/// any origin.
pub fn asset_response(content_type: &str, body: String) -> (r: Page)
    ensures
        r@ == asset_view(content_type@, body@),
{
    let mut headers: Vec<(String, String)> = Vec::new();
    headers.push(header(CONTENT_TYPE, content_type));
    headers.push(header(CACHE_CONTROL, NO_STORE));
    headers.push(header(ALLOW_ORIGIN, ANY_ORIGIN));
    assert(headers.deep_view() =~= asset_view(content_type@, body@).headers);
    Page { status: 200, headers, body }
}

/// Status 404 with no headers and an empty body.
pub open spec fn not_found_view() -> PageView {
    PageView { status: 404, headers: Seq::empty(), body: Seq::empty() }
}

/// The response for a path that has nothing behind it.
pub fn not_found() -> (r: Page)
    ensures
        r@ == not_found_view(),
{
    let headers: Vec<(String, String)> = Vec::new();
    assert(headers.deep_view() =~= Seq::<(Seq<char>, Seq<char>)>::empty());
    Page { status: 404, headers, body: String::new() }
}

} // verus!
