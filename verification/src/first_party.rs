//! The merchant's own origin: landing page, product, basket, the checkout
//! under test, its assets, and `robots.txt`.
use std::time::SystemTime;
use vstd::prelude::*;

use crate::clock::{clock_nanos, clock_secs, now_secs, now_subsec_nanos};
use crate::page::{
    asset_response, asset_view, hdr, header, html, html_view, not_found, not_found_view, Page,
    PageView, CONTENT_TYPE,
};
use crate::scenario::{Cmp, Scenario};
use crate::shop::Shop;
use crate::templates::{
    ADMIN, BANNER_SCRIPT, BASKET_COOKIE, BASKET_MARK, CART_0, CART_1, CHECKOUT_0, CHECKOUT_1,
    CHECKOUT_2, CHECKOUT_3, CHECKOUT_4, CHECKOUT_5, CHECKOUT_6, CHECKOUT_7, CHECKOUT_CSS,
    CHECKOUT_JS_0, CHECKOUT_JS_1, COOKIEBOT, COOKIEYES, CSS_SUFFIX, CSS_TYPE, EMPTY_BASKET, HOME_0,
    HOME_1, HOUSE_BANNER, JS_SUFFIX, JS_TYPE, ONETRUST, PRODUCT, PSP_TAG_0, PSP_TAG_1,
    REVISION_LINE, ROBOTS_ALLOW, ROBOTS_DENY, SET_COOKIE, TEXT_TYPE, TOKEN_BASKET_0,
    TOKEN_BASKET_1, USERCENTRICS,
};
use crate::text::{
    contains, decimal_string, decimal_u64, ends_with, has_infix, has_suffix, lower_hex,
    lower_hex_string,
};

verus! {

pub const STS: &'static str = "strict-transport-security";
pub const STS_VALUE: &'static str = "max-age=31536000; includeSubDomains";
pub const NOSNIFF_NAME: &'static str = "x-content-type-options";
pub const NOSNIFF: &'static str = "nosniff";
pub const REFERRER: &'static str = "referrer-policy";
pub const REFERRER_VALUE: &'static str = "strict-origin-when-cross-origin";
pub const PERMISSIONS: &'static str = "permissions-policy";
pub const PERMISSIONS_VALUE: &'static str = "geolocation=(), microphone=(), camera=()";
pub const SESSION_COOKIE: &'static str = "vf-session=testshop; Path=/; HttpOnly; SameSite=Lax";
pub const CSP: &'static str = "content-security-policy";
pub const CSP_0: &'static str = "default-src 'self'; script-src 'self' 'unsafe-inline' ";
pub const CSP_1: &'static str = "; style-src 'self' 'unsafe-inline'; frame-ancestors 'none'";
pub const CSP_REPORT_ONLY: &'static str = "content-security-policy-report-only";
pub const NONCE_0: &'static str = "script-src 'self' 'nonce-";
pub const NONCE_1: &'static str = "' ";
pub const FRAME_OPTIONS: &'static str = "x-frame-options";
pub const DENY: &'static str = "DENY";
pub const SPACE: &'static str = " ";

/// The multiplier that turns the time a basket is shown into its token.
pub const TOKEN_MULTIPLIER: u64 = 2_654_435_761;

// ---------------------------------------------------------------------------
// What each page is.

/// The landing page's body: it names the run's scenario and links the
/// checkout.
pub open spec fn home_body(s: Scenario) -> Seq<char> {
    HOME_0@ + s.name() + HOME_1@
}

/// `robots.txt`: `/admin` always disallowed, `/checkout` too in `robots-deny`.
pub open spec fn robots_text(s: Scenario) -> Seq<char> {
    if s == Scenario::RobotsDeny { ROBOTS_DENY@ } else { ROBOTS_ALLOW@ }
}

pub open spec fn robots_view(s: Scenario) -> PageView {
    PageView { status: 200, headers: seq![hdr(CONTENT_TYPE, TEXT_TYPE)], body: robots_text(s) }
}

/// The page a basket link leads to: it names the item and sets the basket
/// cookie.
pub open spec fn cart_add_view(id: Seq<char>) -> PageView {
    html_view(CART_0@ + id + CART_1@, seq![hdr(SET_COOKIE, BASKET_COOKIE)])
}

/// The token a basket minted at `secs` sends its checkout to: the time times
/// a fixed odd constant, wrapping at 64 bits, in lower-case hex.
pub open spec fn basket_token(secs: u64) -> Seq<char> {
    lower_hex(((secs as nat) * (TOKEN_MULTIPLIER as nat)) % 0x1_0000_0000_0000_0000)
}

pub open spec fn token_basket_view(secs: u64) -> PageView {
    html_view(TOKEN_BASKET_0@ + basket_token(secs) + TOKEN_BASKET_1@, Seq::empty())
}

/// The checkout's payment SDK tag, absent in `script-gone`.
pub open spec fn psp_tag(shop: Shop) -> Seq<char> {
    if shop.scenario == Scenario::ScriptGone {
        Seq::empty()
    } else {
        PSP_TAG_0@ + shop.origin_psp@ + PSP_TAG_1@
    }
}

/// The markup each consent platform ships, for the three written in place.
pub open spec fn platform_markup(platform: Cmp) -> Seq<char> {
    match platform {
        Cmp::Cookiebot => COOKIEBOT@,
        Cmp::Onetrust => ONETRUST@,
        _ => COOKIEYES@,
    }
}

/// The consent banner: none for `NoBanner`; in `unhandleable-consent` the
/// house-built banner, whatever the platform; otherwise the shadow-root host
/// for Usercentrics, or the platform's markup. Every banner but the
/// Usercentrics host is followed by the script that wires up acceptance.
pub open spec fn banner_text(platform: Cmp, s: Scenario) -> Seq<char> {
    if platform == Cmp::NoBanner {
        Seq::empty()
    } else if s == Scenario::UnhandleableConsent {
        HOUSE_BANNER@ + BANNER_SCRIPT@
    } else if platform == Cmp::Usercentrics {
        USERCENTRICS@
    } else {
        platform_markup(platform) + BANNER_SCRIPT@
    }
}

/// The shop's own checkout script: one extra line in `first-party-change`.
pub open spec fn checkout_js_text(s: Scenario) -> Seq<char> {
    CHECKOUT_JS_0@ + (if s == Scenario::FirstPartyChange { REVISION_LINE@ } else { Seq::empty() })
        + CHECKOUT_JS_1@
}

/// The checkout document's body with `cache_buster` filled in, twice: after
/// the tag manager's URL and after the bundle's.
pub open spec fn checkout_body_with(shop: Shop, cache_buster: Seq<char>) -> Seq<char> {
    CHECKOUT_0@ + shop.build_id@ + CHECKOUT_1@ + shop.origin_cdn@ + CHECKOUT_2@ + cache_buster
        + CHECKOUT_3@ + psp_tag(shop) + CHECKOUT_4@ + banner_text(shop.cmp, shop.scenario)
        + CHECKOUT_5@ + shop.build_id@ + CHECKOUT_6@ + cache_buster + CHECKOUT_7@
}

/// The checkout document's body, with the time `secs` as cache buster.
pub open spec fn checkout_body(shop: Shop, secs: u64) -> Seq<char> {
    checkout_body_with(shop, decimal_u64(secs))
}

/// The headers every checkout document carries.
pub open spec fn base_security_headers() -> Seq<(Seq<char>, Seq<char>)> {
    seq![
        hdr(STS, STS_VALUE),
        hdr(NOSNIFF_NAME, NOSNIFF),
        hdr(REFERRER, REFERRER_VALUE),
        hdr(PERMISSIONS, PERMISSIONS_VALUE),
        hdr(SET_COOKIE, SESSION_COOKIE),
    ]
}

/// The script origins the policy permits: cdn, analytics and psp, and the
/// rogue origin too in `new-origin`, separated by single spaces.
pub open spec fn permitted_origins(shop: Shop) -> Seq<char> {
    let base = shop.origin_cdn@ + SPACE@ + shop.origin_analytics@ + SPACE@ + shop.origin_psp@;
    if shop.scenario == Scenario::NewOrigin {
        base + SPACE@ + shop.origin_rogue@
    } else {
        base
    }
}

/// The Content-Security-Policy value.
pub open spec fn csp_value(shop: Shop) -> Seq<char> {
    CSP_0@ + permitted_origins(shop) + CSP_1@
}

/// The report-only policy, carrying the per-response `nonce`.
pub open spec fn report_only_value(shop: Shop, nonce: u32) -> Seq<char> {
    NONCE_0@ + decimal_u64(nonce as u64) + NONCE_1@ + permitted_origins(shop)
}

/// The security headers of the checkout document: the five base ones, then,
/// unless `header-weakened`, the policy, the report-only policy and
/// X-Frame-Options.
pub open spec fn security_headers_spec(shop: Shop, nonce: u32) -> Seq<(Seq<char>, Seq<char>)> {
    if shop.scenario == Scenario::HeaderWeakened {
        base_security_headers()
    } else {
        base_security_headers() + seq![
            (CSP@, csp_value(shop)),
            (CSP_REPORT_ONLY@, report_only_value(shop, nonce)),
            hdr(FRAME_OPTIONS, DENY),
        ]
    }
}

/// The checkout document served at cache buster `secs` and nonce `nonce`.
pub open spec fn checkout_page_view(shop: Shop, secs: u64, nonce: u32) -> PageView {
    html_view(checkout_body(shop, secs), security_headers_spec(shop, nonce))
}

/// The request carries the basket cookie.
pub open spec fn has_basket(cookie: Option<Seq<char>>) -> bool {
    cookie matches Some(c) && has_infix(c, BASKET_MARK@)
}

/// A cookie header as a sequence, when present.
pub open spec fn cookie_view(cookie: Option<&str>) -> Option<Seq<char>> {
    match cookie {
        Some(c) => Some(c@),
        None => None,
    }
}

/// What `/checkout` answers: in `token-checkout` a basket pointing at a token
/// URL; in `needs-basket` without the basket cookie the empty-basket page;
/// otherwise the checkout document.
pub open spec fn checkout_view(shop: Shop, cookie: Option<Seq<char>>, secs: u64, nonce: u32) -> PageView {
    if shop.scenario == Scenario::TokenCheckout {
        token_basket_view(secs)
    } else if shop.scenario == Scenario::NeedsBasket && !has_basket(cookie) {
        html_view(EMPTY_BASKET@, Seq::empty())
    } else {
        checkout_page_view(shop, secs, nonce)
    }
}

/// What `/assets/{file}` answers: the stylesheet for `.css`, the checkout
/// script for `.js`, nothing otherwise.
pub open spec fn asset_file_view(shop: Shop, file: Seq<char>) -> PageView {
    if has_suffix(file, CSS_SUFFIX@) {
        asset_view(CSS_TYPE@, CHECKOUT_CSS@)
    } else if !has_suffix(file, JS_SUFFIX@) {
        not_found_view()
    } else {
        asset_view(JS_TYPE@, checkout_js_text(shop.scenario))
    }
}

// ---------------------------------------------------------------------------
// The pages.

fn html_plain(body: String) -> (r: Page)
    ensures
        r@ == html_view(body@, Seq::empty()),
{
    let extra: Vec<(String, String)> = Vec::new();
    assert(extra.deep_view() =~= Seq::<(Seq<char>, Seq<char>)>::empty());
    html(body, extra)
}

/// The landing page, so `/checkout` is reached by a link.
pub fn home(shop: &Shop) -> (r: Page)
    ensures
        r@ == html_view(home_body(shop.scenario), Seq::empty()),
{
    let mut body = String::from_str(HOME_0);
    body.append(shop.scenario.as_str());
    body.append(HOME_1);
    html_plain(body)
}

/// A page `robots.txt` always disallows.
pub fn admin() -> (r: Page)
    ensures
        r@ == html_view(ADMIN@, Seq::empty()),
{
    html_plain(String::from_str(ADMIN))
}

/// `robots.txt` for the run's scenario.
pub fn robots(shop: &Shop) -> (r: Page)
    ensures
        r@ == robots_view(shop.scenario),
{
    let text = if shop.scenario == Scenario::RobotsDeny { ROBOTS_DENY } else { ROBOTS_ALLOW };
    let mut headers: Vec<(String, String)> = Vec::new();
    headers.push(header(CONTENT_TYPE, TEXT_TYPE));
    assert(headers.deep_view() =~= seq![hdr(CONTENT_TYPE, TEXT_TYPE)]);
    Page { status: 200, headers, body: String::from_str(text) }
}

/// A product page carrying an add-to-basket control, for click priming.
pub fn product(shop: &Shop) -> (r: Page)
    ensures
        r@ == html_view(PRODUCT@, Seq::empty()),
{
    html_plain(String::from_str(PRODUCT))
}

/// The link-based basket: visiting it puts item `id` in the basket.
pub fn cart_add(shop: &Shop, id: &str) -> (r: Page)
    ensures
        r@ == cart_add_view(id@),
{
    let mut body = String::from_str(CART_0);
    body.append(id);
    body.append(CART_1);
    let mut extra: Vec<(String, String)> = Vec::new();
    extra.push(header(SET_COOKIE, BASKET_COOKIE));
    assert(extra.deep_view() =~= seq![hdr(SET_COOKIE, BASKET_COOKIE)]);
    html(body, extra)
}

/// The basket of a shop whose checkout URL is minted per visit, as minted at
/// `secs`.
pub fn token_basket_at(secs: u64) -> (r: Page)
    ensures
        r@ == token_basket_view(secs),
{
    let token = lower_hex_string(secs.wrapping_mul(TOKEN_MULTIPLIER));
    let mut body = String::from_str(TOKEN_BASKET_0);
    body.append(token.as_str());
    body.append(TOKEN_BASKET_1);
    html_plain(body)
}

/// The basket, minted now.
pub fn token_basket() -> (r: Page)
    ensures
        exists|t: SystemTime| r@ == #[trigger] token_basket_view(clock_secs(t)),
{
    let secs = now_secs();
    let r = token_basket_at(secs);
    proof {
        let t = choose|t: SystemTime| secs == clock_secs(t);
        assert(r@ == token_basket_view(clock_secs(t)));
    }
    r
}

/// The security headers with report-only nonce `nonce`.
pub fn security_headers_at(shop: &Shop, nonce: u32) -> (r: Vec<(String, String)>)
    ensures
        r.deep_view() == security_headers_spec(*shop, nonce),
{
    let mut headers: Vec<(String, String)> = Vec::new();
    headers.push(header(STS, STS_VALUE));
    headers.push(header(NOSNIFF_NAME, NOSNIFF));
    headers.push(header(REFERRER, REFERRER_VALUE));
    headers.push(header(PERMISSIONS, PERMISSIONS_VALUE));
    headers.push(header(SET_COOKIE, SESSION_COOKIE));
    assert(headers.deep_view() =~= base_security_headers());
    if shop.scenario != Scenario::HeaderWeakened {
        let mut permitted = shop.origin_cdn.clone();
        permitted.append(SPACE);
        permitted.append(shop.origin_analytics.as_str());
        permitted.append(SPACE);
        permitted.append(shop.origin_psp.as_str());
        if shop.scenario == Scenario::NewOrigin {
            permitted.append(SPACE);
            permitted.append(shop.origin_rogue.as_str());
        }
        assert(permitted@ == permitted_origins(*shop));
        let mut csp = String::from_str(CSP_0);
        csp.append(permitted.as_str());
        csp.append(CSP_1);
        headers.push((String::from_str(CSP), csp));
        let mut report_only = String::from_str(NONCE_0);
        let digits = decimal_string(nonce as u64);
        report_only.append(digits.as_str());
        report_only.append(NONCE_1);
        report_only.append(permitted.as_str());
        headers.push((String::from_str(CSP_REPORT_ONLY), report_only));
        headers.push(header(FRAME_OPTIONS, DENY));
        assert(headers.deep_view() =~= security_headers_spec(*shop, nonce));
    }
    headers
}

/// The security headers of a checkout document served now.
pub fn security_headers(shop: &Shop) -> (r: Vec<(String, String)>)
    ensures
        exists|t: SystemTime|
            clock_nanos(t) < 1_000_000_000 && r.deep_view() == #[trigger] security_headers_spec(*shop, clock_nanos(t)),
{
    let nonce = now_subsec_nanos();
    let r = security_headers_at(shop, nonce);
    proof {
        let t = choose|t: SystemTime| nonce == clock_nanos(t);
        assert(r.deep_view() == security_headers_spec(*shop, clock_nanos(t)));
    }
    r
}

/// The consent banner, in the markup of the run's platform.
pub fn banner_markup(shop: &Shop) -> (r: String)
    ensures
        r@ == banner_text(shop.cmp, shop.scenario),
{
    if shop.cmp == Cmp::NoBanner {
        return String::new();
    }
    let mut markup = if shop.scenario == Scenario::UnhandleableConsent {
        // A house-built banner whose accept control carries no recognisable
        // id, class or accessible name, in place of any platform's.
        String::from_str(HOUSE_BANNER)
    } else {
        match shop.cmp {
            Cmp::Usercentrics => {
                return String::from_str(USERCENTRICS);
            },
            Cmp::Cookiebot => String::from_str(COOKIEBOT),
            Cmp::Onetrust => String::from_str(ONETRUST),
            _ => String::from_str(COOKIEYES),
        }
    };
    markup.append(BANNER_SCRIPT);
    markup
}

/// The shop's own checkout script.
pub fn checkout_js(shop: &Shop) -> (r: String)
    ensures
        r@ == checkout_js_text(shop.scenario),
{
    let mut js = String::from_str(CHECKOUT_JS_0);
    if shop.scenario == Scenario::FirstPartyChange {
        js.append(REVISION_LINE);
    }
    js.append(CHECKOUT_JS_1);
    assert(js@ =~= checkout_js_text(shop.scenario));
    js
}

/// The checkout document with cache buster `secs` and report-only nonce
/// `nonce`.
pub fn checkout_page_at(shop: &Shop, secs: u64, nonce: u32) -> (r: Page)
    ensures
        r@ == checkout_page_view(*shop, secs, nonce),
{
    let cache_buster = decimal_string(secs);
    let mut body = String::from_str(CHECKOUT_0);
    body.append(shop.build_id.as_str());
    body.append(CHECKOUT_1);
    body.append(shop.origin_cdn.as_str());
    body.append(CHECKOUT_2);
    body.append(cache_buster.as_str());
    body.append(CHECKOUT_3);
    if shop.scenario != Scenario::ScriptGone {
        body.append(PSP_TAG_0);
        body.append(shop.origin_psp.as_str());
        body.append(PSP_TAG_1);
    }
    body.append(CHECKOUT_4);
    let banner = banner_markup(shop);
    body.append(banner.as_str());
    body.append(CHECKOUT_5);
    body.append(shop.build_id.as_str());
    body.append(CHECKOUT_6);
    body.append(cache_buster.as_str());
    body.append(CHECKOUT_7);
    assert(body@ =~= checkout_body(*shop, secs));
    html(body, security_headers_at(shop, nonce))
}

/// The checkout document, served now: its cache buster and nonce come from
/// the clock.
pub fn checkout_page(shop: &Shop) -> (r: Page)
    ensures
        exists|t1: SystemTime, t2: SystemTime|
            clock_nanos(t2) < 1_000_000_000 && r@ == #[trigger] checkout_page_view(*shop, clock_secs(t1), clock_nanos(t2)),
{
    let secs = now_secs();
    let nonce = now_subsec_nanos();
    let r = checkout_page_at(shop, secs, nonce);
    proof {
        let t1 = choose|t: SystemTime| secs == clock_secs(t);
        let t2 = choose|t: SystemTime| nonce == clock_nanos(t);
        assert(r@ == checkout_page_view(*shop, clock_secs(t1), clock_nanos(t2)));
    }
    r
}

/// The checkout behind basket token `token`, served at `secs` with nonce
/// `nonce`: the same page whatever the token.
pub fn token_checkout_at(shop: &Shop, token: &str, secs: u64, nonce: u32) -> (r: Page)
    ensures
        r@ == checkout_page_view(*shop, secs, nonce),
{
    checkout_page_at(shop, secs, nonce)
}

/// The checkout behind a basket token, served now: the same page whatever
/// the token.
pub fn token_checkout(shop: &Shop, token: &str) -> (r: Page)
    ensures
        exists|t1: SystemTime, t2: SystemTime|
            clock_nanos(t2) < 1_000_000_000 && r@ == #[trigger] checkout_page_view(*shop, clock_secs(t1), clock_nanos(t2)),
{
    let secs = now_secs();
    let nonce = now_subsec_nanos();
    let r = token_checkout_at(shop, token, secs, nonce);
    proof {
        let t1 = choose|t: SystemTime| secs == clock_secs(t);
        let t2 = choose|t: SystemTime| nonce == clock_nanos(t);
        assert(r@ == checkout_page_view(*shop, clock_secs(t1), clock_nanos(t2)));
    }
    r
}

/// `/checkout` for a request carrying `cookie`, served at `secs` with nonce
/// `nonce`.
pub fn checkout_at(shop: &Shop, cookie: Option<&str>, secs: u64, nonce: u32) -> (r: Page)
    ensures
        r@ == checkout_view(*shop, cookie_view(cookie), secs, nonce),
{
    if shop.scenario == Scenario::TokenCheckout {
        return token_basket_at(secs);
    }
    if shop.scenario == Scenario::NeedsBasket {
        let basket = match cookie {
            Some(c) => contains(c, BASKET_MARK),
            None => false,
        };
        if !basket {
            return html_plain(String::from_str(EMPTY_BASKET));
        }
    }
    checkout_page_at(shop, secs, nonce)
}

/// `/checkout` for a request carrying `cookie`, served now.
pub fn checkout(shop: &Shop, cookie: Option<&str>) -> (r: Page)
    ensures
        exists|t1: SystemTime, t2: SystemTime|
            clock_nanos(t2) < 1_000_000_000 && r@ == #[trigger] checkout_view(*shop, cookie_view(cookie), clock_secs(t1), clock_nanos(t2)),
{
    let secs = now_secs();
    let nonce = now_subsec_nanos();
    let r = checkout_at(shop, cookie, secs, nonce);
    proof {
        let t1 = choose|t: SystemTime| secs == clock_secs(t);
        let t2 = choose|t: SystemTime| nonce == clock_nanos(t);
        assert(r@ == checkout_view(*shop, cookie_view(cookie), clock_secs(t1), clock_nanos(t2)));
    }
    r
}

/// `/assets/{file}`.
pub fn asset(shop: &Shop, file: &str) -> (r: Page)
    ensures
        r@ == asset_file_view(*shop, file@),
{
    if ends_with(file, CSS_SUFFIX) {
        return asset_response(CSS_TYPE, String::from_str(CHECKOUT_CSS));
    }
    if !ends_with(file, JS_SUFFIX) {
        return not_found();
    }
    asset_response(JS_TYPE, checkout_js(shop))
}

} // verus!
