//! Properties of the shop as a whole, over the page models.
use vstd::prelude::*;

use crate::first_party::{
    asset_file_view, banner_text, basket_token, cart_add_view, checkout_body, checkout_body_with, checkout_js_text,
    checkout_page_view, checkout_view, csp_value, has_basket, home_body, permitted_origins,
    platform_markup, psp_tag, report_only_value, robots_text, robots_view, token_basket_view, CSP,
    CSP_0, CSP_1, CSP_REPORT_ONLY, FRAME_OPTIONS, NONCE_0, NONCE_1, NOSNIFF_NAME, PERMISSIONS,
    REFERRER, SPACE, STS, security_headers_spec, STS_VALUE, NOSNIFF, REFERRER_VALUE, PERMISSIONS_VALUE,
    SESSION_COOKIE, DENY,
};
use crate::page::{
    has_no_upper, html_base_headers, is_header, is_header_name, is_header_value, is_value_char,
    lemma_acceptable_pointwise, lemma_all_acceptable, lemma_lower_identity, lemma_value_concat,
    lower_ascii, not_found_view,
    acceptable_headers, asset_view, has_header, hdr, html_view, ALLOW_ORIGIN, ANY_ORIGIN, CACHE_CONTROL, CONTENT_TYPE,
    NO_STORE,
};
use crate::scenario::{Cmp, Scenario};
use crate::shop::{origins_are_header_text, Shop};
use crate::templates::{
    lacks_pair, lemma_banner_script, lemma_tagmanager_pieces, CHECKOUT_0, CHECKOUT_1, CHECKOUT_2,
    CHECKOUT_3, CHECKOUT_4, CHECKOUT_5, CHECKOUT_6, CHECKOUT_7, CHECKOUT_CSS, CSS_TYPE, PSP_TAG_0,
    PSP_TAG_1, TAGMANAGER_0, TAGMANAGER_1, TAGMANAGER_2, TAGMANAGER_3, lemma_basket_cookie, lemma_cart_tail, lemma_empty_basket,
    lemma_home_tail, lemma_house_banner, lemma_platform_banner_openings, lemma_robots_texts,
    lemma_scenario_pieces, lemma_token_basket_head, BANNER_SCRIPT, BASKET_COOKIE, BASKET_MARK,
    CART_0, CART_1, CSS_SUFFIX, EMPTY_BASKET, HOME_0, HOME_1, HOUSE_BANNER, JS_SUFFIX, JS_TYPE,
    SET_COOKIE, TOKEN_BASKET_0,
};
use crate::text::{lemma_decimal_digits, decimal_u64, has_infix, has_suffix, occurs_at};
use crate::vendors::{collect_text, inline_body, rogue_injection, tagmanager_text};

verus! {

/// `shop` with its scenario replaced by `s`, everything else kept.
pub open spec fn in_scenario(shop: Shop, s: Scenario) -> Shop {
    Shop {
        scenario: s,
        cmp: shop.cmp,
        build_id: shop.build_id,
        origin_cdn: shop.origin_cdn,
        origin_analytics: shop.origin_analytics,
        origin_psp: shop.origin_psp,
        origin_rogue: shop.origin_rogue,
    }
}

/// The scenarios that change what `/checkout` answers.
pub open spec fn touches_checkout(s: Scenario) -> bool {
    ||| s == Scenario::ScriptGone
    ||| s == Scenario::HeaderWeakened
    ||| s == Scenario::NewOrigin
    ||| s == Scenario::UnhandleableConsent
    ||| s == Scenario::NeedsBasket
    ||| s == Scenario::TokenCheckout
}

/// Every scenario leaves each artifact it does not target exactly as the
/// baseline serves it: the shop's own script changes only in
/// `first-party-change`, the analytics tag only in `vendor-update`, the tag
/// manager only in `new-origin` and `noisy-inline`, `robots.txt` only in
/// `robots-deny`, and the checkout document only in the scenarios that target
/// it (for `needs-basket`, only when the basket is empty).
pub proof fn scenario_leaves_the_rest_alone(
    shop: Shop,
    s: Scenario,
    cookie: Option<Seq<char>>,
    file: Seq<char>,
    secs: u64,
    nonce: u32,
)
    ensures
        s != Scenario::FirstPartyChange ==> checkout_js_text(s) == checkout_js_text(Scenario::Baseline),
        s != Scenario::FirstPartyChange ==> asset_file_view(in_scenario(shop, s), file)
            == asset_file_view(in_scenario(shop, Scenario::Baseline), file),
        s != Scenario::VendorUpdate ==> collect_text(s) == collect_text(Scenario::Baseline),
        s != Scenario::NewOrigin && s != Scenario::NoisyInline ==> tagmanager_text(in_scenario(shop, s))
            == tagmanager_text(in_scenario(shop, Scenario::Baseline)),
        s != Scenario::RobotsDeny ==> robots_view(s) == robots_view(Scenario::Baseline),
        !touches_checkout(s) ==> checkout_view(in_scenario(shop, s), cookie, secs, nonce)
            == checkout_view(in_scenario(shop, Scenario::Baseline), cookie, secs, nonce),
        s == Scenario::NeedsBasket && has_basket(cookie) ==> checkout_view(in_scenario(shop, s), cookie, secs, nonce)
            == checkout_view(in_scenario(shop, Scenario::Baseline), cookie, secs, nonce),
{
    let b = in_scenario(shop, Scenario::Baseline);
    let t = in_scenario(shop, s);
    if !touches_checkout(s) || (s == Scenario::NeedsBasket && has_basket(cookie)) {
        assert(banner_text(t.cmp, t.scenario) == banner_text(b.cmp, b.scenario));
        assert(checkout_body(t, secs) == checkout_body(b, secs));
    }
}

/// Every scenario but the baseline does change the artifact it targets.
pub proof fn scenario_changes_its_target(shop: Shop, secs: u64, nonce: u32)
    ensures
        checkout_js_text(Scenario::FirstPartyChange) != checkout_js_text(Scenario::Baseline),
        collect_text(Scenario::VendorUpdate) != collect_text(Scenario::Baseline),
        tagmanager_text(in_scenario(shop, Scenario::NewOrigin))
            != tagmanager_text(in_scenario(shop, Scenario::Baseline)),
        tagmanager_text(in_scenario(shop, Scenario::NoisyInline))
            != tagmanager_text(in_scenario(shop, Scenario::Baseline)),
        checkout_body(in_scenario(shop, Scenario::ScriptGone), secs)
            != checkout_body(in_scenario(shop, Scenario::Baseline), secs),
{
    lemma_scenario_pieces();
    assert(checkout_js_text(Scenario::FirstPartyChange).len() != checkout_js_text(Scenario::Baseline).len());
    assert(collect_text(Scenario::VendorUpdate).len() != collect_text(Scenario::Baseline).len());
    assert(tagmanager_text(in_scenario(shop, Scenario::NewOrigin)).len()
        != tagmanager_text(in_scenario(shop, Scenario::Baseline)).len());
    assert(tagmanager_text(in_scenario(shop, Scenario::NoisyInline)).len()
        != tagmanager_text(in_scenario(shop, Scenario::Baseline)).len());
    let b = in_scenario(shop, Scenario::Baseline);
    let g = in_scenario(shop, Scenario::ScriptGone);
    assert(banner_text(g.cmp, g.scenario) == banner_text(b.cmp, b.scenario));
    assert(psp_tag(g).len() < psp_tag(b).len());
    assert(checkout_body(g, secs).len() != checkout_body(b, secs).len());
}

/// In `unhandleable-consent` the banner of every platform differs from the
/// one the baseline serves.
pub proof fn unhandleable_banner_differs(platform: Cmp)
    requires
        platform != Cmp::NoBanner,
    ensures
        banner_text(platform, Scenario::UnhandleableConsent) != banner_text(platform, Scenario::Baseline),
{
    lemma_house_banner();
    lemma_platform_banner_openings();
    let unhandled = banner_text(platform, Scenario::UnhandleableConsent);
    let served = banner_text(platform, Scenario::Baseline);
    assert(unhandled[5] == 'c' && unhandled[13] == '-');
    if platform == Cmp::Usercentrics {
        assert(served[5] == 'i');
    } else {
        assert(served[5] == platform_markup(platform)[5] && served[13] == platform_markup(platform)[13]);
    }
    assert(unhandled[5] != served[5] || unhandled[13] != served[13]);
}

/// `header-weakened` removes Content-Security-Policy (and its report-only
/// twin) and X-Frame-Options from the checkout document; every other
/// scenario serves all three, as long as the shop's origins can stand in a
/// header value (else HTTP refuses the policies that name them).
pub proof fn weakening_removes_exactly_the_policy_headers(shop: Shop, secs: u64, nonce: u32)
    requires
        origins_are_header_text(shop),
    ensures
        has_header(checkout_page_view(shop, secs, nonce).headers, CSP@) <==> shop.scenario != Scenario::HeaderWeakened,
        has_header(checkout_page_view(shop, secs, nonce).headers, CSP_REPORT_ONLY@) <==> shop.scenario != Scenario::HeaderWeakened,
        has_header(checkout_page_view(shop, secs, nonce).headers, FRAME_OPTIONS@) <==> shop.scenario != Scenario::HeaderWeakened,
{
    assert(CONTENT_TYPE@ == "content-type"@);
    reveal_strlit("content-type");
    assert(CACHE_CONTROL@ == "cache-control"@);
    reveal_strlit("cache-control");
    assert(STS@ == "strict-transport-security"@);
    reveal_strlit("strict-transport-security");
    assert(NOSNIFF_NAME@ == "x-content-type-options"@);
    reveal_strlit("x-content-type-options");
    assert(REFERRER@ == "referrer-policy"@);
    reveal_strlit("referrer-policy");
    assert(PERMISSIONS@ == "permissions-policy"@);
    reveal_strlit("permissions-policy");
    assert(SET_COOKIE@ == "set-cookie"@);
    reveal_strlit("set-cookie");
    assert(CSP@ == "content-security-policy"@);
    reveal_strlit("content-security-policy");
    assert(CSP_REPORT_ONLY@ == "content-security-policy-report-only"@);
    reveal_strlit("content-security-policy-report-only");
    assert(FRAME_OPTIONS@ == "x-frame-options"@);
    reveal_strlit("x-frame-options");
    lemma_security_headers_acceptable(shop, secs, nonce);
    let hs = checkout_page_view(shop, secs, nonce).headers;
    assert(REFERRER@[0] != FRAME_OPTIONS@[0]);
    if shop.scenario == Scenario::HeaderWeakened {
        let names = seq![CONTENT_TYPE@, CACHE_CONTROL@, STS@, NOSNIFF_NAME@, REFERRER@, PERMISSIONS@, SET_COOKIE@];
        assert(hs.len() == 7);
        assert forall|i: int| 0 <= i < 7 implies #[trigger] hs[i].0 == names[i] by {}
        assert forall|i: int| 0 <= i < 7 implies names[i] != CSP@ && names[i] != CSP_REPORT_ONLY@
            && names[i] != FRAME_OPTIONS@ by {
            assert(names[i].len() != CSP@.len());
            assert(names[i].len() != CSP_REPORT_ONLY@.len());
            assert(names[i].len() != FRAME_OPTIONS@.len() || names[i][0] != FRAME_OPTIONS@[0]);
        }
    } else {
        assert(hs[7].0 == CSP@);
        assert(hs[8].0 == CSP_REPORT_ONLY@);
        assert(hs[9].0 == FRAME_OPTIONS@);
    }
}

/// In `new-origin` both script policies name the rogue origin, so the browser
/// lets the injected script run.
pub proof fn new_origin_policy_permits_rogue(shop: Shop, nonce: u32)
    requires
        shop.scenario == Scenario::NewOrigin,
    ensures
        has_infix(csp_value(shop), shop.origin_rogue@),
        has_infix(report_only_value(shop, nonce), shop.origin_rogue@),
{
    let rogue = shop.origin_rogue@;
    let head = shop.origin_cdn@ + SPACE@ + shop.origin_analytics@ + SPACE@ + shop.origin_psp@ + SPACE@;
    assert(permitted_origins(shop) == head + rogue);
    let pre = CSP_0@ + head;
    assert(csp_value(shop) =~= pre + rogue + CSP_1@);
    assert(csp_value(shop).subrange(pre.len() as int, (pre.len() + rogue.len()) as int) =~= rogue);
    assert(occurs_at(csp_value(shop), rogue, pre.len() as int));
    let ro = report_only_value(shop, nonce);
    let pre2 = NONCE_0@ + decimal_u64(nonce as u64) + NONCE_1@ + head;
    assert(ro =~= pre2 + rogue);
    assert(ro.subrange(pre2.len() as int, (pre2.len() + rogue.len()) as int) =~= rogue);
    assert(occurs_at(ro, rogue, pre2.len() as int));
}

/// `robots.txt` disallows `/admin` in every scenario, and disallows
/// `/checkout` exactly in `robots-deny`.
pub proof fn robots_rules(s: Scenario)
    ensures
        has_infix(robots_text(s), "Disallow: /admin\n"@),
        has_infix(robots_text(s), "Disallow: /checkout\n"@) <==> s == Scenario::RobotsDeny,
{
    lemma_robots_texts();
}

/// A first-party script's body depends on the scenario alone: renaming the
/// file (a new build id in its name) or changing anything else about the shop
/// serves the same bytes.
pub proof fn script_body_ignores_its_name(shop1: Shop, shop2: Shop, file1: Seq<char>, file2: Seq<char>)
    requires
        shop1.scenario == shop2.scenario,
        has_suffix(file1, JS_SUFFIX@),
        has_suffix(file2, JS_SUFFIX@),
    ensures
        asset_file_view(shop1, file1) == asset_file_view(shop2, file2),
        asset_file_view(shop1, file1) == asset_view(JS_TYPE@, checkout_js_text(shop1.scenario)),
{
    assert(JS_SUFFIX@ == ".js"@);
    assert(CSS_SUFFIX@ == ".css"@);
    reveal_strlit(".js");
    reveal_strlit(".css");
    assert forall|f: Seq<char>| has_suffix(f, JS_SUFFIX@) implies !has_suffix(f, CSS_SUFFIX@) by {
        assert(f.subrange(f.len() - 3, f.len() as int)[1] == 'j');
        assert(f[f.len() - 2] == 'j');
        if has_suffix(f, CSS_SUFFIX@) {
            assert(f.subrange(f.len() - 4, f.len() as int)[2] == 's');
        }
    }
}

/// The basket link sets a cookie whose name and value, the part a browser
/// sends back, is the mark the `needs-basket` checkout looks for; with it the
/// checkout renders, without any cookie it shows the empty basket.
pub proof fn basket_link_opens_checkout(shop: Shop, id: Seq<char>, secs: u64, nonce: u32)
    requires
        shop.scenario == Scenario::NeedsBasket,
    ensures
        cart_add_view(id).headers.contains(hdr(SET_COOKIE, BASKET_COOKIE)),
        BASKET_COOKIE@.take(BASKET_MARK@.len() as int) == BASKET_MARK@,
        BASKET_COOKIE@[BASKET_MARK@.len() as int] == ';',
        checkout_view(shop, Some(BASKET_MARK@), secs, nonce) == checkout_page_view(shop, secs, nonce),
        checkout_view(shop, None, secs, nonce) == html_view(EMPTY_BASKET@, Seq::empty()),
{
    lemma_basket_cookie();
    lemma_fixed_header_text();
    let cookie = seq![hdr(SET_COOKIE, BASKET_COOKIE)];
    assert(is_header(cookie[0]) && has_no_upper(cookie[0].0));
    lemma_all_acceptable(cookie);
    let hs = cart_add_view(id).headers;
    assert(hs[2] == hdr(SET_COOKIE, BASKET_COOKIE));
    assert(BASKET_MARK@.subrange(0, BASKET_MARK@.len() as int) =~= BASKET_MARK@);
    assert(occurs_at(BASKET_MARK@, BASKET_MARK@, 0));
}

/// Nothing the shop serves as a document or asset may be cached: every HTML
/// page and every asset carries `cache-control: no-store, must-revalidate`.
pub proof fn nothing_is_cached(body: Seq<char>, extra: Seq<(Seq<char>, Seq<char>)>, content_type: Seq<char>)
    ensures
        html_view(body, extra).headers.contains(hdr(CACHE_CONTROL, NO_STORE)),
        asset_view(content_type, body).headers.contains(hdr(CACHE_CONTROL, NO_STORE)),
        asset_view(content_type, body).headers.contains(hdr(ALLOW_ORIGIN, ANY_ORIGIN)),
{
    assert(html_view(body, extra).headers[1] == hdr(CACHE_CONTROL, NO_STORE));
    assert(asset_view(content_type, body).headers[1] == hdr(CACHE_CONTROL, NO_STORE));
    assert(asset_view(content_type, body).headers[2] == hdr(ALLOW_ORIGIN, ANY_ORIGIN));
}

/// Distinct scenarios have distinct names, as do distinct consent platforms,
/// so a name selects exactly one.
pub proof fn names_select_one(s1: Scenario, s2: Scenario, p1: Cmp, p2: Cmp)
    ensures
        s1.name() == s2.name() ==> s1 == s2,
        p1.name() == p2.name() ==> p1 == p2,
{
    reveal_strlit("baseline");
    reveal_strlit("vendor-update");
    reveal_strlit("first-party-change");
    reveal_strlit("new-origin");
    reveal_strlit("header-weakened");
    reveal_strlit("script-gone");
    reveal_strlit("unhandleable-consent");
    reveal_strlit("noisy-inline");
    reveal_strlit("robots-deny");
    reveal_strlit("needs-basket");
    reveal_strlit("token-checkout");
    reveal_strlit("cookiebot");
    reveal_strlit("onetrust");
    reveal_strlit("cookieyes");
    reveal_strlit("usercentrics-shadow-dom");
    reveal_strlit("none");
    if s1.name() == s2.name() && s1 != s2 {
        assert(s1.name().len() == s2.name().len());
        assert(s1.name()[0] == s2.name()[0]);
        assert(s1.name()[1] == s2.name()[1]);
    }
    if p1.name() == p2.name() && p1 != p2 {
        assert(p1.name().len() == p2.name().len());
        assert(p1.name()[6] == p2.name()[6]);
    }
}

/// In `needs-basket` the checkout opens for every request whose cookie
/// header holds the basket mark anywhere, whatever other cookies stand
/// before or after it; a header without the mark gets the empty basket.
pub proof fn basket_mark_anywhere_opens_checkout(shop: Shop, cookie: Seq<char>, secs: u64, nonce: u32)
    requires
        shop.scenario == Scenario::NeedsBasket,
    ensures
        has_infix(cookie, BASKET_MARK@) ==> checkout_view(shop, Some(cookie), secs, nonce)
            == checkout_page_view(shop, secs, nonce),
        !has_infix(cookie, BASKET_MARK@) ==> checkout_view(shop, Some(cookie), secs, nonce)
            == html_view(EMPTY_BASKET@, Seq::empty()),
        checkout_view(shop, None, secs, nonce) == html_view(EMPTY_BASKET@, Seq::empty()),
{
}

/// Unless the scenario is `script-gone`, the checkout document loads the
/// payment SDK from the shop's own payment origin, whatever port the shop
/// runs on.
pub proof fn checkout_loads_sdk_from_own_psp(shop: Shop, secs: u64, nonce: u32)
    requires
        shop.scenario != Scenario::ScriptGone,
    ensures
        has_infix(checkout_page_view(shop, secs, nonce).body, PSP_TAG_0@ + shop.origin_psp@ + PSP_TAG_1@),
{
    let tag = PSP_TAG_0@ + shop.origin_psp@ + PSP_TAG_1@;
    let cb = decimal_u64(secs);
    let before = CHECKOUT_0@ + shop.build_id@ + CHECKOUT_1@ + shop.origin_cdn@ + CHECKOUT_2@ + cb + CHECKOUT_3@;
    let after = CHECKOUT_4@ + banner_text(shop.cmp, shop.scenario) + CHECKOUT_5@ + shop.build_id@ + CHECKOUT_6@
        + cb + CHECKOUT_7@;
    assert(psp_tag(shop) == tag);
    assert(checkout_body(shop, secs) =~= before + tag + after);
    lemma_occurs_at_start(tag);
    lemma_infix_in_middle(before, tag, after, tag, 0);
}

/// Each of the shop's own script origins occurs in the list the policies
/// permit: the cdn first, then analytics, then the payment provider.
proof fn lemma_own_origins_permitted(shop: Shop)
    ensures
        occurs_at(permitted_origins(shop), shop.origin_cdn@, 0),
        occurs_at(permitted_origins(shop), shop.origin_analytics@, (shop.origin_cdn@.len() + SPACE@.len()) as int),
        occurs_at(
            permitted_origins(shop),
            shop.origin_psp@,
            (shop.origin_cdn@.len() + SPACE@.len() + shop.origin_analytics@.len() + SPACE@.len()) as int,
        ),
{
    let cdn = shop.origin_cdn@;
    let an = shop.origin_analytics@;
    let psp = shop.origin_psp@;
    let p = permitted_origins(shop);
    let i: int = (cdn.len() + SPACE@.len()) as int;
    let j: int = i + an.len() + SPACE@.len();
    assert(p.subrange(0, cdn.len() as int) =~= cdn);
    assert(p.subrange(i, i + an.len()) =~= an);
    assert(p.subrange(j, j + psp.len()) =~= psp);
}

/// Outside `header-weakened` the checkout's Content-Security-Policy and its
/// report-only twin are among its security headers, and both permit each of
/// the shop's own script origins (cdn, analytics, payment), whatever port
/// the shop runs on.
pub proof fn policies_permit_own_origins(shop: Shop, nonce: u32)
    requires
        shop.scenario != Scenario::HeaderWeakened,
    ensures
        security_headers_spec(shop, nonce).contains((CSP@, csp_value(shop))),
        security_headers_spec(shop, nonce).contains((CSP_REPORT_ONLY@, report_only_value(shop, nonce))),
        has_infix(csp_value(shop), shop.origin_cdn@),
        has_infix(csp_value(shop), shop.origin_analytics@),
        has_infix(csp_value(shop), shop.origin_psp@),
        has_infix(report_only_value(shop, nonce), shop.origin_cdn@),
        has_infix(report_only_value(shop, nonce), shop.origin_analytics@),
        has_infix(report_only_value(shop, nonce), shop.origin_psp@),
{
    let hs = security_headers_spec(shop, nonce);
    assert(hs[5] == (CSP@, csp_value(shop)));
    assert(hs[6] == (CSP_REPORT_ONLY@, report_only_value(shop, nonce)));
    lemma_own_origins_permitted(shop);
    let p = permitted_origins(shop);
    let i: int = (shop.origin_cdn@.len() + SPACE@.len()) as int;
    let j: int = i + shop.origin_analytics@.len() + SPACE@.len();
    lemma_infix_in_middle(CSP_0@, p, CSP_1@, shop.origin_cdn@, 0);
    lemma_infix_in_middle(CSP_0@, p, CSP_1@, shop.origin_analytics@, i);
    lemma_infix_in_middle(CSP_0@, p, CSP_1@, shop.origin_psp@, j);
    let head = NONCE_0@ + decimal_u64(nonce as u64) + NONCE_1@;
    assert(report_only_value(shop, nonce) =~= head + p + Seq::<char>::empty());
    lemma_infix_in_middle(head, p, Seq::empty(), shop.origin_cdn@, 0);
    lemma_infix_in_middle(head, p, Seq::empty(), shop.origin_analytics@, i);
    lemma_infix_in_middle(head, p, Seq::empty(), shop.origin_psp@, j);
}

/// The tag manager loads the analytics tag from the shop's own analytics
/// origin, whatever port the shop runs on.
pub proof fn tagmanager_loads_own_analytics(shop: Shop)
    ensures
        has_infix(tagmanager_text(shop), "load(\""@ + shop.origin_analytics@ + "/v3/collect.js\")"@),
{
    lemma_tagmanager_pieces();
    let open_call = "load(\""@;
    let url_end = "/v3/collect.js\")"@;
    let call = open_call + shop.origin_analytics@ + url_end;
    let t0 = TAGMANAGER_0@;
    let t1 = TAGMANAGER_1@;
    let lead = t0.take(t0.len() - open_call.len());
    assert(t0 =~= lead + open_call);
    assert(t1 =~= url_end + t1.skip(16));
    let rest = t1.skip(16) + rogue_injection(shop) + TAGMANAGER_2@ + inline_body(shop.scenario) + TAGMANAGER_3@;
    assert(tagmanager_text(shop) =~= lead + call + rest);
    lemma_occurs_at_start(call);
    lemma_infix_in_middle(lead, call, rest, call, 0);
}

/// In every scenario a file name ending in `.css` is answered with the
/// stylesheet, and one ending in neither `.css` nor `.js` with nothing.
pub proof fn assets_by_extension(shop: Shop, file: Seq<char>)
    ensures
        has_suffix(file, CSS_SUFFIX@) ==> asset_file_view(shop, file) == asset_view(CSS_TYPE@, CHECKOUT_CSS@),
        !has_suffix(file, CSS_SUFFIX@) && !has_suffix(file, JS_SUFFIX@) ==> asset_file_view(shop, file)
            == not_found_view(),
{
}

/// Every text occurs in itself at its start.
proof fn lemma_occurs_at_start(t: Seq<char>)
    ensures
        occurs_at(t, t, 0),
{
    assert(t.subrange(0, t.len() as int) =~= t);
}

/// An occurrence inside a middle piece is an occurrence in the whole.
proof fn lemma_infix_in_middle(a: Seq<char>, b: Seq<char>, c: Seq<char>, t: Seq<char>, i: int)
    requires
        occurs_at(b, t, i),
    ensures
        occurs_at(a + b + c, t, a.len() + i),
        has_infix(a + b + c, t),
{
    let w = a + b + c;
    assert(w.subrange(a.len() + i, a.len() + i + t.len()) =~= b.subrange(i, i + t.len()));
}

/// Each page leads on by a link: the landing page and the basket page to
/// the checkout, the empty basket to the product, and the token basket to
/// the checkout under its token.
pub proof fn pages_link_onward(s: Scenario, id: Seq<char>, secs: u64)
    ensures
        has_infix(home_body(s), "href=\"/checkout\""@),
        has_infix(cart_add_view(id).body, "href=\"/checkout\""@),
        has_infix(EMPTY_BASKET@, "href=\"/product\""@),
        has_infix(token_basket_view(secs).body, "/checkouts/cn/"@ + basket_token(secs)),
{
    let to_checkout = "href=\"/checkout\""@;
    lemma_home_tail();
    lemma_cart_tail();
    lemma_empty_basket();
    lemma_token_basket_head();

    lemma_infix_in_middle(HOME_0@ + s.name(), HOME_1@, Seq::empty(), to_checkout, 20);
    assert(HOME_0@ + s.name() + HOME_1@ + Seq::<char>::empty() =~= home_body(s));

    lemma_infix_in_middle(CART_0@ + id, CART_1@, Seq::empty(), to_checkout, 38);
    assert(CART_0@ + id + CART_1@ + Seq::<char>::empty() =~= cart_add_view(id).body);

    assert(occurs_at(EMPTY_BASKET@, "href=\"/product\""@, 199));

    let path = "/checkouts/cn/"@;
    let link = path + basket_token(secs);
    let body = token_basket_view(secs).body;
    let at = TOKEN_BASKET_0@.len() - path.len();
    assert(body.subrange(at, at + link.len()) =~= link);
    assert(occurs_at(body, link, at));
}

/// In `unhandleable-consent` every platform's banner gives way to the
/// house-built one, which carries none of the accept controls the platforms
/// ship: no `uc-accept-button` of Usercentrics, and no element with id
/// `accept`.
pub proof fn unhandleable_banner_hides_known_controls(platform: Cmp)
    requires
        platform != Cmp::NoBanner,
    ensures
        banner_text(platform, Scenario::UnhandleableConsent) == HOUSE_BANNER@ + BANNER_SCRIPT@,
        !has_infix(banner_text(platform, Scenario::UnhandleableConsent), "uc-accept-button"@),
        !has_infix(banner_text(platform, Scenario::UnhandleableConsent), "id=\"accept\""@),
{
    lemma_house_banner();
    lemma_banner_script();
    reveal_strlit("uc-accept-button");
    reveal_strlit("id=\"accept\"");
    let house = HOUSE_BANNER@;
    let script = BANNER_SCRIPT@;
    let text = house + script;
    let control = "uc-accept-button"@;
    let accept_id = "id=\"accept\""@;
    assert forall|i: int| !occurs_at(text, control, i) by {
        if occurs_at(text, control, i) {
            assert(text.subrange(i, i + control.len() as int)[0] == 'u');
            assert(text.subrange(i, i + control.len() as int)[1] == 'c');
            lemma_pair_in_join(house, script, 'u', 'c', i);
        }
    }
    assert forall|i: int| !occurs_at(text, accept_id, i) by {
        if occurs_at(text, accept_id, i) {
            assert(text.subrange(i, i + accept_id.len() as int)[3] == '"');
            assert(text.subrange(i, i + accept_id.len() as int)[4] == 'a');
            lemma_pair_in_join(house, script, '"', 'a', i + 3);
        }
    }
}

/// A pair of characters found in `a + b` lies within `a`, within `b`, or
/// has its first character at the end of `a`.
proof fn lemma_pair_in_join(a: Seq<char>, b: Seq<char>, x: char, y: char, i: int)
    requires
        lacks_pair(a, x, y),
        lacks_pair(b, x, y),
        a.len() > 0,
        a.last() != x,
        0 <= i < (a + b).len() - 1,
    ensures
        !((a + b)[i] == x && (a + b)[i + 1] == y),
{
    let w = a + b;
    if i < a.len() - 1 {
        assert(w[i] == a[i] && w[i + 1] == a[i + 1]);
    } else if i == a.len() - 1 {
        assert(w[i] == a.last());
    } else {
        assert(w[i] == b[i - a.len()] && w[i + 1] == b[i - a.len() + 1]);
    }
}

/// Two loads of the checkout, at whatever two clock readings, differ only in
/// what the clock gives: the body is one template of the shop with the cache
/// buster filled in, and the headers agree name for name and, but for the
/// report-only policy that carries the nonce, value for value.
pub proof fn loads_differ_only_by_the_clock(shop: Shop, secs1: u64, nonce1: u32, secs2: u64, nonce2: u32)
    ensures
        checkout_page_view(shop, secs1, nonce1).status == checkout_page_view(shop, secs2, nonce2).status,
        checkout_page_view(shop, secs1, nonce1).body == checkout_body_with(shop, decimal_u64(secs1)),
        checkout_page_view(shop, secs2, nonce2).body == checkout_body_with(shop, decimal_u64(secs2)),
        checkout_page_view(shop, secs1, nonce1).headers.len() == checkout_page_view(shop, secs2, nonce2).headers.len(),
        forall|i: int| 0 <= i < checkout_page_view(shop, secs1, nonce1).headers.len()
            ==> #[trigger] checkout_page_view(shop, secs1, nonce1).headers[i].0
                == checkout_page_view(shop, secs2, nonce2).headers[i].0,
        forall|i: int| 0 <= i < checkout_page_view(shop, secs1, nonce1).headers.len()
            && #[trigger] checkout_page_view(shop, secs1, nonce1).headers[i].0 != CSP_REPORT_ONLY@
            ==> checkout_page_view(shop, secs1, nonce1).headers[i] == checkout_page_view(shop, secs2, nonce2).headers[i],
{
    let s1 = security_headers_spec(shop, nonce1);
    let s2 = security_headers_spec(shop, nonce2);
    lemma_policy_values(shop, nonce1);
    lemma_policy_values(shop, nonce2);
    lemma_fixed_header_text();
    lemma_lower_identity(CSP_REPORT_ONLY@);
    assert forall|i: int| 0 <= i < s1.len() implies #[trigger] s1[i].0 == s2[i].0
        && is_header(s1[i]) == is_header(s2[i]) && (lower_ascii(s1[i].0) != CSP_REPORT_ONLY@ ==> s1[i] == s2[i]) by {
        if i != 6 {
            assert(s1[i] == s2[i]);
        }
    }
    lemma_acceptable_pointwise(s1, s2, CSP_REPORT_ONLY@);
    let a1 = acceptable_headers(s1);
    let a2 = acceptable_headers(s2);
    let h1 = checkout_page_view(shop, secs1, nonce1).headers;
    let h2 = checkout_page_view(shop, secs2, nonce2).headers;
    let base = html_base_headers();
    assert(h1 == base + a1 && h2 == base + a2);
    assert forall|i: int| 0 <= i < h1.len() implies #[trigger] h1[i].0 == h2[i].0
        && (h1[i].0 != CSP_REPORT_ONLY@ ==> h1[i] == h2[i]) by {
        if i >= 2 {
            assert(h1[i] == a1[i - 2] && h2[i] == a2[i - 2]);
        }
    }
}

/// The fixed header names are names HTTP accepts, and the fixed header
/// values and pieces of values are values it accepts.
proof fn lemma_fixed_header_text()
    ensures
        is_header_name(STS@),
        is_header_name(NOSNIFF_NAME@),
        is_header_name(REFERRER@),
        is_header_name(PERMISSIONS@),
        is_header_name(SET_COOKIE@),
        is_header_name(FRAME_OPTIONS@),
        is_header_name(CSP@),
        is_header_name(CSP_REPORT_ONLY@),
        has_no_upper(STS@),
        has_no_upper(NOSNIFF_NAME@),
        has_no_upper(REFERRER@),
        has_no_upper(PERMISSIONS@),
        has_no_upper(SET_COOKIE@),
        has_no_upper(FRAME_OPTIONS@),
        has_no_upper(CSP@),
        has_no_upper(CSP_REPORT_ONLY@),
        is_header_value(STS_VALUE@),
        is_header_value(NOSNIFF@),
        is_header_value(REFERRER_VALUE@),
        is_header_value(PERMISSIONS_VALUE@),
        is_header_value(SESSION_COOKIE@),
        is_header_value(DENY@),
        is_header_value(BASKET_COOKIE@),
        is_header_value(CSP_0@),
        is_header_value(CSP_1@),
        is_header_value(NONCE_0@),
        is_header_value(NONCE_1@),
        is_header_value(SPACE@),
{
    assert(STS@ == "strict-transport-security"@);
    reveal_strlit("strict-transport-security");
    assert(is_header_name(STS@) && has_no_upper(STS@));
    assert(NOSNIFF_NAME@ == "x-content-type-options"@);
    reveal_strlit("x-content-type-options");
    assert(is_header_name(NOSNIFF_NAME@) && has_no_upper(NOSNIFF_NAME@));
    assert(REFERRER@ == "referrer-policy"@);
    reveal_strlit("referrer-policy");
    assert(is_header_name(REFERRER@) && has_no_upper(REFERRER@));
    assert(PERMISSIONS@ == "permissions-policy"@);
    reveal_strlit("permissions-policy");
    assert(is_header_name(PERMISSIONS@) && has_no_upper(PERMISSIONS@));
    assert(SET_COOKIE@ == "set-cookie"@);
    reveal_strlit("set-cookie");
    assert(is_header_name(SET_COOKIE@) && has_no_upper(SET_COOKIE@));
    assert(FRAME_OPTIONS@ == "x-frame-options"@);
    reveal_strlit("x-frame-options");
    assert(is_header_name(FRAME_OPTIONS@) && has_no_upper(FRAME_OPTIONS@));
    assert(CSP@ == "content-security-policy"@);
    reveal_strlit("content-security-policy");
    assert(is_header_name(CSP@) && has_no_upper(CSP@));
    assert(CSP_REPORT_ONLY@ == "content-security-policy-report-only"@);
    reveal_strlit("content-security-policy-report-only");
    assert(is_header_name(CSP_REPORT_ONLY@) && has_no_upper(CSP_REPORT_ONLY@));
    assert(STS_VALUE@ == "max-age=31536000; includeSubDomains"@);
    reveal_strlit("max-age=31536000; includeSubDomains");
    assert(is_header_value(STS_VALUE@));
    assert(NOSNIFF@ == "nosniff"@);
    reveal_strlit("nosniff");
    assert(is_header_value(NOSNIFF@));
    assert(REFERRER_VALUE@ == "strict-origin-when-cross-origin"@);
    reveal_strlit("strict-origin-when-cross-origin");
    assert(is_header_value(REFERRER_VALUE@));
    assert(PERMISSIONS_VALUE@ == "geolocation=(), microphone=(), camera=()"@);
    reveal_strlit("geolocation=(), microphone=(), camera=()");
    assert(is_header_value(PERMISSIONS_VALUE@));
    assert(SESSION_COOKIE@ == "vf-session=testshop; Path=/; HttpOnly; SameSite=Lax"@);
    reveal_strlit("vf-session=testshop; Path=/; HttpOnly; SameSite=Lax");
    assert(is_header_value(SESSION_COOKIE@));
    assert(DENY@ == "DENY"@);
    reveal_strlit("DENY");
    assert(is_header_value(DENY@));
    assert(BASKET_COOKIE@ == "vf-basket=1; Path=/; Max-Age=3600; SameSite=Lax"@);
    reveal_strlit("vf-basket=1; Path=/; Max-Age=3600; SameSite=Lax");
    assert(is_header_value(BASKET_COOKIE@));
    assert(CSP_0@ == "default-src 'self'; script-src 'self' 'unsafe-inline' "@);
    reveal_strlit("default-src 'self'; script-src 'self' 'unsafe-inline' ");
    assert(is_header_value(CSP_0@));
    assert(CSP_1@ == "; style-src 'self' 'unsafe-inline'; frame-ancestors 'none'"@);
    reveal_strlit("; style-src 'self' 'unsafe-inline'; frame-ancestors 'none'");
    assert(is_header_value(CSP_1@));
    assert(NONCE_0@ == "script-src 'self' 'nonce-"@);
    reveal_strlit("script-src 'self' 'nonce-");
    assert(is_header_value(NONCE_0@));
    assert(NONCE_1@ == "' "@);
    reveal_strlit("' ");
    assert(is_header_value(NONCE_1@));
    assert(SPACE@ == " "@);
    reveal_strlit(" ");
    assert(is_header_value(SPACE@));
}

/// The policy values are acceptable exactly when the list of permitted
/// origins is, whatever the nonce.
proof fn lemma_policy_values(shop: Shop, nonce: u32)
    ensures
        is_header_value(csp_value(shop)) == is_header_value(permitted_origins(shop)),
        is_header_value(report_only_value(shop, nonce)) == is_header_value(permitted_origins(shop)),
        origins_are_header_text(shop) ==> is_header_value(permitted_origins(shop)),
{
    lemma_fixed_header_text();
    let p = permitted_origins(shop);
    lemma_value_concat(CSP_0@, p);
    lemma_value_concat(CSP_0@ + p, CSP_1@);
    let digits = decimal_u64(nonce as u64);
    lemma_decimal_digits(nonce as nat);
    assert forall|i: int| 0 <= i < digits.len() implies #[trigger] is_value_char(digits[i]) by {}
    lemma_value_concat(NONCE_0@, digits);
    lemma_value_concat(NONCE_0@ + digits, NONCE_1@);
    lemma_value_concat(NONCE_0@ + digits + NONCE_1@, p);
    let cdn = shop.origin_cdn@;
    let an = shop.origin_analytics@;
    let psp = shop.origin_psp@;
    lemma_value_concat(cdn, SPACE@);
    lemma_value_concat(cdn + SPACE@, an);
    lemma_value_concat(cdn + SPACE@ + an, SPACE@);
    lemma_value_concat(cdn + SPACE@ + an + SPACE@, psp);
    let base = cdn + SPACE@ + an + SPACE@ + psp;
    lemma_value_concat(base, SPACE@);
    lemma_value_concat(base + SPACE@, shop.origin_rogue@);
}

/// When the shop's origins can stand in header values, HTTP accepts every
/// security header of the checkout, and the document carries them all.
proof fn lemma_security_headers_acceptable(shop: Shop, secs: u64, nonce: u32)
    requires
        origins_are_header_text(shop),
    ensures
        forall|i: int| 0 <= i < security_headers_spec(shop, nonce).len()
            ==> #[trigger] is_header(security_headers_spec(shop, nonce)[i]),
        checkout_page_view(shop, secs, nonce).headers == html_base_headers() + security_headers_spec(shop, nonce),
{
    lemma_fixed_header_text();
    lemma_policy_values(shop, nonce);
    let hs = security_headers_spec(shop, nonce);
    assert forall|i: int| 0 <= i < hs.len() implies #[trigger] is_header(hs[i]) by {}
    lemma_all_acceptable(hs);
}

} // verus!
