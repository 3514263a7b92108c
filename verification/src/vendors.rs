//! The third-party origins: a tag manager (cdn), an analytics vendor, the
//! payment provider's SDK (psp), and an origin nobody approved (rogue).
use vstd::prelude::*;

use crate::page::{asset_response, asset_view, Page};
use crate::scenario::Scenario;
use crate::shop::Shop;
use crate::templates::{
    COLLECT_0, COLLECT_1, INLINE_NOISY, INLINE_QUIET, JS_TYPE, PAY_SDK, ROGUE_JS, ROGUE_LOAD_0,
    ROGUE_LOAD_1, SCREEN_BEACON_LINE, TAGMANAGER_0, TAGMANAGER_1, TAGMANAGER_2, TAGMANAGER_3,
};

verus! {

/// The line that makes the tag manager load the rogue script, present only in
/// `new-origin`.
pub open spec fn rogue_injection(shop: Shop) -> Seq<char> {
    if shop.scenario == Scenario::NewOrigin {
        ROGUE_LOAD_0@ + shop.origin_rogue@ + ROGUE_LOAD_1@
    } else {
        Seq::empty()
    }
}

/// The inline script the tag manager inserts: timestamped in `noisy-inline`,
/// fixed otherwise.
pub open spec fn inline_body(s: Scenario) -> Seq<char> {
    if s == Scenario::NoisyInline { INLINE_NOISY@ } else { INLINE_QUIET@ }
}

/// `tagmanager.js`.
pub open spec fn tagmanager_text(shop: Shop) -> Seq<char> {
    TAGMANAGER_0@ + shop.origin_analytics@ + TAGMANAGER_1@ + rogue_injection(shop) + TAGMANAGER_2@
        + inline_body(shop.scenario) + TAGMANAGER_3@
}

/// `collect.js`: one extra beacon in `vendor-update`.
pub open spec fn collect_text(s: Scenario) -> Seq<char> {
    COLLECT_0@ + (if s == Scenario::VendorUpdate { SCREEN_BEACON_LINE@ } else { Seq::empty() })
        + COLLECT_1@
}

/// The tag manager: everything it loads is inserted after the initial parse.
pub fn tagmanager(shop: &Shop) -> (r: Page)
    ensures
        r@ == asset_view(JS_TYPE@, tagmanager_text(*shop)),
{
    let mut body = String::from_str(TAGMANAGER_0);
    body.append(shop.origin_analytics.as_str());
    body.append(TAGMANAGER_1);
    if shop.scenario == Scenario::NewOrigin {
        body.append(ROGUE_LOAD_0);
        body.append(shop.origin_rogue.as_str());
        body.append(ROGUE_LOAD_1);
    }
    body.append(TAGMANAGER_2);
    let inline = if shop.scenario == Scenario::NoisyInline { INLINE_NOISY } else { INLINE_QUIET };
    body.append(inline);
    body.append(TAGMANAGER_3);
    assert(body@ =~= tagmanager_text(*shop));
    asset_response(JS_TYPE, body)
}

/// The analytics vendor's tag, which ships builds.
pub fn collect(shop: &Shop) -> (r: Page)
    ensures
        r@ == asset_view(JS_TYPE@, collect_text(shop.scenario)),
{
    let mut body = String::from_str(COLLECT_0);
    if shop.scenario == Scenario::VendorUpdate {
        body.append(SCREEN_BEACON_LINE);
    }
    body.append(COLLECT_1);
    assert(body@ =~= collect_text(shop.scenario));
    asset_response(JS_TYPE, body)
}

/// The payment provider's SDK: the same in every scenario.
pub fn pay_sdk() -> (r: Page)
    ensures
        r@ == asset_view(JS_TYPE@, PAY_SDK@),
{
    asset_response(JS_TYPE, String::from_str(PAY_SDK))
}

/// The origin nobody approved: harmless, and the same in every scenario.
pub fn rogue() -> (r: Page)
    ensures
        r@ == asset_view(JS_TYPE@, ROGUE_JS@),
{
    asset_response(JS_TYPE, String::from_str(ROGUE_JS))
}

} // verus!
