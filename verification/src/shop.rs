//! The shop's configuration for one run: scenario, consent platform, bundle
//! hash, and the four vendor origins.
use vstd::prelude::*;

use crate::scenario::{Cmp, Scenario};
use crate::page::{is_header_value, is_value_char, lemma_value_concat};
use crate::text::{decimal, decimal_string, lemma_decimal_digits};

verus! {

/// Everything the pages depend on, fixed for the whole run.
pub struct Shop {
    pub scenario: Scenario,
    pub cmp: Cmp,
    pub build_id: String,
    pub origin_cdn: String,
    pub origin_analytics: String,
    pub origin_psp: String,
    pub origin_rogue: String,
}

impl Clone for Shop {
    /// An identical copy: every router of the run serves the same shop.
    fn clone(&self) -> (r: Self)
        ensures
            r == *self,
    {
        Shop {
            scenario: self.scenario,
            cmp: self.cmp,
            build_id: self.build_id.clone(),
            origin_cdn: self.origin_cdn.clone(),
            origin_analytics: self.origin_analytics.clone(),
            origin_psp: self.origin_psp.clone(),
            origin_rogue: self.origin_rogue.clone(),
        }
    }
}

pub const ORIGIN_PREFIX: &'static str = "http://127.0.0.1:";

/// The local origin listening on `port`.
pub open spec fn origin_spec(port: int) -> Seq<char> {
    ORIGIN_PREFIX@ + decimal(port as nat)
}

/// Every origin a shop names can stand in a header value.
pub open spec fn origins_are_header_text(shop: Shop) -> bool {
    &&& is_header_value(shop.origin_cdn@)
    &&& is_header_value(shop.origin_analytics@)
    &&& is_header_value(shop.origin_psp@)
    &&& is_header_value(shop.origin_rogue@)
}

/// A local origin can stand in a header value.
pub proof fn lemma_origin_is_header_text(port: int)
    requires
        0 <= port,
    ensures
        is_header_value(origin_spec(port)),
{
    assert(ORIGIN_PREFIX@ == "http://127.0.0.1:"@);
    reveal_strlit("http://127.0.0.1:");
    assert(is_header_value(ORIGIN_PREFIX@));
    lemma_decimal_digits(port as nat);
    assert forall|i: int| 0 <= i < decimal(port as nat).len() implies #[trigger] is_value_char(decimal(port as nat)[i]) by {}
    lemma_value_concat(ORIGIN_PREFIX@, decimal(port as nat));
}

/// The origin `offset` ports above `base`.
pub fn origin(base: u16, offset: u16) -> (r: String)
    requires
        base + offset <= u16::MAX,
    ensures
        r@ == origin_spec(base + offset),
{
    let port = base + offset;
    let digits = decimal_string(port as u64);
    let mut r = String::from_str(ORIGIN_PREFIX);
    r.append(digits.as_str());
    r
}

impl Shop {
    /// The shop served from `port`, its four vendors on the next four ports
    /// in the order cdn, analytics, psp, rogue.
    pub fn new(port: u16, scenario: Scenario, cmp: Cmp, build_id: String) -> (r: Shop)
        requires
            port + 4 <= u16::MAX,
        ensures
            r.scenario == scenario,
            r.cmp == cmp,
            r.build_id@ == build_id@,
            r.origin_cdn@ == origin_spec(port + 1),
            r.origin_analytics@ == origin_spec(port + 2),
            r.origin_psp@ == origin_spec(port + 3),
            r.origin_rogue@ == origin_spec(port + 4),
            origins_are_header_text(r),
    {
        proof {
            lemma_origin_is_header_text(port + 1);
            lemma_origin_is_header_text(port + 2);
            lemma_origin_is_header_text(port + 3);
            lemma_origin_is_header_text(port + 4);
        }
        Shop {
            scenario,
            cmp,
            build_id,
            origin_cdn: origin(port, 1),
            origin_analytics: origin(port, 2),
            origin_psp: origin(port, 3),
            origin_rogue: origin(port, 4),
        }
    }
}

pub const SUMMARY_0: &'static str = "cm-testshop\n  scenario   ";
pub const SUMMARY_1: &'static str = "  (";
pub const SUMMARY_2: &'static str = ")\n  consent    ";
pub const SUMMARY_3: &'static str = "\n  build id   ";
pub const SUMMARY_4: &'static str = "\n\n  checkout   ";
pub const SUMMARY_5: &'static str = "/checkout\n  robots     ";
pub const SUMMARY_6: &'static str = "/robots.txt\n  tagmanager ";
pub const SUMMARY_7: &'static str = "\n  analytics  ";
pub const SUMMARY_8: &'static str = "\n  psp        ";
pub const SUMMARY_9: &'static str = "\n  rogue      ";
pub const SUMMARY_10: &'static str = "  (loaded only in --scenario new-origin)\n\n  scan it:\n    cargo run -p cm-cli -- --root ./work scan --url ";
pub const SUMMARY_11: &'static str = "/checkout --id my-test-shop\n";

/// The origin of whatever listens on `port`.
pub open spec fn listening_origin(port: u16) -> Seq<char> {
    origin_spec(port as int)
}

/// What the shop prints when it starts: the run's settings, where each origin
/// listens, and how to scan it, one item per line.
pub open spec fn summary_text(shop: Shop, port: u16) -> Seq<char> {
    SUMMARY_0@ + shop.scenario.name() + SUMMARY_1@ + shop.scenario.expected() + SUMMARY_2@
        + shop.cmp.name() + SUMMARY_3@ + shop.build_id@ + SUMMARY_4@ + listening_origin(port)
        + SUMMARY_5@ + listening_origin(port) + SUMMARY_6@ + shop.origin_cdn@ + SUMMARY_7@
        + shop.origin_analytics@ + SUMMARY_8@ + shop.origin_psp@ + SUMMARY_9@ + shop.origin_rogue@
        + SUMMARY_10@ + listening_origin(port) + SUMMARY_11@
}

/// The startup summary for `shop` served from `port`.
pub fn startup_summary(shop: &Shop, port: u16) -> (r: String)
    ensures
        r@ == summary_text(*shop, port),
{
    let home = origin(port, 0);
    let mut r = String::from_str(SUMMARY_0);
    r.append(shop.scenario.as_str());
    r.append(SUMMARY_1);
    r.append(shop.scenario.expectation());
    r.append(SUMMARY_2);
    r.append(shop.cmp.as_str());
    r.append(SUMMARY_3);
    r.append(shop.build_id.as_str());
    r.append(SUMMARY_4);
    r.append(home.as_str());
    r.append(SUMMARY_5);
    r.append(home.as_str());
    r.append(SUMMARY_6);
    r.append(shop.origin_cdn.as_str());
    r.append(SUMMARY_7);
    r.append(shop.origin_analytics.as_str());
    r.append(SUMMARY_8);
    r.append(shop.origin_psp.as_str());
    r.append(SUMMARY_9);
    r.append(shop.origin_rogue.as_str());
    r.append(SUMMARY_10);
    r.append(home.as_str());
    r.append(SUMMARY_11);
    r
}

} // verus!
