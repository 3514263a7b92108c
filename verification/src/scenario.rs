//! The situations the scanner has to get right, made reproducible.
use vstd::prelude::*;

verus! {

/// What the shop serves this run.
///
/// `Baseline` is the shop as it normally is. Every other variant changes
/// exactly one thing, so the resulting diff has exactly one cause.
#[derive(Copy, Clone, Debug, PartialEq, Eq, Structural)]
pub enum Scenario {
    /// The shop as it normally is.
    Baseline,
    /// The analytics vendor shipped a build.
    VendorUpdate,
    /// The shop's own checkout bundle changed.
    FirstPartyChange,
    /// A script appears from an origin never seen on this page.
    NewOrigin,
    /// Content-Security-Policy and X-Frame-Options are gone from the document.
    HeaderWeakened,
    /// The payment provider's SDK no longer loads.
    ScriptGone,
    /// A consent banner with no accept control the driver can find.
    UnhandleableConsent,
    /// The tag manager's inserted inline script carries a timestamp.
    NoisyInline,
    /// `robots.txt` disallows `/checkout`.
    RobotsDeny,
    /// The checkout renders only once the basket holds something.
    NeedsBasket,
    /// The checkout sits behind a token URL minted per visit.
    TokenCheckout,
}

impl Scenario {
    /// The kebab-case name a scenario is selected by.
    pub open spec fn name(self) -> Seq<char> {
        match self {
            Scenario::Baseline => "baseline"@,
            Scenario::VendorUpdate => "vendor-update"@,
            Scenario::FirstPartyChange => "first-party-change"@,
            Scenario::NewOrigin => "new-origin"@,
            Scenario::HeaderWeakened => "header-weakened"@,
            Scenario::ScriptGone => "script-gone"@,
            Scenario::UnhandleableConsent => "unhandleable-consent"@,
            Scenario::NoisyInline => "noisy-inline"@,
            Scenario::RobotsDeny => "robots-deny"@,
            Scenario::NeedsBasket => "needs-basket"@,
            Scenario::TokenCheckout => "token-checkout"@,
        }
    }

    pub fn as_str(self) -> (r: &'static str)
        ensures
            r@ == self.name(),
    {
        match self {
            Scenario::Baseline => "baseline",
            Scenario::VendorUpdate => "vendor-update",
            Scenario::FirstPartyChange => "first-party-change",
            Scenario::NewOrigin => "new-origin",
            Scenario::HeaderWeakened => "header-weakened",
            Scenario::ScriptGone => "script-gone",
            Scenario::UnhandleableConsent => "unhandleable-consent",
            Scenario::NoisyInline => "noisy-inline",
            Scenario::RobotsDeny => "robots-deny",
            Scenario::NeedsBasket => "needs-basket",
            Scenario::TokenCheckout => "token-checkout",
        }
    }

    /// What a scan of this scenario should produce, in one line.
    pub open spec fn expected(self) -> Seq<char> {
        match self {
            Scenario::Baseline => "clean against an approved baseline"@,
            Scenario::VendorUpdate => "one Medium: third-party script changed"@,
            Scenario::FirstPartyChange => "one High: your own script changed"@,
            Scenario::NewOrigin => "one Critical: script from a never-seen origin"@,
            Scenario::HeaderWeakened => "Critical: security header removed (CSP, X-Frame-Options)"@,
            Scenario::ScriptGone => "one Medium: approved script no longer loads"@,
            Scenario::UnhandleableConsent => "capture succeeds, anomaly recorded, consent state honest"@,
            Scenario::NoisyInline => "a Medium every run, forever: the open normalisation problem"@,
            Scenario::RobotsDeny => "refused by conduct before any load"@,
            Scenario::NeedsBasket => "clean once the basket is primed; an empty basket shows no checkout"@,
            Scenario::TokenCheckout => "clean, though the checkout URL changes on every visit"@,
        }
    }

    /// What a scan of this scenario should produce, in one line. Printed at
    /// startup so the expected result is on screen next to the actual one.
    pub fn expectation(self) -> (r: &'static str)
        ensures
            r@ == self.expected(),
    {
        match self {
            Scenario::Baseline => "clean against an approved baseline",
            Scenario::VendorUpdate => "one Medium: third-party script changed",
            Scenario::FirstPartyChange => "one High: your own script changed",
            Scenario::NewOrigin => "one Critical: script from a never-seen origin",
            Scenario::HeaderWeakened => "Critical: security header removed (CSP, X-Frame-Options)",
            Scenario::ScriptGone => "one Medium: approved script no longer loads",
            Scenario::UnhandleableConsent => "capture succeeds, anomaly recorded, consent state honest",
            Scenario::NoisyInline => "a Medium every run, forever: the open normalisation problem",
            Scenario::RobotsDeny => "refused by conduct before any load",
            Scenario::NeedsBasket => "clean once the basket is primed; an empty basket shows no checkout",
            Scenario::TokenCheckout => "clean, though the checkout URL changes on every visit",
        }
    }
}

/// Which consent platform's markup the banner imitates.
#[derive(Copy, Clone, Debug, PartialEq, Eq, Structural)]
pub enum Cmp {
    /// Cookiebot by Usercentrics.
    Cookiebot,
    /// OneTrust.
    Onetrust,
    /// CookieYes.
    Cookieyes,
    /// Usercentrics, rendered into a shadow root.
    Usercentrics,
    /// No banner at all.
    NoBanner,
}

impl Cmp {
    /// The name a platform is selected by.
    pub open spec fn name(self) -> Seq<char> {
        match self {
            Cmp::Cookiebot => "cookiebot"@,
            Cmp::Onetrust => "onetrust"@,
            Cmp::Cookieyes => "cookieyes"@,
            Cmp::Usercentrics => "usercentrics-shadow-dom"@,
            Cmp::NoBanner => "none"@,
        }
    }

    pub fn as_str(self) -> (r: &'static str)
        ensures
            r@ == self.name(),
    {
        match self {
            Cmp::Cookiebot => "cookiebot",
            Cmp::Onetrust => "onetrust",
            Cmp::Cookieyes => "cookieyes",
            Cmp::Usercentrics => "usercentrics-shadow-dom",
            Cmp::NoBanner => "none",
        }
    }
}

} // verus!
