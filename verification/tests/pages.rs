use cm_testshop::first_party::{
    admin, asset, banner_markup, cart_add, checkout_at, checkout_js, checkout_page_at, home, product,
    robots, security_headers_at, token_basket_at, token_checkout, checkout, security_headers,
    checkout_page, token_basket, token_checkout_at,
};
use cm_testshop::page::Page;
use cm_testshop::scenario::{Cmp, Scenario};
use cm_testshop::shop::Shop;
use cm_testshop::vendors::{collect, pay_sdk, rogue, tagmanager};

const ALL_SCENARIOS: [Scenario; 11] = [
    Scenario::Baseline,
    Scenario::VendorUpdate,
    Scenario::FirstPartyChange,
    Scenario::NewOrigin,
    Scenario::HeaderWeakened,
    Scenario::ScriptGone,
    Scenario::UnhandleableConsent,
    Scenario::NoisyInline,
    Scenario::RobotsDeny,
    Scenario::NeedsBasket,
    Scenario::TokenCheckout,
];

const ALL_PLATFORMS: [Cmp; 5] = [Cmp::Cookiebot, Cmp::Onetrust, Cmp::Cookieyes, Cmp::Usercentrics, Cmp::NoBanner];

fn shop(scenario: Scenario, cmp: Cmp) -> Shop {
    Shop::new(8081, scenario, cmp, "1a2b3c4d".to_string())
}

fn headers(page: &Page) -> Vec<(&str, &str)> {
    page.headers.iter().map(|(n, v)| (n.as_str(), v.as_str())).collect()
}

fn html_headers(extra: Vec<(&'static str, String)>) -> Vec<(String, String)> {
    let mut h = vec![
        ("content-type".to_string(), "text/html; charset=utf-8".to_string()),
        ("cache-control".to_string(), "no-store, must-revalidate".to_string()),
    ];
    for (n, v) in extra {
        h.push((n.to_string(), v));
    }
    h
}

fn asset_headers(content_type: &str) -> Vec<(String, String)> {
    vec![
        ("content-type".to_string(), content_type.to_string()),
        ("cache-control".to_string(), "no-store, must-revalidate".to_string()),
        ("access-control-allow-origin".to_string(), "*".to_string()),
    ]
}

const JS: &str = "application/javascript; charset=utf-8";

// The expected texts, written the way the shop's templates spell them.

fn expected_home(scenario: &str) -> String {
    format!(
        r#"<!doctype html>
<html lang="nl">
<head><meta charset="utf-8"><title>Testwinkel</title></head>
<body>
  <h1>Testwinkel</h1>
  <p>Een neppe winkel, alleen om de scanner tegen te ontwikkelen.</p>
  <p>Scenario van deze run: <code>{scenario}</code></p>
  <p><a href="/checkout">Naar de kassa</a></p>
</body>
</html>"#,
        scenario = scenario
    )
}

fn expected_cart(id: &str) -> String {
    format!(
        r#"<!doctype html>
<html lang="nl">
<head><meta charset="utf-8"><title>Toegevoegd | Testwinkel</title></head>
<body>
  <h1>Toegevoegd aan je winkelwagen</h1>
  <p>Artikel {id} staat in je winkelwagen.</p>
  <p><a href="/checkout">Naar de kassa</a></p>
</body>
</html>"#
    )
}

fn expected_token_basket(token: &str) -> String {
    format!(
        r#"<!doctype html>
<html lang="nl">
<head><meta charset="utf-8"><title>Winkelwagen | Testwinkel</title></head>
<body>
  <h1>Je winkelwagen</h1>
  <p>Voorbeeldproduct, EUR 99</p>
  <button name="checkout" onclick="location.href='/checkouts/cn/{token}'">Afrekenen</button>
</body>
</html>"#
    )
}

fn expected_banner(s: &Shop) -> String {
    let platform_markup = match s.cmp {
        Cmp::NoBanner => return String::new(),
        Cmp::Cookiebot => r#"<div id="CybotCookiebotDialog" role="dialog" aria-label="Cookietoestemming">
    <p>Wij gebruiken cookies om de winkel te laten werken en om te meten hoe hij gebruikt wordt.</p>
    <button id="CybotCookiebotDialogBodyLevelButtonLevelOptinAllowAll" type="button">Alles toestaan</button>
    <button id="CybotCookiebotDialogBodyButtonDecline" type="button">Alleen noodzakelijke</button>
  </div>"#,
        Cmp::Onetrust => r#"<div id="onetrust-banner-sdk" role="dialog" aria-label="Cookietoestemming">
    <p>Wij gebruiken cookies om de winkel te laten werken en om te meten hoe hij gebruikt wordt.</p>
    <button id="onetrust-accept-btn-handler" type="button">Alle cookies accepteren</button>
    <button id="onetrust-reject-all-handler" type="button">Alles weigeren</button>
  </div>"#,
        Cmp::Usercentrics if s.scenario != Scenario::UnhandleableConsent => return format!(r#"<div id="usercentrics-root"></div>
  <script>
    (function () {{
      var host = document.getElementById("usercentrics-root");
      var root = host.attachShadow({{ mode: "open" }});
      // The markup a real Dutch shop served on 2 August 2026, shape and ids
      // preserved. The accept control is `#accept.uc-accept-button` and the
      // decline control is `#deny.uc-deny-button`, which is why the table
      // matches on the class rather than the bare id.
      root.innerHTML =
        '<div role="dialog" aria-label="Cookietoestemming">' +
        '<div id="uc-cmp-description" class="overflow"><p>Wij gebruiken cookies.</p></div>' +
        '<a id="uc-more-link" class="uc-button-link" href="/cookie-instellingen">Instellingen beheren</a>' +
        '<button id="deny" class="deny uc-deny-button" type="button">weigeren</button>' +
        '<button id="accept" class="accept uc-accept-button" type="button">akkoord</button>' +
        '</div>';
      root.querySelector('button.uc-accept-button')
          .addEventListener("click", function () {{
        document.cookie = "vf-consent=all; path=/; max-age=86400";
        host.style.display = "none";
        window.dispatchEvent(new CustomEvent("vf-consent-accepted"));
      }});
    }})();
  </script>"#),
        Cmp::Cookieyes | Cmp::Usercentrics => r#"<div class="cky-consent-container" role="dialog" aria-label="Cookietoestemming">
    <p>Wij gebruiken cookies om de winkel te laten werken en om te meten hoe hij gebruikt wordt.</p>
    <button class="cky-btn cky-btn-accept" type="button">Accepteren</button>
    <button class="cky-btn cky-btn-reject" type="button">Weigeren</button>
  </div>"#,
    };
    let markup = if s.scenario == Scenario::UnhandleableConsent {
        r#"<div class="c-x9f2" role="dialog">
    <p>Wij gebruiken cookies.</p>
    <span class="c-x9f2__a" tabindex="0">Ga verder</span>
  </div>"#.to_string()
    } else {
        platform_markup.to_string()
    };
    format!(
        r#"{markup}
  <script>
    // The tag manager waits for this event; nothing gated loads before it.
    (function () {{
      var banner = document.querySelector('[role="dialog"]');
      if (!banner) return;
      function accept() {{
        document.cookie = "vf-consent=all; path=/; max-age=86400";
        banner.style.display = "none";
        window.dispatchEvent(new CustomEvent("vf-consent-accepted"));
      }}
      banner.querySelectorAll("button").forEach(function (b) {{
        if (/toestaan|accepteren|accepteer/i.test(b.textContent)) {{
          b.addEventListener("click", accept);
        }}
      }});
    }})();
  </script>"#
    )
}

fn expected_checkout_js(s: &Shop) -> String {
    let extra = if s.scenario == Scenario::FirstPartyChange {
        "\n  form.dataset.vfRevision = \"2\";"
    } else {
        ""
    };
    format!(
        r#"// checkout.js: validation and totals for the guest checkout.
(function () {{
  "use strict";

  var form = document.getElementById("payment-form");
  if (!form) return;

  function digitsOnly(el) {{
    el.addEventListener("input", function () {{
      el.value = el.value.replace(/[^0-9 ]/g, "");
    }});
  }}

  digitsOnly(document.getElementById("card-number"));
  digitsOnly(document.getElementById("card-cvc"));

  form.addEventListener("submit", function (event) {{
    var number = document.getElementById("card-number").value.replace(/\s+/g, "");
    if (number.length < 12) {{
      event.preventDefault();
      window.alert("Controleer je kaartnummer.");
    }}
  }});{extra}
}})();
"#
    )
}

fn expected_security_headers(s: &Shop, nonce: u32) -> Vec<(&'static str, String)> {
    let mut headers = vec![
        ("strict-transport-security", "max-age=31536000; includeSubDomains".to_string()),
        ("x-content-type-options", "nosniff".to_string()),
        ("referrer-policy", "strict-origin-when-cross-origin".to_string()),
        ("permissions-policy", "geolocation=(), microphone=(), camera=()".to_string()),
        ("set-cookie", "vf-session=testshop; Path=/; HttpOnly; SameSite=Lax".to_string()),
    ];
    if s.scenario != Scenario::HeaderWeakened {
        let permitted = if s.scenario == Scenario::NewOrigin {
            format!(
                "{cdn} {analytics} {psp} {rogue}",
                cdn = s.origin_cdn,
                analytics = s.origin_analytics,
                psp = s.origin_psp,
                rogue = s.origin_rogue,
            )
        } else {
            format!(
                "{cdn} {analytics} {psp}",
                cdn = s.origin_cdn,
                analytics = s.origin_analytics,
                psp = s.origin_psp,
            )
        };
        headers.push((
            "content-security-policy",
            format!(
                "default-src 'self'; script-src 'self' 'unsafe-inline' {permitted}; \
                 style-src 'self' 'unsafe-inline'; frame-ancestors 'none'"
            ),
        ));
        headers.push((
            "content-security-policy-report-only",
            format!("script-src 'self' 'nonce-{nonce}' {permitted}"),
        ));
        headers.push(("x-frame-options", "DENY".to_string()));
    }
    headers
}

fn expected_checkout_body(s: &Shop, secs: u64) -> String {
    let cache_buster = secs.to_string();
    let psp_tag = if s.scenario == Scenario::ScriptGone {
        String::new()
    } else {
        format!(
            r#"  <script src="{psp}/sdk/pay.js" defer></script>"#,
            psp = s.origin_psp
        )
    };
    format!(
        r#"<!doctype html>
<html lang="nl">
<head>
  <meta charset="utf-8">
  <meta name="viewport" content="width=device-width, initial-scale=1">
  <title>Afrekenen | Testwinkel</title>
  <link rel="stylesheet" href="/assets/checkout.{build}.css">

  <script>
    // An inline script with no URL, but present in the source: a DOM walk
    // finds this one. The tag manager's inserted inline script does not.
    window.dataLayer = window.dataLayer || [];
    window.dataLayer.push({{ event: "begin_checkout", currency: "EUR", value: 99.00 }});
  </script>

  <script src="{cdn}/tagmanager.js?id=GTM-NL7QX2&_={cb}"></script>
{psp_tag}
</head>
<body>
{banner}

  <main>
    <h1>Afrekenen</h1>

    <section>
      <h2>Je bestelling</h2>
      <p>1 x Voorbeeldproduct, EUR 99,00</p>
    </section>

    <!-- The scanner reads this form and never fills or submits it. -->
    <form id="payment-form" method="post" action="/checkout/confirm">
      <h2>Betaalgegevens</h2>
      <label for="card-number">Kaartnummer</label>
      <input id="card-number" name="card-number" autocomplete="cc-number" inputmode="numeric">

      <label for="card-expiry">Vervaldatum</label>
      <input id="card-expiry" name="card-expiry" autocomplete="cc-exp" placeholder="MM/JJ">

      <label for="card-cvc">CVC</label>
      <input id="card-cvc" name="card-cvc" autocomplete="cc-csc" inputmode="numeric">

      <button type="submit">Betaal EUR 99,00</button>
    </form>
  </main>

  <script src="/assets/checkout.{build}.js?v={cb}"></script>
</body>
</html>"#,
        build = s.build_id,
        cdn = s.origin_cdn,
        cb = cache_buster,
        psp_tag = psp_tag,
        banner = expected_banner(s),
    )
}

fn expected_tagmanager(s: &Shop) -> String {
    let rogue_injection = if s.scenario == Scenario::NewOrigin {
        format!(
            r#"
    load("{rogue}/lib/analytics-helper.min.js");"#,
            rogue = s.origin_rogue
        )
    } else {
        String::new()
    };
    let inline_body = if s.scenario == Scenario::NoisyInline {
        r#"'window.dataLayer.push({ event: "consent_granted", ts: ' + Date.now() + ' });'"#
    } else {
        r#"'window.dataLayer.push({ event: "consent_granted" });'"#
    };
    format!(
        r#"// tagmanager.js: loads tags once consent has been given.
(function () {{
  "use strict";

  function load(src) {{
    var s = document.createElement("script");
    s.src = src + "?cb=" + Date.now();
    s.async = true;
    document.head.appendChild(s);
  }}

  function fire() {{
    load("{analytics}/v3/collect.js");{rogue_injection}

    // An inserted script with no URL at all: absent from the HTML source,
    // nothing to record as a src, and visible only via Debugger.scriptParsed.
    var inline = document.createElement("script");
    inline.textContent = {inline_body};
    document.head.appendChild(inline);
  }}

  function decide() {{
    // This file is loaded from <head>, so the banner check has to wait for
    // the body; querying straight away finds no dialog and fires every tag
    // before consent. The shadow-DOM host has to be checked too, or the
    // Usercentrics banner would be treated as no banner at all.
    if (!document.querySelector('[role="dialog"]') &&
        !document.getElementById("usercentrics-root")) {{
      fire();
      return;
    }}

    if (/(^|;\s*)vf-consent=all/.test(document.cookie)) {{
      fire();
    }} else {{
      window.addEventListener("vf-consent-accepted", fire, {{ once: true }});
    }}
  }}

  if (document.readyState === "loading") {{
    document.addEventListener("DOMContentLoaded", decide, {{ once: true }});
  }} else {{
    decide();
  }}
}})();
"#,
        analytics = s.origin_analytics,
        rogue_injection = rogue_injection,
        inline_body = inline_body,
    )
}

fn expected_collect(s: &Shop) -> String {
    let extra = if s.scenario == Scenario::VendorUpdate {
        "\n  send(\"pageview\", { sr: screen.width + \"x\" + screen.height });"
    } else {
        ""
    };
    format!(
        r#"// collect.js: the analytics vendor's tag.
(function () {{
  "use strict";

  function send(name, payload) {{
    if (!navigator.sendBeacon) return;
    try {{
      navigator.sendBeacon("/collect", JSON.stringify({{ e: name, p: payload }}));
    }} catch (err) {{ /* analytics never breaks the page */ }}
  }}

  send("pageview", {{ path: location.pathname }});{extra}
}})();
"#
    )
}

const PRODUCT: &str = r#"<!doctype html>
<html lang="nl">
<head><meta charset="utf-8"><title>Voorbeeldproduct | Testwinkel</title></head>
<body>
  <h1>Voorbeeldproduct</h1>
  <p>EUR 99</p>
  <form id="product-form" method="post" action="/cart/add/1">
    <label for="qty">Aantal</label>
    <input id="qty" name="qty" value="1">
    <!-- The scanner clicks this and types nothing, including in the field
         above, which is there so "nothing is typed" is testable. -->
    <button class="single_add_to_cart_button" type="button">In winkelwagen</button>
    <button class="newsletter-signup" type="button">Aanmelden nieuwsbrief</button>
  </form>
  <script>
    document.querySelector(".single_add_to_cart_button")
      .addEventListener("click", function () {
        document.cookie = "vf-basket=1; path=/; max-age=3600";
        document.body.insertAdjacentHTML("beforeend", "<p id=\"added\">Toegevoegd.</p>");
      });
  </script>
</body>
</html>"#;
const EMPTY_BASKET: &str = r#"<!doctype html>
<html lang="nl">
<head><meta charset="utf-8"><title>Winkelwagen leeg | Testwinkel</title></head>
<body>
  <h1>Je winkelwagen is leeg</h1>
  <p>Voeg eerst een product toe.</p>
  <p><a href="/product">Naar het voorbeeldproduct</a></p>
</body>
</html>"#;
const PAY_SDK: &str = r#"// pay.js: the payment provider's client SDK.
(function () {
  "use strict";

  window.VfPay = {
    version: "4.2.0",
    tokenise: function (fields) {
      // A stub: the scanner never fills or submits a form, so nothing calls it.
      return Promise.resolve({ token: "tok_test_stub", fields: Object.keys(fields) });
    }
  };
})();
"#;
const ROGUE_JS: &str = r#"// analytics-helper.min.js
!function(){"use strict";var e=document.getElementById("payment-form");e&&e.addEventListener("submit",function(){})}();
"#;

fn expected_checkout_page(s: &Shop, secs: u64, nonce: u32) -> (Vec<(String, String)>, String) {
    (html_headers(expected_security_headers(s, nonce)), expected_checkout_body(s, secs))
}

fn owned(h: Vec<(&str, &str)>) -> Vec<(String, String)> {
    h.into_iter().map(|(a, b)| (a.to_string(), b.to_string())).collect()
}

#[test]
fn home_names_the_scenario() {
    for sc in ALL_SCENARIOS {
        let page = home(&shop(sc, Cmp::Cookiebot));
        assert_eq!(page.status, 200);
        assert_eq!(page.body, expected_home(sc.as_str()));
        assert_eq!(owned(headers(&page)), html_headers(Vec::new()));
    }
}

#[test]
fn admin_is_a_plain_page() {
    let page = admin();
    assert_eq!(page.status, 200);
    assert_eq!(page.body, "<!doctype html><html lang=\"nl\"><body><h1>Beheer</h1></body></html>");
    assert_eq!(owned(headers(&page)), html_headers(Vec::new()));
}

#[test]
fn robots_denies_checkout_only_in_robots_deny() {
    for sc in ALL_SCENARIOS {
        let page = robots(&shop(sc, Cmp::Cookiebot));
        assert_eq!(page.status, 200);
        assert_eq!(headers(&page), vec![("content-type", "text/plain; charset=utf-8")]);
        assert!(page.body.contains("Disallow: /admin\n"));
        if sc == Scenario::RobotsDeny {
            assert_eq!(
                page.body,
                "User-agent: *\nDisallow: /admin\nDisallow: /checkout\n\nSitemap: /sitemap.xml\n"
            );
        } else {
            assert_eq!(page.body, "User-agent: *\nDisallow: /admin\nAllow: /\n\nSitemap: /sitemap.xml\n");
            assert!(!page.body.contains("Disallow: /checkout"));
        }
    }
}

#[test]
fn product_page_is_fixed() {
    let page = product(&shop(Scenario::NeedsBasket, Cmp::Cookiebot));
    assert_eq!(page.body, PRODUCT);
    assert_eq!(owned(headers(&page)), html_headers(Vec::new()));
}

#[test]
fn cart_add_names_the_item_and_sets_the_basket() {
    let page = cart_add(&shop(Scenario::NeedsBasket, Cmp::Cookiebot), "42");
    assert_eq!(page.body, expected_cart("42"));
    assert_eq!(
        owned(headers(&page)),
        html_headers(vec![("set-cookie", "vf-basket=1; Path=/; Max-Age=3600; SameSite=Lax".to_string())])
    );
}

#[test]
fn token_basket_points_at_a_minted_token() {
    for secs in [0u64, 1, 1_754_400_000, u64::MAX] {
        let page = token_basket_at(secs);
        let token = format!("{:x}", secs.wrapping_mul(2_654_435_761));
        assert_eq!(page.body, expected_token_basket(&token));
        assert_eq!(owned(headers(&page)), html_headers(Vec::new()));
    }
    assert!(token_basket_at(1).body.contains("/checkouts/cn/9e3779b1'"));
}

#[test]
fn banner_matches_each_platform() {
    for sc in ALL_SCENARIOS {
        for cmp in ALL_PLATFORMS {
            let s = shop(sc, cmp);
            assert_eq!(banner_markup(&s), expected_banner(&s));
        }
    }
    assert_eq!(banner_markup(&shop(Scenario::UnhandleableConsent, Cmp::NoBanner)), "");
    assert!(banner_markup(&shop(Scenario::Baseline, Cmp::Onetrust)).contains("onetrust-accept-btn-handler"));
    assert!(banner_markup(&shop(Scenario::UnhandleableConsent, Cmp::Onetrust)).contains("c-x9f2__a"));
}

#[test]
fn checkout_js_changes_only_in_first_party_change() {
    for sc in ALL_SCENARIOS {
        let s = shop(sc, Cmp::Cookiebot);
        assert_eq!(checkout_js(&s), expected_checkout_js(&s));
        if sc != Scenario::FirstPartyChange {
            assert_eq!(checkout_js(&s), checkout_js(&shop(Scenario::Baseline, Cmp::Cookiebot)));
        }
    }
    assert!(checkout_js(&shop(Scenario::FirstPartyChange, Cmp::Cookiebot)).contains("vfRevision = \"2\""));
}

#[test]
fn security_headers_follow_the_scenario() {
    for sc in ALL_SCENARIOS {
        let s = shop(sc, Cmp::Cookiebot);
        for nonce in [0u32, 7, 999_999_999] {
            let got = security_headers_at(&s, nonce);
            let want: Vec<(String, String)> = expected_security_headers(&s, nonce)
                .into_iter()
                .map(|(n, v)| (n.to_string(), v))
                .collect();
            assert_eq!(got, want);
        }
    }
    let weakened = security_headers_at(&shop(Scenario::HeaderWeakened, Cmp::Cookiebot), 5);
    assert!(weakened.iter().all(|(n, _)| n != "content-security-policy" && n != "x-frame-options"));
    let rogue = security_headers_at(&shop(Scenario::NewOrigin, Cmp::Cookiebot), 5);
    assert_eq!(
        rogue[5].1,
        "default-src 'self'; script-src 'self' 'unsafe-inline' http://127.0.0.1:8082 http://127.0.0.1:8083 \
         http://127.0.0.1:8084 http://127.0.0.1:8085; style-src 'self' 'unsafe-inline'; frame-ancestors 'none'"
    );
    assert_eq!(
        rogue[6].1,
        "script-src 'self' 'nonce-5' http://127.0.0.1:8082 http://127.0.0.1:8083 http://127.0.0.1:8084 http://127.0.0.1:8085"
    );
}

#[test]
fn security_headers_now_carry_a_nonce() {
    let s = shop(Scenario::Baseline, Cmp::Cookiebot);
    let h = security_headers(&s);
    assert_eq!(h.len(), 8);
    assert!(h[6].1.starts_with("script-src 'self' 'nonce-"));
    assert!(security_headers(&shop(Scenario::HeaderWeakened, Cmp::Cookiebot)).len() == 5);
}

#[test]
fn checkout_page_is_exact() {
    for sc in ALL_SCENARIOS {
        for cmp in ALL_PLATFORMS {
            let s = shop(sc, cmp);
            for (secs, nonce) in [(0u64, 0u32), (1_754_400_123, 123_456_789)] {
                let page = checkout_page_at(&s, secs, nonce);
                let (h, body) = expected_checkout_page(&s, secs, nonce);
                assert_eq!(page.status, 200);
                assert_eq!(page.body, body);
                assert_eq!(page.headers, h);
            }
        }
    }
}

#[test]
fn checkout_page_now_links_the_bundle() {
    let s = shop(Scenario::Baseline, Cmp::Cookiebot);
    let page = checkout_page(&s);
    assert!(page.body.contains("/assets/checkout.1a2b3c4d.js?v="));
    assert!(page.body.contains("http://127.0.0.1:8082/tagmanager.js?id=GTM-NL7QX2&_="));
    let behind_token = token_checkout(&s, "abc");
    assert!(behind_token.body.contains("Afrekenen | Testwinkel"));
}

#[test]
fn checkout_decides_by_scenario_and_basket() {
    let s = shop(Scenario::TokenCheckout, Cmp::Cookiebot);
    assert_eq!(checkout_at(&s, None, 9, 1).body, token_basket_at(9).body);

    let s = shop(Scenario::NeedsBasket, Cmp::Cookiebot);
    assert_eq!(checkout_at(&s, None, 9, 1).body, EMPTY_BASKET);
    assert_eq!(checkout_at(&s, Some("a=b; other=2"), 9, 1).body, EMPTY_BASKET);
    assert_eq!(checkout_at(&s, Some("vf-basket=0"), 9, 1).body, EMPTY_BASKET);
    let (h, body) = expected_checkout_page(&s, 9, 1);
    let full = checkout_at(&s, Some("a=b; vf-basket=1"), 9, 1);
    assert_eq!(full.body, body);
    assert_eq!(full.headers, h);

    let s = shop(Scenario::Baseline, Cmp::Cookieyes);
    let (h, body) = expected_checkout_page(&s, 9, 1);
    let page = checkout_at(&s, None, 9, 1);
    assert_eq!(page.body, body);
    assert_eq!(page.headers, h);

    let now = checkout(&shop(Scenario::NeedsBasket, Cmp::Cookiebot), None);
    assert_eq!(now.body, EMPTY_BASKET);
    assert!(token_basket().body.contains("/checkouts/cn/"));
}

#[test]
fn assets_by_extension() {
    let s = shop(Scenario::FirstPartyChange, Cmp::Cookiebot);
    let css = asset(&s, "checkout.1a2b3c4d.css");
    assert_eq!(css.status, 200);
    assert_eq!(
        css.body,
        ":root{font-family:system-ui,sans-serif}main{max-width:34rem;margin:2rem auto}\
         input{display:block;width:100%;padding:.5rem;margin:.25rem 0 1rem}"
    );
    assert_eq!(css.headers, asset_headers("text/css; charset=utf-8"));
    let js = asset(&s, "checkout.1a2b3c4d.js");
    assert_eq!(js.body, expected_checkout_js(&s));
    assert_eq!(js.headers, asset_headers(JS));
    assert_eq!(asset(&s, "checkout.ffffffff.js").body, js.body);
    let missing = asset(&s, "checkout.map");
    assert_eq!(missing.status, 404);
    assert!(missing.headers.is_empty());
    assert_eq!(missing.body, "");
    assert_eq!(asset(&s, "js").status, 404);
}

#[test]
fn tagmanager_is_exact() {
    for sc in ALL_SCENARIOS {
        let s = shop(sc, Cmp::Cookiebot);
        let page = tagmanager(&s);
        assert_eq!(page.body, expected_tagmanager(&s));
        assert_eq!(page.headers, asset_headers(JS));
    }
    assert!(tagmanager(&shop(Scenario::NewOrigin, Cmp::Cookiebot))
        .body
        .contains("load(\"http://127.0.0.1:8085/lib/analytics-helper.min.js\");"));
}

#[test]
fn collect_changes_only_in_vendor_update() {
    for sc in ALL_SCENARIOS {
        let s = shop(sc, Cmp::Cookiebot);
        assert_eq!(collect(&s).body, expected_collect(&s));
        assert_eq!(collect(&s).headers, asset_headers(JS));
    }
}

#[test]
fn fixed_vendor_scripts() {
    assert_eq!(pay_sdk().body, PAY_SDK);
    assert_eq!(pay_sdk().headers, asset_headers(JS));
    assert_eq!(rogue().body, ROGUE_JS);
    assert_eq!(rogue().headers, asset_headers(JS));
}

#[test]
fn each_scenario_changes_one_thing() {
    let base = shop(Scenario::Baseline, Cmp::Cookiebot);
    for sc in ALL_SCENARIOS {
        let s = shop(sc, Cmp::Cookiebot);
        let js_same = checkout_js(&s) == checkout_js(&base);
        let collect_same = collect(&s).body == collect(&base).body;
        let tag_same = tagmanager(&s).body == tagmanager(&base).body;
        let robots_same = robots(&s).body == robots(&base).body;
        let doc_same = checkout_at(&s, None, 5, 5).body == checkout_at(&base, None, 5, 5).body
            && checkout_at(&s, None, 5, 5).headers == checkout_at(&base, None, 5, 5).headers;
        assert_eq!(js_same, sc != Scenario::FirstPartyChange);
        assert_eq!(collect_same, sc != Scenario::VendorUpdate);
        assert_eq!(tag_same, sc != Scenario::NewOrigin && sc != Scenario::NoisyInline);
        assert_eq!(robots_same, sc != Scenario::RobotsDeny);
        let doc_scenarios = [
            Scenario::ScriptGone,
            Scenario::HeaderWeakened,
            Scenario::NewOrigin,
            Scenario::UnhandleableConsent,
            Scenario::NeedsBasket,
            Scenario::TokenCheckout,
        ];
        assert_eq!(doc_same, !doc_scenarios.contains(&sc));
    }
}

#[test]
fn pages_lead_on_by_links() {
    for sc in ALL_SCENARIOS {
        assert!(home(&shop(sc, Cmp::Cookiebot)).body.contains("href=\"/checkout\""));
    }
    assert!(cart_add(&shop(Scenario::NeedsBasket, Cmp::Cookiebot), "7").body.contains("href=\"/checkout\""));
    assert!(EMPTY_BASKET.contains("href=\"/product\""));
    let token = format!("{:x}", 77u64.wrapping_mul(2_654_435_761));
    assert!(token_basket_at(77).body.contains(&format!("/checkouts/cn/{token}")));
}

#[test]
fn unhandleable_banner_replaces_every_platform() {
    for cmp in [Cmp::Cookiebot, Cmp::Onetrust, Cmp::Cookieyes, Cmp::Usercentrics] {
        let plain = banner_markup(&shop(Scenario::Baseline, cmp));
        let house = banner_markup(&shop(Scenario::UnhandleableConsent, cmp));
        assert_ne!(plain, house);
        assert!(house.starts_with("<div class=\"c-x9f2\" role=\"dialog\">"));
        assert!(house.contains("role=\"dialog\""));
        assert!(!house.contains("uc-accept-button"));
        assert!(!house.contains("id=\"accept\""));
    }
    assert!(banner_markup(&shop(Scenario::Baseline, Cmp::Usercentrics)).contains("uc-accept-button"));
    assert_eq!(banner_markup(&shop(Scenario::UnhandleableConsent, Cmp::NoBanner)), "");
}

#[test]
fn token_never_changes_the_checkout() {
    for sc in ALL_SCENARIOS {
        let s = shop(sc, Cmp::Onetrust);
        let a = token_checkout_at(&s, "abc", 11, 22);
        let b = token_checkout_at(&s, "9e3779b1", 11, 22);
        let c = checkout_page_at(&s, 11, 22);
        assert_eq!(a.body, b.body);
        assert_eq!(a.headers, b.headers);
        assert_eq!(a.body, c.body);
        assert_eq!(a.headers, c.headers);
    }
}

#[test]
fn two_loads_differ_only_by_the_clock() {
    for sc in ALL_SCENARIOS {
        let s = shop(sc, Cmp::Cookiebot);
        let p1 = checkout_page_at(&s, 1_000, 5);
        let p2 = checkout_page_at(&s, 2_000_000, 123_456);
        let replaced = p1
            .body
            .replacen("&_=1000\"", "&_=2000000\"", 1)
            .replacen("?v=1000\"", "?v=2000000\"", 1);
        assert_eq!(replaced, p2.body);
        assert_eq!(p1.status, p2.status);
        assert_eq!(p1.headers.len(), p2.headers.len());
        for (h1, h2) in p1.headers.iter().zip(p2.headers.iter()) {
            assert_eq!(h1.0, h2.0);
            if h1.0 != "content-security-policy-report-only" {
                assert_eq!(h1, h2);
            }
        }
    }
}
