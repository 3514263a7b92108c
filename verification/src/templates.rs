//! The fixed text of every page, script and header the shop serves. Pieces
//! named `_0`, `_1`, ... are the stretches between the values a page fills in.
use vstd::prelude::*;

use crate::text::{has_infix, has_suffix, occurs_at};

verus! {

pub const HOME_0: &'static str = r##"<!doctype html>
<html lang="nl">
<head><meta charset="utf-8"><title>Testwinkel</title></head>
<body>
  <h1>Testwinkel</h1>
  <p>Een neppe winkel, alleen om de scanner tegen te ontwikkelen.</p>
  <p>Scenario van deze run: <code>"##;
pub const HOME_1: &'static str = r##"</code></p>
  <p><a href="/checkout">Naar de kassa</a></p>
</body>
</html>"##;
pub const PRODUCT: &'static str = r##"<!doctype html>
<html lang="nl">
<head><meta charset="utf-8"><title>Voorbeeldproduct | Testwinkel</title></head>
<body>
  <h1>Voorbeeldproduct</h1>
  <p>EUR 99</p>
  <form id="product-form" method="post" action="/cart/add/1">
    <label for="qty">Aantal</label>
    <input id="qty" name="qty" value="1">
    <!-- The scanner clicks this and types nothing, including in the field
         above, which is there so "nothing is typed" is testable. -->
    <button class="single_add_to_cart_button" type="button">In winkelwagen</button>
    <button class="newsletter-signup" type="button">Aanmelden nieuwsbrief</button>
  </form>
  <script>
    document.querySelector(".single_add_to_cart_button")
      .addEventListener("click", function () {
        document.cookie = "vf-basket=1; path=/; max-age=3600";
        document.body.insertAdjacentHTML("beforeend", "<p id=\"added\">Toegevoegd.</p>");
      });
  </script>
</body>
</html>"##;
pub const CART_0: &'static str = r##"<!doctype html>
<html lang="nl">
<head><meta charset="utf-8"><title>Toegevoegd | Testwinkel</title></head>
<body>
  <h1>Toegevoegd aan je winkelwagen</h1>
  <p>Artikel "##;
pub const CART_1: &'static str = r##" staat in je winkelwagen.</p>
  <p><a href="/checkout">Naar de kassa</a></p>
</body>
</html>"##;
pub const TOKEN_BASKET_0: &'static str = r##"<!doctype html>
<html lang="nl">
<head><meta charset="utf-8"><title>Winkelwagen | Testwinkel</title></head>
<body>
  <h1>Je winkelwagen</h1>
  <p>Voorbeeldproduct, EUR 99</p>
  <button name="checkout" onclick="location.href='/checkouts/cn/"##;
pub const TOKEN_BASKET_1: &'static str = r##"'">Afrekenen</button>
</body>
</html>"##;
pub const EMPTY_BASKET: &'static str = r##"<!doctype html>
<html lang="nl">
<head><meta charset="utf-8"><title>Winkelwagen leeg | Testwinkel</title></head>
<body>
  <h1>Je winkelwagen is leeg</h1>
  <p>Voeg eerst een product toe.</p>
  <p><a href="/product">Naar het voorbeeldproduct</a></p>
</body>
</html>"##;
pub const PSP_TAG_0: &'static str = r##"  <script src=""##;
pub const PSP_TAG_1: &'static str = r##"/sdk/pay.js" defer></script>"##;
pub const CHECKOUT_0: &'static str = r##"<!doctype html>
<html lang="nl">
<head>
  <meta charset="utf-8">
  <meta name="viewport" content="width=device-width, initial-scale=1">
  <title>Afrekenen | Testwinkel</title>
  <link rel="stylesheet" href="/assets/checkout."##;
pub const CHECKOUT_1: &'static str = r##".css">

  <script>
    // An inline script with no URL, but present in the source: a DOM walk
    // finds this one. The tag manager's inserted inline script does not.
    window.dataLayer = window.dataLayer || [];
    window.dataLayer.push({ event: "begin_checkout", currency: "EUR", value: 99.00 });
  </script>

  <script src=""##;
pub const CHECKOUT_2: &'static str = r##"/tagmanager.js?id=GTM-NL7QX2&_="##;
pub const CHECKOUT_3: &'static str = r##""></script>
"##;
pub const CHECKOUT_4: &'static str = r##"
</head>
<body>
"##;
pub const CHECKOUT_5: &'static str = r##"

  <main>
    <h1>Afrekenen</h1>

    <section>
      <h2>Je bestelling</h2>
      <p>1 x Voorbeeldproduct, EUR 99,00</p>
    </section>

    <!-- The scanner reads this form and never fills or submits it. -->
    <form id="payment-form" method="post" action="/checkout/confirm">
      <h2>Betaalgegevens</h2>
      <label for="card-number">Kaartnummer</label>
      <input id="card-number" name="card-number" autocomplete="cc-number" inputmode="numeric">

      <label for="card-expiry">Vervaldatum</label>
      <input id="card-expiry" name="card-expiry" autocomplete="cc-exp" placeholder="MM/JJ">

      <label for="card-cvc">CVC</label>
      <input id="card-cvc" name="card-cvc" autocomplete="cc-csc" inputmode="numeric">

      <button type="submit">Betaal EUR 99,00</button>
    </form>
  </main>

  <script src="/assets/checkout."##;
pub const CHECKOUT_6: &'static str = r##".js?v="##;
pub const CHECKOUT_7: &'static str = r##""></script>
</body>
</html>"##;
pub const CHECKOUT_JS_0: &'static str = r##"// checkout.js: validation and totals for the guest checkout.
(function () {
  "use strict";

  var form = document.getElementById("payment-form");
  if (!form) return;

  function digitsOnly(el) {
    el.addEventListener("input", function () {
      el.value = el.value.replace(/[^0-9 ]/g, "");
    });
  }

  digitsOnly(document.getElementById("card-number"));
  digitsOnly(document.getElementById("card-cvc"));

  form.addEventListener("submit", function (event) {
    var number = document.getElementById("card-number").value.replace(/\s+/g, "");
    if (number.length < 12) {
      event.preventDefault();
      window.alert("Controleer je kaartnummer.");
    }
  });"##;
pub const CHECKOUT_JS_1: &'static str = r##"
})();
"##;
pub const COOKIEBOT: &'static str = r##"<div id="CybotCookiebotDialog" role="dialog" aria-label="Cookietoestemming">
    <p>Wij gebruiken cookies om de winkel te laten werken en om te meten hoe hij gebruikt wordt.</p>
    <button id="CybotCookiebotDialogBodyLevelButtonLevelOptinAllowAll" type="button">Alles toestaan</button>
    <button id="CybotCookiebotDialogBodyButtonDecline" type="button">Alleen noodzakelijke</button>
  </div>"##;
pub const ONETRUST: &'static str = r##"<div id="onetrust-banner-sdk" role="dialog" aria-label="Cookietoestemming">
    <p>Wij gebruiken cookies om de winkel te laten werken en om te meten hoe hij gebruikt wordt.</p>
    <button id="onetrust-accept-btn-handler" type="button">Alle cookies accepteren</button>
    <button id="onetrust-reject-all-handler" type="button">Alles weigeren</button>
  </div>"##;
pub const USERCENTRICS: &'static str = r##"<div id="usercentrics-root"></div>
  <script>
    (function () {
      var host = document.getElementById("usercentrics-root");
      var root = host.attachShadow({ mode: "open" });
      // The markup a real Dutch shop served on 2 August 2026, shape and ids
      // preserved. The accept control is `#accept.uc-accept-button` and the
      // decline control is `#deny.uc-deny-button`, which is why the table
      // matches on the class rather than the bare id.
      root.innerHTML =
        '<div role="dialog" aria-label="Cookietoestemming">' +
        '<div id="uc-cmp-description" class="overflow"><p>Wij gebruiken cookies.</p></div>' +
        '<a id="uc-more-link" class="uc-button-link" href="/cookie-instellingen">Instellingen beheren</a>' +
        '<button id="deny" class="deny uc-deny-button" type="button">weigeren</button>' +
        '<button id="accept" class="accept uc-accept-button" type="button">akkoord</button>' +
        '</div>';
      root.querySelector('button.uc-accept-button')
          .addEventListener("click", function () {
        document.cookie = "vf-consent=all; path=/; max-age=86400";
        host.style.display = "none";
        window.dispatchEvent(new CustomEvent("vf-consent-accepted"));
      });
    })();
  </script>"##;
pub const COOKIEYES: &'static str = r##"<div class="cky-consent-container" role="dialog" aria-label="Cookietoestemming">
    <p>Wij gebruiken cookies om de winkel te laten werken en om te meten hoe hij gebruikt wordt.</p>
    <button class="cky-btn cky-btn-accept" type="button">Accepteren</button>
    <button class="cky-btn cky-btn-reject" type="button">Weigeren</button>
  </div>"##;
pub const HOUSE_BANNER: &'static str = r##"<div class="c-x9f2" role="dialog">
    <p>Wij gebruiken cookies.</p>
    <span class="c-x9f2__a" tabindex="0">Ga verder</span>
  </div>"##;

pub const BANNER_SCRIPT: &'static str = r##"
  <script>
    // The tag manager waits for this event; nothing gated loads before it.
    (function () {
      var banner = document.querySelector('[role="dialog"]');
      if (!banner) return;
      function accept() {
        document.cookie = "vf-consent=all; path=/; max-age=86400";
        banner.style.display = "none";
        window.dispatchEvent(new CustomEvent("vf-consent-accepted"));
      }
      banner.querySelectorAll("button").forEach(function (b) {
        if (/toestaan|accepteren|accepteer/i.test(b.textContent)) {
          b.addEventListener("click", accept);
        }
      });
    })();
  </script>"##;
pub const ROGUE_LOAD_0: &'static str = r##"
    load(""##;
pub const ROGUE_LOAD_1: &'static str = r##"/lib/analytics-helper.min.js");"##;
pub const INLINE_NOISY: &'static str = r##"'window.dataLayer.push({ event: "consent_granted", ts: ' + Date.now() + ' });'"##;
pub const INLINE_QUIET: &'static str = r##"'window.dataLayer.push({ event: "consent_granted" });'"##;
pub const TAGMANAGER_0: &'static str = r##"// tagmanager.js: loads tags once consent has been given.
(function () {
  "use strict";

  function load(src) {
    var s = document.createElement("script");
    s.src = src + "?cb=" + Date.now();
    s.async = true;
    document.head.appendChild(s);
  }

  function fire() {
    load(""##;
pub const TAGMANAGER_1: &'static str = r##"/v3/collect.js");"##;
pub const TAGMANAGER_2: &'static str = r##"

    // An inserted script with no URL at all: absent from the HTML source,
    // nothing to record as a src, and visible only via Debugger.scriptParsed.
    var inline = document.createElement("script");
    inline.textContent = "##;
pub const TAGMANAGER_3: &'static str = r##";
    document.head.appendChild(inline);
  }

  function decide() {
    // This file is loaded from <head>, so the banner check has to wait for
    // the body; querying straight away finds no dialog and fires every tag
    // before consent. The shadow-DOM host has to be checked too, or the
    // Usercentrics banner would be treated as no banner at all.
    if (!document.querySelector('[role="dialog"]') &&
        !document.getElementById("usercentrics-root")) {
      fire();
      return;
    }

    if (/(^|;\s*)vf-consent=all/.test(document.cookie)) {
      fire();
    } else {
      window.addEventListener("vf-consent-accepted", fire, { once: true });
    }
  }

  if (document.readyState === "loading") {
    document.addEventListener("DOMContentLoaded", decide, { once: true });
  } else {
    decide();
  }
})();
"##;
pub const COLLECT_0: &'static str = r##"// collect.js: the analytics vendor's tag.
(function () {
  "use strict";

  function send(name, payload) {
    if (!navigator.sendBeacon) return;
    try {
      navigator.sendBeacon("/collect", JSON.stringify({ e: name, p: payload }));
    } catch (err) { /* analytics never breaks the page */ }
  }

  send("pageview", { path: location.pathname });"##;
pub const COLLECT_1: &'static str = r##"
})();
"##;
pub const PAY_SDK: &'static str = r##"// pay.js: the payment provider's client SDK.
(function () {
  "use strict";

  window.VfPay = {
    version: "4.2.0",
    tokenise: function (fields) {
      // A stub: the scanner never fills or submits a form, so nothing calls it.
      return Promise.resolve({ token: "tok_test_stub", fields: Object.keys(fields) });
    }
  };
})();
"##;
pub const ROGUE_JS: &'static str = r##"// analytics-helper.min.js
!function(){"use strict";var e=document.getElementById("payment-form");e&&e.addEventListener("submit",function(){})}();
"##;

pub const ADMIN: &'static str = "<!doctype html><html lang=\"nl\"><body><h1>Beheer</h1></body></html>";
pub const ROBOTS_DENY: &'static str = "User-agent: *\nDisallow: /admin\nDisallow: /checkout\n\nSitemap: /sitemap.xml\n";
pub const ROBOTS_ALLOW: &'static str = "User-agent: *\nDisallow: /admin\nAllow: /\n\nSitemap: /sitemap.xml\n";
pub const TEXT_TYPE: &'static str = "text/plain; charset=utf-8";
pub const CSS_TYPE: &'static str = "text/css; charset=utf-8";
pub const JS_TYPE: &'static str = "application/javascript; charset=utf-8";
pub const CHECKOUT_CSS: &'static str = ":root{font-family:system-ui,sans-serif}main{max-width:34rem;margin:2rem auto}input{display:block;width:100%;padding:.5rem;margin:.25rem 0 1rem}";
pub const REVISION_LINE: &'static str = "\n  form.dataset.vfRevision = \"2\";";
pub const SCREEN_BEACON_LINE: &'static str = "\n  send(\"pageview\", { sr: screen.width + \"x\" + screen.height });";
pub const SET_COOKIE: &'static str = "set-cookie";
pub const BASKET_COOKIE: &'static str = "vf-basket=1; Path=/; Max-Age=3600; SameSite=Lax";
pub const BASKET_MARK: &'static str = "vf-basket=1";
pub const CSS_SUFFIX: &'static str = ".css";
pub const JS_SUFFIX: &'static str = ".js";

/// No `a` in `s` stands directly before a `b`.
pub open spec fn lacks_pair(s: Seq<char>, a: char, b: char) -> bool {
    forall|i: int| 0 <= i < s.len() - 1 ==> !(#[trigger] s[i] == a && s[i + 1] == b)
}

/// How the house-built banner opens and ends, and two pairs of characters
/// it never holds: `uc`, and a quote before an `a`.
pub proof fn lemma_house_banner()
    ensures
        HOUSE_BANNER@.len() > 13,
        HOUSE_BANNER@[5] == 'c',
        HOUSE_BANNER@[13] == '-',
        HOUSE_BANNER@.last() == '>',
        lacks_pair(HOUSE_BANNER@, 'u', 'c'),
        lacks_pair(HOUSE_BANNER@, '"', 'a'),
{
    assert(HOUSE_BANNER@ == r##"<div class="c-x9f2" role="dialog">
    <p>Wij gebruiken cookies.</p>
    <span class="c-x9f2__a" tabindex="0">Ga verder</span>
  </div>"##@);
    reveal_strlit(r##"<div class="c-x9f2" role="dialog">
    <p>Wij gebruiken cookies.</p>
    <span class="c-x9f2__a" tabindex="0">Ga verder</span>
  </div>"##);
}

/// The script that follows a banner never holds `uc`, nor a quote before an
/// `a`.
pub proof fn lemma_banner_script()
    ensures
        lacks_pair(BANNER_SCRIPT@, 'u', 'c'),
        lacks_pair(BANNER_SCRIPT@, '"', 'a'),
{
    assert(BANNER_SCRIPT@ == r##"
  <script>
    // The tag manager waits for this event; nothing gated loads before it.
    (function () {
      var banner = document.querySelector('[role="dialog"]');
      if (!banner) return;
      function accept() {
        document.cookie = "vf-consent=all; path=/; max-age=86400";
        banner.style.display = "none";
        window.dispatchEvent(new CustomEvent("vf-consent-accepted"));
      }
      banner.querySelectorAll("button").forEach(function (b) {
        if (/toestaan|accepteren|accepteer/i.test(b.textContent)) {
          b.addEventListener("click", accept);
        }
      });
    })();
  </script>"##@);
    reveal_strlit(r##"
  <script>
    // The tag manager waits for this event; nothing gated loads before it.
    (function () {
      var banner = document.querySelector('[role="dialog"]');
      if (!banner) return;
      function accept() {
        document.cookie = "vf-consent=all; path=/; max-age=86400";
        banner.style.display = "none";
        window.dispatchEvent(new CustomEvent("vf-consent-accepted"));
      }
      banner.querySelectorAll("button").forEach(function (b) {
        if (/toestaan|accepteren|accepteer/i.test(b.textContent)) {
          b.addEventListener("click", accept);
        }
      });
    })();
  </script>"##);
}

/// How each platform's banner opens: with an `id` for Cookiebot, OneTrust
/// and Usercentrics, with the class `cky-` for CookieYes.
pub proof fn lemma_platform_banner_openings()
    ensures
        COOKIEBOT@.len() > 13 && COOKIEBOT@[5] == 'i',
        ONETRUST@.len() > 13 && ONETRUST@[5] == 'i',
        USERCENTRICS@.len() > 13 && USERCENTRICS@[5] == 'i',
        COOKIEYES@.len() > 13 && COOKIEYES@[5] == 'c' && COOKIEYES@[13] == 'k',
{
    assert(COOKIEBOT@ == r##"<div id="CybotCookiebotDialog" role="dialog" aria-label="Cookietoestemming">
    <p>Wij gebruiken cookies om de winkel te laten werken en om te meten hoe hij gebruikt wordt.</p>
    <button id="CybotCookiebotDialogBodyLevelButtonLevelOptinAllowAll" type="button">Alles toestaan</button>
    <button id="CybotCookiebotDialogBodyButtonDecline" type="button">Alleen noodzakelijke</button>
  </div>"##@);
    reveal_strlit(r##"<div id="CybotCookiebotDialog" role="dialog" aria-label="Cookietoestemming">
    <p>Wij gebruiken cookies om de winkel te laten werken en om te meten hoe hij gebruikt wordt.</p>
    <button id="CybotCookiebotDialogBodyLevelButtonLevelOptinAllowAll" type="button">Alles toestaan</button>
    <button id="CybotCookiebotDialogBodyButtonDecline" type="button">Alleen noodzakelijke</button>
  </div>"##);
    assert(ONETRUST@ == r##"<div id="onetrust-banner-sdk" role="dialog" aria-label="Cookietoestemming">
    <p>Wij gebruiken cookies om de winkel te laten werken en om te meten hoe hij gebruikt wordt.</p>
    <button id="onetrust-accept-btn-handler" type="button">Alle cookies accepteren</button>
    <button id="onetrust-reject-all-handler" type="button">Alles weigeren</button>
  </div>"##@);
    reveal_strlit(r##"<div id="onetrust-banner-sdk" role="dialog" aria-label="Cookietoestemming">
    <p>Wij gebruiken cookies om de winkel te laten werken en om te meten hoe hij gebruikt wordt.</p>
    <button id="onetrust-accept-btn-handler" type="button">Alle cookies accepteren</button>
    <button id="onetrust-reject-all-handler" type="button">Alles weigeren</button>
  </div>"##);
    assert(USERCENTRICS@ == r##"<div id="usercentrics-root"></div>
  <script>
    (function () {
      var host = document.getElementById("usercentrics-root");
      var root = host.attachShadow({ mode: "open" });
      // The markup a real Dutch shop served on 2 August 2026, shape and ids
      // preserved. The accept control is `#accept.uc-accept-button` and the
      // decline control is `#deny.uc-deny-button`, which is why the table
      // matches on the class rather than the bare id.
      root.innerHTML =
        '<div role="dialog" aria-label="Cookietoestemming">' +
        '<div id="uc-cmp-description" class="overflow"><p>Wij gebruiken cookies.</p></div>' +
        '<a id="uc-more-link" class="uc-button-link" href="/cookie-instellingen">Instellingen beheren</a>' +
        '<button id="deny" class="deny uc-deny-button" type="button">weigeren</button>' +
        '<button id="accept" class="accept uc-accept-button" type="button">akkoord</button>' +
        '</div>';
      root.querySelector('button.uc-accept-button')
          .addEventListener("click", function () {
        document.cookie = "vf-consent=all; path=/; max-age=86400";
        host.style.display = "none";
        window.dispatchEvent(new CustomEvent("vf-consent-accepted"));
      });
    })();
  </script>"##@);
    reveal_strlit(r##"<div id="usercentrics-root"></div>
  <script>
    (function () {
      var host = document.getElementById("usercentrics-root");
      var root = host.attachShadow({ mode: "open" });
      // The markup a real Dutch shop served on 2 August 2026, shape and ids
      // preserved. The accept control is `#accept.uc-accept-button` and the
      // decline control is `#deny.uc-deny-button`, which is why the table
      // matches on the class rather than the bare id.
      root.innerHTML =
        '<div role="dialog" aria-label="Cookietoestemming">' +
        '<div id="uc-cmp-description" class="overflow"><p>Wij gebruiken cookies.</p></div>' +
        '<a id="uc-more-link" class="uc-button-link" href="/cookie-instellingen">Instellingen beheren</a>' +
        '<button id="deny" class="deny uc-deny-button" type="button">weigeren</button>' +
        '<button id="accept" class="accept uc-accept-button" type="button">akkoord</button>' +
        '</div>';
      root.querySelector('button.uc-accept-button')
          .addEventListener("click", function () {
        document.cookie = "vf-consent=all; path=/; max-age=86400";
        host.style.display = "none";
        window.dispatchEvent(new CustomEvent("vf-consent-accepted"));
      });
    })();
  </script>"##);
    assert(COOKIEYES@ == r##"<div class="cky-consent-container" role="dialog" aria-label="Cookietoestemming">
    <p>Wij gebruiken cookies om de winkel te laten werken en om te meten hoe hij gebruikt wordt.</p>
    <button class="cky-btn cky-btn-accept" type="button">Accepteren</button>
    <button class="cky-btn cky-btn-reject" type="button">Weigeren</button>
  </div>"##@);
    reveal_strlit(r##"<div class="cky-consent-container" role="dialog" aria-label="Cookietoestemming">
    <p>Wij gebruiken cookies om de winkel te laten werken en om te meten hoe hij gebruikt wordt.</p>
    <button class="cky-btn cky-btn-accept" type="button">Accepteren</button>
    <button class="cky-btn cky-btn-reject" type="button">Weigeren</button>
  </div>"##);
}

/// The landing page's closing part links the checkout.
pub proof fn lemma_home_tail()
    ensures
        occurs_at(HOME_1@, "href=\"/checkout\""@, 20),
{
    assert(HOME_1@ == r##"</code></p>
  <p><a href="/checkout">Naar de kassa</a></p>
</body>
</html>"##@);
    reveal_strlit(r##"</code></p>
  <p><a href="/checkout">Naar de kassa</a></p>
</body>
</html>"##);
    reveal_strlit("href=\"/checkout\"");
    assert(HOME_1@.subrange(20, 36) =~= "href=\"/checkout\""@);
}

/// The basket page's closing part links the checkout.
pub proof fn lemma_cart_tail()
    ensures
        occurs_at(CART_1@, "href=\"/checkout\""@, 38),
{
    assert(CART_1@ == r##" staat in je winkelwagen.</p>
  <p><a href="/checkout">Naar de kassa</a></p>
</body>
</html>"##@);
    reveal_strlit(r##" staat in je winkelwagen.</p>
  <p><a href="/checkout">Naar de kassa</a></p>
</body>
</html>"##);
    reveal_strlit("href=\"/checkout\"");
    assert(CART_1@.subrange(38, 54) =~= "href=\"/checkout\""@);
}

/// The empty basket links the product.
pub proof fn lemma_empty_basket()
    ensures
        occurs_at(EMPTY_BASKET@, "href=\"/product\""@, 199),
{
    assert(EMPTY_BASKET@ == r##"<!doctype html>
<html lang="nl">
<head><meta charset="utf-8"><title>Winkelwagen leeg | Testwinkel</title></head>
<body>
  <h1>Je winkelwagen is leeg</h1>
  <p>Voeg eerst een product toe.</p>
  <p><a href="/product">Naar het voorbeeldproduct</a></p>
</body>
</html>"##@);
    reveal_strlit(r##"<!doctype html>
<html lang="nl">
<head><meta charset="utf-8"><title>Winkelwagen leeg | Testwinkel</title></head>
<body>
  <h1>Je winkelwagen is leeg</h1>
  <p>Voeg eerst een product toe.</p>
  <p><a href="/product">Naar het voorbeeldproduct</a></p>
</body>
</html>"##);
    reveal_strlit("href=\"/product\"");
    assert(EMPTY_BASKET@.subrange(199, 214) =~= "href=\"/product\""@);
}

/// The token basket's opening part ends in the path of the token checkout,
/// so the token follows it directly.
pub proof fn lemma_token_basket_head()
    ensures
        has_suffix(TOKEN_BASKET_0@, "/checkouts/cn/"@),
{
    assert(TOKEN_BASKET_0@ == r##"<!doctype html>
<html lang="nl">
<head><meta charset="utf-8"><title>Winkelwagen | Testwinkel</title></head>
<body>
  <h1>Je winkelwagen</h1>
  <p>Voorbeeldproduct, EUR 99</p>
  <button name="checkout" onclick="location.href='/checkouts/cn/"##@);
    reveal_strlit(r##"<!doctype html>
<html lang="nl">
<head><meta charset="utf-8"><title>Winkelwagen | Testwinkel</title></head>
<body>
  <h1>Je winkelwagen</h1>
  <p>Voorbeeldproduct, EUR 99</p>
  <button name="checkout" onclick="location.href='/checkouts/cn/"##);
    reveal_strlit("/checkouts/cn/");
    assert(TOKEN_BASKET_0@.subrange(TOKEN_BASKET_0@.len() - 14, TOKEN_BASKET_0@.len() as int) =~= "/checkouts/cn/"@);
}

/// Both `robots.txt` texts disallow `/admin`; the refusing one disallows
/// `/checkout` as well, the other does not.
pub proof fn lemma_robots_texts()
    ensures
        occurs_at(ROBOTS_DENY@, "Disallow: /admin\n"@, 14),
        occurs_at(ROBOTS_ALLOW@, "Disallow: /admin\n"@, 14),
        occurs_at(ROBOTS_DENY@, "Disallow: /checkout\n"@, 31),
        !has_infix(ROBOTS_ALLOW@, "Disallow: /checkout\n"@),
{
    assert(ROBOTS_DENY@ == "User-agent: *\nDisallow: /admin\nDisallow: /checkout\n\nSitemap: /sitemap.xml\n"@);
    reveal_strlit("User-agent: *\nDisallow: /admin\nDisallow: /checkout\n\nSitemap: /sitemap.xml\n");
    assert(ROBOTS_ALLOW@ == "User-agent: *\nDisallow: /admin\nAllow: /\n\nSitemap: /sitemap.xml\n"@);
    reveal_strlit("User-agent: *\nDisallow: /admin\nAllow: /\n\nSitemap: /sitemap.xml\n");
    reveal_strlit("Disallow: /admin\n");
    reveal_strlit("Disallow: /checkout\n");
    let admin = "Disallow: /admin\n"@;
    let checkout = "Disallow: /checkout\n"@;
    assert(ROBOTS_DENY@.subrange(14, 14 + admin.len() as int) =~= admin);
    assert(ROBOTS_ALLOW@.subrange(14, 14 + admin.len() as int) =~= admin);
    assert(ROBOTS_DENY@.subrange(31, 31 + checkout.len() as int) =~= checkout);
    let text = ROBOTS_ALLOW@;
    assert forall|i: int| !occurs_at(text, checkout, i) by {
        if occurs_at(text, checkout, i) {
            assert(text.subrange(i, i + checkout.len() as int)[0] == checkout[0]);
            assert(text.subrange(i, i + checkout.len() as int)[11] == checkout[11]);
            assert(text[i] == 'D');
            assert(text[i + 11] == 'c');
            if i != 14 {
                assert(text[i] != 'D');
            }
        }
    }
}

/// The basket cookie begins with the mark the `needs-basket` checkout looks
/// for, and its attributes follow the mark after a `;`.
pub proof fn lemma_basket_cookie()
    ensures
        BASKET_COOKIE@.take(BASKET_MARK@.len() as int) == BASKET_MARK@,
        BASKET_MARK@.len() < BASKET_COOKIE@.len(),
        BASKET_COOKIE@[BASKET_MARK@.len() as int] == ';',
{
    assert(BASKET_COOKIE@ == "vf-basket=1; Path=/; Max-Age=3600; SameSite=Lax"@);
    reveal_strlit("vf-basket=1; Path=/; Max-Age=3600; SameSite=Lax");
    assert(BASKET_MARK@ == "vf-basket=1"@);
    reveal_strlit("vf-basket=1");
    assert(BASKET_COOKIE@.take(11) =~= BASKET_MARK@);
}

/// The pieces only some scenarios add are not empty, and the noisy inline
/// snippet differs in length from the quiet one.
pub proof fn lemma_scenario_pieces()
    ensures
        REVISION_LINE@.len() > 0,
        SCREEN_BEACON_LINE@.len() > 0,
        ROGUE_LOAD_0@.len() > 0,
        PSP_TAG_0@.len() > 0,
        INLINE_NOISY@.len() != INLINE_QUIET@.len(),
{
    assert(REVISION_LINE@ == "\n  form.dataset.vfRevision = \"2\";"@);
    reveal_strlit("\n  form.dataset.vfRevision = \"2\";");
    assert(SCREEN_BEACON_LINE@ == "\n  send(\"pageview\", { sr: screen.width + \"x\" + screen.height });"@);
    reveal_strlit("\n  send(\"pageview\", { sr: screen.width + \"x\" + screen.height });");
    assert(ROGUE_LOAD_0@ == r##"
    load(""##@);
    reveal_strlit(r##"
    load(""##);
    assert(PSP_TAG_0@ == r##"  <script src=""##@);
    reveal_strlit(r##"  <script src=""##);
    assert(INLINE_NOISY@ == r##"'window.dataLayer.push({ event: "consent_granted", ts: ' + Date.now() + ' });'"##@);
    reveal_strlit(r##"'window.dataLayer.push({ event: "consent_granted", ts: ' + Date.now() + ' });'"##);
    assert(INLINE_QUIET@ == r##"'window.dataLayer.push({ event: "consent_granted" });'"##@);
    reveal_strlit(r##"'window.dataLayer.push({ event: "consent_granted" });'"##);
}

/// The tag manager's opening part ends in the start of a `load("` call, and
/// the part after the analytics origin starts with the rest of the collect
/// script's URL and the call's end.
pub proof fn lemma_tagmanager_pieces()
    ensures
        has_suffix(TAGMANAGER_0@, "load(\""@),
        TAGMANAGER_1@.len() >= 16,
        TAGMANAGER_1@.take(16) == "/v3/collect.js\")"@,
{
    assert(TAGMANAGER_0@ == r##"// tagmanager.js: loads tags once consent has been given.
(function () {
  "use strict";

  function load(src) {
    var s = document.createElement("script");
    s.src = src + "?cb=" + Date.now();
    s.async = true;
    document.head.appendChild(s);
  }

  function fire() {
    load(""##@);
    reveal_strlit(r##"// tagmanager.js: loads tags once consent has been given.
(function () {
  "use strict";

  function load(src) {
    var s = document.createElement("script");
    s.src = src + "?cb=" + Date.now();
    s.async = true;
    document.head.appendChild(s);
  }

  function fire() {
    load(""##);
    assert(TAGMANAGER_1@ == r##"/v3/collect.js");"##@);
    reveal_strlit(r##"/v3/collect.js");"##);
    reveal_strlit("load(\"");
    reveal_strlit("/v3/collect.js\")");
    assert(TAGMANAGER_0@.subrange(TAGMANAGER_0@.len() - 6, TAGMANAGER_0@.len() as int) =~= "load(\""@);
    assert(TAGMANAGER_1@.take(16) =~= "/v3/collect.js\")"@);
}

} // verus!
