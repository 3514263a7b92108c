use cm_testshop::build_id::{derive_build_id, fresh_build_id, resolve_build_id};
use cm_testshop::clock::{nanos_of, now_secs, now_subsec_nanos, seconds_of};
use std::time::{Duration, UNIX_EPOCH};
use cm_testshop::page::{asset_response, html, not_found};
use cm_testshop::scenario::{Cmp, Scenario};
use cm_testshop::shop::{origin, startup_summary, Shop};
use cm_testshop::text::{contains, decimal_string, ends_with, lower_hex_string};
use sha2::{Digest, Sha256};

#[test]
fn scenario_names_and_expectations() {
    let table = [
        (Scenario::Baseline, "baseline", "clean against an approved baseline"),
        (Scenario::VendorUpdate, "vendor-update", "one Medium: third-party script changed"),
        (Scenario::FirstPartyChange, "first-party-change", "one High: your own script changed"),
        (Scenario::NewOrigin, "new-origin", "one Critical: script from a never-seen origin"),
        (Scenario::HeaderWeakened, "header-weakened", "Critical: security header removed (CSP, X-Frame-Options)"),
        (Scenario::ScriptGone, "script-gone", "one Medium: approved script no longer loads"),
        (Scenario::UnhandleableConsent, "unhandleable-consent", "capture succeeds, anomaly recorded, consent state honest"),
        (Scenario::NoisyInline, "noisy-inline", "a Medium every run, forever: the open normalisation problem"),
        (Scenario::RobotsDeny, "robots-deny", "refused by conduct before any load"),
        (Scenario::NeedsBasket, "needs-basket", "clean once the basket is primed; an empty basket shows no checkout"),
        (Scenario::TokenCheckout, "token-checkout", "clean, though the checkout URL changes on every visit"),
    ];
    for (s, name, expectation) in table {
        assert_eq!(s.as_str(), name);
        assert_eq!(s.expectation(), expectation);
    }
    let names: Vec<&str> = table.iter().map(|t| t.1).collect();
    for (i, a) in names.iter().enumerate() {
        for (j, b) in names.iter().enumerate() {
            assert_eq!(i == j, a == b);
        }
    }
}

#[test]
fn platform_names() {
    assert_eq!(Cmp::Cookiebot.as_str(), "cookiebot");
    assert_eq!(Cmp::Onetrust.as_str(), "onetrust");
    assert_eq!(Cmp::Cookieyes.as_str(), "cookieyes");
    assert_eq!(Cmp::Usercentrics.as_str(), "usercentrics-shadow-dom");
    assert_eq!(Cmp::NoBanner.as_str(), "none");
}

#[test]
fn decimal_and_hex_formatting() {
    for n in [0u64, 7, 9, 10, 99, 100, 1_754_400_123, u64::MAX] {
        assert_eq!(decimal_string(n), n.to_string());
        assert_eq!(lower_hex_string(n), format!("{:x}", n));
    }
    assert_eq!(lower_hex_string(255), "ff");
    assert_eq!(decimal_string(1234567890), "1234567890");
}

#[test]
fn suffix_and_infix_tests() {
    assert!(ends_with("checkout.abc.css", ".css"));
    assert!(!ends_with("checkout.abc.css", ".js"));
    assert!(ends_with(".js", ".js"));
    assert!(!ends_with("js", ".js"));
    assert!(ends_with("anything", ""));
    assert!(contains("a=b; vf-basket=1", "vf-basket=1"));
    assert!(contains("vf-basket=1", "vf-basket=1"));
    assert!(!contains("vf-basket=0", "vf-basket=1"));
    assert!(!contains("", "x"));
    assert!(contains("", ""));
    assert!(contains("élan vf-basket=1é", "vf-basket=1"));
}

#[test]
fn origins_and_shop() {
    assert_eq!(origin(8081, 0), "http://127.0.0.1:8081");
    assert_eq!(origin(8081, 4), "http://127.0.0.1:8085");
    assert_eq!(origin(65531, 4), "http://127.0.0.1:65535");
    let s = Shop::new(9000, Scenario::NewOrigin, Cmp::Onetrust, "deadbeef".to_string());
    assert_eq!(s.scenario, Scenario::NewOrigin);
    assert_eq!(s.cmp, Cmp::Onetrust);
    assert_eq!(s.build_id, "deadbeef");
    assert_eq!(s.origin_cdn, "http://127.0.0.1:9001");
    assert_eq!(s.origin_analytics, "http://127.0.0.1:9002");
    assert_eq!(s.origin_psp, "http://127.0.0.1:9003");
    assert_eq!(s.origin_rogue, "http://127.0.0.1:9004");
    let c = s.clone();
    assert_eq!(c.origin_rogue, s.origin_rogue);
    assert_eq!(c.build_id, s.build_id);
}

#[test]
fn startup_summary_lists_everything() {
    let s = Shop::new(8081, Scenario::Baseline, Cmp::Cookiebot, "0badf00d".to_string());
    let lines = [
        "cm-testshop",
        "  scenario   baseline  (clean against an approved baseline)",
        "  consent    cookiebot",
        "  build id   0badf00d",
        "",
        "  checkout   http://127.0.0.1:8081/checkout",
        "  robots     http://127.0.0.1:8081/robots.txt",
        "  tagmanager http://127.0.0.1:8082",
        "  analytics  http://127.0.0.1:8083",
        "  psp        http://127.0.0.1:8084",
        "  rogue      http://127.0.0.1:8085  (loaded only in --scenario new-origin)",
        "",
        "  scan it:",
        "    cargo run -p cm-cli -- --root ./work scan --url http://127.0.0.1:8081/checkout --id my-test-shop",
    ];
    let mut expected = String::new();
    for l in lines {
        expected.push_str(l);
        expected.push('\n');
    }
    assert_eq!(startup_summary(&s, 8081), expected);
}

#[test]
fn build_id_from_start_time() {
    for secs in [0u64, 1, 1_754_400_000] {
        let digest = Sha256::digest(secs.to_le_bytes());
        let want = hex::encode(&digest[..4]);
        let got = derive_build_id(secs);
        assert_eq!(got, want);
        assert_eq!(got.len(), 8);
        assert!(got.chars().all(|c| c.is_ascii_digit() || ('a'..='f').contains(&c)));
    }
    assert_ne!(derive_build_id(1), derive_build_id(2));
    let fresh = fresh_build_id();
    assert_eq!(fresh.len(), 8);
    assert!(fresh.chars().all(|c| c.is_ascii_hexdigit() && !c.is_ascii_uppercase()));
}

#[test]
fn pinned_build_id_wins() {
    assert_eq!(resolve_build_id(Some("pinned-id".to_string())), "pinned-id");
    assert_eq!(resolve_build_id(None).len(), 8);
}

#[test]
fn clock_readings() {
    assert!(now_secs() > 1_600_000_000);
    assert!(now_subsec_nanos() < 1_000_000_000);
}

#[test]
fn response_shapes() {
    let page = html("x".to_string(), vec![("a".to_string(), "b".to_string())]);
    assert_eq!(page.status, 200);
    assert_eq!(
        page.headers,
        vec![
            ("content-type".to_string(), "text/html; charset=utf-8".to_string()),
            ("cache-control".to_string(), "no-store, must-revalidate".to_string()),
            ("a".to_string(), "b".to_string()),
        ]
    );
    let a = asset_response("text/css; charset=utf-8", "y".to_string());
    assert_eq!(a.headers[2], ("access-control-allow-origin".to_string(), "*".to_string()));
    assert_eq!(a.body, "y");
    assert_eq!(not_found().status, 404);
}

#[test]
fn clock_readings_taken_apart() {
    assert_eq!(seconds_of(Ok(Duration::new(5, 7))), 5);
    assert_eq!(nanos_of(Ok(Duration::new(5, 7))), 7);
    let before_epoch = UNIX_EPOCH.duration_since(UNIX_EPOCH + Duration::from_secs(1));
    assert!(before_epoch.is_err());
    assert_eq!(seconds_of(UNIX_EPOCH.duration_since(UNIX_EPOCH + Duration::from_secs(1))), 0);
    assert_eq!(nanos_of(before_epoch), 0);
    assert_eq!(seconds_of(Ok(Duration::new(1_700_000_000, 999_999_999))), 1_700_000_000);
    assert_eq!(nanos_of(Ok(Duration::new(1_700_000_000, 999_999_999))), 999_999_999);
    assert_eq!(seconds_of(Ok(Duration::from_millis(2_500))), 2);
    assert_eq!(nanos_of(Ok(Duration::from_millis(2_500))), 500_000_000);
}

#[test]
fn html_leaves_out_headers_http_refuses() {
    let extra = vec![
        ("x-ok".to_string(), "fine value é".to_string()),
        ("bad name".to_string(), "v".to_string()),
        ("x-line".to_string(), "two\nlines".to_string()),
        ("".to_string(), "v".to_string()),
        ("x-tab".to_string(), "a\tb".to_string()),
        ("X-Upper".to_string(), "v".to_string()),
        ("x-del".to_string(), "a\u{7f}".to_string()),
    ];
    let page = html(String::new(), extra);
    assert_eq!(
        page.headers,
        vec![
            ("content-type".to_string(), "text/html; charset=utf-8".to_string()),
            ("cache-control".to_string(), "no-store, must-revalidate".to_string()),
            ("x-ok".to_string(), "fine value é".to_string()),
            ("x-tab".to_string(), "a\tb".to_string()),
            ("x-upper".to_string(), "v".to_string()),
        ]
    );
}

#[test]
fn html_keeps_header_names_in_lower_case() {
    let long_name = format!("X-{}", "Ab".repeat(40));
    let extra = vec![
        ("Content-Security-Policy".to_string(), "default-src 'self'".to_string()),
        (long_name.clone(), "v".to_string()),
        ("x-Mixed_Case~1".to_string(), "w".to_string()),
    ];
    let page = html(String::new(), extra);
    assert_eq!(page.headers.len(), 5);
    assert_eq!(
        page.headers[2],
        ("content-security-policy".to_string(), "default-src 'self'".to_string())
    );
    assert_eq!(page.headers[3], (long_name.to_ascii_lowercase(), "v".to_string()));
    assert_eq!(page.headers[4], ("x-mixed_case~1".to_string(), "w".to_string()));
}

#[test]
fn fresh_build_id_comes_from_the_clock() {
    let before = now_secs();
    let fresh = fresh_build_id();
    let after = now_secs();
    assert!((before..=after).any(|secs| derive_build_id(secs) == fresh));
}
