use avail_da::endpoint::{build_url, push_decimal};
use avail_da::{DaProvider, DaServiceConfig, Endpoint};

fn provider(base: &str) -> DaProvider {
    DaProvider::new(DaServiceConfig {
        light_client_url: base.to_string(),
        node_client_url: "ws://127.0.0.1:9944".to_string(),
        seed: "//Alice".to_string(),
        app_id: 1,
    })
}

fn decimal(n: u64) -> String {
    let mut out = String::new();
    push_decimal(&mut out, n);
    out
}

#[test]
fn confidence_url_is_base_path_and_height() {
    let p = provider("http://127.0.0.1:7000");
    assert_eq!(p.confidence_url(100), "http://127.0.0.1:7000/v1/confidence/100");
}

#[test]
fn appdata_url_is_base_path_and_height() {
    let p = provider("http://127.0.0.1:7000");
    assert_eq!(p.appdata_url(100), "http://127.0.0.1:7000/v1/appdata/100");
}

#[test]
fn urls_of_height_zero() {
    let p = provider("http://lc");
    assert_eq!(p.confidence_url(0), "http://lc/v1/confidence/0");
    assert_eq!(p.appdata_url(0), "http://lc/v1/appdata/0");
}

#[test]
fn urls_of_the_largest_height() {
    let p = provider("http://lc");
    assert_eq!(p.confidence_url(u64::MAX), "http://lc/v1/confidence/18446744073709551615");
    assert_eq!(p.appdata_url(u64::MAX), "http://lc/v1/appdata/18446744073709551615");
}

#[test]
fn urls_keep_the_base_as_it_is() {
    let p = provider("");
    assert_eq!(p.confidence_url(7), "/v1/confidence/7");
    let p = provider("http://lc/");
    assert_eq!(p.appdata_url(7), "http://lc//v1/appdata/7");
}

#[test]
fn urls_leave_the_provider_unchanged() {
    let p = provider("http://lc");
    let _ = p.confidence_url(5);
    let _ = p.appdata_url(5);
    assert_eq!(p.light_client_url, "http://lc");
    assert_eq!(p.confidence_url(5), "http://lc/v1/confidence/5");
}

#[test]
fn build_url_picks_the_path_by_endpoint() {
    let base = "http://lc".to_string();
    assert_eq!(build_url(&base, Endpoint::Confidence, 42), "http://lc/v1/confidence/42");
    assert_eq!(build_url(&base, Endpoint::Appdata, 42), "http://lc/v1/appdata/42");
}

#[test]
fn decimal_of_single_digits() {
    let digits = ["0", "1", "2", "3", "4", "5", "6", "7", "8", "9"];
    for (n, text) in digits.iter().enumerate() {
        assert_eq!(decimal(n as u64), *text);
    }
}

#[test]
fn decimal_has_no_leading_zeros_and_keeps_inner_zeros() {
    assert_eq!(decimal(10), "10");
    assert_eq!(decimal(100), "100");
    assert_eq!(decimal(1005), "1005");
    assert_eq!(decimal(9_007_199_254_740_993), "9007199254740993");
}

#[test]
fn decimal_appends_to_what_is_there() {
    let mut out = "n=".to_string();
    push_decimal(&mut out, 300);
    assert_eq!(out, "n=300");
}

#[test]
fn decimal_agrees_with_the_standard_rendering() {
    let mut n = 1u64;
    let mut steps = 0;
    while steps < 200 {
        assert_eq!(decimal(n), n.to_string());
        assert_eq!(decimal(n - 1), (n - 1).to_string());
        n = n.wrapping_mul(7).wrapping_add(3);
        if n == 0 {
            n = 1;
        }
        steps += 1;
    }
}

#[test]
fn provider_keeps_url_and_application_identifier() {
    let config = DaServiceConfig {
        light_client_url: "http://lc".to_string(),
        node_client_url: "ws://node".to_string(),
        seed: "secret".to_string(),
        app_id: 77,
    };
    let p = DaProvider::new(config.clone());
    assert_eq!(p.light_client_url, config.light_client_url);
    assert_eq!(p.app_id, 77);
}

#[test]
fn config_compares_by_its_fields() {
    let config = DaServiceConfig {
        light_client_url: "http://lc".to_string(),
        node_client_url: "ws://node".to_string(),
        seed: "secret".to_string(),
        app_id: 77,
    };
    let same = config.clone();
    assert!(config == same);
    let mut other = config.clone();
    other.app_id = 78;
    assert!(config != other);
}
