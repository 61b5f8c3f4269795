use greynoise::community::{community_request, community_url};
use greynoise::get::{post_body, Method};
use greynoise::gnql::{gnql_url, i64_to_string};
use greynoise::ip_context::ip_context_url;
use greynoise::metadata::metadata_url;
use greynoise::ping::ping_url;
use greynoise::quick_check::{multi_quick_check_request, multi_quick_check_url, quick_check_url};
use greynoise::riot::riot_url;

#[test]
fn community_url_appends_ip() {
    assert_eq!(
        community_url("8.8.8.8"),
        "https://api.greynoise.io/v3/community/8.8.8.8"
    );
}

#[test]
fn quick_check_url_appends_ip() {
    assert_eq!(
        quick_check_url("71.6.233.151"),
        "https://api.greynoise.io/v2/noise/quick/71.6.233.151"
    );
}

#[test]
fn riot_url_appends_ip() {
    assert_eq!(riot_url("8.8.4.4"), "https://api.greynoise.io/v2/riot/8.8.4.4");
}

#[test]
fn ip_context_url_appends_ip() {
    assert_eq!(
        ip_context_url("71.6.233.151"),
        "https://api.greynoise.io/v2/noise/context/71.6.233.151"
    );
}

#[test]
fn fixed_urls_are_exact() {
    assert_eq!(ping_url(), "https://api.greynoise.io/ping");
    assert_eq!(metadata_url(), "https://api.greynoise.io/v2/meta/metadata");
    assert_eq!(
        multi_quick_check_url(),
        "https://api.greynoise.io/v2/noise/multi/quick"
    );
}

#[test]
fn gnql_url_with_all_parameters() {
    assert_eq!(
        gnql_url("tags:Mirai", Some(100), Some("scrolly")),
        "https://api.greynoise.io/v2/experimental/gnql?query=tags:Mirai&size=100&scroll=scrolly"
    );
}

#[test]
fn gnql_url_without_parameters() {
    assert_eq!(
        gnql_url("classification:benign", None, None),
        "https://api.greynoise.io/v2/experimental/gnql?query=classification:benign"
    );
}

#[test]
fn gnql_url_with_negative_size() {
    assert_eq!(
        gnql_url("q", Some(-5), None),
        "https://api.greynoise.io/v2/experimental/gnql?query=q&size=-5"
    );
}

#[test]
fn decimal_rendering_is_exact() {
    assert_eq!(i64_to_string(0), "0");
    assert_eq!(i64_to_string(7), "7");
    assert_eq!(i64_to_string(105), "105");
    assert_eq!(i64_to_string(-1), "-1");
    assert_eq!(i64_to_string(i64::MAX), "9223372036854775807");
    assert_eq!(i64_to_string(i64::MIN), "-9223372036854775808");
}

#[test]
fn post_body_keeps_order_and_count() {
    let ips = vec![String::from("8.8.8.8"), String::from("8.8.4.4")];
    assert_eq!(post_body(&ips), "{\"ips\":[\"8.8.8.8\",\"8.8.4.4\"]}");
}

#[test]
fn post_body_single_ip() {
    let ips = vec![String::from("1.2.3.4")];
    assert_eq!(post_body(&ips), "{\"ips\":[\"1.2.3.4\"]}");
}

#[test]
fn post_body_empty_list() {
    let ips: Vec<String> = Vec::new();
    assert_eq!(post_body(&ips), "{\"ips\":[]}");
}

#[test]
fn post_body_escapes_specials() {
    let ips = vec![String::from("a\"b\\c\nd")];
    assert_eq!(post_body(&ips), "{\"ips\":[\"a\\\"b\\\\c\\u000ad\"]}");
}

#[test]
fn get_request_descriptor_is_complete() {
    let r = community_request("8.8.8.8", Some("test-key"));
    assert_eq!(r.method, Method::Get);
    assert_eq!(r.url, "https://api.greynoise.io/v3/community/8.8.8.8");
    assert_eq!(r.credential.as_deref(), Some("test-key"));
    assert!(r.body.is_none());
}

#[test]
fn anonymous_request_carries_no_credential() {
    let r = community_request("8.8.8.8", None);
    assert!(r.credential.is_none());
}

#[test]
fn post_request_descriptor_wraps_ips() {
    let ips = vec![String::from("8.8.8.8"), String::from("8.8.4.4")];
    let r = multi_quick_check_request(&ips, None);
    assert_eq!(r.method, Method::Post);
    assert_eq!(r.url, "https://api.greynoise.io/v2/noise/multi/quick");
    assert_eq!(r.body.as_deref(), Some("{\"ips\":[\"8.8.8.8\",\"8.8.4.4\"]}"));
}

#[test]
fn post_body_round_trips_through_the_parser() {
    let ips = vec![String::from("8.8.8.8"), String::from("he\"llo")];
    let body = post_body(&ips);
    let v: serde_json::Value = serde_json::from_str(&body).unwrap();
    let arr = v.get("ips").unwrap().as_array().unwrap();
    assert_eq!(arr.len(), 2);
    assert_eq!(arr[0].as_str(), Some("8.8.8.8"));
    assert_eq!(arr[1].as_str(), Some("he\"llo"));
}
