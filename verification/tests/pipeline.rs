use greynoise::community;
use greynoise::get::{decode_body, Exchange, ErrorKind};
use greynoise::ip_context;
use greynoise::metadata;
use greynoise::ping;
use greynoise::quick_check;
use greynoise::riot;
use greynoise::gnql;

fn replied(status: u16, body: &str) -> Exchange {
    Exchange::Replied {
        status,
        body: String::from(body),
    }
}

const COMMUNITY_BODY: &str = "{\"ip\":\"8.8.8.8\",\"noise\":false,\"riot\":true,\
\"classification\":\"benign\",\"name\":\"Google Public DNS\",\
\"link\":\"https://viz.greynoise.io/riot/8.8.8.8\",\"last_seen\":\"2021-01-01\",\
\"message\":\"Success\"}";

#[test]
fn community_decodes_typed_value() {
    let res = community::community(&replied(200, COMMUNITY_BODY));
    let c = res.unwrap();
    assert_eq!(c.ip, "8.8.8.8");
    assert!(!c.noise);
    assert!(c.riot);
    assert_eq!(c.classification, "benign");
    assert_eq!(c.name, "Google Public DNS");
    assert_eq!(c.link, "https://viz.greynoise.io/riot/8.8.8.8");
    assert_eq!(c.last_seen, "2021-01-01");
    assert_eq!(c.message, "Success");
}

#[test]
fn community_unknown_fields_are_ignored() {
    let body = "{\"ip\":\"8.8.8.8\",\"noise\":false,\"riot\":true,\
\"classification\":\"benign\",\"name\":\"n\",\"link\":\"l\",\"last_seen\":\"t\",\
\"message\":\"m\",\"extra\":42,\"more\":[null]}";
    let res = community::community(&replied(200, body));
    assert_eq!(res.unwrap().ip, "8.8.8.8");
}

#[test]
fn community_missing_field_is_request_error() {
    let res = community::community(&replied(200, "{\"ip\":\"8.8.8.8\"}"));
    assert_eq!(res.unwrap_err(), ErrorKind::Request);
}

#[test]
fn community_malformed_json_is_request_error() {
    let res = community::community(&replied(200, "eights"));
    assert_eq!(res.unwrap_err(), ErrorKind::Request);
}

#[test]
fn community_wrong_field_type_is_request_error() {
    let body = "{\"ip\":8,\"noise\":false,\"riot\":true,\"classification\":\"x\",\
\"name\":\"n\",\"link\":\"l\",\"last_seen\":\"t\",\"message\":\"m\"}";
    let res = community::community(&replied(200, body));
    assert_eq!(res.unwrap_err(), ErrorKind::Request);
}

#[test]
fn status_429_is_surfaced_exactly() {
    let res = community::community(&replied(429, "slow down"));
    assert_eq!(res.unwrap_err(), ErrorKind::Status(429));
}

#[test]
fn status_404_is_surfaced_exactly() {
    let res = riot::riot(&replied(404, ""));
    assert_eq!(res.unwrap_err(), ErrorKind::Status(404));
}

#[test]
fn transport_failure_without_status_is_request_error() {
    let res = community::community(&Exchange::Failed { status: None });
    assert_eq!(res.unwrap_err(), ErrorKind::Request);
}

#[test]
fn transport_failure_with_status_carries_it() {
    let res = community::community(&Exchange::Failed { status: Some(502) });
    assert_eq!(res.unwrap_err(), ErrorKind::Status(502));
}

#[test]
fn repeated_get_yields_identical_fields() {
    let first = community::community(&replied(200, COMMUNITY_BODY)).unwrap();
    let second = community::community(&replied(200, COMMUNITY_BODY)).unwrap();
    assert_eq!(first.ip, second.ip);
    assert_eq!(first.noise, second.noise);
    assert_eq!(first.riot, second.riot);
    assert_eq!(first.classification, second.classification);
    assert_eq!(first.name, second.name);
    assert_eq!(first.link, second.link);
    assert_eq!(first.last_seen, second.last_seen);
    assert_eq!(first.message, second.message);
}

#[test]
fn ping_true_on_typed_value() {
    let body = "{\"expiration\":\"2030-01-01\",\"message\":\"pong\",\"offering\":\"vip\"}";
    assert!(ping::ping(&replied(200, body)));
}

#[test]
fn ping_true_on_empty_object() {
    assert!(ping::ping(&replied(200, "{}")));
}

#[test]
fn ping_false_on_status_error() {
    assert!(!ping::ping(&replied(500, "{}")));
}

#[test]
fn ping_false_on_transport_failure() {
    assert!(!ping::ping(&Exchange::Failed { status: None }));
}

#[test]
fn ping_false_on_malformed_body() {
    assert!(!ping::ping(&replied(200, "pong")));
}

#[test]
fn quick_check_decodes() {
    let body = "{\"ip\":\"71.6.233.151\",\"noise\":true,\"riot\":false,\"code\":\"0x01\"}";
    let q = quick_check::quick_check(&replied(200, body)).unwrap();
    assert_eq!(q.ip, "71.6.233.151");
    assert!(q.noise);
    assert!(!q.riot);
    assert_eq!(q.code, "0x01");
}

#[test]
fn multi_quick_check_has_one_entry_per_result() {
    let body = "[{\"ip\":\"8.8.8.8\",\"noise\":false,\"riot\":true,\"code\":\"0x01\"},\
{\"ip\":\"8.8.4.4\",\"noise\":false,\"riot\":true,\"code\":\"0x01\"}]";
    let rs = quick_check::multi_quick_check(&replied(200, body)).unwrap();
    assert_eq!(rs.len(), 2);
    assert_eq!(rs[0].ip, "8.8.8.8");
    assert_eq!(rs[1].ip, "8.8.4.4");
}

#[test]
fn multi_quick_check_rejects_non_array() {
    let body = "{\"ip\":\"8.8.8.8\",\"noise\":false,\"riot\":true,\"code\":\"0x01\"}";
    let res = quick_check::multi_quick_check(&replied(200, body));
    assert_eq!(res.unwrap_err(), ErrorKind::Request);
}

#[test]
fn multi_quick_check_rejects_bad_entry() {
    let body = "[{\"ip\":\"8.8.8.8\",\"noise\":false,\"riot\":true,\"code\":\"0x01\"},{}]";
    let res = quick_check::multi_quick_check(&replied(200, body));
    assert_eq!(res.unwrap_err(), ErrorKind::Request);
}

#[test]
fn riot_decodes() {
    let body = "{\"ip\":\"8.8.8.8\",\"riot\":true,\"category\":\"public_dns\",\
\"name\":\"Google Public DNS\",\"description\":\"d\",\"explanation\":\"e\",\
\"last_updated\":\"2021-01-01\",\"reference\":\"r\",\"trust_level\":\"1\"}";
    let r = riot::riot(&replied(200, body)).unwrap();
    assert_eq!(r.ip, "8.8.8.8");
    assert!(r.riot);
    assert_eq!(r.trust_level, "1");
}

#[test]
fn optional_field_absent_is_none() {
    let body = "{\"ip\":\"71.6.233.151\",\"seen\":true,\
\"metadata\":{\"country\":\"US\"}}";
    let c = ip_context::ip_context(&replied(200, body)).unwrap();
    let md = c.metadata.unwrap();
    assert!(md.city.is_none());
    assert_eq!(md.country.as_deref(), Some("US"));
    assert!(c.tags.is_none());
    assert!(c.raw_data.is_none());
}

#[test]
fn optional_field_empty_is_distinguishable_from_absent() {
    let body = "{\"ip\":\"71.6.233.151\",\"seen\":false,\
\"metadata\":{\"city\":\"\"}}";
    let c = ip_context::ip_context(&replied(200, body)).unwrap();
    let md = c.metadata.unwrap();
    assert_eq!(md.city.as_deref(), Some(""));
    assert!(md.city.is_some());
}

#[test]
fn optional_field_null_is_none() {
    let body = "{\"ip\":\"71.6.233.151\",\"seen\":false,\"vpn\":null,\
\"metadata\":{\"city\":null}}";
    let c = ip_context::ip_context(&replied(200, body)).unwrap();
    assert!(c.vpn.is_none());
    assert!(c.metadata.unwrap().city.is_none());
}

#[test]
fn ip_context_nested_raw_data_decodes() {
    let body = "{\"ip\":\"71.6.233.151\",\"seen\":true,\
\"raw_data\":{\"scan\":[{\"port\":443,\"protocol\":\"TCP\"}],\
\"ja3\":[null,{\"fingerprint\":\"ab\",\"port\":22}]}}";
    let c = ip_context::ip_context(&replied(200, body)).unwrap();
    let raw = c.raw_data.unwrap();
    let scans = raw.scan.unwrap();
    assert_eq!(scans.len(), 1);
    assert_eq!(scans[0].port, Some(443));
    assert_eq!(scans[0].protocol.as_deref(), Some("TCP"));
    let ja3 = raw.ja3.unwrap();
    assert_eq!(ja3.len(), 2);
    assert!(ja3[0].is_none());
    assert_eq!(ja3[1].as_ref().unwrap().port, Some(22));
}

#[test]
fn port_beyond_i64_range_is_request_error() {
    let body = "{\"ip\":\"71.6.233.151\",\"seen\":true,\
\"raw_data\":{\"scan\":[{\"port\":9223372036854775808}]}}";
    let res = ip_context::ip_context(&replied(200, body));
    assert_eq!(res.unwrap_err(), ErrorKind::Request);
}

#[test]
fn fractional_count_is_request_error() {
    let body = "{\"count\":1.5,\"data\":[],\"message\":\"m\",\"query\":\"q\"}";
    let res = gnql::gnql_query(&replied(200, body));
    assert_eq!(res.unwrap_err(), ErrorKind::Request);
}

#[test]
fn gnql_decodes() {
    let body = "{\"complete\":true,\"count\":1,\"message\":\"ok\",\"query\":\"tags:Mirai\",\
\"data\":[{\"ip\":\"1.2.3.4\",\"seen\":true,\"tags\":[\"Mirai\"],\
\"classification\":\"malicious\"}]}";
    let q = gnql::gnql_query(&replied(200, body)).unwrap();
    assert_eq!(q.query, "tags:Mirai");
    assert_eq!(q.count, 1);
    assert_eq!(q.complete, Some(true));
    assert!(q.scroll.is_none());
    assert_eq!(q.data.len(), 1);
    assert_eq!(q.data[0].ip, "1.2.3.4");
    assert_eq!(q.data[0].seen, Some(true));
    assert_eq!(q.data[0].tags.as_ref().unwrap()[0], "Mirai");
    assert!(q.data[0].metadata.is_none());
}

#[test]
fn metadata_decodes_categories_and_intentions() {
    let body = "{\"vpn_services\":[\"x-vpn\"],\"metadata\":[\
{\"id\":\"t1\",\"label\":\"L\",\"slug\":\"s\",\"name\":\"N\",\
\"category\":\"worm\",\"intention\":\"malicious\",\"description\":\"d\",\
\"references\":[\"r1\"],\"recommend_block\":true,\"cves\":[],\
\"created_at\":\"2020-01-01\",\
\"related_tags\":[{\"id\":\"t2\",\"name\":\"N2\",\"intention\":\"benign\",\
\"category\":\"search_engine\",\"slug\":\"s2\"}]}]}";
    let t = metadata::metadata(&replied(200, body)).unwrap();
    assert_eq!(t.vpn_services, vec![String::from("x-vpn")]);
    assert_eq!(t.metadata.len(), 1);
    let m = &t.metadata[0];
    assert_eq!(m.category, metadata::Category::Worm);
    assert_eq!(m.intention, metadata::Intention::Malicious);
    assert!(m.recommend_block);
    let related = m.related_tags.as_ref().unwrap();
    assert_eq!(related[0].category, metadata::Category::SearchEngine);
    assert_eq!(related[0].intention, metadata::Intention::Benign);
}

#[test]
fn unknown_category_is_request_error() {
    let body = "{\"vpn_services\":[],\"metadata\":[\
{\"id\":\"t1\",\"label\":\"L\",\"slug\":\"s\",\"name\":\"N\",\
\"category\":\"prank\",\"intention\":\"malicious\",\"description\":\"d\",\
\"references\":[],\"recommend_block\":false,\"cves\":[],\
\"created_at\":\"2020-01-01\"}]}";
    let res = metadata::metadata(&replied(200, body));
    assert_eq!(res.unwrap_err(), ErrorKind::Request);
}

#[test]
fn community_rejects_non_object_body() {
    let res = community::community(&replied(200, "[1,2,3]"));
    assert_eq!(res.unwrap_err(), ErrorKind::Request);
    let res2 = community::community(&replied(200, "\"8.8.8.8\""));
    assert_eq!(res2.unwrap_err(), ErrorKind::Request);
}

#[test]
fn remaining_categories_and_intentions_decode() {
    let one = |cat: &str, int: &str| -> String {
        format!(
            "{{\"vpn_services\":[],\"metadata\":[\
{{\"id\":\"t\",\"label\":\"L\",\"slug\":\"s\",\"name\":\"N\",\
\"category\":\"{}\",\"intention\":\"{}\",\"description\":\"d\",\
\"references\":[],\"recommend_block\":false,\"cves\":[],\
\"created_at\":\"2020-01-01\"}}]}}",
            cat, int
        )
    };
    let t = metadata::metadata(&replied(200, &one("activity", "unknown"))).unwrap();
    assert_eq!(t.metadata[0].category, metadata::Category::Activity);
    assert_eq!(t.metadata[0].intention, metadata::Intention::Unknown);
    let t = metadata::metadata(&replied(200, &one("actor", "benign"))).unwrap();
    assert_eq!(t.metadata[0].category, metadata::Category::Actor);
    let t = metadata::metadata(&replied(200, &one("tool", "malicious"))).unwrap();
    assert_eq!(t.metadata[0].category, metadata::Category::Tool);
}

#[test]
fn decode_body_direct() {
    let q: Result<quick_check::QuickCheck, ErrorKind> =
        decode_body("{\"ip\":\"8.8.8.8\",\"noise\":true,\"riot\":false,\"code\":\"0x00\"}");
    assert_eq!(q.unwrap().code, "0x00");
    let bad: Result<quick_check::QuickCheck, ErrorKind> = decode_body("[1,2");
    assert_eq!(bad.unwrap_err(), ErrorKind::Request);
}
