use axum_server_timing::{add_timing_header, ServerTiming};
use http::{HeaderMap, HeaderValue};

#[test]
fn header_set_when_absent() {
    let mut h = HeaderMap::new();
    assert!(add_timing_header(&mut h, "svc1;dur=1.00"));
    assert_eq!(h.get("server-timing").unwrap(), "svc1;dur=1.00");
    assert_eq!(h.len(), 1);
}

#[test]
fn header_merged_ahead_of_existing() {
    let mut h = HeaderMap::new();
    h.insert("server-timing", HeaderValue::from_static("inner;dur=23"));
    h.insert("content-type", HeaderValue::from_static("text/plain"));
    assert!(add_timing_header(&mut h, "svc1;dur=1.00"));
    assert_eq!(h.get("Server-Timing").unwrap(), "svc1;dur=1.00, inner;dur=23");
    assert_eq!(h.get("content-type").unwrap(), "text/plain");
}

#[test]
fn header_merge_keeps_only_one_value() {
    let mut h = HeaderMap::new();
    h.append("server-timing", HeaderValue::from_static("one;dur=1"));
    h.append("server-timing", HeaderValue::from_static("two;dur=2"));
    assert!(add_timing_header(&mut h, "svc1;dur=0.00"));
    let all: Vec<&HeaderValue> = h.get_all("server-timing").iter().collect();
    assert_eq!(all.len(), 1);
    assert_eq!(all[0], "svc1;dur=0.00, one;dur=1");
}

#[test]
fn invalid_header_value_is_omitted() {
    let mut h = HeaderMap::new();
    assert!(!add_timing_header(&mut h, "svc1;desc=\"a\nb\";dur=0.00"));
    assert!(h.get("server-timing").is_none());
    h.insert("server-timing", HeaderValue::from_static("inner;dur=23"));
    assert!(!add_timing_header(&mut h, "bad\u{7f}"));
    assert_eq!(h.get("server-timing").unwrap(), "inner;dur=23");
}

#[test]
fn non_ascii_description_is_kept() {
    let mut h = HeaderMap::new();
    assert!(add_timing_header(&mut h, "svc1;desc=\"caf\u{e9}\";dur=0.00"));
    assert_eq!(h.get("server-timing").unwrap().as_bytes(), "svc1;desc=\"caf\u{e9}\";dur=0.00".as_bytes());
}

#[test]
fn session_applied_to_existing_header() {
    let mut timing = ServerTiming::new("svc1", None);
    timing.record_timing("step".to_string(), 1_000_000, None);
    let mut h = HeaderMap::new();
    h.insert("server-timing", HeaderValue::from_static("inner;dur=23"));
    assert!(timing.apply(&mut h));
    let v = h.get("server-timing").unwrap().to_str().unwrap();
    let svc = v.find("svc1").unwrap();
    let step = v.find("step;dur=1.00").unwrap();
    let inner = v.find("inner;dur=23").unwrap();
    assert!(svc < step && step < inner, "{v}");
    assert!(v.starts_with("svc1;dur="));
    assert!(v.ends_with(", step;dur=1.00, inner;dur=23"));
}

#[test]
fn session_applied_without_existing_header() {
    let timing = ServerTiming::new("svc1", Some("desc1"));
    let mut h = HeaderMap::new();
    assert!(timing.apply(&mut h));
    let v = h.get("server-timing").unwrap().to_str().unwrap();
    assert!(v.starts_with("svc1;desc=\"desc1\";dur="), "{v}");
    assert!(!v.contains(", "));
}

#[test]
fn session_with_invalid_description_leaves_headers() {
    let timing = ServerTiming::new("svc1", Some("line\nbreak"));
    let mut h = HeaderMap::new();
    assert!(!timing.apply(&mut h));
    assert!(h.is_empty());
}

#[test]
fn header_written_beside_many_other_names() {
    let mut h = HeaderMap::new();
    for i in 0..1000 {
        h.insert(
            http::HeaderName::from_bytes(format!("x-h{i}").as_bytes()).unwrap(),
            HeaderValue::from_static("v"),
        );
    }
    assert!(add_timing_header(&mut h, "svc1;dur=0.00"));
    assert_eq!(h.get("server-timing").unwrap(), "svc1;dur=0.00");
    assert_eq!(h.len(), 1001);
}

#[test]
fn extension_entries_reach_header() {
    let mut timing = ServerTiming::new("service", None);
    timing.record("step1".to_string(), None);
    timing.record("step2".to_string(), None);
    let mut h = HeaderMap::new();
    assert!(timing.apply(&mut h));
    let v = h.get("server-timing").unwrap().to_str().unwrap();
    let e: Vec<&str> = v.split(", ").collect();
    assert_eq!(e.len(), 3, "{v}");
    assert!(e[0].starts_with("service;dur="));
    assert!(e[1].starts_with("step1;dur="));
    assert!(e[2].starts_with("step2;dur="));
}
