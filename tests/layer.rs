use axum_server_timing::ServerTimingLayer;

#[test]
fn service_name() {
    let name = "svc1";
    let obj = ServerTimingLayer::new(name);
    assert_eq!(obj.app, name);
}

#[test]
fn service_desc() {
    let name = "svc1";
    let desc = "desc1";
    let obj = ServerTimingLayer::new(name).with_description(desc);
    assert_eq!(obj.app, name);
    assert_eq!(obj.description, Some(desc));
}

#[test]
fn with_description_leaves_original_layer() {
    let mut base = ServerTimingLayer::new("svc1");
    let described = base.with_description("desc1");
    assert_eq!(base.description, None);
    assert_eq!(described.description, Some("desc1"));
}

#[test]
fn layers_with_same_configuration_are_independent() {
    let a = ServerTimingLayer::new("svc1");
    let b = ServerTimingLayer::new("svc1");
    let sa = a.layer(1u8);
    let sb = b.layer(2u8);
    let mut ta = sa.start();
    let tb = sb.start();
    ta.record_timing("only_a".to_string(), 1_000_000, None);
    assert_eq!(ta.header_segment(0), "svc1;dur=0.00, only_a;dur=1.00");
    assert_eq!(tb.header_segment(0), "svc1;dur=0.00");
    assert_eq!(sa.service, 1u8);
    assert_eq!(sb.service, 2u8);
}

#[test]
fn concurrent_sessions_do_not_share_entries() {
    let service = ServerTimingLayer::new("svc1").layer(());
    let mut first = service.start();
    let mut second = service.start();
    first.record_timing("a".to_string(), 2_000_000, None);
    second.record_timing("b".to_string(), 3_000_000, None);
    assert_eq!(first.header_segment(1_000_000), "svc1;dur=1.00, a;dur=2.00");
    assert_eq!(second.header_segment(1_000_000), "svc1;dur=1.00, b;dur=3.00");
}

#[test]
fn service_copies_layer_configuration() {
    let service = ServerTimingLayer::new("svc1").with_description("desc1").layer("inner");
    assert_eq!(service.app, "svc1");
    assert_eq!(service.description, Some("desc1"));
    assert_eq!(service.service, "inner");
    assert_eq!(service.start().header_segment(0), "svc1;desc=\"desc1\";dur=0.00");
}
