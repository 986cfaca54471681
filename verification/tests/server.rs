use neuronprompter::server::{cors_plan, host_of, warn_if_network_exposed, CorsNotice, CorsOrigins};

#[test]
fn loopback_addresses_do_not_warn() {
    assert!(!warn_if_network_exposed("127.0.0.1:3030"));
    assert!(!warn_if_network_exposed("localhost:8080"));
    assert!(!warn_if_network_exposed("::1:3030"));
    assert!(!warn_if_network_exposed("localhost"));
    assert!(!warn_if_network_exposed("[::1]:3030"));
    assert!(warn_if_network_exposed("[::]:3030"));
    assert_eq!(host_of("[fe80::1]:80"), "fe80::1");
    assert!(warn_if_network_exposed("0.0.0.0:3030"));
    assert!(warn_if_network_exposed("192.168.1.5:80"));
    assert_eq!(host_of("a:b:c"), "a:b");
    assert_eq!(host_of("plain"), "plain");
}

#[test]
fn cors_wildcard_only_in_dev() {
    let p = cors_plan("*", false);
    assert!(matches!(p.notice, Some(CorsNotice::WildcardWithoutDev)));
    match p.origins {
        CorsOrigins::Single(o) => assert_eq!(o, "http://127.0.0.1:3030"),
        _ => panic!("expected single origin"),
    }
    let p = cors_plan("*", true);
    assert!(matches!(p.notice, Some(CorsNotice::DevWildcard)));
    match p.origins {
        CorsOrigins::LocalDev(v) => assert_eq!(v, vec![
            "http://localhost:3000",
            "http://localhost:3030",
            "http://localhost:5173",
            "http://127.0.0.1:3000",
            "http://127.0.0.1:3030",
            "http://127.0.0.1:5173",
        ]),
        _ => panic!("expected dev origins"),
    }
}

#[test]
fn cors_origin_must_be_a_header_value() {
    let p = cors_plan("https://app.example", false);
    assert!(p.notice.is_none());
    match p.origins {
        CorsOrigins::Single(o) => assert_eq!(o, "https://app.example"),
        _ => panic!("expected single origin"),
    }
    let p = cors_plan("bad\norigin", true);
    assert!(matches!(p.notice, Some(CorsNotice::InvalidOrigin)));
    match p.origins {
        CorsOrigins::Single(o) => assert_eq!(o, "http://127.0.0.1:3030"),
        _ => panic!("expected fallback origin"),
    }
}
