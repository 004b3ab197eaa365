use std::time::Duration;

use otel_rs::env::{parse_header_list, sampler_from_name, RATIO_ONE};
use otel_rs::{EnvConfig, EnvVars, OtlpProtocol, SamplingStrategy};

fn no_vars() -> EnvVars {
    EnvVars {
        service_name: None,
        endpoint: None,
        protocol: None,
        headers: None,
        timeout: None,
        sampler: None,
        sampler_arg: None,
    }
}

#[test]
fn header_list_trims_and_skips_pieces_without_equals() {
    let h = parse_header_list(" a = 1 ,junk, b=2=3 ,").unwrap();
    assert_eq!(
        h.to_vec(),
        vec![
            ("a".to_string(), "1".to_string()),
            ("b".to_string(), "2=3".to_string())
        ]
    );
}

#[test]
fn header_list_later_key_wins() {
    let h = parse_header_list("k=1,k=2").unwrap();
    assert_eq!(h.len(), 1);
    assert_eq!(h.get("k").unwrap(), "2");
}

#[test]
fn header_list_without_pairs_is_none() {
    assert!(parse_header_list("").is_none());
    assert!(parse_header_list("no-pairs,here").is_none());
}

#[test]
fn header_list_trims_unicode_white_space() {
    let h = parse_header_list("\u{3000}key\u{a0}=\tvalue\u{2028}").unwrap();
    assert_eq!(h.get("key").unwrap(), "value");
}

fn timeout_of(text: &str) -> Option<Duration> {
    let mut vars = no_vars();
    vars.timeout = Some(text.to_string());
    EnvConfig::from_vars(vars).timeout
}

#[test]
fn timeout_parsing() {
    assert_eq!(timeout_of("1500"), Some(Duration::from_millis(1500)));
    assert_eq!(timeout_of("+7"), Some(Duration::from_millis(7)));
    assert_eq!(timeout_of("-1"), None);
    assert_eq!(timeout_of(""), None);
    assert_eq!(timeout_of("+"), None);
    assert_eq!(timeout_of(" 1"), None);
    assert_eq!(
        timeout_of("18446744073709551615"),
        Some(Duration::from_millis(u64::MAX))
    );
    assert_eq!(timeout_of("18446744073709551616"), None);
}

#[test]
fn sampler_names() {
    assert!(matches!(sampler_from_name("always_on", None), Some(SamplingStrategy::AlwaysOn)));
    assert!(matches!(sampler_from_name("ALWAYS_OFF", None), Some(SamplingStrategy::AlwaysOff)));
    assert!(matches!(sampler_from_name("parentbased", None), Some(SamplingStrategy::ParentBased)));
    assert!(matches!(
        sampler_from_name("ParentBased_Always_On", None),
        Some(SamplingStrategy::ParentBased)
    ));
    assert!(matches!(
        sampler_from_name("traceidratio", Some(0.25f64.to_bits())),
        Some(SamplingStrategy::TraceIdRatio(b)) if f64::from_bits(b) == 0.25
    ));
    assert!(matches!(
        sampler_from_name("TraceIdRatio", None),
        Some(SamplingStrategy::TraceIdRatio(b)) if b == RATIO_ONE
    ));
    assert_eq!(f64::from_bits(RATIO_ONE), 1.0);
    assert!(sampler_from_name("jaeger_remote", None).is_none());
}

#[test]
fn env_from_vars_parses_each_value() {
    let vars = EnvVars {
        service_name: Some("svc".to_string()),
        endpoint: Some("http://c:4317".to_string()),
        protocol: Some("HTTP/protobuf".to_string()),
        headers: Some("a=1".to_string()),
        timeout: Some("2500".to_string()),
        sampler: Some("always_off".to_string()),
        sampler_arg: None,
    };
    let e = EnvConfig::from_vars(vars);
    assert_eq!(e.service_name.as_deref(), Some("svc"));
    assert_eq!(e.endpoint.as_deref(), Some("http://c:4317"));
    assert_eq!(e.protocol, Some(OtlpProtocol::Http));
    assert_eq!(e.headers.unwrap().get("a").unwrap(), "1");
    assert_eq!(e.timeout, Some(Duration::from_millis(2500)));
    assert!(matches!(e.sampler, Some(SamplingStrategy::AlwaysOff)));
}

#[test]
fn env_values_that_do_not_parse_count_as_unset() {
    let mut vars = no_vars();
    vars.protocol = Some("carrier-pigeon".to_string());
    vars.headers = Some("nothing".to_string());
    vars.timeout = Some("soon".to_string());
    vars.sampler = Some("sometimes".to_string());
    let e = EnvConfig::from_vars(vars);
    assert!(e.protocol.is_none());
    assert!(e.headers.is_none());
    assert!(e.timeout.is_none());
    assert!(e.sampler.is_none());
    let e = EnvConfig::from_vars(no_vars());
    assert!(e.service_name.is_none() && e.endpoint.is_none());
}

#[test]
fn header_list_keeps_empty_keys_and_values() {
    let h = parse_header_list("\u{3000}\tkey\u{a0}=\u{2003}val ue\n,=x,y=").unwrap();
    assert_eq!(
        h.to_vec(),
        vec![
            ("key".to_string(), "val ue".to_string()),
            ("".to_string(), "x".to_string()),
            ("y".to_string(), "".to_string())
        ]
    );
}
