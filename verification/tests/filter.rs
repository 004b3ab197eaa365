use otel_rs::config::OtelConfig;
use otel_rs::filter::config_filter_string;
use otel_rs::{level_to_directive, EnvConfig, FilterBuilder, LogLevel};

#[test]
fn filter_builder_basic() {
    let filter = FilterBuilder::new()
        .default_level("debug")
        .allow("my_app")
        .allow_at("my_lib", "trace")
        .build();

    assert!(!format!("{filter:?}").is_empty());
}

#[test]
fn filter_builder_with_directives() {
    let filter = FilterBuilder::new()
        .allow("my_app")
        .directive("hyper=warn")
        .build();

    assert!(!format!("{filter:?}").is_empty());
}

#[test]
fn filter_string_lists_allowed_then_directives() {
    let b = FilterBuilder::new()
        .default_level("debug")
        .allow("my_app")
        .allow_at("my_lib", "trace")
        .directive("hyper=warn");
    assert_eq!(b.filter_string(), "off,my_app=debug,my_lib=trace,hyper=warn");
    assert_eq!(FilterBuilder::new().filter_string(), "off");
}

#[test]
fn allow_takes_the_level_current_at_the_call() {
    let b = FilterBuilder::new()
        .allow("early")
        .default_level("warn")
        .allow("late");
    assert_eq!(b.filter_string(), "off,early=info,late=warn");
}

#[test]
fn filter_builder_default_has_empty_level() {
    let b = FilterBuilder::default().allow("x");
    assert_eq!(b.filter_string(), "off,x=");
}

#[test]
fn config_filter_allows_crates_at_level() {
    let c = OtelConfig::builder()
        .log_level(LogLevel::Debug)
        .allow_crate("my_app")
        .allow_crate("my_lib")
        .custom_filter("hyper=warn")
        .build(EnvConfig::empty());
    assert_eq!(
        config_filter_string(&c),
        "off,my_app=debug,my_lib=debug,hyper=warn"
    );
    let silent = OtelConfig::builder().build(EnvConfig::empty());
    assert_eq!(config_filter_string(&silent), "off");
}

#[test]
fn level_directives() {
    assert_eq!(level_to_directive(LogLevel::Trace), "trace");
    assert_eq!(level_to_directive(LogLevel::Error), "error");
}

#[test]
fn invalid_directives_still_build_a_filter() {
    let filter = FilterBuilder::new().directive("[[[not a directive").build();
    assert!(!format!("{filter:?}").is_empty());
}
