use monitor::backend::str_equal;
use monitor::{
    Backend, ErrorReport, LogLocation, Monitor, MonitorConfig, MonitorProvider, NullMonitor,
    Rollbar,
};

fn config() -> MonitorConfig {
    MonitorConfig::new("token-123".to_string(), "staging".to_string())
}

#[test]
fn unknown_selectors_resolve_to_nothing() {
    let cfg = config();
    for selector in ["", "Rollbar", "ROLLBAR", "rollbar ", " rollbar", "rollba", "rollbarx", "sentry", "null"] {
        assert!(MonitorProvider::find_with_config(selector, &cfg).is_none(), "{}", selector);
    }
}

#[test]
fn rollbar_selector_builds_a_bound_monitor() {
    let cfg = config();
    let found = MonitorProvider::find_with_config("rollbar", &cfg);
    let rollbar = found.expect("rollbar is a known backend");
    assert_eq!(rollbar.access_token(), "token-123");
    assert_eq!(rollbar.environment(), "staging");
}

#[test]
fn rollbar_from_config_keeps_the_settings() {
    let cfg = MonitorConfig::new("token-a".to_string(), "production".to_string());
    let rollbar = Rollbar::from_config(&cfg);
    assert_eq!(rollbar.access_token(), "token-a");
    assert_eq!(rollbar.environment(), "production");
}

#[test]
fn backend_selector_lookup() {
    assert_eq!(Backend::from_selector("rollbar"), Some(Backend::Rollbar));
    assert_eq!(Backend::from_selector("Rollbar"), None);
    assert_eq!(Backend::from_selector(""), None);
    assert_eq!(Backend::Rollbar.name(), "rollbar");
    assert_eq!(Backend::from_selector(Backend::Rollbar.name()), Some(Backend::Rollbar));
}

#[test]
fn str_equal_compares_characters() {
    assert!(str_equal("", ""));
    assert!(str_equal("héllo", "héllo"));
    assert!(!str_equal("héllo", "hello"));
    assert!(!str_equal("abc", "ab"));
    assert!(!str_equal("ab", "abc"));
}

#[test]
fn null_monitor_is_the_no_op_backend() {
    assert_eq!(MonitorProvider::null_monitor(), NullMonitor);
    assert_eq!(NullMonitor::from_config(&config()), NullMonitor);
}

#[test]
fn null_monitor_send_accepts_anything() {
    let monitor = MonitorProvider::null_monitor();
    let cases = [
        ("", "", 0u32),
        ("boom", "app.rs", 42),
        ("ünïcödé message", "src/a/b/c.rs", u32::MAX),
    ];
    for (message, file, line) in cases {
        let message = message.to_string();
        let location = LogLocation::new(file.to_string(), line);
        monitor.send(&message, &location);
        monitor.send(&message, &location);
    }
}

#[test]
fn error_report_holds_message_and_location_frame() {
    let location = LogLocation::new("app.rs".to_string(), 42);
    let report = ErrorReport::at(&"boom".to_string(), &location);
    assert_eq!(report.message, "boom");
    assert_eq!(report.frame.file_name, "app.rs");
    assert_eq!(report.frame.line_number, 42);
}

#[test]
fn error_report_at_line_zero_and_max() {
    let low = ErrorReport::at(&String::new(), &LogLocation::new(String::new(), 0));
    assert_eq!(low.message, "");
    assert_eq!(low.frame.file_name, "");
    assert_eq!(low.frame.line_number, 0);
    let high = ErrorReport::at(&"x".to_string(), &LogLocation::new("z.rs".to_string(), u32::MAX));
    assert_eq!(high.frame.line_number, u32::MAX);
    assert_eq!(high.frame.file_name, "z.rs");
}

#[test]
fn log_location_accessors() {
    let location = LogLocation::new("main.rs".to_string(), 7);
    assert_eq!(location.file(), "main.rs");
    assert_eq!(location.line(), 7);
}

#[test]
fn monitor_config_fields() {
    let cfg = MonitorConfig::new("t".to_string(), "e".to_string());
    assert_eq!(cfg.access_token, "t");
    assert_eq!(cfg.environment, "e");
}
