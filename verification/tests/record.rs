use proclist::config::Config;
use proclist::error::Error;
use proclist::record::{append_decimal, ProcessRecord};

fn decimal(n: u32) -> String {
    let mut text = String::new();
    append_decimal(&mut text, n);
    text
}

#[test]
fn line_is_name_and_identifier() {
    let record = ProcessRecord { pid: 1234, name: "notepad.exe".to_string() };
    assert_eq!(record.line(), "notepad.exe (pid=1234)");
}

#[test]
fn line_of_an_empty_name() {
    let record = ProcessRecord { pid: 0, name: String::new() };
    assert_eq!(record.line(), " (pid=0)");
}

#[test]
fn line_keeps_the_name_as_it_is() {
    let record = ProcessRecord { pid: 4294967295, name: "caf\u{e9} (x).exe".to_string() };
    assert_eq!(record.line(), "caf\u{e9} (x).exe (pid=4294967295)");
}

#[test]
fn decimal_numerals() {
    assert_eq!(decimal(0), "0");
    assert_eq!(decimal(7), "7");
    assert_eq!(decimal(9), "9");
    assert_eq!(decimal(10), "10");
    assert_eq!(decimal(101), "101");
    assert_eq!(decimal(1234567890), "1234567890");
    assert_eq!(decimal(u32::MAX), "4294967295");
}

#[test]
fn decimal_is_appended() {
    let mut text = "pid ".to_string();
    append_decimal(&mut text, 42);
    assert_eq!(text, "pid 42");
}

#[test]
fn only_a_failed_enumeration_is_fatal() {
    assert!(Error::EnumerationFailed { code: 5 }.is_fatal());
    assert!(!Error::OpenFailed { pid: 1, code: 5 }.is_fatal());
    assert!(!Error::ModuleQueryFailed { pid: 1, code: 5 }.is_fatal());
    assert!(!Error::NameResolutionFailed { pid: 1, code: 5 }.is_fatal());
    assert!(!Error::NameDecodeFailed { pid: 1 }.is_fatal());
}

#[test]
fn errors_carry_identifier_and_code() {
    assert_eq!(Error::EnumerationFailed { code: 5 }.pid(), None);
    assert_eq!(Error::EnumerationFailed { code: 5 }.code(), Some(5));
    assert_eq!(Error::OpenFailed { pid: 1, code: 6 }.pid(), Some(1));
    assert_eq!(Error::OpenFailed { pid: 1, code: 6 }.code(), Some(6));
    assert_eq!(Error::ModuleQueryFailed { pid: 2, code: 7 }.pid(), Some(2));
    assert_eq!(Error::ModuleQueryFailed { pid: 2, code: 7 }.code(), Some(7));
    assert_eq!(Error::NameResolutionFailed { pid: 3, code: 8 }.pid(), Some(3));
    assert_eq!(Error::NameResolutionFailed { pid: 3, code: 8 }.code(), Some(8));
    assert_eq!(Error::NameDecodeFailed { pid: 4 }.pid(), Some(4));
    assert_eq!(Error::NameDecodeFailed { pid: 4 }.code(), None);
}

#[test]
fn default_settings() {
    let config = Config::default();
    assert_eq!(config.max_pids(), 1024);
    assert_eq!(config.pid_filter(), None);
    assert!(config.selects(0));
    assert!(config.selects(u32::MAX));
}

#[test]
fn settings_with_a_filter() {
    let config = Config::new(16, Some(77)).unwrap();
    assert_eq!(config.max_pids(), 16);
    assert_eq!(config.pid_filter(), Some(77));
    assert!(config.selects(77));
    assert!(!config.selects(78));
}

#[test]
fn settings_must_fit_a_query() {
    assert!(Config::new(0, None).is_some());
    assert!(Config::new(0x3fff_ffff, None).is_some());
    assert!(Config::new(0x4000_0000, None).is_none());
    assert!(Config::new(u32::MAX, Some(1)).is_none());
}
