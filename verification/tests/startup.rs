use vatis::identity::select_interface;
use vatis::interval::parse_interval;

#[test]
fn unparsable_interval_falls_back_to_default() {
    assert_eq!(parse_interval("abc"), 10);
}

#[test]
fn interval_edge_cases() {
    assert_eq!(parse_interval(""), 10);
    assert_eq!(parse_interval("0"), 10);
    assert_eq!(parse_interval("1"), 1);
    assert_eq!(parse_interval("5"), 5);
    assert_eq!(parse_interval("10"), 10);
    assert_eq!(parse_interval("3600"), 3600);
    assert_eq!(parse_interval("12x"), 10);
    assert_eq!(parse_interval("-5"), 10);
    assert_eq!(parse_interval("18446744073709551615"), u64::MAX);
    assert_eq!(parse_interval("18446744073709551616"), 10);
    assert_eq!(parse_interval("99999999999999999999999999"), 10);
}

#[test]
fn identity_skips_loopback() {
    let names = vec!["lo".to_string(), "eth0".to_string(), "wlan0".to_string()];
    assert_eq!(select_interface(&names), Some(1));
}

#[test]
fn identity_first_when_no_loopback() {
    let names = vec!["eth0".to_string(), "wlan0".to_string()];
    assert_eq!(select_interface(&names), Some(0));
}

#[test]
fn identity_none_when_only_loopback() {
    let names = vec!["lo".to_string()];
    assert_eq!(select_interface(&names), None);
    let empty: Vec<String> = Vec::new();
    assert_eq!(select_interface(&empty), None);
}
