use skillpad::deep_link::{
    deep_link_event, find_deep_link, is_deep_link_arg, route_relaunch, starts_with, RelaunchAction,
};

fn args(items: &[&str]) -> Vec<String> {
    items.iter().map(|s| s.to_string()).collect()
}

fn emitted(a: RelaunchAction) -> Option<String> {
    match a {
        RelaunchAction::Ignore => None,
        RelaunchAction::FocusAndEmit(url) => Some(url),
    }
}

#[test]
fn no_deep_link_takes_no_action() {
    let a = args(&["/usr/bin/skillpad", "--flag", "https://example.com", "skillpad:/x"]);
    assert_eq!(find_deep_link(&a), None);
    assert_eq!(emitted(route_relaunch(&a, true)), None);
    assert_eq!(emitted(route_relaunch(&a, false)), None);
}

#[test]
fn empty_arguments_take_no_action() {
    let a: Vec<String> = Vec::new();
    assert_eq!(find_deep_link(&a), None);
    assert_eq!(emitted(route_relaunch(&a, true)), None);
}

#[test]
fn single_deep_link_is_forwarded_unchanged() {
    let a = args(&["/usr/bin/skillpad", "skillpad://open?skill=abc"]);
    assert_eq!(find_deep_link(&a), Some(1));
    assert_eq!(
        emitted(route_relaunch(&a, true)),
        Some("skillpad://open?skill=abc".to_string())
    );
}

#[test]
fn first_deep_link_wins() {
    let a = args(&["x", "skillpad://first", "y", "skillpad://second"]);
    assert_eq!(find_deep_link(&a), Some(1));
    assert_eq!(emitted(route_relaunch(&a, true)), Some("skillpad://first".to_string()));
}

#[test]
fn no_main_window_takes_no_action() {
    let a = args(&["skillpad://open"]);
    assert_eq!(emitted(route_relaunch(&a, false)), None);
}

#[test]
fn bare_scheme_is_a_deep_link() {
    assert!(is_deep_link_arg("skillpad://"));
    assert!(!is_deep_link_arg("skillpad:/"));
    assert!(!is_deep_link_arg("SKILLPAD://x"));
    assert!(!is_deep_link_arg(" skillpad://x"));
    assert!(!is_deep_link_arg(""));
}

#[test]
fn prefix_check_by_characters() {
    assert!(starts_with("héllo wörld", "héllo"));
    assert!(starts_with("abc", ""));
    assert!(starts_with("", ""));
    assert!(!starts_with("ab", "abc"));
    assert!(!starts_with("abd", "abc"));
}

#[test]
fn deep_link_event_name() {
    assert_eq!(deep_link_event(), "deep-link-open");
}
