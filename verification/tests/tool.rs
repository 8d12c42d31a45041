use session_context::tool::capability_level;
use session_context::tool::cargo_binary;
use session_context::tool::UNKNOWN_LEVEL;

#[test]
fn specific_override_wins_over_general() {
    let binary = cargo_binary(Some("/opt/own/cargo".to_string()), Some("/usr/bin/cargo".to_string()));
    assert_eq!(binary, "/opt/own/cargo");
}

#[test]
fn specific_override_alone_is_taken() {
    let binary = cargo_binary(Some("/opt/own/cargo".to_string()), None);
    assert_eq!(binary, "/opt/own/cargo");
}

#[test]
fn general_override_is_taken_without_specific() {
    let binary = cargo_binary(None, Some("/usr/bin/cargo".to_string()));
    assert_eq!(binary, "/usr/bin/cargo");
}

#[test]
fn default_name_without_overrides() {
    assert_eq!(cargo_binary(None, None), "cargo");
}

#[test]
fn empty_override_is_still_an_override() {
    assert_eq!(cargo_binary(Some(String::new()), Some("/usr/bin/cargo".to_string())), "");
}

#[test]
fn read_version_gives_its_level() {
    let outcome = capability_level(Ok(41));
    assert_eq!(outcome.level, 41);
    assert_eq!(outcome.warning, None);
}

#[test]
fn read_version_zero_is_no_failure() {
    let outcome = capability_level(Ok(0));
    assert_eq!(outcome.level, 0);
    assert_eq!(outcome.warning, None);
}

#[test]
fn highest_level_is_kept() {
    assert_eq!(capability_level(Ok(u32::MAX)).level, u32::MAX);
}

#[test]
fn failed_probe_gives_level_zero() {
    let outcome = capability_level(Err("no such file".to_string()));
    assert_eq!(outcome.level, 0);
    assert_eq!(outcome.level, UNKNOWN_LEVEL);
    assert_eq!(outcome.warning, Some("no such file".to_string()));
}
