use session_context::cli::Args;
use session_context::manifest::Manifest;
use session_context::process::ProcessBuilder;

#[test]
fn new_invocation_has_nothing_configured() {
    let process = ProcessBuilder::new(&"/usr/bin/cargo".to_string());
    assert_eq!(process.program, "/usr/bin/cargo");
    assert!(!process.display_manifest_path);
}

#[test]
fn manifest_path_display_is_switched_on_and_stays_on() {
    let mut process = ProcessBuilder::new(&"cargo".to_string());
    process.display_manifest_path();
    assert!(process.display_manifest_path);
    process.display_manifest_path();
    assert!(process.display_manifest_path);
    assert_eq!(process.program, "cargo");
}

#[test]
fn manifest_keeps_its_flag() {
    assert!(Manifest::new(true).publish);
    assert!(!Manifest::new(false).publish);
}

#[test]
fn subcommand_is_work() {
    let args = Args { subcommand: Some("check".to_string()), remove_dev_deps: false, verbose: false };
    assert!(args.names_work());
}

#[test]
fn removing_dev_dependencies_is_work() {
    let args = Args { subcommand: None, remove_dev_deps: true, verbose: false };
    assert!(args.names_work());
}

#[test]
fn neither_subcommand_nor_removal_is_no_work() {
    let args = Args { subcommand: None, remove_dev_deps: false, verbose: true };
    assert!(!args.names_work());
}
