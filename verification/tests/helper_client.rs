use kpm::{
    check_kpm_configured, check_version, get_kpm_version, is_executable, starts_with,
    version_reports_error, Command, HelperOutput, HelperProbe, KpmError,
};

fn exited(success: bool, stdout: &str, stderr: &str) -> HelperOutput {
    HelperOutput::Exited {
        success,
        stdout: stdout.as_bytes().to_vec(),
        stderr: stderr.as_bytes().to_vec(),
    }
}

#[test]
fn version_is_trimmed_standard_output() {
    let version = get_kpm_version(&exited(true, "  0.12.3\n", "noise"));
    assert_eq!(version, Ok("0.12.3".to_string()));
}

#[test]
fn version_replaces_invalid_bytes() {
    let output = HelperOutput::Exited {
        success: true,
        stdout: vec![b'v', 0xff, b'1', b'\n'],
        stderr: Vec::new(),
    };
    assert_eq!(get_kpm_version(&output), Ok("v\u{fffd}1".to_string()));
}

#[test]
fn version_failure_carries_trimmed_standard_error() {
    let version = get_kpm_version(&exited(false, "ignored", "\tno such command \n"));
    assert_eq!(version, Err(KpmError::HelperReported("no such command".to_string())));
}

#[test]
fn version_of_helper_that_did_not_start() {
    let output = HelperOutput::NotStarted("No such file or directory".to_string());
    assert_eq!(
        get_kpm_version(&output),
        Err(KpmError::HelperExecution("No such file or directory".to_string()))
    );
}

#[test]
fn error_text_is_recognised_in_any_case() {
    assert!(version_reports_error("error: not supported"));
    assert!(version_reports_error("ERROR 5"));
    assert!(version_reports_error("Error"));
    assert!(!version_reports_error("1.0 (no error)"));
    assert!(!version_reports_error("erro"));
    assert!(!version_reports_error(""));
}

#[test]
fn version_check_rules_helper_out() {
    assert_eq!(check_version(&exited(true, "0.9\n", "")), None);
    assert_eq!(
        check_version(&exited(true, "Error: kernel too old\n", "")),
        Some(KpmError::HelperUnavailable("Error: kernel too old".to_string()))
    );
    assert_eq!(
        check_version(&exited(false, "", "denied\n")),
        Some(KpmError::HelperUnavailable("denied".to_string()))
    );
    assert_eq!(
        check_version(&HelperOutput::NotStarted("not found".to_string())),
        Some(KpmError::HelperUnavailable("not found".to_string()))
    );
}

#[test]
fn prefix_test_goes_by_characters() {
    assert!(starts_with("error", "error"));
    assert!(starts_with("errors", "error"));
    assert!(starts_with("anything", ""));
    assert!(!starts_with("err", "error"));
    assert!(!starts_with("terror", "error"));
    assert!(starts_with("\u{e9}t\u{e9}", "\u{e9}t"));
    assert!(!starts_with("\u{e9}t\u{e9}", "et"));
}

#[test]
fn executable_needs_one_execute_bit() {
    assert!(is_executable(Some(0o755)));
    assert!(is_executable(Some(0o100)));
    assert!(is_executable(Some(0o010)));
    assert!(is_executable(Some(0o001)));
    assert!(!is_executable(Some(0o644)));
    assert!(!is_executable(Some(0)));
    assert!(!is_executable(None));
}

#[test]
fn configured_needs_existence_and_permission() {
    assert!(check_kpm_configured(&HelperProbe { exists: true, mode: Some(0o755) }));
    assert!(!check_kpm_configured(&HelperProbe { exists: true, mode: Some(0o644) }));
    assert!(!check_kpm_configured(&HelperProbe { exists: false, mode: Some(0o755) }));
    assert!(!check_kpm_configured(&HelperProbe { exists: false, mode: None }));
    assert!(!check_kpm_configured(&HelperProbe { exists: true, mode: None }));
}

#[test]
fn helper_arguments_follow_the_argument_contract() {
    assert_eq!(Command::QueryVersion.helper_arguments(), Some(vec!["version".to_string()]));
    assert_eq!(
        Command::Load("/data/adb/kpm/a.kpm".to_string()).helper_arguments(),
        Some(vec!["load".to_string(), "/data/adb/kpm/a.kpm".to_string(), String::new()])
    );
    assert_eq!(
        Command::Unload("a".to_string()).helper_arguments(),
        Some(vec!["unload".to_string(), "a".to_string()])
    );
    assert_eq!(Command::ListDirectory.helper_arguments(), None);
    assert_eq!(Command::Delete("a.kpm".to_string()).helper_arguments(), None);
    assert_eq!(Command::Subscribe.helper_arguments(), None);
}
