use forceops::cli::{self, Commands};
use forceops::elevation;
use forceops::text;
use forceops::ForceOpsConfig;

#[test]
fn permission_wording_is_detected_in_any_case() {
    assert!(elevation::is_permission_error("Access is denied. (os error 5)"));
    assert!(elevation::is_permission_error("PERMISSION DENIED"));
    assert!(elevation::is_permission_error("Operation DENIED"));
    assert!(!elevation::is_permission_error("The directory is not empty"));
    assert!(!elevation::mentions_permission_text("ACCESS"));
    assert!(elevation::mentions_permission_text("access"));
}

#[test]
fn relaunch_only_when_allowed_unelevated_and_permission_related() {
    let allowed = ForceOpsConfig { max_retries: 10, retry_delay_ms: 50, disable_elevate: false };
    let forbidden = ForceOpsConfig { disable_elevate: true, ..allowed };
    assert!(elevation::should_relaunch(&allowed, "Access is denied.", false));
    assert!(!elevation::should_relaunch(&allowed, "Access is denied.", true));
    assert!(!elevation::should_relaunch(&forbidden, "Access is denied.", false));
    assert!(!elevation::should_relaunch(&allowed, "Failed to delete file 'x' after 10 retries", false));
}

#[test]
fn relaunch_outcome_follows_exit_code() {
    assert!(elevation::relaunch_outcome(0).is_ok());
    let e = elevation::relaunch_outcome(3).unwrap_err();
    assert_eq!(e.exit_code, 3);
    assert_eq!(e.to_string(), "Child process failed with exit code 3");
}

#[test]
fn output_file_is_named_by_process_id() {
    assert_eq!(elevation::output_file_name(4321), "forceops_4321.tmp");
}

#[test]
fn relaunch_parameters_quote_arguments_with_spaces() {
    let args: Vec<String> = vec!["forceops.exe", "delete", r"C:\My Files\a.txt", "-f"]
        .into_iter()
        .map(String::from)
        .collect();
    assert_eq!(
        elevation::relaunch_parameters(r"C:\bin\forceops.exe", &args, r"C:\Temp\forceops_7.tmp"),
        r#"/c ""C:\bin\forceops.exe" delete "C:\My Files\a.txt" -f > "C:\Temp\forceops_7.tmp" 2>&1""#
    );
    assert_eq!(elevation::join_arguments(&vec!["only".to_string()]), "");
    assert_eq!(elevation::join_arguments(&Vec::new()), "");
    assert_eq!(
        elevation::relaunch_parameters("f.exe", &Vec::new(), "o.tmp"),
        r#"/c ""f.exe"  > "o.tmp" 2>&1""#
    );
}

#[test]
fn force_flag_is_added_once() {
    let args: Vec<String> = vec!["forceops".into(), "rm".into(), "x".into()];
    assert_eq!(cli::with_force_flag(args), vec!["forceops", "rm", "x", "-f"]);
    let args: Vec<String> = vec!["forceops".into(), "rm".into(), "--force".into(), "x".into()];
    assert_eq!(cli::with_force_flag(args), vec!["forceops", "rm", "--force", "x"]);
}

#[test]
fn delete_command_carries_its_settings() {
    let c = Commands::Delete {
        files: vec!["a".into()],
        force: false,
        disable_elevate: true,
        retry_delay: 33,
        max_retries: 8,
    };
    let cfg = c.config().unwrap();
    assert_eq!((cfg.max_retries, cfg.retry_delay_ms, cfg.disable_elevate), (8, 33, true));
    assert!(Commands::List { file_or_directory: "a".into() }.config().is_none());
}

#[test]
fn decimal_rendering() {
    assert_eq!(text::decimal_text(0), "0");
    assert_eq!(text::decimal_text(1234567), "1234567");
    assert_eq!(text::decimal_text(u64::MAX), "18446744073709551615");
}
