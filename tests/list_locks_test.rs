use forceops::deleter::TargetKind;
use forceops::lock_checker;
use forceops::lock_checker::{LockCheckError, LockStrategy, ProcessDirectory, SessionEntry};

#[test]
fn file_not_found_error() {
    let non_existent_path = r"C:\C:\C:\";
    let result = lock_checker::get_locks(non_existent_path, TargetKind::Absent);

    assert!(result.is_err(), "Should return error for non-existent path");
    let err = result.unwrap_err();
    assert!(
        err.to_string().contains("No such file or directory"),
        "Error should mention file not found: {}",
        err.to_string()
    );
}

#[test]
fn get_locks_picks_strategy_by_kind() {
    assert_eq!(
        lock_checker::get_locks(r"C:\dir", TargetKind::Directory).unwrap(),
        LockStrategy::WorkingDirectoryScan
    );
    assert_eq!(
        lock_checker::get_locks(r"C:\file.txt", TargetKind::File).unwrap(),
        LockStrategy::FileSession
    );
    let err = lock_checker::get_locks(r"C:\gone", TargetKind::Absent).unwrap_err();
    assert_eq!(
        err.to_string(),
        r"File not found: Cannot list locks of 'C:\gone'. No such file or directory"
    );
}

fn dir(pid: u32, cwd: Option<&str>) -> ProcessDirectory {
    ProcessDirectory {
        process_id: pid,
        current_directory: cwd.map(|c| c.to_string()),
    }
}

#[test]
fn directory_scan_finds_the_single_holder() {
    let target = r"C:\Work\Locked";
    let processes = vec![
        dir(4, Some(r"C:\Windows\System32")),
        dir(4242, Some(r"C:\Work\Locked")),
        dir(77, None),
    ];
    let ids = lock_checker::get_locking_process_ids_low_level(target, 1000, &processes);
    assert_eq!(ids, vec![4242]);
}

#[test]
fn directory_scan_on_unlocked_directory_is_empty() {
    let processes = vec![dir(4, Some(r"C:\Windows")), dir(8, Some(r"D:\Other"))];
    let ids = lock_checker::get_locking_process_ids_low_level(r"C:\Work\Free", 1000, &processes);
    assert!(ids.is_empty());
}

#[test]
fn directory_scan_matches_ancestors_and_descendants_ignoring_case_and_prefix() {
    let target = r"\\?\C:\Work\Locked";
    let processes = vec![
        dir(10, Some(r"c:\work\locked\sub")),
        dir(11, Some(r"C:\WORK")),
        dir(12, Some(r"C:\Workshop")),
        dir(0, Some(r"C:\Work\Locked")),
        dir(1000, Some(r"C:\Work\Locked")),
    ];
    let ids = lock_checker::get_locking_process_ids_low_level(target, 1000, &processes);
    assert_eq!(ids, vec![10, 11]);
}

#[test]
fn comparison_key_lowers_and_strips_verbatim_prefix() {
    assert_eq!(lock_checker::path_comparison_key(r"\\?\C:\Temp\Dir"), r"c:\temp\dir");
    assert_eq!(lock_checker::path_comparison_key(r"C:\Temp"), r"c:\temp");
    assert_eq!(lock_checker::key_of_lowered(r"\\?\c:\x"), r"c:\x");
    assert!(lock_checker::working_directory_matches(r"c:\a", r"c:\a\b"));
    assert!(lock_checker::working_directory_matches(r"c:\a\b", r"c:\a"));
    assert!(!lock_checker::working_directory_matches(r"c:\a\b", r"c:\c"));
}

#[test]
fn directory_holder_uses_executable_path_for_both_names() {
    let p = lock_checker::directory_holder(5, Some(r"C:\bin\tool.exe".to_string()));
    assert_eq!(p.process_id, 5);
    assert_eq!(p.executable_name.as_deref(), Some(r"C:\bin\tool.exe"));
    assert_eq!(p.application_name.as_deref(), Some(r"C:\bin\tool.exe"));
    let q = lock_checker::directory_holder(6, None);
    assert!(q.executable_name.is_none() && q.application_name.is_none());
}

fn wide(s: &str, pad: usize) -> Vec<u16> {
    let mut v: Vec<u16> = s.encode_utf16().collect();
    v.extend(std::iter::repeat(0).take(pad));
    v
}

#[test]
fn wide_to_string_stops_at_nul() {
    assert_eq!(lock_checker::wide_to_string(&[72, 105, 0, 65]).as_deref(), Some("Hi"));
    assert_eq!(lock_checker::wide_to_string(&[72, 105]).as_deref(), Some("Hi"));
    assert_eq!(lock_checker::wide_to_string(&[0, 65]), None);
    assert_eq!(lock_checker::wide_to_string(&[]), None);
    assert_eq!(lock_checker::wide_to_string(&[0xD800, 0]), None);
    assert_eq!(lock_checker::wide_to_string(&wide("Grüße", 3)).as_deref(), Some("Grüße"));
}

#[test]
fn session_holder_prefers_service_name() {
    let with_service = SessionEntry {
        process_id: 321,
        app_name: wide("Windows Search", 4),
        service_short_name: wide("WSearch", 4),
    };
    let h = lock_checker::session_holder(&with_service);
    assert_eq!(h.process_id, 321);
    assert_eq!(h.executable_name.as_deref(), Some("WSearch"));
    assert_eq!(h.application_name.as_deref(), Some("Windows Search"));

    let without_service = SessionEntry {
        process_id: 9,
        app_name: wide("Notepad", 2),
        service_short_name: wide("", 8),
    };
    let h = lock_checker::session_holder(&without_service);
    assert_eq!(h.executable_name.as_deref(), Some("Notepad"));
    assert_eq!(h.application_name.as_deref(), Some("Notepad"));
}

#[test]
fn session_holders_take_the_listed_count() {
    let entries: Vec<SessionEntry> = (1..=3)
        .map(|i| SessionEntry {
            process_id: i,
            app_name: wide("app", 1),
            service_short_name: wide("", 1),
        })
        .collect();
    let two = lock_checker::session_holders(&entries, 2);
    assert_eq!(two.iter().map(|p| p.process_id).collect::<Vec<_>>(), vec![1, 2]);
    assert_eq!(lock_checker::session_holders(&entries, 10).len(), 3);
    assert!(lock_checker::session_holders(&entries, 0).is_empty());
}

#[test]
fn no_paths_need_no_session() {
    let none: Vec<String> = Vec::new();
    let r = lock_checker::get_locking_processes_without_session(&none);
    assert!(r.unwrap().is_empty());
    let some = vec![r"C:\f.txt".to_string()];
    assert!(lock_checker::get_locking_processes_without_session(&some).is_none());
}

#[test]
fn session_status_codes_map_to_errors() {
    assert!(lock_checker::check_session_start(0).is_ok());
    match lock_checker::check_session_start(87) {
        Err(LockCheckError::SessionStart { code }) => assert_eq!(code, 87),
        _ => panic!("expected a session start error"),
    }
    assert!(lock_checker::check_registration(0).is_ok());
    let e = lock_checker::check_registration(2).unwrap_err();
    assert_eq!(e.to_string(), "Failed to register resources: error code 2");
    assert_eq!(
        lock_checker::check_session_start(31).unwrap_err().to_string(),
        "Failed to start Restart Manager session: error code 31"
    );
}

#[test]
fn list_status_distinguishes_access_denied() {
    assert!(lock_checker::check_list_status(0).is_ok());
    assert!(lock_checker::check_list_status(234).is_ok());
    match lock_checker::check_list_status(5) {
        Err(LockCheckError::GetList { code, message }) => {
            assert_eq!(code, 5);
            assert_eq!(message, "Access is denied.");
        }
        _ => panic!("expected a list error"),
    }
    let e = lock_checker::check_list_status(1223).unwrap_err();
    assert_eq!(e.to_string(), "Failed to get list (RmGetList() error 1223): Error code 1223");
}

#[test]
fn list_size_skips_second_call_when_nothing_listed() {
    assert_eq!(lock_checker::list_size(0, 0).unwrap(), None);
    assert_eq!(lock_checker::list_size(234, 3).unwrap(), Some(3));
    assert!(lock_checker::list_size(5, 3).is_err());
}

#[test]
fn offsets_come_from_the_table() {
    let o64 = lock_checker::control_block_offsets(64).unwrap();
    assert_eq!((o64.process_parameters, o64.current_directory), (0x20, 0x38));
    let o32 = lock_checker::control_block_offsets(32).unwrap();
    assert_eq!((o32.process_parameters, o32.current_directory), (0x10, 0x24));
    assert!(lock_checker::control_block_offsets(16).is_none());
}

#[test]
fn guard_releases_once() {
    let released = std::cell::Cell::new(0u32);
    let g = lock_checker::guard(17u32, |v| released.set(released.get() + v));
    assert_eq!(*g.value(), 17);
    assert_eq!(released.get(), 0);
    g.release();
    assert_eq!(released.get(), 17);
}

#[test]
fn executable_name_prefers_non_empty_service_name() {
    let some = |s: &str| Some(s.to_string());
    assert_eq!(lock_checker::executable_name(some("svc"), some("App")), some("svc"));
    assert_eq!(lock_checker::executable_name(some(""), some("App")), some("App"));
    assert_eq!(lock_checker::executable_name(None, some("App")), some("App"));
    assert_eq!(lock_checker::executable_name(None, None), None);
}

#[test]
fn works_for_directory() {
    let pid = 4711;
    let dir_path = r"C:\Users\me\AppData\Local\Temp\locked_dir";
    let processes = vec![
        ProcessDirectory { process_id: 4, current_directory: Some(r"C:\Windows".into()) },
        ProcessDirectory { process_id: pid, current_directory: Some(dir_path.into()) },
    ];
    let ids = lock_checker::get_locking_process_ids_low_level(dir_path, 1, &processes);
    assert!(!ids.is_empty(), "Should find at least one lock");
    let locks: Vec<_> = ids
        .iter()
        .map(|&id| {
            lock_checker::directory_holder(
                id,
                Some(r"C:\Windows\System32\WindowsPowerShell\v1.0\powershell.exe".into()),
            )
        })
        .collect();
    let our_process = locks.iter().find(|p| p.process_id == pid).unwrap();
    let exe_name = our_process.executable_name.as_deref().unwrap_or("");
    assert!(exe_name.to_lowercase().contains("powershell"));
}

#[test]
fn works_for_file() {
    let pid = 4712;
    let entries = vec![SessionEntry {
        process_id: pid,
        app_name: wide("Windows PowerShell", 5),
        service_short_name: wide("", 5),
    }];
    let size = lock_checker::list_size(234, 1).unwrap().unwrap();
    assert!(lock_checker::check_list_status(0).is_ok());
    let locks = lock_checker::session_holders(&entries, size);
    assert!(!locks.is_empty(), "Should find at least one lock");
    let our_process = locks.iter().find(|p| p.process_id == pid).unwrap();
    let exe_name = our_process.executable_name.as_deref().unwrap_or("");
    assert!(exe_name.to_lowercase().contains("powershell"));
}

#[test]
fn failed_lookup_yields_no_holders() {
    let found = vec![forceops::ProcessInfo {
        process_id: 3,
        executable_name: None,
        application_name: None,
    }];
    assert_eq!(lock_checker::holders_or_none(Ok(found)).len(), 1);
    let failed = Err(LockCheckError::GetList { code: 5, message: "Access is denied.".into() });
    assert!(lock_checker::holders_or_none(failed).is_empty());
}

#[test]
fn listing_lines() {
    assert_eq!(lock_checker::list_header(), "ProcessId,ExecutableName,ApplicationName");
    let p = forceops::ProcessInfo {
        process_id: 42,
        executable_name: Some("pwsh.exe".into()),
        application_name: None,
    };
    assert_eq!(lock_checker::list_row(&p), "42,pwsh.exe,<null>");
}
