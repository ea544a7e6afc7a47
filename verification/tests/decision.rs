use exelink::error::{Error, Generic, EXIT_GENERIC, EXIT_IO};
use exelink::install::{
    base_name_of, decide_conflict, determine_link_name, exit_code, join_path, needs_os_action,
    outcome_of, plan_install, resolve_source, ConflictDecision, ErrorKind, LinkOutcome,
};
use exelink::platform::{about_msg, Platform};

fn b(s: &str) -> Vec<u8> {
    s.as_bytes().to_vec()
}

#[test]
fn base_name_is_final_component() {
    assert_eq!(b("tool"), base_name_of(&b("/usr/bin/tool"), b'/'));
    assert_eq!(b("tool.exe"), base_name_of(&b("C:\\bin\\tool.exe"), b'\\'));
    assert_eq!(b("plain"), base_name_of(&b("plain"), b'/'));
    assert_eq!(b(""), base_name_of(&b("/"), b'/'));
}

#[test]
fn resolve_missing_source_is_invalid_path() {
    assert_eq!(Err(ErrorKind::InvalidPath), resolve_source(None, b'/').map(|s| s.base_name));
}

#[test]
fn resolve_root_is_unusable() {
    assert_eq!(
        Err(ErrorKind::UnusableSource),
        resolve_source(Some(b("/")), b'/').map(|s| s.base_name)
    );
}

#[test]
fn resolve_existing_source() {
    let src = resolve_source(Some(b("/usr/bin/tool")), b'/').unwrap();
    assert_eq!(b("/usr/bin/tool"), src.absolute_path);
    assert_eq!(b("tool"), src.base_name);
}

#[test]
fn resolving_twice_yields_identical_sources() {
    let first = resolve_source(Some(b("/usr/bin/tool")), b'/').unwrap();
    let second = resolve_source(Some(b("/usr/bin/tool")), b'/').unwrap();
    assert_eq!(first, second);
}

#[test]
fn link_name_without_alias_is_base_name() {
    assert_eq!(b("tool"), determine_link_name(&b("tool"), &None, true));
    assert_eq!(b("tool"), determine_link_name(&b("tool"), &None, false));
    assert_eq!(b("tool.exe"), determine_link_name(&b("tool.exe"), &None, true));
}

#[test]
fn link_name_with_alias_is_reconciled() {
    assert_eq!(b("t.exe"), determine_link_name(&b("tool.exe"), &Some(b("t")), true));
    assert_eq!(b("t"), determine_link_name(&b("tool.exe"), &Some(b("t")), false));
}

#[test]
fn join_inserts_separator() {
    assert_eq!(b("/home/me/bin/tool"), join_path(&b("/home/me/bin"), &b("tool"), b'/'));
}

#[test]
fn join_after_root_adds_no_second_separator() {
    assert_eq!(b("/tool"), join_path(&b("/"), &b("tool"), b'/'));
}

#[test]
fn scenario_plain_install() {
    // source `/usr/bin/tool` exists, no alias, destination empty.
    let target =
        plan_install(Some(b("/usr/bin/tool")), Some(b("/home/me/bin")), &None, false, b'/')
            .unwrap();
    assert_eq!(b("tool"), target.link_name);
    assert_eq!(b("/home/me/bin/tool"), target.final_path);
    let decision = decide_conflict(false, false);
    assert_eq!(ConflictDecision::CreateNew, decision);
    assert_eq!(Ok(LinkOutcome::Created), outcome_of(&decision, true));
}

#[test]
fn scenario_aliased_install_on_extension_platform() {
    // source `C:\bin\tool.exe`, alias `t`, destination empty.
    let target = plan_install(
        Some(b("C:\\bin\\tool.exe")),
        Some(b("C:\\Users\\me\\bin")),
        &Some(b("t")),
        true,
        b'\\',
    )
    .unwrap();
    assert_eq!(b("t.exe"), target.link_name);
    assert_eq!(b("C:\\Users\\me\\bin\\t.exe"), target.final_path);
    let decision = decide_conflict(false, false);
    assert_eq!(Ok(LinkOutcome::Created), outcome_of(&decision, true));
}

#[test]
fn scenario_occupied_destination_without_force() {
    // source `/usr/bin/tool`, destination already has an entry named `tool`.
    let target =
        plan_install(Some(b("/usr/bin/tool")), Some(b("/home/me/bin")), &None, false, b'/')
            .unwrap();
    assert_eq!(b("tool"), target.link_name);
    let decision = decide_conflict(true, false);
    assert_eq!(ConflictDecision::Reject, decision);
    assert!(!needs_os_action(&decision));
    assert_eq!(Ok(LinkOutcome::RejectedExisting), outcome_of(&decision, false));
}

#[test]
fn occupied_destination_with_force_is_overwritten() {
    let decision = decide_conflict(true, true);
    assert_eq!(ConflictDecision::Overwrite, decision);
    assert!(needs_os_action(&decision));
    assert_eq!(Ok(LinkOutcome::OverwrittenExisting), outcome_of(&decision, true));
}

#[test]
fn failed_link_creation_is_reported() {
    assert_eq!(
        Err(ErrorKind::LinkCreationFailed),
        outcome_of(&ConflictDecision::CreateNew, false)
    );
    assert_eq!(
        Err(ErrorKind::LinkCreationFailed),
        outcome_of(&ConflictDecision::Overwrite, false)
    );
}

#[test]
fn plan_without_source_is_invalid_path() {
    assert_eq!(
        Err(ErrorKind::InvalidPath),
        plan_install(None, Some(b("/home/me/bin")), &None, false, b'/').map(|t| t.link_name)
    );
}

#[test]
fn plan_without_executable_directory_is_environment_failure() {
    assert_eq!(
        Err(ErrorKind::EnvironmentUnavailable),
        plan_install(Some(b("/usr/bin/tool")), None, &None, false, b'/').map(|t| t.link_name)
    );
}

#[test]
fn plan_with_root_source_is_unusable() {
    assert_eq!(
        Err(ErrorKind::UnusableSource),
        plan_install(Some(b("/")), Some(b("/home/me/bin")), &None, false, b'/')
            .map(|t| t.link_name)
    );
}

#[test]
fn exit_codes_are_stable_and_distinct() {
    assert_eq!(2, exit_code(&ErrorKind::InvalidPath));
    assert_eq!(2, exit_code(&ErrorKind::EnvironmentUnavailable));
    assert_eq!(2, exit_code(&ErrorKind::LinkCreationFailed));
    assert_eq!(3, exit_code(&ErrorKind::UnusableSource));
}

#[test]
fn generic_errors_carry_the_generic_exit_code() {
    let e = Error::new("Not a usable path");
    assert_eq!("Not a usable path".to_string(), e.msg);
    assert_eq!(EXIT_GENERIC, e.exit);
}

#[test]
fn error_result_wraps_a_generic_failure() {
    let r: Result<(), Error> = Error::result(Generic::new("something went wrong"));
    let e = r.unwrap_err();
    assert_eq!("something went wrong".to_string(), e.msg);
    assert_eq!(EXIT_GENERIC, e.exit);
}

#[test]
fn error_new_result_is_a_generic_err() {
    let r: Result<(), Error> = Error::new_result("bad input");
    let e = r.unwrap_err();
    assert_eq!("bad input".to_string(), e.msg);
    assert_eq!(EXIT_GENERIC, e.exit);
}

#[test]
fn io_errors_carry_the_io_exit_code() {
    let e = Error::from_io("permission denied");
    assert_eq!("permission denied".to_string(), e.msg);
    assert_eq!(EXIT_IO, e.exit);
}

#[test]
fn platform_extension_semantics() {
    assert!(Platform::Windows.has_extension_semantics());
    assert!(!Platform::MacOs.has_extension_semantics());
    assert!(!Platform::Linux.has_extension_semantics());
}

#[test]
fn platform_separators() {
    assert_eq!(b'\\', Platform::Windows.separator());
    assert_eq!(b'/', Platform::MacOs.separator());
    assert_eq!(b'/', Platform::Linux.separator());
}

#[test]
fn platform_file_manager_commands() {
    assert_eq!(Some("explorer"), Platform::Windows.file_manager_command());
    assert_eq!(Some("open"), Platform::MacOs.file_manager_command());
    assert_eq!(None, Platform::Linux.file_manager_command());
}

#[test]
fn platform_about_messages() {
    assert_eq!("Opens the host directory in Explorer", about_msg(&Platform::Windows));
    assert_eq!("Opens the host directory in Finder", about_msg(&Platform::MacOs));
    assert_eq!("Not implemented for your system", about_msg(&Platform::Linux));
}
