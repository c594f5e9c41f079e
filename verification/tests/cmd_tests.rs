use trappo::cmd::{
    exec_remote_fetch_sorted_filenames_in_dir, exec_remote_file_exists, file_exists_command, list_dir_command,
    CommandOutput, FSResourceType, SortOrder,
};

fn output(success: bool, stdout: &str) -> CommandOutput {
    CommandOutput { success, code: Some(if success { 0 } else { 1 }), stdout: stdout.as_bytes().to_vec() }
}

#[test]
fn file_checks_use_test_flags() {
    assert_eq!(file_exists_command("/srv/shared/.env", FSResourceType::File), "test -f /srv/shared/.env");
    assert_eq!(file_exists_command("/srv/shared/media", FSResourceType::Directory), "test -d /srv/shared/media");
    assert_eq!(file_exists_command("/srv/current", FSResourceType::Symlink), "test -L /srv/current");
}

#[test]
fn file_existence_is_the_check_status() {
    assert_eq!(exec_remote_file_exists(&Ok(output(true, ""))), Ok(true));
    assert_eq!(exec_remote_file_exists(&Ok(output(false, ""))), Ok(false));
    assert_eq!(exec_remote_file_exists(&Err("connection refused".to_string())), Err("connection refused".to_string()));
}

#[test]
fn listing_commands_sort_as_asked() {
    assert_eq!(
        list_dir_command("/srv/releases", SortOrder::Asc),
        "find /srv/releases -maxdepth 1 -mindepth 1 -printf '%f\n' | sort"
    );
    assert_eq!(
        list_dir_command("/srv/releases", SortOrder::Des),
        "find /srv/releases -maxdepth 1 -mindepth 1 -printf '%f\n' | sort -r"
    );
}

#[test]
fn listings_are_split_into_names() {
    let r = exec_remote_fetch_sorted_filenames_in_dir(&Ok(output(true, "20180924143501\n20180922191500\n")));
    assert_eq!(r, Ok(vec!["20180924143501".to_string(), "20180922191500".to_string()]));
    let r = exec_remote_fetch_sorted_filenames_in_dir(&Ok(output(true, "")));
    assert_eq!(r, Ok(vec![]));
    let r = exec_remote_fetch_sorted_filenames_in_dir(&Ok(output(true, " \n\t\n")));
    assert_eq!(r, Ok(vec![]));
    let r = exec_remote_fetch_sorted_filenames_in_dir(&Ok(output(false, "a\n\n")));
    assert_eq!(r, Ok(vec!["a".to_string()]));
    let r = exec_remote_fetch_sorted_filenames_in_dir(&Err("timeout".to_string()));
    assert_eq!(r, Err("timeout".to_string()));
}

#[test]
fn non_ascii_output_is_decoded() {
    let out = CommandOutput { success: true, code: Some(0), stdout: vec![0xc3, 0xa9, b'\n', 0xff] };
    let r = exec_remote_fetch_sorted_filenames_in_dir(&Ok(out));
    assert_eq!(r, Ok(vec!["é".to_string(), "\u{fffd}".to_string()]));
}
