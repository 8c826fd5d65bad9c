use clip_inject::names::{control_class, file_name_start, is_target_path, target_executable};

fn units(s: &str) -> Vec<u16> {
    s.encode_utf16().collect()
}

#[test]
fn fixed_names() {
    assert_eq!(target_executable(), "notepad.exe");
    assert_eq!(control_class(), "Edit");
}

#[test]
fn full_windows_path_matches() {
    assert!(is_target_path(&units("C:\\Windows\\System32\\notepad.exe")));
}

#[test]
fn match_ignores_ascii_case() {
    assert!(is_target_path(&units("C:\\WINDOWS\\NOTEPAD.EXE")));
    assert!(is_target_path(&units("NotePad.Exe")));
}

#[test]
fn forward_slash_separates_too() {
    assert!(is_target_path(&units("C:/Windows/notepad.exe")));
}

#[test]
fn other_executables_do_not_match() {
    assert!(!is_target_path(&units("C:\\Windows\\explorer.exe")));
    assert!(!is_target_path(&units("C:\\Windows\\notepad.exe.bak")));
    assert!(!is_target_path(&units("C:\\Windows\\xnotepad.exe")));
    assert!(!is_target_path(&units("C:\\notepad.exe\\other.exe")));
    assert!(!is_target_path(&units("C:\\Windows\\notepad")));
    assert!(!is_target_path(&units("")));
    assert!(!is_target_path(&units("C:\\Windows\\")));
}

#[test]
fn non_ascii_is_not_folded() {
    assert!(!is_target_path(&units("C:\\nötepad.exe")));
}

#[test]
fn file_name_starts_after_last_separator() {
    assert_eq!(file_name_start(&units("C:\\a/b\\c.exe")), 7);
    assert_eq!(file_name_start(&units("c.exe")), 0);
    assert_eq!(file_name_start(&units("dir\\")), 4);
}
