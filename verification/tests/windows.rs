use bully_chaos::windows::injection::{c_string_bytes, export_address, find_export_index};
use bully_chaos::windows::input::{has_jumped, is_key_down, is_key_pressed, is_moving};
use bully_chaos::windows::processes::{
    eq_ignore_ascii_case, threads_of, get_module_address, get_process_id, is_process_active,
};

#[test]
fn key_down_is_the_high_bit() {
    assert!(is_key_down(i16::MIN));
    assert!(is_key_down(-32767));
    assert!(is_key_down(-1));
    assert!(!is_key_down(0));
    assert!(!is_key_down(1));
    assert!(!is_key_down(i16::MAX));
}

#[test]
fn key_pressed_is_the_low_bit() {
    assert!(is_key_pressed(1));
    assert!(is_key_pressed(-32767));
    assert!(!is_key_pressed(i16::MIN));
    assert!(!is_key_pressed(0));
    assert!(!is_key_pressed(2));
}

#[test]
fn moving_when_any_movement_key_is_down() {
    assert!(!is_moving(0, 0, 0, 1));
    assert!(is_moving(i16::MIN, 0, 0, 0));
    assert!(is_moving(0, 0, 0, -32767));
    assert!(is_moving(0, -1, 0, 0));
}

#[test]
fn jumped_when_space_was_pressed() {
    assert!(has_jumped(1));
    assert!(!has_jumped(i16::MIN));
}

#[test]
fn ascii_case_is_ignored() {
    assert!(eq_ignore_ascii_case("KERNEL32.DLL", "kernel32.dll"));
    assert!(eq_ignore_ascii_case("Bully.exe", "bully.EXE"));
    assert!(!eq_ignore_ascii_case("bully.exe", "bully.ex"));
    assert!(!eq_ignore_ascii_case("a", "b"));
    assert!(!eq_ignore_ascii_case("É", "é"));
    assert!(eq_ignore_ascii_case("", ""));
}

#[test]
fn process_found_by_exact_name() {
    let procs = vec![
        ("explorer.exe".to_string(), 10),
        ("bully.exe".to_string(), 20),
        ("Bully.exe".to_string(), 30),
        ("Bully.exe".to_string(), 40),
    ];
    assert_eq!(get_process_id(&procs, "Bully.exe"), Some(30));
    assert_eq!(get_process_id(&procs, "missing.exe"), None);
    assert_eq!(get_process_id(&vec![], "Bully.exe"), None);
}

#[test]
fn module_found_without_regard_to_case() {
    let modules = vec![("Bully.exe".to_string(), 0x400000), ("KERNEL32.DLL".to_string(), 0x7000_0000)];
    assert_eq!(get_module_address(&modules, "kernel32.dll"), Some(0x7000_0000));
    assert_eq!(get_module_address(&modules, "BULLY.EXE"), Some(0x400000));
    assert_eq!(get_module_address(&modules, "user32.dll"), None);
}

#[test]
fn process_active_only_with_still_active_code() {
    assert!(is_process_active(Some(0x103)));
    assert!(!is_process_active(Some(0)));
    assert!(!is_process_active(None));
}

#[test]
fn every_thread_of_the_process() {
    let threads = vec![(5, 100), (7, 200), (5, 150), (7, 300)];
    assert_eq!(threads_of(&threads, 7), vec![200, 300]);
    assert_eq!(threads_of(&threads, 5), vec![100, 150]);
    assert_eq!(threads_of(&threads, 9), Vec::<u32>::new());
}

#[test]
fn c_string_stops_at_nul() {
    assert_eq!(c_string_bytes(&b"LoadLibraryA\0junk".to_vec()), b"LoadLibraryA".to_vec());
    assert_eq!(c_string_bytes(&b"NoNul".to_vec()), b"NoNul".to_vec());
    assert_eq!(c_string_bytes(&b"\0abc".to_vec()), Vec::<u8>::new());
}

#[test]
fn export_found_without_regard_to_case() {
    let names = vec![
        Some(b"GetProcAddress\0".to_vec()),
        None,
        Some(b"loadlibrarya\0\0\0".to_vec()),
        Some(b"LoadLibraryA\0".to_vec()),
    ];
    assert_eq!(find_export_index(&names, "LoadLibraryA"), Some(2));
    assert_eq!(find_export_index(&names, "FreeLibrary"), None);
}

#[test]
fn export_with_invalid_utf8_does_not_match_ascii_target() {
    let names = vec![Some(vec![0xff, 0xfe, 0]), Some(b"Sleep".to_vec())];
    assert_eq!(find_export_index(&names, "Sleep"), Some(1));
}

#[test]
fn export_address_goes_through_the_ordinal() {
    let ordinals = vec![2u16, 0, 1];
    let functions = vec![0x100u32, 0x200, 0x300];
    assert_eq!(export_address(0x7000_0000, &ordinals, &functions, 0), 0x7000_0300);
    assert_eq!(export_address(0x7000_0000, &ordinals, &functions, 1), 0x7000_0100);
}
