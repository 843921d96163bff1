// Tests of the pure helpers around the solver: daemon arguments, launcher
// path logic, configuration-line extraction, Wi-Fi and USB rules.

use reachy_mini_control::launcher::{
    find_cpython_folder, get_local_app_data_dir, get_xdg_data_home, is_app_translocation_path,
    is_cpython_folder_name, is_program_files_path, is_system_lib_path, lookup_bin_folder,
    patch_pyvenv_cfg_home, possible_abs_bin, pyvenv_cfg_home,
};
use reachy_mini_control::python::build_daemon_args;
use reachy_mini_control::update::{metadata_version, DaemonUpdateInfo};
use reachy_mini_control::usb::{get_reachy_port, is_reachy_usb, UsbPort};
use reachy_mini_control::wifi::{is_reachy_hotspot, WifiNetwork};

#[test]
fn daemon_args_without_simulation() {
    let args = build_daemon_args(false).unwrap();
    assert_eq!(
        args,
        vec![
            ".venv/bin/python3".to_string(),
            "-m".to_string(),
            "reachy_mini.daemon.app.main".to_string(),
            "--desktop-app-daemon".to_string(),
        ]
    );
}

#[test]
fn daemon_args_with_simulation() {
    let args = build_daemon_args(true).unwrap();
    assert_eq!(args.len(), 6);
    assert_eq!(args[4], "--sim");
    assert_eq!(args[5], "--headless");
}

#[test]
fn system_lib_paths_are_recognized() {
    assert!(is_system_lib_path("/usr/lib/reachy-mini-control/x"));
    assert!(is_system_lib_path("/usr/share/reachy-mini-control"));
    assert!(!is_system_lib_path("/home/user/.local/share"));
    assert!(!is_system_lib_path(""));
}

#[test]
fn program_files_paths_are_recognized_case_insensitively() {
    assert!(is_program_files_path("C:\\Program Files\\Reachy Mini Control"));
    assert!(is_program_files_path("c:\\PROGRAM FILES\\x"));
    assert!(is_program_files_path("%ProgramFiles%\\x"));
    assert!(!is_program_files_path("C:\\Users\\someone"));
}

#[test]
fn app_translocation_paths_are_recognized() {
    assert!(is_app_translocation_path("/private/var/folders/AppTranslocation/abc"));
    assert!(!is_app_translocation_path("/Applications/Something.app"));
}

#[test]
fn local_app_data_dir_joins_the_product_folder() {
    assert_eq!(
        get_local_app_data_dir(Some("C:\\Users\\u\\AppData\\Local")).unwrap(),
        "C:\\Users\\u\\AppData\\Local\\Reachy Mini Control"
    );
    assert!(get_local_app_data_dir(None).is_none());
}

#[test]
fn xdg_data_home_prefers_the_xdg_variable() {
    assert_eq!(
        get_xdg_data_home(Some("/xdg"), Some("/home/u")).unwrap(),
        "/xdg/reachy-mini-control"
    );
    assert_eq!(
        get_xdg_data_home(None, Some("/home/u")).unwrap(),
        "/home/u/.local/share/reachy-mini-control"
    );
    assert!(get_xdg_data_home(None, None).is_none());
}

#[test]
fn candidate_folders_are_resolved_against_the_current_folder() {
    let folders = vec![".".to_string(), "/usr/lib/app".to_string(), "../bin".to_string()];
    let abs = possible_abs_bin("/opt/app", &folders);
    assert_eq!(abs, vec!["/opt/app/.", "/usr/lib/app", "/opt/app/../bin"]);
}

#[test]
fn the_first_existing_candidate_wins() {
    let folders = vec!["a".to_string(), "b".to_string(), "c".to_string()];
    assert_eq!(lookup_bin_folder(&folders, &vec![false, true, true]).unwrap(), "b");
    assert!(lookup_bin_folder(&folders, &vec![false, false, false]).is_none());
}

#[test]
fn pyvenv_home_is_the_first_home_line() {
    let cfg = "include-system-site-packages = false\nhome = /opt/py/bin\nversion = 3.12.1\n";
    assert_eq!(pyvenv_cfg_home(cfg).unwrap(), "/opt/py/bin");
    assert!(pyvenv_cfg_home("version = 3.12.1\n").is_none());
    // Only a line that begins with the prefix counts.
    assert!(pyvenv_cfg_home("x home = /opt\n").is_none());
}

#[test]
fn metadata_version_is_the_first_version_line() {
    let metadata = "Metadata-Version: 2.1\nName: reachy-mini\nVersion: 1.2.3\n";
    assert_eq!(metadata_version(metadata).unwrap(), "1.2.3");
    assert!(metadata_version("Name: reachy-mini\n").is_none());
}

#[test]
fn update_report_carries_its_fields() {
    let info = DaemonUpdateInfo::new("1.0.0".to_string(), "1.1.0".to_string(), true);
    assert_eq!(info.current_version, "1.0.0");
    assert_eq!(info.available_version, "1.1.0");
    assert!(info.is_available);
}

#[test]
fn hotspot_names_are_recognized_case_insensitively() {
    assert!(is_reachy_hotspot("Reachy-Mini-AP42"));
    assert!(is_reachy_hotspot("REACHY_MINI"));
    assert!(is_reachy_hotspot("xxReachyMinixx"));
    assert!(!is_reachy_hotspot("HomeWifi"));
    assert!(!is_reachy_hotspot("reachy mini")); // a space is none of the spellings
}

#[test]
fn scanned_networks_derive_their_hotspot_flag() {
    let n = WifiNetwork::from_scan("reachy-mini-ap".to_string(), Some(-50));
    assert!(n.is_reachy_hotspot);
    assert_eq!(n.signal_strength, Some(-50));
    let m = WifiNetwork::from_scan("Cafe".to_string(), None);
    assert!(!m.is_reachy_hotspot);
}

#[test]
fn the_robot_port_is_matched_by_vid_and_pid() {
    assert!(is_reachy_usb(0x1a86, 0x55d3));
    assert!(!is_reachy_usb(0x1a86, 0x0001));
    let ports = vec![
        UsbPort { vid: 0x0403, pid: 0x6001, port_name: "/dev/ttyUSB0".to_string() },
        UsbPort { vid: 0x1a86, pid: 0x55d3, port_name: "/dev/ttyACM0".to_string() },
        UsbPort { vid: 0x1a86, pid: 0x55d3, port_name: "/dev/ttyACM1".to_string() },
    ];
    assert_eq!(get_reachy_port(&ports).unwrap(), "/dev/ttyACM0");
    assert!(get_reachy_port(&vec![]).is_none());
}

#[test]
fn patching_replaces_every_home_line() {
    let cfg = "include-system-site-packages = false\nhome = /old/place\nversion = 3.12.1";
    assert_eq!(
        patch_pyvenv_cfg_home(cfg, "/new/place"),
        "include-system-site-packages = false\nhome = /new/place\nversion = 3.12.1"
    );
    // A trailing newline is dropped and carriage returns are normalized away.
    assert_eq!(
        patch_pyvenv_cfg_home("home = /old\r\nversion = 3\r\n", "/new"),
        "home = /new\nversion = 3"
    );
    // Without a home line the text only loses its trailing newline.
    assert_eq!(patch_pyvenv_cfg_home("a = 1\nb = 2\n", "/new"), "a = 1\nb = 2");
}

#[test]
fn cpython_folders_are_found_by_name() {
    assert!(is_cpython_folder_name("cpython-3.12.1-macos-aarch64-none"));
    assert!(!is_cpython_folder_name("python-3.12"));
    let names = vec![
        ".venv".to_string(),
        "uv".to_string(),
        "cpython-3.12.1-linux-x86_64-gnu".to_string(),
    ];
    assert_eq!(find_cpython_folder(&names).unwrap(), "cpython-3.12.1-linux-x86_64-gnu");
    assert!(find_cpython_folder(&vec!["bin".to_string()]).is_none());
}
