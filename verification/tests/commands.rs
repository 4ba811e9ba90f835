use clashtui_tray::command::{
    clashtui_running, core_service, launch_clashtui, list_clashtui, open_web, stop_clashtui,
    CommandLine, ServiceVerb, CREATE_NO_WINDOW,
};
use clashtui_tray::mode::IconMode;
use clashtui_tray::paths::{
    candidate_parts, clashtui_path, exe_dir, icon_file, icon_parts, next_icon_dir, tray_exe_path,
    BaseDir, Candidate, IconDir, TrayExe, CLASHTUI_EXE, TRAY_EXE,
};
use clashtui_tray::text::contains_text;

fn words(command: &CommandLine) -> Vec<&str> {
    let mut all = vec![command.program.as_str()];
    for arg in &command.args {
        all.push(arg.as_str());
    }
    all
}

#[test]
fn launch_goes_through_start() {
    let command = launch_clashtui("C:\\Programs\\clashtui.exe");
    assert_eq!(words(&command), vec!["cmd", "/c", "start", "", "C:\\Programs\\clashtui.exe"]);
    assert_eq!(command.creation_flags, 0x08000000);
}

#[test]
fn web_goes_to_the_dashboard() {
    let command = open_web();
    assert_eq!(words(&command), vec!["cmd", "/c", "start", "", "http://127.0.0.1:9090/ui/"]);
    assert_eq!(command.creation_flags, CREATE_NO_WINDOW);
}

#[test]
fn listing_and_stopping() {
    assert_eq!(words(&list_clashtui()), vec!["tasklist", "/FI", "IMAGENAME eq clashtui.exe", "/NH"]);
    assert_eq!(words(&stop_clashtui()), vec!["taskkill", "/IM", "clashtui.exe", "/F"]);
    assert_eq!(stop_clashtui().creation_flags, CREATE_NO_WINDOW);
}

#[test]
fn service_commands() {
    assert_eq!(words(&core_service("c.exe", ServiceVerb::Restart)), vec!["c.exe", "service", "restart"]);
    assert_eq!(words(&core_service("c.exe", ServiceVerb::Stop)), vec!["c.exe", "service", "stop"]);
}

#[test]
fn running_is_read_in_any_case() {
    assert!(clashtui_running(Some(b"clashtui.exe   4321 Console   1   9,000 K")));
    assert!(clashtui_running(Some(b"\r\nClashTUI.EXE   4321 Console")));
    assert!(!clashtui_running(Some(b"INFO: No tasks are running which match the specified criteria.")));
    assert!(!clashtui_running(Some(b"clashtui_exe")));
    assert!(!clashtui_running(Some(b"")));
    assert!(!clashtui_running(None));
}

#[test]
fn running_survives_bytes_that_are_not_utf8() {
    assert!(clashtui_running(Some(&[0xff, 0xd0, 0xc5, b'c', b'l', b'a', b's', b'h', b't', b'u', b'i', b'.', b'E', b'x', b'e', 0xfe])));
    assert!(!clashtui_running(Some(&[0xff, 0xfe, 0xd0])));
}

#[test]
fn lower_case_of_wide_letters() {
    // the Kelvin sign lowers to a plain k, which the name does not hold
    assert!(!clashtui_running(Some("clash\u{212a}ui.exe".as_bytes())));
    assert!(clashtui_running(Some("进程 CLASHTUI.EXE 运行中".as_bytes())));
}

#[test]
fn text_search() {
    assert!(contains_text("abc", ""));
    assert!(contains_text("", ""));
    assert!(contains_text("abc", "c"));
    assert!(contains_text("aab", "ab"));
    assert!(contains_text("常规模式", "模式"));
    assert!(!contains_text("abc", "abcd"));
    assert!(!contains_text("abc", "ac"));
}

#[test]
fn first_installed_clashtui_is_taken() {
    assert_eq!(clashtui_path(true, true), Candidate::Beside);
    assert_eq!(clashtui_path(true, false), Candidate::Beside);
    assert_eq!(clashtui_path(false, true), Candidate::Above);
    assert_eq!(clashtui_path(false, false), Candidate::Beside);
}

#[test]
fn places_are_spelled_out() {
    assert_eq!(candidate_parts(Candidate::Beside), vec!["clashtui.exe"]);
    assert_eq!(candidate_parts(Candidate::Above), vec!["..", "clashtui.exe"]);
    assert_eq!(icon_parts(IconMode::Tun, IconDir::Assets), Some(vec!["assets", "tray_tun.png"]));
    assert_eq!(icon_parts(IconMode::SystemProxy, IconDir::Beside), Some(vec!["tray_sysproxy.png"]));
    assert_eq!(
        icon_parts(IconMode::Normal, IconDir::Source),
        Some(vec!["..", "tray", "assets", "tray_white.png"])
    );
    assert_eq!(icon_parts(IconMode::Normal, IconDir::Embedded), None);
    assert_eq!(CLASHTUI_EXE, "clashtui.exe");
    assert_eq!(TRAY_EXE, "clashtui_tray.exe");
}

#[test]
fn directories_fall_back() {
    assert_eq!(exe_dir(true), BaseDir::ExeParent);
    assert_eq!(exe_dir(false), BaseDir::Here);
    assert_eq!(tray_exe_path(true), TrayExe::Running);
    assert_eq!(tray_exe_path(false), TrayExe::Named);
    assert_eq!(next_icon_dir(IconDir::Assets), Some(IconDir::Beside));
    assert_eq!(next_icon_dir(IconDir::Beside), Some(IconDir::Source));
    assert_eq!(next_icon_dir(IconDir::Source), Some(IconDir::Embedded));
    assert_eq!(next_icon_dir(IconDir::Embedded), None);
}

#[test]
fn pictures_have_different_names() {
    assert_ne!(icon_file(IconMode::Tun), icon_file(IconMode::Normal));
    assert_ne!(icon_file(IconMode::Tun), icon_file(IconMode::SystemProxy));
    assert_ne!(icon_file(IconMode::Normal), icon_file(IconMode::SystemProxy));
}
