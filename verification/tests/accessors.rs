//! The attribute accessors and the small helpers around the engine.

use window_capture::desktop::{ChildWindow, ClientArea, Desktop, TopWindow};
use window_capture::graphics::{is_pow2, GsColorFormat, GsTextureType};
use window_capture::monitor_color::{sdr_white_level_to_nits, GsMonitorColorInfo};
use window_capture::util::get_last_error;
use window_capture::win_iterator::{
    get_thread_proc_id, get_uwp_actual_window, get_window_class, get_window_info, is_uwp_window,
};

fn plain_window(handle: u64, title: &str) -> TopWindow {
    TopWindow {
        handle,
        visible: true,
        minimized: false,
        cloaked: false,
        tool_window: false,
        child_style: false,
        client_area: Some(ClientArea { right: 800, bottom: 600 }),
        class_name: "PlainWindow".to_string(),
        process_id: 100,
        thread_id: 200,
        title: Some(title.to_string()),
        children: Vec::new(),
    }
}

fn host_desktop() -> Desktop {
    let mut host = plain_window(5, "HostX");
    host.class_name = "ApplicationFrameWindow".to_string();
    host.children = vec![
        ChildWindow { handle: 6, process_id: 100, thread_id: 300, title: Some("Own".to_string()) },
        ChildWindow { handle: 7, process_id: 999, thread_id: 400, title: Some("D".to_string()) },
    ];
    Desktop { top: vec![plain_window(2, "A"), host], console: 0, find_ex_available: true }
}

#[test]
fn thread_proc_id_of_top_level_window() {
    let d = host_desktop();
    let info = get_thread_proc_id(&d, 2).unwrap();
    assert_eq!(info.process_id, 100);
    assert_eq!(info.thread_id, 200);
}

#[test]
fn thread_proc_id_of_child_window() {
    let d = host_desktop();
    let info = get_thread_proc_id(&d, 7).unwrap();
    assert_eq!(info.process_id, 999);
    assert_eq!(info.thread_id, 400);
}

#[test]
fn thread_proc_id_of_vanished_handle_fails() {
    let d = host_desktop();
    assert!(get_thread_proc_id(&d, 42).is_none());
}

#[test]
fn window_class_is_reported() {
    let d = host_desktop();
    assert_eq!(get_window_class(&d, 2).unwrap(), "PlainWindow");
    assert_eq!(get_window_class(&d, 5).unwrap(), "ApplicationFrameWindow");
    assert!(get_window_class(&d, 42).is_none());
}

#[test]
fn shell_host_detection_goes_by_class_name() {
    let d = host_desktop();
    assert!(!is_uwp_window(&d, 2));
    assert!(is_uwp_window(&d, 5));
    assert!(!is_uwp_window(&d, 0));
    assert!(!is_uwp_window(&d, 42));
}

#[test]
fn host_resolution_picks_first_foreign_child() {
    let d = host_desktop();
    assert_eq!(get_uwp_actual_window(&d, 5), Some(7));
}

#[test]
fn host_resolution_fails_without_foreign_child() {
    let mut d = host_desktop();
    d.top[1].children.truncate(1);
    assert_eq!(get_uwp_actual_window(&d, 5), None);
    d.top[1].children.clear();
    assert_eq!(get_uwp_actual_window(&d, 5), None);
    assert_eq!(get_uwp_actual_window(&d, 42), None);
}

#[test]
fn window_info_carries_title_and_identity() {
    let d = host_desktop();
    let info = get_window_info(&d, 2).unwrap();
    assert_eq!(info.title, "A");
    assert_eq!(info.hwnd, 2);
    // a child's title is reachable too
    let child_info = get_window_info(&d, 7).unwrap();
    assert_eq!(child_info.title, "D");
    assert!(get_window_info(&d, 42).is_none());
}

#[test]
fn failed_title_query_yields_nothing() {
    let mut d = host_desktop();
    d.top[0].title = None;
    assert!(get_window_info(&d, 2).is_none());
}

#[test]
fn os_error_text_is_joined_with_context() {
    let text = get_last_error("CreateDXGIFactory1", "access denied");
    assert_eq!(text, "CreateDXGIFactory1: access denied");
}

#[test]
fn power_of_two_extents_are_recognized() {
    assert!(!is_pow2(0));
    assert!(!is_pow2(1));
    assert!(is_pow2(2));
    assert!(!is_pow2(3));
    assert!(is_pow2(4));
    assert!(!is_pow2(6));
    assert!(is_pow2(1024));
    assert!(!is_pow2(1023));
    assert!(is_pow2(1 << 31));
    assert!(!is_pow2(u32::MAX));
}

#[test]
fn graphics_enums_compare_by_variant() {
    assert_eq!(GsColorFormat::GsBGRA, GsColorFormat::GsBGRA);
    assert_ne!(GsColorFormat::GsBGRA, GsColorFormat::GsRGBA);
    assert_eq!(GsTextureType::Texture2D, GsTextureType::Texture2D);
    assert_ne!(GsTextureType::Texture2D, GsTextureType::TextureCube);
}

#[test]
fn sdr_white_level_converts_to_nits() {
    // the OS reports thousandths of the 80-nit reference level
    assert_eq!(sdr_white_level_to_nits(1000), 80);
    assert_eq!(sdr_white_level_to_nits(2000), 160);
    assert_eq!(sdr_white_level_to_nits(1250), 100);
    assert_eq!(sdr_white_level_to_nits(0), 0);
    let info = GsMonitorColorInfo { hdr: false, bits_per_color: 8, sdr_white_nits: sdr_white_level_to_nits(1000) };
    assert!(!info.hdr);
    assert_eq!(info.sdr_white_nits, 80);
}
