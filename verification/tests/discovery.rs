//! Full traversal passes over simulated desktops.

use window_capture::desktop::{ChildWindow, ClientArea, Desktop, TopWindow};
use window_capture::validator::WindowSearchMode;
use window_capture::win_iterator::{first_window, get_all_windows, next_window};

fn plain_window(handle: u64, title: &str) -> TopWindow {
    TopWindow {
        handle,
        visible: true,
        minimized: false,
        cloaked: false,
        tool_window: false,
        child_style: false,
        client_area: Some(ClientArea { right: 800, bottom: 600 }),
        class_name: "PlainWindow".to_string(),
        process_id: 100,
        thread_id: 200,
        title: Some(title.to_string()),
        children: Vec::new(),
    }
}

fn child(handle: u64, process_id: u32, title: &str) -> ChildWindow {
    ChildWindow { handle, process_id, thread_id: 300, title: Some(title.to_string()) }
}

/// The desktop of the two scenario tests: a console window, a plain
/// window, a minimized one, a tool window, and a shell-host whose content
/// child belongs to another process.
fn scenario_desktop(find_ex_available: bool) -> Desktop {
    let console = plain_window(1, "Console");
    let a = plain_window(2, "A");
    let mut b = plain_window(3, "B");
    b.minimized = true;
    let mut c = plain_window(4, "C");
    c.tool_window = true;
    let mut host = plain_window(5, "HostX");
    host.class_name = "ApplicationFrameWindow".to_string();
    host.children = vec![child(6, 999, "D")];
    Desktop { top: vec![console, a, b, c, host], console: 1, find_ex_available }
}

fn titles(desktop: &Desktop, mode: WindowSearchMode) -> Vec<String> {
    get_all_windows(desktop, mode).into_iter().map(|w| w.title).collect()
}

#[test]
fn scenario_exclude_minimized() {
    let d = scenario_desktop(true);
    let out = get_all_windows(&d, WindowSearchMode::ExcludeMinimized);
    let got: Vec<(String, u64)> = out.into_iter().map(|w| (w.title, w.hwnd)).collect();
    assert_eq!(got, vec![("A".to_string(), 2), ("D".to_string(), 6)]);
}

#[test]
fn scenario_include_minimized() {
    let d = scenario_desktop(true);
    let out = get_all_windows(&d, WindowSearchMode::IncludeMinimized);
    let got: Vec<(String, u64)> = out.into_iter().map(|w| (w.title, w.hwnd)).collect();
    assert_eq!(
        got,
        vec![("A".to_string(), 2), ("B".to_string(), 3), ("D".to_string(), 6)]
    );
}

#[test]
fn console_window_never_included() {
    let d = scenario_desktop(true);
    for mode in [WindowSearchMode::ExcludeMinimized, WindowSearchMode::IncludeMinimized] {
        for w in get_all_windows(&d, mode) {
            assert_ne!(w.hwnd, d.console);
        }
    }
}

#[test]
fn without_console_every_eligible_window_appears() {
    let mut d = scenario_desktop(true);
    d.console = 0;
    assert_eq!(
        titles(&d, WindowSearchMode::ExcludeMinimized),
        vec!["Console".to_string(), "A".to_string(), "D".to_string()]
    );
}

#[test]
fn shell_host_replaced_by_foreign_child_exactly_once() {
    let d = scenario_desktop(true);
    let out = get_all_windows(&d, WindowSearchMode::ExcludeMinimized);
    assert_eq!(out.iter().filter(|w| w.hwnd == 5).count(), 0);
    assert_eq!(out.iter().filter(|w| w.hwnd == 6).count(), 1);
}

#[test]
fn shell_host_skips_children_of_its_own_process() {
    // the first child shares the host's process; the second is the content
    let mut d = scenario_desktop(true);
    d.top[4].children = vec![child(6, 100, "Own"), child(7, 999, "D")];
    let out = get_all_windows(&d, WindowSearchMode::ExcludeMinimized);
    let got: Vec<(String, u64)> = out.into_iter().map(|w| (w.title, w.hwnd)).collect();
    assert_eq!(got, vec![("A".to_string(), 2), ("D".to_string(), 7)]);
}

#[test]
fn childless_shell_host_contributes_nothing() {
    let mut d = scenario_desktop(true);
    d.top[4].children = Vec::new();
    assert_eq!(
        titles(&d, WindowSearchMode::ExcludeMinimized),
        vec!["A".to_string()]
    );
}

#[test]
fn shell_host_owning_all_children_contributes_nothing() {
    let mut d = scenario_desktop(true);
    d.top[4].children = vec![child(6, 100, "Own"), child(7, 100, "AlsoOwn")];
    assert_eq!(
        titles(&d, WindowSearchMode::ExcludeMinimized),
        vec!["A".to_string()]
    );
}

#[test]
fn traversal_continues_past_substituted_host() {
    // windows after a substituted shell-host are still visited
    let mut d = scenario_desktop(true);
    d.top.push(plain_window(8, "E"));
    assert_eq!(
        titles(&d, WindowSearchMode::ExcludeMinimized),
        vec!["A".to_string(), "D".to_string(), "E".to_string()]
    );
}

#[test]
fn pass_is_idempotent() {
    let d = scenario_desktop(true);
    for mode in [WindowSearchMode::ExcludeMinimized, WindowSearchMode::IncludeMinimized] {
        let first: Vec<(String, u64)> =
            get_all_windows(&d, mode).into_iter().map(|w| (w.title, w.hwnd)).collect();
        let second: Vec<(String, u64)> =
            get_all_windows(&d, mode).into_iter().map(|w| (w.title, w.hwnd)).collect();
        assert_eq!(first, second);
    }
}

#[test]
fn fallback_strategy_finds_the_same_windows() {
    let primary = scenario_desktop(true);
    let fallback = scenario_desktop(false);
    for mode in [WindowSearchMode::ExcludeMinimized, WindowSearchMode::IncludeMinimized] {
        let via_primary: Vec<(String, u64)> =
            get_all_windows(&primary, mode).into_iter().map(|w| (w.title, w.hwnd)).collect();
        let via_fallback: Vec<(String, u64)> =
            get_all_windows(&fallback, mode).into_iter().map(|w| (w.title, w.hwnd)).collect();
        assert_eq!(via_primary, via_fallback);
    }
}

#[test]
fn empty_desktop_yields_empty_output() {
    let d = Desktop { top: Vec::new(), console: 0, find_ex_available: true };
    assert!(get_all_windows(&d, WindowSearchMode::ExcludeMinimized).is_empty());
    let d2 = Desktop { top: Vec::new(), console: 0, find_ex_available: false };
    assert!(get_all_windows(&d2, WindowSearchMode::ExcludeMinimized).is_empty());
}

#[test]
fn no_eligible_window_yields_empty_output() {
    let mut w = plain_window(2, "A");
    w.visible = false;
    let d = Desktop { top: vec![w], console: 0, find_ex_available: true };
    assert!(get_all_windows(&d, WindowSearchMode::ExcludeMinimized).is_empty());
}

#[test]
fn window_with_failed_title_query_is_skipped() {
    let mut d = scenario_desktop(true);
    d.top[1].title = None;
    assert_eq!(
        titles(&d, WindowSearchMode::ExcludeMinimized),
        vec!["D".to_string()]
    );
}

#[test]
fn first_window_returns_first_accepted_candidate() {
    let d = scenario_desktop(true);
    let mut parent: Option<u64> = None;
    let mut use_find_window_ex = false;
    // the console window itself is a perfectly valid candidate; only the
    // collecting pass excludes it from the output
    let first = first_window(&d, WindowSearchMode::ExcludeMinimized, &mut parent, &mut use_find_window_ex);
    assert_eq!(first, Some(1));
    assert_eq!(parent, None);
    assert!(use_find_window_ex);
}

#[test]
fn first_window_falls_back_when_primary_unavailable() {
    let d = scenario_desktop(false);
    let mut parent: Option<u64> = None;
    let mut use_find_window_ex = true;
    let first = first_window(&d, WindowSearchMode::ExcludeMinimized, &mut parent, &mut use_find_window_ex);
    assert_eq!(first, Some(1));
    assert!(!use_find_window_ex);
}

#[test]
fn first_window_reports_not_found() {
    let d = Desktop { top: Vec::new(), console: 0, find_ex_available: true };
    let mut parent: Option<u64> = None;
    let mut use_find_window_ex = false;
    let first = first_window(&d, WindowSearchMode::ExcludeMinimized, &mut parent, &mut use_find_window_ex);
    assert_eq!(first, None);
    assert_eq!(parent, None);
    assert!(!use_find_window_ex);
}

#[test]
fn next_window_skips_ineligible_windows_and_substitutes_hosts() {
    let d = scenario_desktop(true);
    let mut parent: Option<u64> = None;
    // from A: B (minimized) and C (tool) are skipped, HostX resolves to D
    let next = next_window(&d, Some(2), WindowSearchMode::ExcludeMinimized, &mut parent, true);
    assert_eq!(next, Some(6));
    assert_eq!(parent, Some(5));
}

#[test]
fn next_window_resumes_from_pending_parent() {
    let mut d = scenario_desktop(true);
    d.top.push(plain_window(8, "E"));
    let mut parent: Option<u64> = Some(5);
    // the cursor sits on the substituted child 6; traversal resumes from
    // the host 5, so the host's sibling E is still visited
    let next = next_window(&d, Some(6), WindowSearchMode::ExcludeMinimized, &mut parent, true);
    assert_eq!(next, Some(8));
    assert_eq!(parent, None);
}

#[test]
fn next_window_reports_exhaustion() {
    let d = scenario_desktop(true);
    let mut parent: Option<u64> = Some(5);
    let next = next_window(&d, Some(6), WindowSearchMode::ExcludeMinimized, &mut parent, true);
    assert_eq!(next, None);
    assert_eq!(parent, None);
}
