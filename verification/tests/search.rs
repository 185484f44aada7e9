use singularity_win_compositor::search::{
    all_visible_windows, collect_callback, find_target_window, FindTargetWindow, Probe, WindowInfo,
};
use std::collections::BTreeSet;

fn window(handle: isize, visible: bool, pid: u32, stem: &str) -> WindowInfo {
    let exe_stem = if stem.is_empty() { None } else { Some(stem.to_string()) };
    WindowInfo { handle, visible, pid, exe_stem }
}

fn find(exclude: &[isize], windows: Vec<WindowInfo>) -> Option<isize> {
    let exclude: BTreeSet<isize> = exclude.iter().copied().collect();
    find_target_window(500, "notepad", &exclude, &windows)
}

#[test]
fn process_match_is_found() {
    let windows = vec![window(1, true, 4, "shell"), window(2, true, 500, "notepad")];
    assert_eq!(find(&[], windows), Some(2));
}

#[test]
fn process_match_beats_an_earlier_name() {
    let windows = vec![window(1, true, 4, "notepad"), window(2, true, 500, "other")];
    assert_eq!(find(&[], windows), Some(2));
}

#[test]
fn first_process_match_wins() {
    let windows = vec![window(8, true, 500, ""), window(2, true, 500, "notepad")];
    assert_eq!(find(&[], windows), Some(8));
}

#[test]
fn first_name_match_is_the_fallback() {
    let windows = vec![
        window(1, true, 4, ""),
        window(2, true, 5, "notepad"),
        window(3, true, 6, "notepad"),
    ];
    assert_eq!(find(&[], windows), Some(2));
}

#[test]
fn hidden_windows_are_passed_over() {
    let windows = vec![window(1, false, 500, "notepad"), window(2, true, 4, "notepad")];
    assert_eq!(find(&[], windows), Some(2));
}

#[test]
fn excluded_windows_are_passed_over() {
    let windows = vec![window(1, true, 500, "notepad"), window(2, true, 4, "notepad")];
    assert_eq!(find(&[1, 2], windows), None);
}

#[test]
fn nothing_is_found_without_a_match() {
    assert_eq!(find(&[], vec![]), None);
    assert_eq!(find(&[], vec![window(1, true, 4, "notepad2"), window(2, true, 5, "")]), None);
}

#[test]
fn windows_seen_before_are_never_found() {
    let before = all_visible_windows(&vec![(1, true), (2, false)]);
    let windows = vec![window(1, true, 500, "notepad"), window(2, true, 4, "notepad")];
    assert_eq!(find_target_window(500, "notepad", &before, &windows), Some(2));
}

#[test]
fn probes_ask_for_no_more_than_is_needed() {
    let mut search = FindTargetWindow::new(500, "notepad", &BTreeSet::from([9]));
    assert!(!search.considers(9, true));
    assert!(!search.considers(1, false));
    assert!(search.considers(1, true));
    assert_eq!(search.pid_known(1, 4), Probe::AskStem);
    search.stem_known(1, &Some("shell".to_string()));
    assert_eq!(search.target(), None);
    assert_eq!(search.pid_known(2, 5), Probe::AskStem);
    search.stem_known(2, &Some("notepad".to_string()));
    assert_eq!(search.target(), Some(2));
    assert_eq!(search.pid_known(3, 6), Probe::Continue);
    search.stem_known(3, &Some("notepad".to_string()));
    assert_eq!(search.target(), Some(2));
    assert_eq!(search.pid_known(4, 500), Probe::Stop);
    assert_eq!(search.target(), Some(4));
}

#[test]
fn enumeration_stops_at_the_process() {
    let mut search = FindTargetWindow::new(500, "notepad", &BTreeSet::new());
    assert!(search.find_target_window_callback(&window(1, true, 4, "notepad")));
    assert!(search.find_target_window_callback(&window(2, false, 500, "notepad")));
    assert!(!search.find_target_window_callback(&window(3, true, 500, "")));
    assert_eq!(search.target(), Some(3));
}

#[test]
fn only_visible_windows_are_collected() {
    let mut windows = BTreeSet::new();
    assert!(collect_callback(&mut windows, 5, true));
    assert!(collect_callback(&mut windows, 6, false));
    assert_eq!(windows, BTreeSet::from([5]));
    let all = all_visible_windows(&vec![(3, true), (4, false), (3, true), (-1, true)]);
    assert_eq!(all, BTreeSet::from([-1, 3]));
}
