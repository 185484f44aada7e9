use singularity_win_compositor::capture::{capture_window, ClientRect, Frame};
use singularity_win_compositor::compositor::{Action, Ending, WindowsCompositor};
use singularity_win_compositor::input::{Key, UIEvent, WindowMessage};
use std::collections::BTreeSet;

const TIMEOUT: u128 = 15_000_000_000;

fn frame(shade: u8) -> Option<Frame> {
    let client = ClientRect { left: 0, top: 0, right: 1, bottom: 1 };
    capture_window(Some(client), true, true, &[shade, shade, shade, 0])
}

fn running(window: isize) -> WindowsCompositor {
    let mut compositor = WindowsCompositor::new("notepad");
    compositor.listed(BTreeSet::new());
    compositor.spawned(Some(500));
    compositor.searched(Some(window));
    compositor
}

#[test]
fn windows_are_listed_then_the_program_is_launched() {
    let mut compositor = WindowsCompositor::new("Tools/Paint.exe");
    assert_eq!(compositor.action(), Action::ListWindows);
    compositor.listed(BTreeSet::from([3, 4]));
    assert_eq!(compositor.action(), Action::Spawn);
    compositor.spawned(Some(500));
    assert_eq!(compositor.action(), Action::FindWindow);
    let search = compositor.search();
    assert_eq!(search.pid, 500);
    assert_eq!(search.exe_stem, "paint");
    assert_eq!(search.exclude, BTreeSet::from([3, 4]));
    assert_eq!(search.target(), None);
}

#[test]
fn failed_launch_is_still_searched_by_name() {
    let mut compositor = WindowsCompositor::new("..");
    compositor.listed(BTreeSet::new());
    compositor.spawned(None);
    assert_eq!(compositor.action(), Action::FindWindow);
    assert_eq!(compositor.search().pid, 0);
    assert_eq!(compositor.search().exe_stem, "..");
}

#[test]
fn search_is_repeated_until_the_time_is_up() {
    let mut compositor = WindowsCompositor::new("notepad");
    compositor.listed(BTreeSet::new());
    compositor.spawned(Some(500));
    for elapsed in [0, TIMEOUT - 1] {
        compositor.searched(None);
        assert_eq!(compositor.action(), Action::ReadClock);
        compositor.clock_read(elapsed);
        assert_eq!(compositor.action(), Action::Sleep(200));
        compositor.slept();
        assert_eq!(compositor.action(), Action::FindWindow);
    }
    compositor.searched(None);
    compositor.clock_read(TIMEOUT);
    assert_eq!(compositor.action(), Action::Finish(Ending::NeverFound));
}

#[test]
fn window_found_late_still_counts() {
    let mut compositor = WindowsCompositor::new("notepad");
    compositor.listed(BTreeSet::new());
    compositor.spawned(Some(500));
    compositor.searched(None);
    compositor.clock_read(TIMEOUT - 1);
    compositor.slept();
    compositor.searched(Some(7));
    assert_eq!(compositor.action(), Action::PollInput);
}

#[test]
fn keys_are_posted_before_the_window_is_checked() {
    let mut compositor = running(70);
    compositor.input_polled(Some(UIEvent::KeyPress(Key::Char('x'))));
    assert_eq!(compositor.action(), Action::AskFocus(70));
    compositor.focus_known(Some(71));
    let typed = WindowMessage { target: 71, message: 0x0102, wparam: 0x78, lparam: 1 };
    assert_eq!(compositor.action(), Action::Post(typed));
    compositor.posted();
    assert_eq!(compositor.action(), Action::PollInput);

    compositor.input_polled(Some(UIEvent::KeyPress(Key::Enter)));
    compositor.focus_known(None);
    let down = WindowMessage { target: 70, message: 0x0100, wparam: 13, lparam: 1 };
    assert_eq!(compositor.action(), Action::Post(down));
    compositor.posted();
    let up = WindowMessage { target: 70, message: 0x0101, wparam: 13, lparam: -0x3FFF_FFFF };
    assert_eq!(compositor.action(), Action::Post(up));
    compositor.posted();
    assert_eq!(compositor.action(), Action::PollInput);

    compositor.input_polled(None);
    assert_eq!(compositor.action(), Action::CheckWindow(70));
}

#[test]
fn other_events_are_taken_and_ignored() {
    let mut compositor = running(70);
    compositor.input_polled(Some(UIEvent::WindowResized));
    assert_eq!(compositor.action(), Action::PollInput);
    compositor.input_polled(Some(UIEvent::MousePress));
    assert_eq!(compositor.action(), Action::PollInput);
}

#[test]
fn frames_are_published_and_paced() {
    let mut compositor = running(70);
    let mut image = None;
    compositor.input_polled(None);
    compositor.window_checked(true);
    assert_eq!(compositor.action(), Action::Capture(70));
    compositor.captured(frame(10));
    assert_eq!(compositor.action(), Action::Publish);
    compositor.publish(&mut image);
    assert_eq!(image.as_ref().unwrap().rgba, [10, 10, 10, 255]);
    assert_eq!(compositor.action(), Action::Sleep(100));
    compositor.slept();
    assert_eq!(compositor.action(), Action::PollInput);

    compositor.input_polled(None);
    compositor.window_checked(true);
    compositor.captured(frame(20));
    compositor.publish(&mut image);
    assert_eq!(image.as_ref().unwrap().rgba, [20, 20, 20, 255]);
}

#[test]
fn failed_capture_publishes_nothing() {
    let mut compositor = running(70);
    compositor.input_polled(None);
    compositor.window_checked(true);
    compositor.captured(None);
    assert_eq!(compositor.action(), Action::Sleep(100));
}

#[test]
fn compositor_stops_when_the_window_is_gone() {
    let mut compositor = running(70);
    compositor.input_polled(None);
    compositor.window_checked(false);
    assert_eq!(compositor.action(), Action::Finish(Ending::WindowGone));
}
