use singularity_win_compositor::applet::{
    get_treeview, get_window, handle_ui_event, program_argument, AppletAction, WindowContent,
};
use singularity_win_compositor::capture::Frame;
use singularity_win_compositor::input::{Key, UIEvent};

#[test]
fn handled_events_go_no_further() {
    assert_eq!(handle_ui_event(true, UIEvent::KeyPress(Key::PageUp)), vec![]);
}

#[test]
fn other_events_are_sent_before_the_window_is_drawn_anew() {
    for event in [UIEvent::KeyPress(Key::PageUp), UIEvent::WindowResized, UIEvent::MousePress] {
        assert_eq!(
            handle_ui_event(false, event),
            vec![AppletAction::Send(event), AppletAction::DamageWindow]
        );
    }
}

#[test]
fn applet_shows_the_newest_frame() {
    let image = Some(Frame { width: 1, height: 1, rgba: vec![1, 2, 3, 255] });
    match get_window(Some(&image)) {
        WindowContent::Image(frame) => assert_eq!(frame.rgba, [1, 2, 3, 255]),
        WindowContent::Text(_) => panic!("no image"),
    }
}

#[test]
fn applet_says_that_it_is_loading() {
    for image in [None, Some(&None)] {
        match get_window(image) {
            WindowContent::Image(_) => panic!("no text"),
            WindowContent::Text(line) => assert_eq!(line, "Windows app loading..."),
        }
    }
}

#[test]
fn applet_has_a_name() {
    assert_eq!(get_treeview(), "Windows App");
}

#[test]
fn first_argument_is_the_program() {
    assert_eq!(program_argument(&["calc", "-x"]), "calc");
    assert_eq!(program_argument(&[""]), "");
}

#[test]
fn notepad_is_the_default_program() {
    assert_eq!(program_argument(&[]), "notepad");
}
