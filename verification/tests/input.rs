use singularity_win_compositor::input::{
    focus_window, process_ui_event, send_key, virtual_key, Key, UIEvent, WindowMessage,
};

const NAMED: [(Key, u16); 9] = [
    (Key::ArrowKeyUp, 38),
    (Key::ArrowKeyDown, 40),
    (Key::ArrowKeyLeft, 37),
    (Key::ArrowKeyRight, 39),
    (Key::Enter, 13),
    (Key::Backspace, 8),
    (Key::PageUp, 33),
    (Key::PageDown, 34),
    (Key::Escape, 27),
];

#[test]
fn virtual_keys_have_their_codes() {
    for (key, code) in NAMED {
        assert_eq!(virtual_key(key), Some(code));
    }
    assert_eq!(virtual_key(Key::Char('a')), None);
}

#[test]
fn character_is_one_message() {
    assert_eq!(
        send_key(7, Key::Char('A')),
        vec![WindowMessage { target: 7, message: 0x0102, wparam: 0x41, lparam: 1 }]
    );
    assert_eq!(
        send_key(7, Key::Char('\u{20AC}')),
        vec![WindowMessage { target: 7, message: 0x0102, wparam: 0x20AC, lparam: 1 }]
    );
}

#[test]
fn other_keys_are_pressed_then_released() {
    for (key, code) in NAMED {
        let wparam = code as usize;
        assert_eq!(
            send_key(-3, key),
            vec![
                WindowMessage { target: -3, message: 0x0100, wparam, lparam: 1 },
                WindowMessage { target: -3, message: 0x0101, wparam, lparam: -0x3FFF_FFFF },
            ]
        );
    }
}

#[test]
fn release_is_marked_in_the_top_bits() {
    let release = send_key(1, Key::Enter)[1];
    assert_eq!(release.lparam as u32, 0xC000_0001);
}

#[test]
fn no_two_keys_look_alike() {
    let mut keys: Vec<Key> = NAMED.iter().map(|(key, _)| *key).collect();
    for code in [8u8, 13, 27, 38] {
        keys.push(Key::Char(code as char));
    }
    for i in 0..keys.len() {
        for j in 0..keys.len() {
            assert_eq!(send_key(1, keys[i]) == send_key(1, keys[j]), i == j);
        }
    }
}

#[test]
fn input_goes_to_the_focus() {
    assert_eq!(focus_window(10, Some(20)), 20);
}

#[test]
fn input_falls_back_to_the_top_level_window() {
    assert_eq!(focus_window(10, None), 10);
    assert_eq!(focus_window(10, Some(0)), 10);
}

#[test]
fn only_key_presses_are_forwarded() {
    assert_eq!(process_ui_event(UIEvent::KeyPress(Key::Escape)), Some(Key::Escape));
    assert_eq!(process_ui_event(UIEvent::WindowResized), None);
    assert_eq!(process_ui_event(UIEvent::MousePress), None);
}
