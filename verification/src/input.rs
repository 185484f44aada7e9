//! Forwarding user input to the embedded program.

use vstd::prelude::*;

verus! {

/// A key that was pressed.
#[derive(Clone, Copy, Debug, PartialEq, Eq, Structural)]
pub enum Key {
    Char(char),
    ArrowKeyUp,
    ArrowKeyDown,
    ArrowKeyLeft,
    ArrowKeyRight,
    Enter,
    Backspace,
    PageUp,
    PageDown,
    Escape,
}

/// What the user did. Modifier keys are ignored, so a key press does not carry
/// them; nor does the library look at the size or the place of the others.
#[derive(Clone, Copy, Debug, PartialEq, Eq, Structural)]
pub enum UIEvent {
    KeyPress(Key),
    WindowResized,
    MousePress,
}

/// A message to post to a window.
#[derive(Clone, Copy, Debug, PartialEq, Eq, Structural)]
pub struct WindowMessage {
    pub target: isize,
    pub message: u32,
    pub wparam: usize,
    pub lparam: isize,
}

/// A key went down.
pub const WM_KEYDOWN: u32 = 0x0100;

/// A key came up.
pub const WM_KEYUP: u32 = 0x0101;

/// A translated character.
pub const WM_CHAR: u32 = 0x0102;

pub const VK_BACK: u16 = 0x08;

pub const VK_RETURN: u16 = 0x0D;

pub const VK_ESCAPE: u16 = 0x1B;

pub const VK_PRIOR: u16 = 0x21;

pub const VK_NEXT: u16 = 0x22;

pub const VK_LEFT: u16 = 0x25;

pub const VK_UP: u16 = 0x26;

pub const VK_RIGHT: u16 = 0x27;

pub const VK_DOWN: u16 = 0x28;

/// The flags of a key press: a repeat count of one.
pub const PRESS_FLAGS: u32 = 0x0000_0001;

/// The flags of a key release: a repeat count of one, with bit 30 saying that
/// the key was down and bit 31 that this is a release.
pub const RELEASE_FLAGS: u32 = 0xC000_0001;

/// The virtual key code of a key that is not a character.
pub open spec fn virtual_key_of(key: Key) -> Option<u16> {
    match key {
        Key::Char(_) => None,
        Key::ArrowKeyUp => Some(VK_UP),
        Key::ArrowKeyDown => Some(VK_DOWN),
        Key::ArrowKeyLeft => Some(VK_LEFT),
        Key::ArrowKeyRight => Some(VK_RIGHT),
        Key::Enter => Some(VK_RETURN),
        Key::Backspace => Some(VK_BACK),
        Key::PageUp => Some(VK_PRIOR),
        Key::PageDown => Some(VK_NEXT),
        Key::Escape => Some(VK_ESCAPE),
    }
}

/// The flags of a keyboard message as its `lparam` carries them: as a signed
/// number of the same 32 bits.
pub open spec fn flags_lparam(flags: u32) -> int {
    if flags < 0x8000_0000 {
        flags as int
    } else {
        flags - 0x1_0000_0000
    }
}

/// The messages that forward a press of `key` to the window `target`.
pub open spec fn key_messages(target: isize, key: Key) -> Seq<WindowMessage> {
    match key {
        Key::Char(c) => seq![
            WindowMessage {
                target,
                message: WM_CHAR,
                wparam: c as usize,
                lparam: flags_lparam(PRESS_FLAGS) as isize,
            },
        ],
        _ => seq![
            WindowMessage {
                target,
                message: WM_KEYDOWN,
                wparam: virtual_key_of(key)->0 as usize,
                lparam: flags_lparam(PRESS_FLAGS) as isize,
            },
            WindowMessage {
                target,
                message: WM_KEYUP,
                wparam: virtual_key_of(key)->0 as usize,
                lparam: flags_lparam(RELEASE_FLAGS) as isize,
            },
        ],
    }
}

/// The window that input goes to: the one in focus, where there is one.
pub open spec fn focus_of(target: isize, focus: Option<isize>) -> isize {
    match focus {
        Some(window) if window != 0 => window,
        _ => target,
    }
}

/// The key that an event asks to forward, if any.
pub open spec fn forwarded_key(ui_event: UIEvent) -> Option<Key> {
    match ui_event {
        UIEvent::KeyPress(key) => Some(key),
        _ => None,
    }
}

/// The virtual key code of `key`, or `None` for a character, which has none of
/// its own.
pub fn virtual_key(key: Key) -> (code: Option<u16>)
    ensures
        code == virtual_key_of(key),
{
    match key {
        Key::Char(_) => None,
        Key::ArrowKeyUp => Some(VK_UP),
        Key::ArrowKeyDown => Some(VK_DOWN),
        Key::ArrowKeyLeft => Some(VK_LEFT),
        Key::ArrowKeyRight => Some(VK_RIGHT),
        Key::Enter => Some(VK_RETURN),
        Key::Backspace => Some(VK_BACK),
        Key::PageUp => Some(VK_PRIOR),
        Key::PageDown => Some(VK_NEXT),
        Key::Escape => Some(VK_ESCAPE),
    }
}

/// The messages that forward a press of `key` to `target`, in the order in which
/// they are posted.
///
/// A character travels translated, so case and symbols come through without
/// pretending that a modifier is held. Any other key goes down and comes up.
pub fn send_key(target: isize, key: Key) -> (messages: Vec<WindowMessage>)
    ensures
        messages@ == key_messages(target, key),
{
    let pressed: isize = PRESS_FLAGS as i32 as isize;
    let mut messages: Vec<WindowMessage> = Vec::new();
    match key {
        Key::Char(c) => {
            messages.push(
                WindowMessage { target, message: WM_CHAR, wparam: c as usize, lparam: pressed },
            );
        },
        other => {
            if let Some(code) = virtual_key(other) {
                assert(RELEASE_FLAGS as i32 == -0x3FFF_FFFF) by (bit_vector);
                let released: isize = RELEASE_FLAGS as i32 as isize;
                let wparam: usize = code as usize;
                messages.push(
                    WindowMessage { target, message: WM_KEYDOWN, wparam, lparam: pressed },
                );
                messages.push(
                    WindowMessage { target, message: WM_KEYUP, wparam, lparam: released },
                );
            }
        },
    }
    messages
}

/// The window to post to, given the window that holds the focus of the embedded
/// program's thread. `focus` is `None` where the thread could not be asked, and
/// a null handle means that nothing is in focus.
///
/// The top-level window alone would miss the controls inside it.
pub fn focus_window(target: isize, focus: Option<isize>) -> (window: isize)
    ensures
        window == focus_of(target, focus),
{
    match focus {
        Some(window) if window != 0 => window,
        _ => target,
    }
}

/// The key to forward for an event. Resizing the applet and pressing the mouse
/// leave the embedded program alone.
pub fn process_ui_event(ui_event: UIEvent) -> (key: Option<Key>)
    ensures
        key == forwarded_key(ui_event),
{
    match ui_event {
        UIEvent::KeyPress(key) => Some(key),
        UIEvent::WindowResized => None,
        UIEvent::MousePress => None,
    }
}

/// A character is forwarded as one message that carries its code point.
pub proof fn law_character_is_one_message(target: isize, c: char)
    ensures
        key_messages(target, Key::Char(c)).len() == 1,
        key_messages(target, Key::Char(c))[0].target == target,
        key_messages(target, Key::Char(c))[0].message == WM_CHAR == 0x0102,
        key_messages(target, Key::Char(c))[0].wparam == c as u32,
        key_messages(target, Key::Char(c))[0].lparam == 1,
        virtual_key_of(Key::Char(c)) is None,
{
}

/// Every other key is forwarded as a press and then the release of the same
/// virtual key, and the release is marked as one of a key that was down.
pub proof fn law_key_is_pressed_then_released(target: isize, key: Key)
    requires
        !(key is Char),
    ensures
        ({
            let messages = key_messages(target, key);
            let (press, release) = (messages[0], messages[1]);
            &&& messages.len() == 2
            &&& press.target == target
            &&& release.target == target
            &&& press.message == WM_KEYDOWN == 0x0100
            &&& release.message == WM_KEYUP == 0x0101
            &&& Some(press.wparam as u16) == virtual_key_of(key)
            &&& press.wparam == release.wparam
            &&& press.lparam == 1
            &&& release.lparam == -0x3FFF_FFFF
            &&& (press.lparam as u32) & (3u32 << 30) == 0
            &&& (release.lparam as u32) & (3u32 << 30) == 3u32 << 30
            &&& (press.lparam as u32) & 0xFFFF == 1
            &&& (release.lparam as u32) & 0xFFFF == 1
        }),
{
    let press = flags_lparam(PRESS_FLAGS) as isize;
    let release = flags_lparam(RELEASE_FLAGS) as isize;
    assert(press as u32 == 1) by (bit_vector)
        requires
            press == 1,
    ;
    assert(release as u32 == 0xC000_0001) by (bit_vector)
        requires
            release == -0x3FFF_FFFF,
    ;
    assert(1u32 & (3u32 << 30) == 0 && 1u32 & 0xFFFF == 1) by (bit_vector);
    assert(0xC000_0001u32 & (3u32 << 30) == 3u32 << 30 && 0xC000_0001u32 & 0xFFFF == 1)
        by (bit_vector);
}

/// Every key that is not a character travels under the code that Windows gives
/// it: the four arrows are neighbours, as are the two page keys, and the keys
/// that have a control character go by its number.
pub proof fn law_keys_have_their_codes(target: isize, key: Key)
    requires
        !(key is Char),
    ensures
        ({
            let code = key_messages(target, key)[0].wparam as int;
            let left = key_messages(target, Key::ArrowKeyLeft)[0].wparam as int;
            &&& virtual_key_of(key) matches Some(virtual_key) && virtual_key == code
            &&& left == 37
            &&& key is ArrowKeyUp ==> code == left + 1
            &&& key is ArrowKeyRight ==> code == left + 2
            &&& key is ArrowKeyDown ==> code == left + 3
            &&& key is PageUp ==> code == left - 4
            &&& key is PageDown ==> code == left - 3
            &&& key is Backspace ==> code == '\u{8}' as int
            &&& key is Enter ==> code == '\r' as int
            &&& key is Escape ==> code == '\u{1B}' as int
        }),
{
}

/// No two keys are forwarded alike, so the embedded program can tell every key
/// from every other.
pub proof fn law_keys_are_told_apart(target: isize, one: Key, other: Key)
    requires
        key_messages(target, one) == key_messages(target, other),
    ensures
        one == other,
{
    let first = key_messages(target, one)[0];
    assert(first == key_messages(target, other)[0]);
    match (one, other) {
        (Key::Char(c), Key::Char(d)) => {
            assert(c as usize == d as usize);
        },
        _ => {},
    }
}

/// Every message of a key press goes to the one window that it was meant for.
pub proof fn law_messages_reach_the_target(target: isize, key: Key, i: int)
    requires
        0 <= i < key_messages(target, key).len(),
    ensures
        key_messages(target, key)[i].target == target,
{
}

/// The window in focus gets the input, whichever it is; where nothing is in
/// focus, or it could not be asked, the program's own window does.
pub proof fn law_focus_gets_the_input(target: isize, window: isize)
    requires
        window != 0,
    ensures
        focus_of(target, Some(window)) == window,
        focus_of(target, Some(0)) == target,
        focus_of(target, None) == target,
{
}

/// Every key press asks for its own key to be forwarded, and no other event asks
/// for anything.
pub proof fn law_key_presses_alone_are_forwarded(ui_event: UIEvent, key: Key)
    ensures
        forwarded_key(ui_event) == Some(key) <==> ui_event == UIEvent::KeyPress(key),
        forwarded_key(ui_event) is None <==> !(ui_event is KeyPress),
{
}

/// Input goes to a window that exists: never to the null handle, unless the
/// embedded program's own window were it.
pub proof fn law_input_goes_to_a_window(target: isize, focus: Option<isize>)
    requires
        target != 0,
    ensures
        focus_of(target, focus) != 0,
        focus == Some(focus_of(target, focus)) || focus_of(target, focus) == target,
{
}

} // verus!
