//! What the applet around an embedded program shows, and what it forwards.

use vstd::prelude::*;

use crate::capture::Frame;
use crate::input::UIEvent;

verus! {

/// What the applet shows.
pub enum WindowContent<'a> {
    /// The newest frame of the embedded program.
    Image(&'a Frame),
    /// A line of text.
    Text(String),
}

/// What the applet does about an event.
#[derive(Clone, Copy, Debug, PartialEq, Eq, Structural)]
pub enum AppletAction {
    /// Send the event to the compositor. One that no longer arrives, because the
    /// embedded program is gone, is ignored.
    Send(UIEvent),
    /// Have the applet's window drawn anew.
    DamageWindow,
}

/// What to do about an event after the applet's own key binds had their turn, in
/// this order. An event that they handled goes no further. Any other is sent on,
/// and the window is drawn anew whether or not it arrives.
pub fn handle_ui_event(handled: bool, ui_event: UIEvent) -> (actions: Vec<AppletAction>)
    ensures
        actions@ == if handled {
            seq![]
        } else {
            seq![AppletAction::Send(ui_event), AppletAction::DamageWindow]
        },
{
    let mut actions: Vec<AppletAction> = Vec::new();
    if !handled {
        actions.push(AppletAction::Send(ui_event));
        actions.push(AppletAction::DamageWindow);
    }
    actions
}

/// What the applet shows, given the shared image, or `None` where it cannot be
/// looked at.
pub fn get_window<'a>(image: Option<&'a Option<Frame>>) -> (content: WindowContent<'a>)
    ensures
        match image {
            Some(Some(frame)) => content == WindowContent::Image(frame),
            _ => content matches WindowContent::Text(line) && line@ == "Windows app loading..."@,
        },
{
    match image {
        Some(Some(frame)) => WindowContent::Image(frame),
        _ => WindowContent::Text("Windows app loading...".to_owned()),
    }
}

/// The name of the applet among its siblings.
pub fn get_treeview() -> (name: String)
    ensures
        name@ == "Windows App"@,
{
    "Windows App".to_owned()
}

/// The program to embed, given the arguments that the applet is opened with.
pub fn program_argument(args: &[&str]) -> (program: String)
    ensures
        program@ == if args@.len() > 0 {
            args@[0]@
        } else {
            "notepad"@
        },
{
    if args.len() > 0 {
        args[0].to_owned()
    } else {
        "notepad".to_owned()
    }
}

} // verus!
