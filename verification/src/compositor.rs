//! The life of an embedded program: launched, found on the desktop, then
//! captured and fed with input until its window is gone.

use std::collections::BTreeSet;
use vstd::prelude::*;

use crate::capture::{frame_view, Frame, FrameView};
use crate::input::{
    focus_of, focus_window, forwarded_key, key_messages, process_ui_event, send_key, Key, UIEvent,
    WindowMessage,
};
use crate::names::{
    ascii, ascii_lower, bare_name, bare_stem, begins_with_two_separators, known_as, leads_to,
    lowercase, same_but_for_case, search_stem, stem_of,
};
use crate::search::{Criteria, FindTargetWindow, SearchView, WindowView};

verus! {

/// The pause between two frames, in milliseconds.
pub const FRAME_MILLIS: u64 = 100;

/// The pause between two looks for the program's window, in milliseconds.
pub const RETRY_MILLIS: u64 = 200;

/// How long the program's window is looked for, in nanoseconds. Slow programs,
/// or those that launch themselves anew, can take a while to show one.
pub const FIND_WINDOW_TIMEOUT_NANOS: u128 = 15_000_000_000;

/// Why a compositor stopped.
#[derive(Clone, Copy, Debug, PartialEq, Eq, Structural)]
pub enum Ending {
    /// The program showed no window in time.
    NeverFound,
    /// The program's window is gone.
    WindowGone,
}

/// How far an embedded program has come.
#[derive(Clone, Copy, Debug, PartialEq, Eq, Structural)]
pub enum Phase {
    Listing,
    Spawning,
    Finding,
    Timing,
    Waiting,
    Polling,
    Focusing(Key),
    Posting,
    Checking,
    Capturing,
    Publishing,
    Resting,
    Stopped(Ending),
}

/// What a compositor asks for next.
#[derive(Clone, Copy, Debug, PartialEq, Eq, Structural)]
pub enum Action {
    /// Collect the windows in sight, and answer with
    /// [`WindowsCompositor::listed`].
    ListWindows,
    /// Launch the program and start the clock, and answer with
    /// [`WindowsCompositor::spawned`].
    Spawn,
    /// Run [`WindowsCompositor::search`] over the windows of the desktop, and
    /// answer with [`WindowsCompositor::searched`].
    FindWindow,
    /// Read the clock, and answer with [`WindowsCompositor::clock_read`].
    ReadClock,
    /// Sleep for so many milliseconds, and answer with
    /// [`WindowsCompositor::slept`].
    Sleep(u64),
    /// Take the next event from the queue if there is one, and answer with
    /// [`WindowsCompositor::input_polled`].
    PollInput,
    /// Ask which window of the thread that owns this one is in focus, and answer
    /// with [`WindowsCompositor::focus_known`].
    AskFocus(isize),
    /// Post this message, and answer with [`WindowsCompositor::posted`] whether
    /// or not it arrived.
    Post(WindowMessage),
    /// See whether this window still exists, and answer with
    /// [`WindowsCompositor::window_checked`].
    CheckWindow(isize),
    /// Take a frame of this window, and answer with
    /// [`WindowsCompositor::captured`].
    Capture(isize),
    /// Call [`WindowsCompositor::publish`] on the shared image.
    Publish,
    /// Nothing: the embedded program is over.
    Finish(Ending),
}

/// A compositor for one embedded program.
pub struct WindowsCompositor {
    phase: Phase,
    exe_stem: String,
    preexisting: BTreeSet<isize>,
    child_pid: u32,
    target_window: isize,
    outbox: Vec<WindowMessage>,
    frame: Option<Frame>,
}

/// [`WindowsCompositor`] as specifications see it.
#[verifier::ext_equal]
pub struct CompositorView {
    pub phase: Phase,
    /// The name by which the program's windows are known.
    pub exe_stem: Seq<char>,
    /// The windows that were in sight before the launch.
    pub preexisting: Set<isize>,
    /// The launched process, or 0 where none could be launched.
    pub child_pid: u32,
    /// The program's window, once it was found.
    pub target_window: isize,
    /// The messages that are still to be posted.
    pub outbox: Seq<WindowMessage>,
    /// The frame that is still to be published.
    pub frame: Option<FrameView>,
}

/// What comes back from an action.
pub enum Reply {
    Listed(Set<isize>),
    Spawned(Option<u32>),
    Searched(Option<isize>),
    ClockRead(u128),
    Slept,
    InputPolled(Option<UIEvent>),
    FocusKnown(Option<isize>),
    Posted,
    WindowChecked(bool),
    Captured(Option<FrameView>),
    Published,
}

impl View for WindowsCompositor {
    type V = CompositorView;

    closed spec fn view(&self) -> CompositorView {
        CompositorView {
            phase: self.phase,
            exe_stem: self.exe_stem@,
            preexisting: self.preexisting@,
            child_pid: self.child_pid,
            target_window: self.target_window,
            outbox: self.outbox@,
            frame: frame_view(self.frame),
        }
    }
}

impl CompositorView {
    /// A compositor that has done nothing yet.
    pub open spec fn fresh(exe_stem: Seq<char>) -> CompositorView {
        CompositorView {
            phase: Phase::Listing,
            exe_stem,
            preexisting: Set::empty(),
            child_pid: 0,
            target_window: 0,
            outbox: seq![],
            frame: None,
        }
    }

    /// Messages are left only while posting, and a frame only while publishing.
    /// It is a whole one.
    pub open spec fn wf(self) -> bool {
        &&& self.phase is Posting <==> self.outbox.len() > 0
        &&& self.phase is Publishing <==> self.frame is Some
        &&& self.frame matches Some(frame) ==> frame.wf()
    }

    /// Whether the program's window has been found.
    pub open spec fn running(self) -> bool {
        match self.phase {
            Phase::Listing | Phase::Spawning | Phase::Finding | Phase::Timing | Phase::Waiting => {
                false
            },
            Phase::Stopped(ending) => ending is WindowGone,
            _ => true,
        }
    }

    /// What makes a window the program's.
    pub open spec fn criteria(self) -> Criteria {
        Criteria { pid: self.child_pid, exe_stem: self.exe_stem, exclude: self.preexisting }
    }

    /// What is to be done next.
    pub open spec fn action(self) -> Action {
        match self.phase {
            Phase::Listing => Action::ListWindows,
            Phase::Spawning => Action::Spawn,
            Phase::Finding => Action::FindWindow,
            Phase::Timing => Action::ReadClock,
            Phase::Waiting => Action::Sleep(RETRY_MILLIS),
            Phase::Polling => Action::PollInput,
            Phase::Focusing(_) => Action::AskFocus(self.target_window),
            Phase::Posting => Action::Post(self.outbox[0]),
            Phase::Checking => Action::CheckWindow(self.target_window),
            Phase::Capturing => Action::Capture(self.target_window),
            Phase::Publishing => Action::Publish,
            Phase::Resting => Action::Sleep(FRAME_MILLIS),
            Phase::Stopped(ending) => Action::Finish(ending),
        }
    }

    /// Whether `reply` answers what is to be done next.
    pub open spec fn accepts(self, reply: Reply) -> bool {
        match reply {
            Reply::Listed(_) => self.phase is Listing,
            Reply::Spawned(_) => self.phase is Spawning,
            Reply::Searched(_) => self.phase is Finding,
            Reply::ClockRead(_) => self.phase is Timing,
            Reply::Slept => self.phase is Waiting || self.phase is Resting,
            Reply::InputPolled(_) => self.phase is Polling,
            Reply::FocusKnown(_) => self.phase is Focusing,
            Reply::Posted => self.phase is Posting,
            Reply::WindowChecked(_) => self.phase is Checking,
            Reply::Captured(frame) => self.phase is Capturing && (frame matches Some(frame)
                ==> frame.wf()),
            Reply::Published => self.phase is Publishing,
        }
    }

    /// The compositor after `reply`.
    pub open spec fn replied(self, reply: Reply) -> CompositorView {
        match reply {
            Reply::Listed(windows) => CompositorView {
                phase: Phase::Spawning,
                preexisting: windows,
                ..self
            },
            Reply::Spawned(pid) => CompositorView {
                phase: Phase::Finding,
                child_pid: match pid {
                    Some(pid) => pid,
                    None => 0,
                },
                ..self
            },
            Reply::Searched(found) => match found {
                Some(window) => CompositorView {
                    phase: Phase::Polling,
                    target_window: window,
                    ..self
                },
                None => CompositorView { phase: Phase::Timing, ..self },
            },
            Reply::ClockRead(elapsed) => CompositorView {
                phase: if elapsed >= FIND_WINDOW_TIMEOUT_NANOS {
                    Phase::Stopped(Ending::NeverFound)
                } else {
                    Phase::Waiting
                },
                ..self
            },
            Reply::Slept => CompositorView {
                phase: if self.phase is Waiting {
                    Phase::Finding
                } else {
                    Phase::Polling
                },
                ..self
            },
            Reply::InputPolled(event) => CompositorView {
                phase: match event {
                    Some(event) => match forwarded_key(event) {
                        Some(key) => Phase::Focusing(key),
                        None => Phase::Polling,
                    },
                    None => Phase::Checking,
                },
                ..self
            },
            Reply::FocusKnown(focus) => CompositorView {
                phase: Phase::Posting,
                outbox: key_messages(
                    focus_of(self.target_window, focus),
                    self.phase->Focusing_0,
                ),
                ..self
            },
            Reply::Posted => CompositorView {
                phase: if self.outbox.len() > 1 {
                    Phase::Posting
                } else {
                    Phase::Polling
                },
                outbox: self.outbox.skip(1),
                ..self
            },
            Reply::WindowChecked(exists) => CompositorView {
                phase: if exists {
                    Phase::Capturing
                } else {
                    Phase::Stopped(Ending::WindowGone)
                },
                ..self
            },
            Reply::Captured(frame) => CompositorView {
                phase: if frame is Some {
                    Phase::Publishing
                } else {
                    Phase::Resting
                },
                frame,
                ..self
            },
            Reply::Published => CompositorView { phase: Phase::Resting, frame: None, ..self },
        }
    }
}

impl WindowsCompositor {
    /// A compositor that is about to launch `program`.
    pub fn new(program: &str) -> (compositor: Self)
        ensures
            compositor@.wf(),
            compositor@ == CompositorView::fresh(known_as(program@)),
            bare_name(program@) ==> compositor@.exe_stem == lowercase(bare_stem(program@)),
            bare_name(program@) && ascii(program@) ==> compositor@.exe_stem == ascii_lower(
                bare_stem(program@),
            ),
            forall|name: Seq<char>| #[trigger]
                leads_to(program@, name) ==> {
                    &&& Some(compositor@.exe_stem) == stem_of(name)
                    &&& compositor@.exe_stem == lowercase(bare_stem(name))
                    &&& ascii(name) ==> compositor@.exe_stem == ascii_lower(bare_stem(name))
                },
            stem_of(program@) is None && ascii(program@) ==> compositor@.exe_stem == ascii_lower(
                program@,
            ),
            forall|other: Seq<char>| #[trigger]
                same_but_for_case(program@, other) && !begins_with_two_separators(program@)
                    ==> compositor@.exe_stem == known_as(other),
    {
        WindowsCompositor {
            phase: Phase::Listing,
            exe_stem: search_stem(program),
            preexisting: BTreeSet::new(),
            child_pid: 0,
            target_window: 0,
            outbox: Vec::new(),
            frame: None,
        }
    }

    /// What is to be done next.
    pub fn action(&self) -> (action: Action)
        requires
            self@.wf(),
        ensures
            action == self@.action(),
    {
        match self.phase {
            Phase::Listing => Action::ListWindows,
            Phase::Spawning => Action::Spawn,
            Phase::Finding => Action::FindWindow,
            Phase::Timing => Action::ReadClock,
            Phase::Waiting => Action::Sleep(RETRY_MILLIS),
            Phase::Polling => Action::PollInput,
            Phase::Focusing(_) => Action::AskFocus(self.target_window),
            Phase::Posting => Action::Post(self.outbox[0]),
            Phase::Checking => Action::CheckWindow(self.target_window),
            Phase::Capturing => Action::Capture(self.target_window),
            Phase::Publishing => Action::Publish,
            Phase::Resting => Action::Sleep(FRAME_MILLIS),
            Phase::Stopped(ending) => Action::Finish(ending),
        }
    }

    /// Takes the windows in sight before the launch. They can never be the
    /// program's, so no search takes them.
    pub fn listed(&mut self, windows: BTreeSet<isize>)
        requires
            old(self)@.wf(),
            old(self)@.accepts(Reply::Listed(windows@)),
        ensures
            final(self)@.wf(),
            final(self)@ == old(self)@.replied(Reply::Listed(windows@)),
    {
        self.preexisting = windows;
        self.phase = Phase::Spawning;
    }

    /// Takes the launched process, or `None` where it could not be launched.
    pub fn spawned(&mut self, pid: Option<u32>)
        requires
            old(self)@.wf(),
            old(self)@.accepts(Reply::Spawned(pid)),
        ensures
            final(self)@.wf(),
            final(self)@ == old(self)@.replied(Reply::Spawned(pid)),
    {
        self.child_pid = match pid {
            Some(pid) => pid,
            None => 0,
        };
        self.phase = Phase::Finding;
    }

    /// A search for the program's window that has visited no window yet.
    pub fn search(&self) -> (search: FindTargetWindow)
        ensures
            search@ == SearchView::fresh(self@.criteria()),
    {
        FindTargetWindow::new(self.child_pid, self.exe_stem.as_str(), &self.preexisting)
    }

    /// Takes what the search found.
    pub fn searched(&mut self, found: Option<isize>)
        requires
            old(self)@.wf(),
            old(self)@.accepts(Reply::Searched(found)),
        ensures
            final(self)@.wf(),
            final(self)@ == old(self)@.replied(Reply::Searched(found)),
    {
        match found {
            Some(window) => {
                self.target_window = window;
                self.phase = Phase::Polling;
            },
            None => {
                self.phase = Phase::Timing;
            },
        }
    }

    /// Takes the nanoseconds since the launch. Once the time is up the search
    /// for the window is given up.
    pub fn clock_read(&mut self, elapsed: u128)
        requires
            old(self)@.wf(),
            old(self)@.accepts(Reply::ClockRead(elapsed)),
        ensures
            final(self)@.wf(),
            final(self)@ == old(self)@.replied(Reply::ClockRead(elapsed)),
    {
        self.phase = if elapsed >= FIND_WINDOW_TIMEOUT_NANOS {
            Phase::Stopped(Ending::NeverFound)
        } else {
            Phase::Waiting
        };
    }

    /// Takes that a pause is over.
    pub fn slept(&mut self)
        requires
            old(self)@.wf(),
            old(self)@.accepts(Reply::Slept),
        ensures
            final(self)@.wf(),
            final(self)@ == old(self)@.replied(Reply::Slept),
    {
        self.phase = match self.phase {
            Phase::Waiting => Phase::Finding,
            _ => Phase::Polling,
        };
    }

    /// Takes the next event from the queue, or `None` where it is empty.
    pub fn input_polled(&mut self, event: Option<UIEvent>)
        requires
            old(self)@.wf(),
            old(self)@.accepts(Reply::InputPolled(event)),
        ensures
            final(self)@.wf(),
            final(self)@ == old(self)@.replied(Reply::InputPolled(event)),
    {
        self.phase = match event {
            Some(event) => match process_ui_event(event) {
                Some(key) => Phase::Focusing(key),
                None => Phase::Polling,
            },
            None => Phase::Checking,
        };
    }

    /// Takes the window in focus, or `None` where the program's thread could not
    /// be asked. A null handle means that nothing is in focus.
    pub fn focus_known(&mut self, focus: Option<isize>)
        requires
            old(self)@.wf(),
            old(self)@.accepts(Reply::FocusKnown(focus)),
        ensures
            final(self)@.wf(),
            final(self)@ == old(self)@.replied(Reply::FocusKnown(focus)),
    {
        if let Phase::Focusing(key) = self.phase {
            self.outbox = send_key(focus_window(self.target_window, focus), key);
            self.phase = Phase::Posting;
        }
    }

    /// Takes that a message was posted. One that did not arrive is not repeated.
    pub fn posted(&mut self)
        requires
            old(self)@.wf(),
            old(self)@.accepts(Reply::Posted),
        ensures
            final(self)@.wf(),
            final(self)@ == old(self)@.replied(Reply::Posted),
    {
        self.outbox.remove(0);
        self.phase = if self.outbox.len() > 0 {
            Phase::Posting
        } else {
            Phase::Polling
        };
        assert(self.outbox@ =~= old(self)@.outbox.skip(1));
    }

    /// Takes whether the program's window still exists.
    pub fn window_checked(&mut self, exists: bool)
        requires
            old(self)@.wf(),
            old(self)@.accepts(Reply::WindowChecked(exists)),
        ensures
            final(self)@.wf(),
            final(self)@ == old(self)@.replied(Reply::WindowChecked(exists)),
    {
        self.phase = if exists {
            Phase::Capturing
        } else {
            Phase::Stopped(Ending::WindowGone)
        };
    }

    /// Takes a frame, or `None` where the window gave none.
    pub fn captured(&mut self, frame: Option<Frame>)
        requires
            old(self)@.wf(),
            old(self)@.accepts(Reply::Captured(frame_view(frame))),
        ensures
            final(self)@.wf(),
            final(self)@ == old(self)@.replied(Reply::Captured(frame_view(frame))),
    {
        self.phase = if frame.is_some() {
            Phase::Publishing
        } else {
            Phase::Resting
        };
        self.frame = frame;
    }

    /// Puts the frame that was taken into the shared image.
    pub fn publish(&mut self, image: &mut Option<Frame>)
        requires
            old(self)@.wf(),
            old(self)@.accepts(Reply::Published),
        ensures
            final(self)@.wf(),
            final(self)@ == old(self)@.replied(Reply::Published),
            frame_view(*final(image)) == old(self)@.frame,
            *final(image) matches Some(frame) && frame@.wf(),
    {
        *image = self.frame.take();
        self.phase = Phase::Resting;
    }
}

/// A compositor for a program known as `exe_stem`, after a sequence of replies.
pub open spec fn after(exe_stem: Seq<char>, replies: Seq<Reply>) -> CompositorView
    decreases replies.len(),
{
    if replies.len() == 0 {
        CompositorView::fresh(exe_stem)
    } else {
        after(exe_stem, replies.drop_last()).replied(replies.last())
    }
}

/// Whether each of the replies answers what the compositor asked for.
pub open spec fn answers(exe_stem: Seq<char>, replies: Seq<Reply>) -> bool
    decreases replies.len(),
{
    replies.len() == 0 || {
        &&& answers(exe_stem, replies.drop_last())
        &&& after(exe_stem, replies.drop_last()).accepts(replies.last())
    }
}

/// Whether every search answered with the program's window among the windows of
/// some enumeration.
pub open spec fn sought(exe_stem: Seq<char>, replies: Seq<Reply>) -> bool
    decreases replies.len(),
{
    replies.len() == 0 || {
        &&& sought(exe_stem, replies.drop_last())
        &&& replies.last() matches Reply::Searched(found) ==> exists|windows: Seq<WindowView>|
            found == #[trigger] after(exe_stem, replies.drop_last()).criteria().target(windows)
    }
}

/// The keys that were pressed, in the order in which they came from the queue.
pub open spec fn keys(replies: Seq<Reply>) -> Seq<Key>
    decreases replies.len(),
{
    if replies.len() == 0 {
        seq![]
    } else {
        match replies.last() {
            Reply::InputPolled(Some(UIEvent::KeyPress(key))) => keys(replies.drop_last()).push(key),
            _ => keys(replies.drop_last()),
        }
    }
}

/// The answers to the question which window is in focus.
pub open spec fn focuses(replies: Seq<Reply>) -> Seq<Option<isize>>
    decreases replies.len(),
{
    if replies.len() == 0 {
        seq![]
    } else {
        match replies.last() {
            Reply::FocusKnown(focus) => focuses(replies.drop_last()).push(focus),
            _ => focuses(replies.drop_last()),
        }
    }
}

/// The messages that were posted.
pub open spec fn messages(exe_stem: Seq<char>, replies: Seq<Reply>) -> Seq<WindowMessage>
    decreases replies.len(),
{
    if replies.len() == 0 {
        seq![]
    } else {
        let before = replies.drop_last();
        match (replies.last(), after(exe_stem, before).action()) {
            (Reply::Posted, Action::Post(message)) => messages(exe_stem, before).push(message),
            _ => messages(exe_stem, before),
        }
    }
}

/// The messages that forward the first of `keys`, one for each of `focuses`.
pub open spec fn forwarded(target: isize, keys: Seq<Key>, focuses: Seq<Option<isize>>) -> Seq<
    WindowMessage,
>
    decreases focuses.len(),
{
    if focuses.len() == 0 {
        seq![]
    } else {
        forwarded(target, keys, focuses.drop_last()) + key_messages(
            focus_of(target, focuses.last()),
            keys[focuses.len() - 1],
        )
    }
}

/// The shared image: empty at first, then whatever was published last.
pub open spec fn shared_image(exe_stem: Seq<char>, replies: Seq<Reply>) -> Option<FrameView>
    decreases replies.len(),
{
    if replies.len() == 0 {
        None
    } else {
        match replies.last() {
            Reply::Published => after(exe_stem, replies.drop_last()).frame,
            _ => shared_image(exe_stem, replies.drop_last()),
        }
    }
}

/// The newest frame that was taken.
pub open spec fn newest_frame(replies: Seq<Reply>) -> Option<FrameView>
    decreases replies.len(),
{
    if replies.len() == 0 {
        None
    } else {
        match replies.last() {
            Reply::Captured(Some(frame)) => Some(frame),
            _ => newest_frame(replies.drop_last()),
        }
    }
}

/// Whatever comes back, messages are left only while posting and a frame, which
/// is a whole one, only while publishing.
pub proof fn law_compositor_stays_well_formed(exe_stem: Seq<char>, replies: Seq<Reply>)
    requires
        answers(exe_stem, replies),
    ensures
        after(exe_stem, replies).wf(),
    decreases replies.len(),
{
    if replies.len() > 0 {
        law_compositor_stays_well_formed(exe_stem, replies.drop_last());
    }
}

/// The windows in sight are listed first, the program is launched second, and
/// neither happens again: no window that the program opens is among those that
/// a search passes over because they were there before.
pub proof fn law_windows_are_listed_before_the_launch(exe_stem: Seq<char>, replies: Seq<Reply>)
    requires
        answers(exe_stem, replies),
    ensures
        forall|i: int| 0 <= i < replies.len() ==> ((#[trigger] replies[i]) is Listed <==> i == 0),
        forall|i: int| 0 <= i < replies.len() ==> ((#[trigger] replies[i]) is Spawned <==> i == 1),
        replies.len() > 0 ==> replies[0] == Reply::Listed(after(exe_stem, replies).preexisting),
        replies.len() > 1 ==> replies[1]->Spawned_0 == Some(after(exe_stem, replies).child_pid) || (
        replies[1]->Spawned_0 is None && after(exe_stem, replies).child_pid == 0),
        after(exe_stem, replies).exe_stem == exe_stem,
        after(exe_stem, replies).phase is Listing <==> replies.len() == 0,
        after(exe_stem, replies).phase is Spawning <==> replies.len() == 1,
    decreases replies.len(),
{
    if replies.len() > 0 {
        let before = replies.drop_last();
        law_windows_are_listed_before_the_launch(exe_stem, before);
        assert(forall|i: int| 0 <= i < before.len() ==> #[trigger] replies[i] == before[i]);
    }
}

/// The window that is captured and fed with input is the one that the search
/// found, and once one is found there is no further search.
pub proof fn law_target_is_what_was_found(exe_stem: Seq<char>, replies: Seq<Reply>)
    requires
        answers(exe_stem, replies),
    ensures
        after(exe_stem, replies).running() <==> exists|i: int|
            0 <= i < replies.len() && #[trigger] replies[i] == Reply::Searched(
                Some(after(exe_stem, replies).target_window),
            ),
        forall|i: int|
            0 <= i < replies.len() ==> ((#[trigger] replies[i]) matches Reply::Searched(
                Some(window),
            ) ==> window == after(exe_stem, replies).target_window),
    decreases replies.len(),
{
    if replies.len() > 0 {
        let before = replies.drop_last();
        let (old_target, target) = (
            after(exe_stem, before).target_window,
            after(exe_stem, replies).target_window,
        );
        law_target_is_what_was_found(exe_stem, before);
        assert(forall|i: int| 0 <= i < before.len() ==> #[trigger] replies[i] == before[i]);
        if replies.last() == Reply::Searched(Some(target)) {
            assert(replies[replies.len() - 1] == Reply::Searched(Some(target)));
        } else {
            assert(old_target == target);
            assert(!(replies.last() matches Reply::Searched(Some(_))));
            if after(exe_stem, before).running() {
                let i = choose|i: int|
                    0 <= i < before.len() && #[trigger] before[i] == Reply::Searched(
                        Some(old_target),
                    );
                assert(replies[i] == Reply::Searched(Some(target)));
            }
            if exists|i: int|
                0 <= i < replies.len() && #[trigger] replies[i] == Reply::Searched(Some(target)) {
                let i = choose|i: int|
                    0 <= i < replies.len() && #[trigger] replies[i] == Reply::Searched(
                        Some(target),
                    );
                assert(before[i] == Reply::Searched(Some(old_target)));
            }
        }
    }
}

/// Whatever window is captured, checked or asked for its focus, it is the very
/// one that a search answered with, and no search answered with any other.
pub proof fn law_actions_name_the_found_window(
    exe_stem: Seq<char>,
    replies: Seq<Reply>,
    window: isize,
    i: int,
)
    requires
        answers(exe_stem, replies),
        after(exe_stem, replies).action() == Action::Capture(window) || after(
            exe_stem,
            replies,
        ).action() == Action::CheckWindow(window) || after(exe_stem, replies).action()
            == Action::AskFocus(window),
    ensures
        replies.contains(Reply::Searched(Some(window))),
        0 <= i < replies.len() ==> (replies[i] matches Reply::Searched(Some(found)) ==> found
            == window),
{
    law_target_is_what_was_found(exe_stem, replies);
    let j = choose|j: int|
        0 <= j < replies.len() && #[trigger] replies[j] == Reply::Searched(
            Some(after(exe_stem, replies).target_window),
        );
    assert(replies[j] == Reply::Searched(Some(window)));
}

/// Each look for the program's window is a fresh one for the process that the
/// launch gave, or 0 where it gave none, or else for the program's name, and
/// passes over exactly the windows that were listed before the launch.
pub proof fn law_search_is_for_the_launched_program(exe_stem: Seq<char>, replies: Seq<Reply>)
    requires
        answers(exe_stem, replies),
        after(exe_stem, replies).action() is FindWindow,
    ensures
        replies.len() > 1,
        replies[0] == Reply::Listed(after(exe_stem, replies).criteria().exclude),
        replies[1] matches Reply::Spawned(pid) && (pid matches Some(pid) ==> after(
            exe_stem,
            replies,
        ).criteria().pid == pid) && (pid is None ==> after(exe_stem, replies).criteria().pid == 0),
        after(exe_stem, replies).criteria().exe_stem == exe_stem,
{
    law_windows_are_listed_before_the_launch(exe_stem, replies);
}

/// The search goes on exactly as long as nothing is found in the first 15
/// seconds: when a look found nothing the clock is read, before 15 seconds are
/// over the next look comes after a pause of 200 milliseconds, and from then on
/// the search is given up.
pub proof fn law_search_lasts_fifteen_seconds(exe_stem: Seq<char>, replies: Seq<Reply>)
    requires
        answers(exe_stem, replies),
        replies.len() > 0,
    ensures
        replies.last() == Reply::Searched(None) ==> after(exe_stem, replies).action()
            == Action::ReadClock,
        replies.last() matches Reply::ClockRead(elapsed) ==> {
            &&& elapsed >= 15 * 1_000_000_000 ==> after(exe_stem, replies).phase == Phase::Stopped(
                Ending::NeverFound,
            ) && after(exe_stem, replies).action() == Action::Finish(Ending::NeverFound)
            &&& elapsed < 15 * 1_000_000_000 ==> after(exe_stem, replies).action()
                == Action::Sleep(200)
        },
        replies.last() is Slept && replies.len() > 1 && replies[replies.len() - 2] is ClockRead
            ==> after(exe_stem, replies).action() == Action::FindWindow,
        replies.last() matches Reply::Searched(Some(_)) ==> after(exe_stem, replies).action()
            == Action::PollInput,
{
    let before = replies.drop_last();
    assert(answers(exe_stem, before));
    if before.len() > 0 {
        assert(before.last() == replies[replies.len() - 2]);
        assert(after(exe_stem, before) == after(exe_stem, before.drop_last()).replied(
            before.last(),
        ));
    }
}

/// What a compositor does next is decided by the last thing that came back: it
/// lists, launches and looks; takes input until there is none, asking for the
/// focus at each key press; checks the window; captures it if it is there;
/// publishes what the capture gave; and rests 100 milliseconds before it starts
/// over with the input.
pub proof fn law_last_reply_decides_what_happens_next(exe_stem: Seq<char>, replies: Seq<Reply>)
    requires
        answers(exe_stem, replies),
    ensures
        ({
            let action = after(exe_stem, replies).action();
            if replies.len() == 0 {
                action == Action::ListWindows
            } else {
                match replies.last() {
                    Reply::Listed(_) => action == Action::Spawn,
                    Reply::Spawned(_) => action == Action::FindWindow,
                    Reply::Searched(None) => action == Action::ReadClock,
                    Reply::Searched(Some(_)) => action == Action::PollInput,
                    Reply::ClockRead(_) => action == Action::Sleep(200) || action
                        == Action::Finish(Ending::NeverFound),
                    Reply::Slept => action == (if replies[replies.len() - 2] is ClockRead {
                        Action::FindWindow
                    } else {
                        Action::PollInput
                    }),
                    Reply::InputPolled(None) => action is CheckWindow,
                    Reply::InputPolled(Some(UIEvent::KeyPress(_))) => action is AskFocus,
                    Reply::InputPolled(Some(_)) => action == Action::PollInput,
                    Reply::FocusKnown(_) => action is Post,
                    Reply::Posted => action is Post || action == Action::PollInput,
                    Reply::WindowChecked(true) => action is Capture,
                    Reply::WindowChecked(false) => action == Action::Finish(Ending::WindowGone),
                    Reply::Captured(Some(_)) => action == Action::Publish,
                    Reply::Captured(None) => action == Action::Sleep(100),
                    Reply::Published => action == Action::Sleep(100),
                }
            }
        }),
{
    if replies.len() > 0 {
        let before = replies.drop_last();
        assert(answers(exe_stem, before));
        if before.len() > 0 {
            assert(before.last() == replies[replies.len() - 2]);
            assert(after(exe_stem, before) == after(exe_stem, before.drop_last()).replied(
                before.last(),
            ));
        }
    }
}

/// A key press is followed by the question for the focus, and then by messages to
/// the window in focus, or to the program's where none is: one with the character
/// for a character, else a press and a release of the same key. After the last of
/// them the next event is taken.
pub proof fn law_key_press_is_posted_to_the_focus(
    exe_stem: Seq<char>,
    replies: Seq<Reply>,
    key: Key,
    focus: Option<isize>,
)
    requires
        answers(exe_stem, replies),
        replies.len() > 1,
        ({
            let n = replies.len();
            ||| replies[n - 2] == Reply::InputPolled(Some(UIEvent::KeyPress(key))) && replies[n - 1]
                == Reply::FocusKnown(focus)
            ||| n > 2 && replies[n - 3] == Reply::InputPolled(Some(UIEvent::KeyPress(key)))
                && replies[n - 2] == Reply::FocusKnown(focus) && replies[n - 1] is Posted
            ||| n > 3 && replies[n - 4] == Reply::InputPolled(Some(UIEvent::KeyPress(key)))
                && replies[n - 3] == Reply::FocusKnown(focus) && replies[n - 2] is Posted
                && replies[n - 1] is Posted
        }),
    ensures
        ({
            let n = replies.len();
            let action = after(exe_stem, replies).action();
            let fresh = replies[n - 1] is FocusKnown;
            let half = replies[n - 1] is Posted && replies[n - 2] is FocusKnown;
            &&& fresh || half && !(key is Char) <==> action is Post
            &&& !(action is Post) ==> action == Action::PollInput
            &&& action matches Action::Post(message) ==> {
                &&& focus is Some && focus->0 != 0 ==> message.target == focus->0
                &&& focus is None || focus == Some(0isize) ==> replies.contains(
                    Reply::Searched(Some(message.target)),
                )
                &&& key matches Key::Char(c) ==> message.message == 0x0102 && message.wparam
                    == c as u32 && message.lparam == 1
                &&& !(key is Char) && fresh ==> message.message == 0x0100 && message.lparam == 1
                &&& !(key is Char) && half ==> message.message == 0x0101 && message.lparam
                    == -0x3FFF_FFFF
                &&& !(key is Char) ==> message.wparam == crate::input::virtual_key_of(key)->0
            }
        }),
{
    let n = replies.len();
    let one = replies.drop_last();
    let two = one.drop_last();
    let three = two.drop_last();
    assert(answers(exe_stem, one));
    assert(answers(exe_stem, two));
    assert(after(exe_stem, one) == after(exe_stem, two).replied(one.last()));
    if two.len() > 0 {
        assert(answers(exe_stem, three));
        assert(after(exe_stem, two) == after(exe_stem, three).replied(two.last()));
        assert(two.last() == replies[n - 3]);
    }
    if three.len() > 0 {
        assert(after(exe_stem, three) == after(exe_stem, three.drop_last()).replied(three.last()));
        assert(three.last() == replies[n - 4]);
    }
    law_target_is_what_was_found(exe_stem, replies);
    let target = after(exe_stem, replies).target_window;
    if after(exe_stem, replies).running() {
        let j = choose|j: int|
            0 <= j < n && #[trigger] replies[j] == Reply::Searched(Some(target));
        assert(replies.contains(Reply::Searched(Some(target))));
    }
    crate::input::law_focus_gets_the_input(
        target,
        if focus is Some && focus->0 != 0 {
            focus->0
        } else {
            1
        },
    );
    let to = focus_of(target, focus);
    if let Key::Char(c) = key {
        crate::input::law_character_is_one_message(to, c);
    } else {
        crate::input::law_key_is_pressed_then_released(to, key);
    }
}

/// Every answer that fits an action is taken, and no other. A frame fits if it
/// is a whole one.
pub proof fn law_fitting_answers_are_taken(compositor: CompositorView, reply: Reply)
    ensures
        compositor.accepts(reply) <==> match (compositor.action(), reply) {
            (Action::ListWindows, Reply::Listed(_)) => true,
            (Action::Spawn, Reply::Spawned(_)) => true,
            (Action::FindWindow, Reply::Searched(_)) => true,
            (Action::ReadClock, Reply::ClockRead(_)) => true,
            (Action::Sleep(_), Reply::Slept) => true,
            (Action::PollInput, Reply::InputPolled(_)) => true,
            (Action::AskFocus(_), Reply::FocusKnown(_)) => true,
            (Action::Post(_), Reply::Posted) => true,
            (Action::CheckWindow(_), Reply::WindowChecked(_)) => true,
            (Action::Capture(_), Reply::Captured(None)) => true,
            (Action::Capture(_), Reply::Captured(Some(frame))) => {
                frame.width > 0 && frame.height > 0 && frame.rgba.len() == 4 * (frame.width
                    * frame.height)
            },
            (Action::Publish, Reply::Published) => true,
            _ => false,
        },
{
}

/// A window that was in sight before the launch is never captured or fed with
/// input.
pub proof fn law_embedded_window_is_new(exe_stem: Seq<char>, replies: Seq<Reply>)
    requires
        answers(exe_stem, replies),
        sought(exe_stem, replies),
        after(exe_stem, replies).running(),
    ensures
        replies[0] is Listed,
        !replies[0]->Listed_0.contains(after(exe_stem, replies).target_window),
    decreases replies.len(),
{
    let before = replies.drop_last();
    law_windows_are_listed_before_the_launch(exe_stem, replies);
    if after(exe_stem, before).running() {
        law_embedded_window_is_new(exe_stem, before);
    } else {
        let criteria = after(exe_stem, before).criteria();
        let found = Some(after(exe_stem, replies).target_window);
        let windows = choose|windows: Seq<WindowView>|
            found == #[trigger] criteria.target(windows);
        crate::search::law_target_is_eligible(criteria, windows);
    }
}

/// A program that hands off to another process is found all the same: a new
/// window in sight matches by name if the executable behind it is called like
/// the program, wherever the two lie.
pub proof fn law_same_executable_matches_by_name(
    program: Seq<char>,
    path: Seq<char>,
    replies: Seq<Reply>,
    window: WindowView,
)
    requires
        answers(known_as(program), replies),
        stem_of(program) is Some,
        stem_of(path) == stem_of(program),
        window.exe_stem == stem_of(path),
        window.visible,
        !after(known_as(program), replies).preexisting.contains(window.handle),
    ensures
        after(known_as(program), replies).criteria().matches_name(window),
{
    law_windows_are_listed_before_the_launch(known_as(program), replies);
}

/// The search is given up only when the time is up and the last look found
/// nothing; a window that is found counts however late.
pub proof fn law_gives_up_only_when_time_is_up(exe_stem: Seq<char>, replies: Seq<Reply>)
    requires
        answers(exe_stem, replies),
        after(exe_stem, replies).phase == Phase::Stopped(Ending::NeverFound),
    ensures
        replies.len() >= 2,
        replies.last() matches Reply::ClockRead(elapsed) && elapsed >= FIND_WINDOW_TIMEOUT_NANOS,
        replies[replies.len() - 2] == Reply::Searched(None),
        forall|i: int|
            0 <= i < replies.len() ==> ((#[trigger] replies[i]) matches Reply::Searched(found)
                ==> found is None),
{
    let before = replies.drop_last();
    assert(before.last() == Reply::Searched(None));
    law_target_is_what_was_found(exe_stem, replies);
}

/// A compositor that is running stops exactly when its window is found gone.
pub proof fn law_runs_until_the_window_is_gone(exe_stem: Seq<char>, replies: Seq<Reply>)
    requires
        answers(exe_stem, replies),
        replies.len() > 0,
    ensures
        after(exe_stem, replies).phase == Phase::Stopped(Ending::WindowGone) <==> replies.last()
            == Reply::WindowChecked(false),
{
}

/// A compositor that has stopped takes nothing more.
pub proof fn law_stopping_is_final(compositor: CompositorView, reply: Reply)
    requires
        compositor.phase is Stopped,
    ensures
        !compositor.accepts(reply),
{
}

/// A frame is taken only of a window that was just found to exist, and that is
/// looked at only when all input was taken from the queue.
pub proof fn law_input_comes_before_each_frame(exe_stem: Seq<char>, replies: Seq<Reply>)
    requires
        answers(exe_stem, replies),
        replies.len() > 0,
        replies.last() is Captured,
    ensures
        replies.len() > 2,
        replies[replies.len() - 2] == Reply::WindowChecked(true),
        replies[replies.len() - 3] == Reply::InputPolled(None),
{
    let before = replies.drop_last();
    assert(answers(exe_stem, before));
    assert(before.last() == Reply::WindowChecked(true));
    assert(after(exe_stem, before.drop_last()).phase is Checking);
    assert(before.drop_last().last() == Reply::InputPolled(None));
}

/// Every key press is forwarded, once, in the order of the queue, to the window
/// that was in focus when its turn came, or else to the program's window; and
/// nothing else is ever posted. What is not posted yet is still to be posted.
pub proof fn law_keys_are_forwarded_in_order(exe_stem: Seq<char>, replies: Seq<Reply>)
    requires
        answers(exe_stem, replies),
    ensures
        messages(exe_stem, replies) + after(exe_stem, replies).outbox == forwarded(
            after(exe_stem, replies).target_window,
            keys(replies),
            focuses(replies),
        ),
        match after(exe_stem, replies).phase {
            Phase::Focusing(key) => keys(replies).len() == focuses(replies).len() + 1
                && keys(replies).last() == key,
            _ => keys(replies).len() == focuses(replies).len(),
        },
        !after(exe_stem, replies).running() ==> keys(replies).len() == 0,
        !(after(exe_stem, replies).phase is Posting) ==> messages(exe_stem, replies) == forwarded(
            after(exe_stem, replies).target_window,
            keys(replies),
            focuses(replies),
        ),
    decreases replies.len(),
{
    law_compositor_stays_well_formed(exe_stem, replies);
    if !(after(exe_stem, replies).phase is Posting) {
        assert(messages(exe_stem, replies) + after(exe_stem, replies).outbox =~= messages(
            exe_stem,
            replies,
        ));
    }
    if replies.len() > 0 {
        let before = replies.drop_last();
        law_keys_are_forwarded_in_order(exe_stem, before);
        law_compositor_stays_well_formed(exe_stem, before);
        let (old, new) = (after(exe_stem, before), after(exe_stem, replies));
        match replies.last() {
            Reply::InputPolled(_) => {
                lemma_forwarded(new.target_window, keys(before), keys(replies), focuses(replies));
            },
            Reply::FocusKnown(focus) => {
                assert(focuses(replies).drop_last() =~= focuses(before));
                assert(messages(exe_stem, replies) + new.outbox =~= messages(exe_stem, before)
                    + old.outbox + new.outbox);
            },
            Reply::Posted => {
                assert(messages(exe_stem, replies) + new.outbox =~= messages(exe_stem, before)
                    + old.outbox);
            },
            Reply::Searched(_) => {
                assert(focuses(replies) =~= seq![]);
            },
            _ => {},
        }
    }
}

proof fn lemma_forwarded(
    target: isize,
    some: Seq<Key>,
    more: Seq<Key>,
    focuses: Seq<Option<isize>>,
)
    requires
        focuses.len() <= some.len() <= more.len(),
        forall|i: int| 0 <= i < some.len() ==> some[i] == more[i],
    ensures
        forwarded(target, some, focuses) == forwarded(target, more, focuses),
    decreases focuses.len(),
{
    if focuses.len() > 0 {
        lemma_forwarded(target, some, more, focuses.drop_last());
    }
}

/// Between two frames the shared image is the newest frame that was taken: a
/// capture that fails leaves the last one in place. It is always a whole frame.
pub proof fn law_shared_image_is_the_newest_frame(exe_stem: Seq<char>, replies: Seq<Reply>)
    requires
        answers(exe_stem, replies),
    ensures
        after(exe_stem, replies).phase is Publishing ==> after(exe_stem, replies).frame
            == newest_frame(replies),
        !(after(exe_stem, replies).phase is Publishing) ==> shared_image(exe_stem, replies)
            == newest_frame(replies),
        newest_frame(replies) matches Some(frame) ==> frame.wf(),
        shared_image(exe_stem, replies) matches Some(frame) ==> frame.wf(),
    decreases replies.len(),
{
    if replies.len() > 0 {
        law_compositor_stays_well_formed(exe_stem, replies.drop_last());
        law_shared_image_is_the_newest_frame(exe_stem, replies.drop_last());
    }
}

} // verus!
