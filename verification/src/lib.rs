//! Embedding an ordinary Windows program in an applet.
//!
//! Windows has no nested display server, so the program runs as a normal
//! process. Its top-level window is found among those on the desktop, captured
//! into a shared image frame after frame, and sent key presses as posted window
//! messages.
//!
//! Everything here is decided from plain values. A window is its handle as an
//! `isize`; whatever only the desktop can answer arrives as an argument, and
//! whatever only the desktop can do leaves as an action to perform.
//!
//! - [`names`]: what an executable is called
//! - [`search`]: which window belongs to the launched program
//! - [`input`]: which messages forward a key press, and to which window
//! - [`capture`]: how one frame of a window is taken
//! - [`compositor`]: the life of an embedded program, from launch to exit
//! - [`applet`]: what the applet shows and forwards

pub mod applet;
pub mod capture;
pub mod compositor;
pub mod input;
pub mod names;
pub mod search;
