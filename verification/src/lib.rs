//! The decisions of a tiling window manager's hidden message window.
//!
//! The window exists only to own a message queue. The system sends it shell
//! notifications, a system-wide hook reports windows that become hidden or
//! shown again, and a blocking loop hands every message to the layout engine.
//! This crate holds what that machinery decides, as functions from plain values
//! to plain values: which step of the construction comes next and how it may
//! fail, which hook reports become queued notifications, where a dispatched
//! message goes, when the loop ends and what is released afterwards. The calls
//! into the system itself are left to the caller, who performs what these
//! functions ask for and hands back what the system answered.

pub mod appwindow;
pub mod bridge;
pub mod codes;
pub mod dispatch;
pub mod message;
pub mod win32;
