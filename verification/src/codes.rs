//! The numbers that the system and this library exchange.
//!
//! The system's own codes are read from the `windows` crate when the library
//! runs. Verus cannot look into that crate, so each read stands in a small
//! function whose contract states the value; those contracts are believed, not
//! proved. The contracts elsewhere speak of the spec functions beside them.

use vstd::prelude::*;
use windows::Win32::Graphics::Dwm::{DWM_CLOAKED_APP, DWM_CLOAKED_INHERITED, DWM_CLOAKED_SHELL};
use windows::Win32::UI::WindowsAndMessaging::{
    CHILDID_SELF, EVENT_OBJECT_CLOAKED, EVENT_OBJECT_UNCLOAKED, OBJID_WINDOW, SW_SHOWMINNOACTIVE,
    WINEVENT_OUTOFCONTEXT, WM_CREATE, WM_DESTROY,
};

verus! {

/// The message that tells the engine that a window has become hidden without
/// being closed. Its `lparam` is the handle of that window.
pub const WM_CLOAKED: u32 = 0x0401;

/// The message that tells the engine that a hidden window is shown again. Its
/// `lparam` is the handle of that window.
pub const WM_UNCLOAKED: u32 = 0x0402;

/// The code of the message that a window receives while it is being created.
pub open spec fn create_code() -> u32 {
    0x0001
}

/// The code of the message that a window receives when it is destroyed.
pub open spec fn destroy_code() -> u32 {
    0x0002
}

/// The hook event "a window has become hidden without being closed".
pub open spec fn cloaked_event() -> u32 {
    0x8017
}

/// The hook event "a hidden window is shown again".
pub open spec fn uncloaked_event() -> u32 {
    0x8018
}

/// The object identifier with which a hook event speaks of a window as a
/// whole, not of a part of it such as its caret or a scroll bar.
pub open spec fn window_object() -> i32 {
    0
}

/// The child identifier with which a hook event speaks of the object itself,
/// not of one of its children.
pub open spec fn self_child() -> u32 {
    0
}

/// The hook flag that asks for delivery outside the context of the process
/// that raised the event.
pub open spec fn out_of_context() -> u32 {
    0
}

/// The show command "minimized, and without activating the window".
pub open spec fn minimized_not_active() -> u32 {
    7
}

/// Cloak reason: the application itself hid the window.
pub open spec fn cloaked_by_app() -> u32 {
    1
}

/// Cloak reason: the shell hid the window.
pub open spec fn cloaked_by_shell() -> u32 {
    2
}

/// Cloak reason: the window inherits the state from its owner.
pub open spec fn cloaked_by_owner() -> u32 {
    4
}

/// The constant `WM_CREATE` of `windows::Win32::UI::WindowsAndMessaging`.
/// Believed: its value is 1.
#[verifier::external_body]
pub(crate) fn wm_create() -> (code: u32)
    ensures
        code == create_code(),
{
    WM_CREATE
}

/// The constant `WM_DESTROY` of `windows::Win32::UI::WindowsAndMessaging`.
/// Believed: its value is 2.
#[verifier::external_body]
pub(crate) fn wm_destroy() -> (code: u32)
    ensures
        code == destroy_code(),
{
    WM_DESTROY
}

/// The constant `EVENT_OBJECT_CLOAKED` of
/// `windows::Win32::UI::WindowsAndMessaging`. Believed: its value is 0x8017.
#[verifier::external_body]
pub(crate) fn event_object_cloaked() -> (event: u32)
    ensures
        event == cloaked_event(),
{
    EVENT_OBJECT_CLOAKED
}

/// The constant `EVENT_OBJECT_UNCLOAKED` of
/// `windows::Win32::UI::WindowsAndMessaging`. Believed: its value is 0x8018.
#[verifier::external_body]
pub(crate) fn event_object_uncloaked() -> (event: u32)
    ensures
        event == uncloaked_event(),
{
    EVENT_OBJECT_UNCLOAKED
}

/// The constant `OBJID_WINDOW` of `windows::Win32::UI::WindowsAndMessaging`,
/// taken out of its wrapper type. Believed: its value is 0.
#[verifier::external_body]
pub(crate) fn objid_window() -> (id: i32)
    ensures
        id == window_object(),
{
    OBJID_WINDOW.0
}

/// The constant `CHILDID_SELF` of `windows::Win32::UI::WindowsAndMessaging`.
/// Believed: its value is 0.
#[verifier::external_body]
pub(crate) fn childid_self() -> (id: u32)
    ensures
        id == self_child(),
{
    CHILDID_SELF
}

/// The constant `WINEVENT_OUTOFCONTEXT` of
/// `windows::Win32::UI::WindowsAndMessaging`. Believed: its value is 0.
#[verifier::external_body]
pub(crate) fn winevent_outofcontext() -> (flags: u32)
    ensures
        flags == out_of_context(),
{
    WINEVENT_OUTOFCONTEXT
}

/// The constant `SW_SHOWMINNOACTIVE` of
/// `windows::Win32::UI::WindowsAndMessaging`, taken out of its wrapper type.
/// Believed: its value is 7.
#[verifier::external_body]
pub(crate) fn sw_showminnoactive() -> (command: u32)
    ensures
        command == minimized_not_active(),
{
    SW_SHOWMINNOACTIVE.0
}

/// The constant `DWM_CLOAKED_APP` of `windows::Win32::Graphics::Dwm`.
/// Believed: its value is 1.
#[verifier::external_body]
pub(crate) fn dwm_cloaked_app() -> (reason: u32)
    ensures
        reason == cloaked_by_app(),
{
    DWM_CLOAKED_APP
}

/// The constant `DWM_CLOAKED_SHELL` of `windows::Win32::Graphics::Dwm`.
/// Believed: its value is 2.
#[verifier::external_body]
pub(crate) fn dwm_cloaked_shell() -> (reason: u32)
    ensures
        reason == cloaked_by_shell(),
{
    DWM_CLOAKED_SHELL
}

/// The constant `DWM_CLOAKED_INHERITED` of `windows::Win32::Graphics::Dwm`.
/// Believed: its value is 4.
#[verifier::external_body]
pub(crate) fn dwm_cloaked_inherited() -> (reason: u32)
    ensures
        reason == cloaked_by_owner(),
{
    DWM_CLOAKED_INHERITED
}

} // verus!
