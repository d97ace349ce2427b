//! What the thin layer over the system's window functions computes.
//!
//! Each function here is the part of a query that is not the query itself: it
//! takes what the system returned, as plain values, and gives what the rest of
//! the program works with.

use vstd::prelude::*;
use vstd::slice::slice_subrange;
use crate::codes::{
    cloaked_by_app, cloaked_by_owner, cloaked_by_shell, dwm_cloaked_app, dwm_cloaked_inherited,
    dwm_cloaked_shell,
};
use crate::message::WindowHandle;

verus! {

/// A rectangle in screen coordinates, by its edges.
#[derive(Clone, Copy, Debug, PartialEq, Eq, Structural)]
pub struct Rect {
    pub left: i32,
    pub top: i32,
    pub right: i32,
    pub bottom: i32,
}

/// The text that `String::from_utf16_lossy` decodes from a run of UTF-16 code
/// units: the characters that the units encode, with U+FFFD in the place of
/// each unit that is not part of a valid encoding.
pub uninterp spec fn utf16_lossy(units: Seq<u16>) -> Seq<char>;

/// `String::from_utf16_lossy` of the standard library. Believed: the text it
/// returns depends on the code units alone.
#[verifier::external_body]
fn from_utf16_lossy(units: &[u16]) -> (text: String)
    ensures
        text@ == utf16_lossy(units@),
{
    String::from_utf16_lossy(units)
}

impl Rect {
    /// The distance from the left edge to the right edge.
    pub open spec fn width(self) -> int {
        self.right - self.left
    }

    /// The distance from the top edge to the bottom edge.
    pub open spec fn height(self) -> int {
        self.bottom - self.top
    }

    /// Whether width and height can be held in an `i32` each.
    pub open spec fn measurable(self) -> bool {
        &&& i32::MIN <= self.width() <= i32::MAX
        &&& i32::MIN <= self.height() <= i32::MAX
    }

    /// Tells whether width and height can be held in an `i32` each.
    pub fn is_measurable(&self) -> (r: bool)
        ensures
            r == self.measurable(),
    {
        let width: i64 = self.right as i64 - self.left as i64;
        let height: i64 = self.bottom as i64 - self.top as i64;
        -0x8000_0000 <= width && width <= 0x7fff_ffff && -0x8000_0000 <= height && height
            <= 0x7fff_ffff
    }
}

/// Whether a window is cloaked, from the outcome of the query for its cloak
/// attribute: `Some` with the attribute's value, or `None` where the query
/// failed.
///
/// A window is cloaked when the attribute names one of the three reasons, and
/// only then: a failed query, zero, and any other value mean that it is not.
pub fn is_cloaked(attribute: Option<u32>) -> (cloaked: bool)
    ensures
        cloaked <==> (attribute matches Some(reason) && (reason == cloaked_by_app() || reason
            == cloaked_by_shell() || reason == cloaked_by_owner())),
{
    match attribute {
        Some(reason) => reason == dwm_cloaked_app() || reason == dwm_cloaked_shell() || reason
            == dwm_cloaked_inherited(),
        None => false,
    }
}

/// The style bits in a value read from a window's long-value slots: the value
/// itself where it fits in 32 bits without a sign, else zero.
pub open spec fn style_bits(value: isize) -> u32 {
    if 0 <= value <= u32::MAX {
        value as u32
    } else {
        0
    }
}

/// The style of a window, from the value that its style slot holds.
pub fn get_window_style(value: isize) -> (style: u32)
    ensures
        style == style_bits(value),
{
    match u32::try_from(value) {
        Ok(style) => style,
        Err(_) => 0,
    }
}

/// The extended style of a window, from the value that its extended style
/// slot holds.
pub fn get_window_exstyle(value: isize) -> (style: u32)
    ensures
        style == style_bits(value),
{
    get_window_style(value)
}

/// The area of the screen that windows may be laid out in, as left edge, top
/// edge, width and height.
///
/// Where a task bar exists and is visible (`tray` is its window), the area is
/// the work area that the system reports, `work_area`; if that query failed
/// (`None`), finding the area fails, with an empty message. Without a visible
/// task bar the area is the whole virtual screen, `screen`, which is handed
/// back as it is.
pub fn get_working_area(
    tray: WindowHandle,
    tray_visible: bool,
    work_area: Option<Rect>,
    screen: (i32, i32, i32, i32),
) -> (area: Result<(i32, i32, i32, i32), &'static str>)
    requires
        !tray.null() && tray_visible ==> (work_area matches Some(rect) ==> rect.measurable()),
    ensures
        !tray.null() && tray_visible ==> (match work_area {
            Some(rect) => (area matches Ok(a) && a == (
                rect.left,
                rect.top,
                rect.width() as i32,
                rect.height() as i32,
            )),
            None => (area matches Err(e) && e@ == ""@),
        }),
        tray.null() || !tray_visible ==> (area matches Ok(a) && a == screen),
{
    if !tray.is_null() && tray_visible {
        match work_area {
            Some(rect) => Ok((rect.left, rect.top, rect.right - rect.left, rect.bottom - rect.top)),
            None => Err(""),
        }
    } else {
        Ok(screen)
    }
}

/// The text that the system wrote into `buf`, of which it reported `len` code
/// units: those units, decoded.
pub fn get_window_text(buf: &[u16], len: i32) -> (text: String)
    requires
        0 <= len <= buf@.len(),
    ensures
        text@ == utf16_lossy(buf@.subrange(0, len as int)),
{
    from_utf16_lossy(slice_subrange(buf, 0, len as usize))
}

/// The class name that the system wrote into `buf`, of which it reported
/// `len` code units: those units, decoded.
pub fn get_window_classname(buf: &[u16], len: i32) -> (name: String)
    requires
        0 <= len <= buf@.len(),
    ensures
        name@ == utf16_lossy(buf@.subrange(0, len as int)),
{
    get_window_text(buf, len)
}

} // verus!
