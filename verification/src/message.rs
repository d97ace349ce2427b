//! Handles and messages, as plain values.

use vstd::prelude::*;

verus! {

/// A native window handle: an opaque, comparable value in which zero names no
/// window.
#[derive(Clone, Copy, Debug, PartialEq, Eq, Structural)]
pub struct WindowHandle(pub isize);

impl WindowHandle {
    /// Whether this is the sentinel that names no window.
    pub open spec fn null(self) -> bool {
        self.0 == 0
    }

    /// Tells the sentinel from a real handle.
    pub fn is_null(&self) -> (r: bool)
        ensures
            r == self.null(),
    {
        self.0 == 0
    }
}

/// The handle of the running program's own module, which window classes and
/// windows are registered under.
#[derive(Clone, Copy, Debug, PartialEq, Eq, Structural)]
pub struct InstanceHandle(pub isize);

/// The handle of an installed event hook.
#[derive(Clone, Copy, Debug, PartialEq, Eq, Structural)]
pub struct HookHandle(pub isize);

/// One message as the window procedure receives it: the window it is for, its
/// code and its two parameters.
#[derive(Clone, Copy, Debug, PartialEq, Eq, Structural)]
pub struct Message {
    pub hwnd: WindowHandle,
    pub code: u32,
    pub wparam: usize,
    pub lparam: isize,
}

} // verus!
