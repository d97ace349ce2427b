//! The event hook bridge: from a report of the system-wide visibility hook to
//! a notification in the message window's queue.
//!
//! The hook reports every object that becomes hidden or shown again: windows,
//! but also carets, scroll bars and the children of controls. Only a report
//! about a window as a whole, with a handle, becomes a notification; anything
//! else is dropped without a trace. The bridge does no more than that. It never
//! talks to the engine: the notification is posted to the queue, and reaches the
//! engine when the message loop gets to it, in the order of the reports.

use vstd::prelude::*;
use crate::codes::{
    childid_self, cloaked_event, event_object_cloaked, event_object_uncloaked, objid_window,
    out_of_context, self_child, uncloaked_event, window_object, winevent_outofcontext,
    WM_CLOAKED, WM_UNCLOAKED,
};
use crate::message::{Message, WindowHandle};

verus! {

/// What happened to the window that a notification speaks of.
#[derive(Clone, Copy, Debug, PartialEq, Eq, Structural)]
pub enum NotificationKind {
    /// A hidden window is shown again.
    Uncloaked,
    /// A window has become hidden without being closed.
    Cloaked,
}

/// A report of the hook that passed the filter, on its way to the queue.
#[derive(Clone, Copy, Debug, PartialEq, Eq, Structural)]
pub struct PendingNotification {
    pub kind: NotificationKind,
    /// The window that was hidden or shown, never the null handle.
    pub hwnd: WindowHandle,
}

/// The range of events that the hook is installed for, and how they are
/// delivered.
#[derive(Clone, Copy, Debug, PartialEq, Eq, Structural)]
pub struct HookScope {
    pub event_min: u32,
    pub event_max: u32,
    pub flags: u32,
}

/// A report passes the filter when it speaks of a window as a whole, of the
/// window itself rather than a child of it, and names the window.
pub open spec fn passes_filter(hwnd: WindowHandle, idobject: i32, idchild: i32) -> bool {
    &&& idobject == window_object()
    &&& idchild == self_child()
    &&& !hwnd.null()
}

impl NotificationKind {
    /// The code of the message that carries a notification of this kind.
    pub open spec fn code(self) -> u32 {
        match self {
            NotificationKind::Uncloaked => WM_UNCLOAKED,
            NotificationKind::Cloaked => WM_CLOAKED,
        }
    }
}

impl HookScope {
    /// Whether the hook reports events of this kind.
    pub open spec fn covers(self, event: u32) -> bool {
        self.event_min <= event <= self.event_max
    }

    /// The scope of the visibility hook: the events from "hidden" to "shown
    /// again", delivered out of context.
    pub open spec fn visibility_spec() -> HookScope {
        HookScope {
            event_min: cloaked_event(),
            event_max: uncloaked_event(),
            flags: out_of_context(),
        }
    }

    /// The scope that the visibility hook is installed with. It covers the two
    /// events that the bridge turns into notifications, and no other.
    pub fn visibility() -> (scope: HookScope)
        ensures
            scope == Self::visibility_spec(),
            forall|event: u32|
                scope.covers(event) <==> event == cloaked_event() || event == uncloaked_event(),
    {
        HookScope {
            event_min: event_object_cloaked(),
            event_max: event_object_uncloaked(),
            flags: winevent_outofcontext(),
        }
    }
}

/// What a report of the hook becomes: a notification of the kind of its event
/// and with its handle, if it passes the filter and its event is one of the
/// two; nothing otherwise.
pub open spec fn notification(
    event: u32,
    hwnd: WindowHandle,
    idobject: i32,
    idchild: i32,
) -> Option<PendingNotification> {
    if !passes_filter(hwnd, idobject, idchild) {
        None
    } else if event == uncloaked_event() {
        Some(PendingNotification { kind: NotificationKind::Uncloaked, hwnd })
    } else if event == cloaked_event() {
        Some(PendingNotification { kind: NotificationKind::Cloaked, hwnd })
    } else {
        None
    }
}

/// Decides what a report of the hook becomes.
///
/// A report that passes the filter becomes exactly one notification, of the
/// kind of its event and with the reported handle unchanged. A report that
/// does not pass becomes nothing, whatever its event, and so does a report of
/// an event that is neither "hidden" nor "shown again".
pub fn wnd_event_proc(
    event: u32,
    hwnd: WindowHandle,
    idobject: i32,
    idchild: i32,
) -> (posted: Option<PendingNotification>)
    ensures
        posted == notification(event, hwnd, idobject, idchild),
        passes_filter(hwnd, idobject, idchild) && event == uncloaked_event() ==> posted == Some(
            PendingNotification { kind: NotificationKind::Uncloaked, hwnd },
        ),
        passes_filter(hwnd, idobject, idchild) && event == cloaked_event() ==> posted == Some(
            PendingNotification { kind: NotificationKind::Cloaked, hwnd },
        ),
        !passes_filter(hwnd, idobject, idchild) ==> posted is None,
        event != uncloaked_event() && event != cloaked_event() ==> posted is None,
{
    if idobject != objid_window() || idchild < 0 || idchild as u32 != childid_self()
        || hwnd.is_null() {
        return None;
    }
    if event == event_object_uncloaked() {
        Some(PendingNotification { kind: NotificationKind::Uncloaked, hwnd })
    } else if event == event_object_cloaked() {
        Some(PendingNotification { kind: NotificationKind::Cloaked, hwnd })
    } else {
        None
    }
}

impl PendingNotification {
    /// The message that brings this notification to the window `target`: the
    /// code of its kind, nothing in `wparam`, and the handle of the window that
    /// was hidden or shown in `lparam`.
    pub open spec fn message_spec(self, target: WindowHandle) -> Message {
        Message { hwnd: target, code: self.kind.code(), wparam: 0, lparam: self.hwnd.0 }
    }

    /// Builds the message that brings this notification to the window
    /// `target`.
    pub fn message(&self, target: WindowHandle) -> (m: Message)
        ensures
            m == self.message_spec(target),
    {
        let code: u32 = match self.kind {
            NotificationKind::Uncloaked => WM_UNCLOAKED,
            NotificationKind::Cloaked => WM_CLOAKED,
        };
        Message { hwnd: target, code, wparam: 0, lparam: self.hwnd.0 }
    }
}

/// One report of the hook, as the bridge receives it.
pub struct Report {
    pub event: u32,
    pub hwnd: WindowHandle,
    pub idobject: i32,
    pub idchild: i32,
}

/// The messages that a run of reports leaves in the queue of the window
/// `target`, in the order in which they were posted.
pub open spec fn posted(target: WindowHandle, reports: Seq<Report>) -> Seq<Message>
    decreases reports.len(),
{
    if reports.len() == 0 {
        Seq::empty()
    } else {
        let last = reports.last();
        let earlier = posted(target, reports.drop_last());
        match notification(last.event, last.hwnd, last.idobject, last.idchild) {
            Some(n) => earlier.push(n.message_spec(target)),
            None => earlier,
        }
    }
}

/// Within the scope that the hook is installed with, nothing that passes the
/// filter is dropped: every such report becomes a notification.
pub proof fn in_scope_nothing_is_dropped(event: u32, hwnd: WindowHandle, idobject: i32, idchild: i32)
    requires
        HookScope::visibility_spec().covers(event),
        passes_filter(hwnd, idobject, idchild),
    ensures
        notification(event, hwnd, idobject, idchild) is Some,
        notification(event, hwnd, idobject, idchild).unwrap().hwnd == hwnd,
{
}

/// One report leaves one message in the queue or none. A report of one of
/// the two events that passes the filter leaves exactly one: the message of
/// its kind, with the reported handle as its payload. Any other report
/// leaves the queue empty.
pub proof fn one_report_posts_at_most_once(target: WindowHandle, report: Report)
    ensures
        passes_filter(report.hwnd, report.idobject, report.idchild) && report.event
            == uncloaked_event() ==> posted(target, seq![report]) == seq![
            Message { hwnd: target, code: WM_UNCLOAKED, wparam: 0, lparam: report.hwnd.0 },
        ],
        passes_filter(report.hwnd, report.idobject, report.idchild) && report.event
            == cloaked_event() ==> posted(target, seq![report]) == seq![
            Message { hwnd: target, code: WM_CLOAKED, wparam: 0, lparam: report.hwnd.0 },
        ],
        !passes_filter(report.hwnd, report.idobject, report.idchild) ==> posted(
            target,
            seq![report],
        ) == Seq::<Message>::empty(),
        report.event != uncloaked_event() && report.event != cloaked_event() ==> posted(
            target,
            seq![report],
        ) == Seq::<Message>::empty(),
{
    let reports = seq![report];
    assert(reports.drop_last() =~= Seq::<Report>::empty());
    assert(reports.last() == report);
    assert(posted(target, reports.drop_last()) =~= Seq::<Message>::empty());
    match notification(report.event, report.hwnd, report.idobject, report.idchild) {
        Some(n) => {
            assert(posted(target, reports) =~= seq![n.message_spec(target)]);
        },
        None => {
            assert(posted(target, reports) =~= Seq::<Message>::empty());
        },
    }
}

/// Reports are posted one by one and in their order. What a run of reports
/// leaves in the queue is what its first part leaves, followed by what the
/// rest leaves: no report changes what another one posts, none is merged with
/// another, and a repeated report is posted again.
pub proof fn reports_are_posted_in_order(target: WindowHandle, first: Seq<Report>, rest: Seq<Report>)
    ensures
        posted(target, first + rest) == posted(target, first) + posted(target, rest),
    decreases rest.len(),
{
    if rest.len() == 0 {
        assert(first + rest =~= first);
        assert(posted(target, first) + posted(target, rest) =~= posted(target, first));
    } else {
        let all = first + rest;
        assert(all.drop_last() =~= first + rest.drop_last());
        assert(all.last() == rest.last());
        reports_are_posted_in_order(target, first, rest.drop_last());
        let last = rest.last();
        match notification(last.event, last.hwnd, last.idobject, last.idchild) {
            Some(n) => {
                assert(posted(target, all) =~= posted(target, first) + posted(target, rest));
            },
            None => {},
        }
    }
}

} // verus!
