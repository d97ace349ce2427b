use grout_wm::bridge::{wnd_event_proc, HookScope, NotificationKind, PendingNotification};
use grout_wm::codes::{WM_CLOAKED, WM_UNCLOAKED};
use grout_wm::message::{Message, WindowHandle};
use windows::Win32::UI::WindowsAndMessaging::{
    CHILDID_SELF, EVENT_OBJECT_CLOAKED, EVENT_OBJECT_CREATE, EVENT_OBJECT_HIDE,
    EVENT_OBJECT_UNCLOAKED, OBJID_CARET, OBJID_CLIENT, OBJID_CURSOR, OBJID_WINDOW,
    WINEVENT_OUTOFCONTEXT, WM_CREATE, WM_DESTROY, WM_USER,
};

const WINDOW: i32 = OBJID_WINDOW.0;
const SELF: i32 = CHILDID_SELF as i32;

#[test]
fn uncloak_of_a_window_posts_one_uncloaked_notification() {
    let posted = wnd_event_proc(EVENT_OBJECT_UNCLOAKED, WindowHandle(0x1234), WINDOW, SELF);
    assert_eq!(
        posted,
        Some(PendingNotification { kind: NotificationKind::Uncloaked, hwnd: WindowHandle(0x1234) })
    );
}

#[test]
fn cloak_of_a_window_posts_one_cloaked_notification() {
    let posted = wnd_event_proc(EVENT_OBJECT_CLOAKED, WindowHandle(0x1234), WINDOW, SELF);
    assert_eq!(
        posted,
        Some(PendingNotification { kind: NotificationKind::Cloaked, hwnd: WindowHandle(0x1234) })
    );
}

#[test]
fn the_handle_is_carried_unchanged() {
    for raw in [1isize, -1, 0x1234, isize::MAX, isize::MIN] {
        for event in [EVENT_OBJECT_CLOAKED, EVENT_OBJECT_UNCLOAKED] {
            let posted = wnd_event_proc(event, WindowHandle(raw), WINDOW, SELF);
            assert_eq!(posted.map(|n| n.hwnd), Some(WindowHandle(raw)));
        }
    }
}

#[test]
fn a_report_about_the_cursor_posts_nothing() {
    let posted = wnd_event_proc(EVENT_OBJECT_UNCLOAKED, WindowHandle(0x1234), OBJID_CURSOR.0, SELF);
    assert_eq!(posted, None);
}

#[test]
fn a_report_about_another_object_posts_nothing_whatever_the_event() {
    for object in [OBJID_CURSOR.0, OBJID_CARET.0, OBJID_CLIENT.0, 1, -1, i32::MIN, i32::MAX] {
        for event in [EVENT_OBJECT_CLOAKED, EVENT_OBJECT_UNCLOAKED, EVENT_OBJECT_HIDE, 0, u32::MAX] {
            assert_eq!(wnd_event_proc(event, WindowHandle(0x1234), object, SELF), None);
        }
    }
}

#[test]
fn a_report_about_a_child_posts_nothing_whatever_the_event() {
    for child in [1, 2, -1, i32::MIN, i32::MAX] {
        for event in [EVENT_OBJECT_CLOAKED, EVENT_OBJECT_UNCLOAKED, EVENT_OBJECT_HIDE, 0, u32::MAX] {
            assert_eq!(wnd_event_proc(event, WindowHandle(0x1234), WINDOW, child), None);
        }
    }
}

#[test]
fn a_report_without_a_handle_posts_nothing_whatever_the_event() {
    for event in [EVENT_OBJECT_CLOAKED, EVENT_OBJECT_UNCLOAKED, EVENT_OBJECT_HIDE, 0, u32::MAX] {
        assert_eq!(wnd_event_proc(event, WindowHandle(0), WINDOW, SELF), None);
    }
}

#[test]
fn an_event_out_of_scope_posts_nothing() {
    for event in [EVENT_OBJECT_CREATE, EVENT_OBJECT_HIDE, 0x8016, 0x8019, 0, u32::MAX] {
        assert_eq!(wnd_event_proc(event, WindowHandle(0x1234), WINDOW, SELF), None);
    }
}

#[test]
fn a_notification_is_posted_with_its_code_and_the_handle_as_payload() {
    let target = WindowHandle(0x77);
    let shown = PendingNotification { kind: NotificationKind::Uncloaked, hwnd: WindowHandle(0x1234) };
    assert_eq!(
        shown.message(target),
        Message { hwnd: target, code: WM_UNCLOAKED, wparam: 0, lparam: 0x1234 }
    );
    let hidden = PendingNotification { kind: NotificationKind::Cloaked, hwnd: WindowHandle(-5) };
    assert_eq!(
        hidden.message(target),
        Message { hwnd: target, code: WM_CLOAKED, wparam: 0, lparam: -5 }
    );
}

#[test]
fn the_notification_codes_are_distinct_and_in_the_application_range() {
    assert_eq!(WM_CLOAKED, WM_USER + 1);
    assert_eq!(WM_UNCLOAKED, WM_USER + 2);
    assert_ne!(WM_CLOAKED, WM_UNCLOAKED);
    for code in [WM_CLOAKED, WM_UNCLOAKED] {
        assert!(code >= WM_USER && code < 0x8000);
        assert_ne!(code, WM_CREATE);
        assert_ne!(code, WM_DESTROY);
    }
}

#[test]
fn the_hook_scope_is_the_two_visibility_events_out_of_context() {
    let scope = HookScope::visibility();
    assert_eq!(scope.event_min, EVENT_OBJECT_CLOAKED);
    assert_eq!(scope.event_max, EVENT_OBJECT_UNCLOAKED);
    assert_eq!(scope.flags, WINEVENT_OUTOFCONTEXT);
    assert_eq!(scope, HookScope { event_min: 0x8017, event_max: 0x8018, flags: 0 });
}

#[test]
fn every_event_in_scope_about_a_window_is_posted() {
    let scope = HookScope::visibility();
    let mut posted = 0;
    for event in scope.event_min..=scope.event_max {
        if wnd_event_proc(event, WindowHandle(9), WINDOW, SELF).is_some() {
            posted += 1;
        }
    }
    assert_eq!(posted, 2);
}

#[test]
fn a_rapid_pair_is_posted_in_the_order_of_the_reports() {
    let target = WindowHandle(0x77);
    let mut queue: Vec<Message> = Vec::new();
    for event in [EVENT_OBJECT_CLOAKED, EVENT_OBJECT_UNCLOAKED, EVENT_OBJECT_CLOAKED] {
        if let Some(n) = wnd_event_proc(event, WindowHandle(0x1234), WINDOW, SELF) {
            queue.push(n.message(target));
        }
    }
    let codes: Vec<u32> = queue.iter().map(|m| m.code).collect();
    assert_eq!(codes, vec![WM_CLOAKED, WM_UNCLOAKED, WM_CLOAKED]);
}
