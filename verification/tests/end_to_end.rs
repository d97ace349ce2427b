use grout_wm::appwindow::{AppWindow, ConstructionError, PumpStep, Request, Response, Teardown};
use grout_wm::bridge::{wnd_event_proc, HookScope};
use grout_wm::codes::{WM_CLOAKED, WM_UNCLOAKED};
use grout_wm::dispatch::{wnd_proc, Binding, Disposition, EngineRef};
use grout_wm::message::{HookHandle, InstanceHandle, Message, WindowHandle};
use windows::Win32::UI::WindowsAndMessaging::{
    CHILDID_SELF, EVENT_OBJECT_UNCLOAKED, OBJID_CURSOR, OBJID_WINDOW, WM_CREATE, WM_DESTROY,
    WM_SIZE,
};

const ENGINE: EngineRef = EngineRef(0x5000);
const WINDOW: WindowHandle = WindowHandle(0x1F0A2);
const SHELL_CODE: u32 = 0xC02F;

/// The engine of these tests: it records what it is told and answers each
/// message with its code.
struct Engine {
    target: Option<WindowHandle>,
    shell_code: Option<u32>,
    handled: Vec<Message>,
}

/// The system of these tests: it answers the requests of a construction,
/// keeps the window's association slot and its message queue, and counts what
/// it was asked to do.
struct System {
    class_atom: u16,
    shell_hook: bool,
    slot: Binding,
    published: Option<WindowHandle>,
    queue: Vec<Message>,
    quit_posted: bool,
    windows: Vec<WindowHandle>,
    shell_hooks: Vec<WindowHandle>,
    hooks: Vec<(HookHandle, HookScope)>,
    defaults: Vec<Message>,
    deregistered: Vec<WindowHandle>,
    unhooked: Vec<HookHandle>,
}

fn system(class_atom: u16, shell_hook: bool) -> System {
    System {
        class_atom,
        shell_hook,
        slot: Binding::unbound(),
        published: None,
        queue: Vec::new(),
        quit_posted: false,
        windows: Vec::new(),
        shell_hooks: Vec::new(),
        hooks: Vec::new(),
        defaults: Vec::new(),
        deregistered: Vec::new(),
        unhooked: Vec::new(),
    }
}

fn engine() -> Engine {
    Engine { target: None, shell_code: None, handled: Vec::new() }
}

/// Dispatches one message to the window procedure and carries out what it
/// decides.
fn dispatch(system: &mut System, engine: &mut Engine, message: Message, param: EngineRef) -> isize {
    let d = wnd_proc(system.slot, message.hwnd, message.code, message.wparam, message.lparam);
    let produced = match d {
        Disposition::Quit => {
            system.quit_posted = true;
            0
        }
        Disposition::Bind { message } => {
            system.slot = system.slot.bind(param);
            system.defaults.push(message);
            0
        }
        Disposition::Forward { engine: to, message } => {
            assert_eq!(to, ENGINE);
            engine.handled.push(message);
            message.code as isize
        }
        Disposition::Default { message } => {
            system.defaults.push(message);
            0
        }
    };
    d.reply(produced)
}

/// Carries out the requests of a construction until none is pending.
fn construct(system: &mut System, engine: &mut Engine) -> AppWindow {
    let mut window = AppWindow::new(ENGINE);
    while let Some(request) = window.pending() {
        let response = match request {
            Request::ResolveInstance => Response::Instance(Some(InstanceHandle(0x400000))),
            Request::RegisterClass { .. } => Response::ClassAtom(system.class_atom),
            Request::CreateWindow { param, .. } => {
                system.windows.push(WINDOW);
                let created = Message { hwnd: WINDOW, code: WM_CREATE, wparam: 0, lparam: 0x7000 };
                dispatch(system, engine, created, param);
                Response::Window(WINDOW)
            }
            Request::PublishHandle { hwnd } => {
                system.published = Some(hwnd);
                Response::Done
            }
            Request::ShowWindow { .. } => Response::Done,
            Request::BindTarget { hwnd } => {
                engine.target = Some(hwnd);
                Response::Done
            }
            Request::RegisterShellHook { hwnd } => {
                if system.shell_hook {
                    system.shell_hooks.push(hwnd);
                }
                Response::ShellHook(system.shell_hook)
            }
            Request::RegisterShellHookMessage => Response::MessageCode(SHELL_CODE),
            Request::SetNotificationCode { code } => {
                engine.shell_code = Some(code);
                Response::Done
            }
            Request::InstallHook { scope } => {
                system.hooks.push((HookHandle(0x2B), scope));
                Response::Hook(HookHandle(0x2B))
            }
            Request::DestroyWindow { hwnd } => {
                system.windows.retain(|w| *w != hwnd);
                Response::Done
            }
        };
        assert!(window.advance(response));
    }
    window
}

/// Runs the message loop until it ends, and says how often it dispatched.
fn run(window: &mut AppWindow, system: &mut System, engine: &mut Engine) -> usize {
    let mut dispatched = 0;
    loop {
        let next = if system.quit_posted || system.queue.is_empty() {
            None
        } else {
            Some(system.queue.remove(0))
        };
        let retrieved = if next.is_some() { 1 } else { 0 };
        match window.handle_messages(retrieved) {
            PumpStep::Dispatch => {
                dispatch(system, engine, next.unwrap(), EngineRef(0));
                dispatched += 1;
            }
            PumpStep::Finished => return dispatched,
            PumpStep::Failed => panic!("the queue of these tests does not fail"),
        }
    }
}

#[test]
fn registration_binds_the_engine_and_shell_messages_reach_it() {
    let mut system = system(0xC1A5, true);
    let mut engine = engine();
    let mut window = construct(&mut system, &mut engine);

    assert!(window.is_running());
    assert_eq!(window.hwnd(), Some(WINDOW));
    assert_eq!(window.shell_hook_id(), Some(SHELL_CODE));
    assert_eq!(system.windows, vec![WINDOW]);
    assert_eq!(system.shell_hooks, vec![WINDOW]);
    assert_eq!(system.hooks, vec![(HookHandle(0x2B), HookScope::visibility())]);
    assert_eq!(system.published, Some(WINDOW));
    assert_eq!(system.slot, Binding { slot: ENGINE.0 });
    assert_eq!(engine.target, Some(WINDOW));
    assert_eq!(engine.shell_code, Some(SHELL_CODE));
    assert!(engine.handled.is_empty());

    let shell = Message { hwnd: WINDOW, code: SHELL_CODE, wparam: 4, lparam: 0x9999 };
    system.queue.push(shell);
    system.queue.push(Message { hwnd: WINDOW, code: WM_DESTROY, wparam: 0, lparam: 0 });
    assert_eq!(run(&mut window, &mut system, &mut engine), 2);
    assert_eq!(engine.handled, vec![shell]);
    assert_eq!(engine.handled[0].code, engine.shell_code.unwrap());
}

#[test]
fn an_uncloaked_window_reaches_the_engine_through_the_queue() {
    let mut system = system(0xC1A5, true);
    let mut engine = engine();
    let mut window = construct(&mut system, &mut engine);

    let posted = wnd_event_proc(
        EVENT_OBJECT_UNCLOAKED,
        WindowHandle(0x1234),
        OBJID_WINDOW.0,
        CHILDID_SELF as i32,
    );
    let notification = posted.unwrap();
    system.queue.push(notification.message(system.published.unwrap()));
    assert_eq!(system.queue.len(), 1);
    system.queue.push(Message { hwnd: WINDOW, code: WM_DESTROY, wparam: 0, lparam: 0 });

    run(&mut window, &mut system, &mut engine);
    assert_eq!(
        engine.handled,
        vec![Message { hwnd: WINDOW, code: WM_UNCLOAKED, wparam: 0, lparam: 0x1234 }]
    );
    assert_ne!(engine.handled[0].code, WM_CLOAKED);
}

#[test]
fn an_uncloaked_cursor_reaches_nobody() {
    let mut system = system(0xC1A5, true);
    let mut engine = engine();
    let mut window = construct(&mut system, &mut engine);

    let posted = wnd_event_proc(
        EVENT_OBJECT_UNCLOAKED,
        WindowHandle(0x1234),
        OBJID_CURSOR.0,
        CHILDID_SELF as i32,
    );
    assert_eq!(posted, None);
    if let Some(notification) = posted {
        system.queue.push(notification.message(system.published.unwrap()));
    }
    assert!(system.queue.is_empty());
    assert_eq!(run(&mut window, &mut system, &mut engine), 0);
    assert!(engine.handled.is_empty());
}

#[test]
fn destruction_ends_the_loop_and_the_hooks_are_released_once() {
    let mut system = system(0xC1A5, true);
    let mut engine = engine();
    let mut window = construct(&mut system, &mut engine);

    system.queue.push(Message { hwnd: WINDOW, code: WM_SIZE, wparam: 0, lparam: 0 });
    system.queue.push(Message { hwnd: WINDOW, code: WM_DESTROY, wparam: 0, lparam: 0 });
    system.queue.push(Message { hwnd: WINDOW, code: WM_SIZE, wparam: 1, lparam: 1 });

    assert_eq!(window.cleanup(), None);
    assert_eq!(run(&mut window, &mut system, &mut engine), 2);
    assert!(system.quit_posted);
    assert!(!window.is_running());
    assert_eq!(engine.handled.len(), 1);
    assert_eq!(system.queue.len(), 1);

    for _ in 0..3 {
        if let Some(Teardown { hwnd, hook }) = window.cleanup() {
            system.deregistered.push(hwnd);
            system.unhooked.push(hook);
        }
    }
    assert_eq!(system.deregistered, vec![WINDOW]);
    assert_eq!(system.unhooked, vec![HookHandle(0x2B)]);
}

#[test]
fn a_refused_class_leaves_no_window_and_no_hook() {
    let mut system = system(0, true);
    let mut engine = engine();
    let mut window = construct(&mut system, &mut engine);

    assert_eq!(window.error(), Some(ConstructionError::ClassRegistrationFailed));
    assert_eq!(window.error().unwrap().message(), "Could not register class");
    assert!(system.windows.is_empty());
    assert!(system.shell_hooks.is_empty());
    assert!(system.hooks.is_empty());
    assert_eq!(system.published, None);
    assert_eq!(system.slot, Binding::unbound());
    assert_eq!(engine.target, None);
    assert_eq!(engine.shell_code, None);
    assert_eq!(window.hwnd(), None);
    assert_eq!(window.wineventhook(), None);
    assert_eq!(run(&mut window, &mut system, &mut engine), 0);
    assert_eq!(window.cleanup(), None);
}

#[test]
fn a_refused_shell_hook_leaves_no_window_and_no_hook() {
    let mut system = system(0xC1A5, false);
    let mut engine = engine();
    let window = construct(&mut system, &mut engine);

    assert_eq!(window.error(), Some(ConstructionError::ShellHookRegistrationFailed));
    assert!(system.windows.is_empty());
    assert!(system.shell_hooks.is_empty());
    assert!(system.hooks.is_empty());
    assert_eq!(engine.shell_code, None);
    assert_eq!(window.hwnd(), None);
}
