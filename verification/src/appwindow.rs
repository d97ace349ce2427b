//! The life of the message window, from its construction to the release of
//! its hooks.
//!
//! [`AppWindow`] is a state machine. While the window is being constructed it
//! names one request at a time, the caller performs it and answers with what
//! the system returned, and the machine moves on or fails. Once the window
//! runs, the machine is told what each retrieval from the message queue
//! returned and decides whether the loop goes on. When the loop has ended it
//! hands out, once, what is to be released.
//!
//! The machine keeps account of what exists on the system's side: the window,
//! its registration as the recipient of shell notifications, and the
//! visibility hook. A construction that fails leaves none of them behind.

use vstd::prelude::*;
use crate::bridge::HookScope;
use crate::codes::{destroy_code, minimized_not_active, sw_showminnoactive};
use crate::dispatch::{
    binding_after_all, disposition, Binding, Delivery, Disposition, EngineRef,
};
use crate::message::{HookHandle, InstanceHandle, WindowHandle};

verus! {

/// Why the construction of the window failed. Each failure ends the
/// construction; nothing is tried again.
#[derive(Clone, Copy, Debug, PartialEq, Eq, Structural)]
pub enum ConstructionError {
    /// The handle of the program's own module could not be resolved.
    InstanceUnavailable,
    /// The system refused to register the window class.
    ClassRegistrationFailed,
    /// The system returned no window.
    WindowCreationFailed,
    /// The system refused to make the window the recipient of shell
    /// notifications.
    ShellHookRegistrationFailed,
}

/// What the caller is asked to do next while the window is constructed.
#[derive(Clone, Copy, Debug, PartialEq, Eq, Structural)]
pub enum Request {
    /// Resolve the handle of the program's own module.
    /// Answered by [`Response::Instance`].
    ResolveInstance,
    /// Register the window class, with the window procedure as its handler.
    /// Answered by [`Response::ClassAtom`].
    RegisterClass { instance: InstanceHandle },
    /// Create the one top-level window of that class, with `param` as its
    /// creation parameter. Answered by [`Response::Window`].
    CreateWindow { instance: InstanceHandle, param: EngineRef },
    /// Store the handle where the event hook bridge finds the window to post
    /// to. The place is written once and only read afterwards.
    /// Answered by [`Response::Done`].
    PublishHandle { hwnd: WindowHandle },
    /// Show the window with the given show command.
    /// Answered by [`Response::Done`].
    ShowWindow { hwnd: WindowHandle, command: u32 },
    /// Tell the engine which window is the message window.
    /// Answered by [`Response::Done`].
    BindTarget { hwnd: WindowHandle },
    /// Register the window as the recipient of shell notifications.
    /// Answered by [`Response::ShellHook`].
    RegisterShellHook { hwnd: WindowHandle },
    /// Ask the system for the code under which shell notifications arrive.
    /// Answered by [`Response::MessageCode`].
    RegisterShellHookMessage,
    /// Tell the engine the code under which shell notifications arrive.
    /// Answered by [`Response::Done`].
    SetNotificationCode { code: u32 },
    /// Install the visibility hook for the given scope, with the event hook
    /// bridge as its callback. Answered by [`Response::Hook`].
    InstallHook { scope: HookScope },
    /// Destroy the window again, because a later step failed.
    /// Answered by [`Response::Done`].
    DestroyWindow { hwnd: WindowHandle },
}

/// What the system returned for a request.
#[derive(Clone, Copy, Debug, PartialEq, Eq)]
pub enum Response {
    /// The module handle, or `None` where it could not be resolved.
    Instance(Option<InstanceHandle>),
    /// The atom of the registered class; zero where registration failed.
    ClassAtom(u16),
    /// The handle of the created window; null where creation failed.
    Window(WindowHandle),
    /// Whether the window was registered for shell notifications.
    ShellHook(bool),
    /// The code that the system assigned to shell notifications.
    MessageCode(u32),
    /// The handle of the installed hook.
    Hook(HookHandle),
    /// The request was carried out; it has no result that matters.
    Done,
}

/// Where in its life the window is.
#[derive(Clone, Copy, Debug, PartialEq, Eq, Structural)]
pub enum Stage {
    /// Nothing exists yet; the module handle is being resolved for the
    /// engine `wm`.
    ResolvingInstance { wm: EngineRef },
    /// The window class is being registered.
    RegisteringClass { wm: EngineRef, instance: InstanceHandle },
    /// The window is being created.
    CreatingWindow { wm: EngineRef, instance: InstanceHandle },
    /// The window exists; its handle is being stored for the event hook
    /// bridge.
    PublishingHandle { hwnd: WindowHandle },
    /// The window is being shown, minimized and without activation.
    ShowingWindow { hwnd: WindowHandle },
    /// The engine is being told which window is the message window.
    BindingTarget { hwnd: WindowHandle },
    /// The window is being registered for shell notifications.
    RegisteringShellHook { hwnd: WindowHandle },
    /// The system is being asked for the code of shell notifications.
    NegotiatingCode { hwnd: WindowHandle },
    /// The engine is being told the code of shell notifications.
    AnnouncingCode { hwnd: WindowHandle, code: u32 },
    /// The visibility hook is being installed.
    InstallingHook { hwnd: WindowHandle, code: u32 },
    /// The registration for shell notifications failed after the window was
    /// created; the window is being destroyed before the failure is reported.
    Unwinding { hwnd: WindowHandle },
    /// The construction failed. Nothing of the window is left.
    Failed { error: ConstructionError },
    /// The construction succeeded and the message loop may run.
    Running { hwnd: WindowHandle, code: u32, hook: HookHandle },
    /// The message loop has ended, by the quit signal (`clean`) or by an
    /// error of the queue. The hooks are still in place.
    Stopped { hwnd: WindowHandle, hook: HookHandle, clean: bool },
    /// The hooks have been handed out for release.
    Released { hwnd: WindowHandle },
}

/// What exists on the system's side on account of the window.
#[derive(Clone, Copy, Debug, PartialEq, Eq)]
pub struct Resources {
    /// The window, while it exists.
    pub window: Option<WindowHandle>,
    /// Whether the window is registered for shell notifications.
    pub shell_hook: bool,
    /// The visibility hook, while it is installed.
    pub event_hook: Option<HookHandle>,
}

/// What the message loop does after a retrieval from the queue.
#[derive(Clone, Copy, Debug, PartialEq, Eq, Structural)]
pub enum PumpStep {
    /// A message was retrieved: translate and dispatch it, then retrieve the
    /// next one.
    Dispatch,
    /// The loop is over: the quit signal was retrieved, or no loop is running.
    Finished,
    /// The loop is over because the queue reported an error.
    Failed,
}

/// What is to be released when the window is torn down: first the window's
/// registration for shell notifications, then the visibility hook.
#[derive(Clone, Copy, Debug, PartialEq, Eq, Structural)]
pub struct Teardown {
    pub hwnd: WindowHandle,
    pub hook: HookHandle,
}

/// The message window's state machine.
pub struct AppWindow {
    stage: Stage,
}

impl ConstructionError {
    /// The failure in words.
    pub open spec fn text(self) -> Seq<char> {
        match self {
            ConstructionError::InstanceUnavailable => "Could not get instance"@,
            ConstructionError::ClassRegistrationFailed => "Could not register class"@,
            ConstructionError::WindowCreationFailed => "Could not create window"@,
            ConstructionError::ShellHookRegistrationFailed => "Could not register shell hook window"@,
        }
    }

    /// Returns the failure in words.
    pub fn message(&self) -> (text: &'static str)
        ensures
            text@ == self.text(),
    {
        match self {
            ConstructionError::InstanceUnavailable => "Could not get instance",
            ConstructionError::ClassRegistrationFailed => "Could not register class",
            ConstructionError::WindowCreationFailed => "Could not create window",
            ConstructionError::ShellHookRegistrationFailed => "Could not register shell hook window",
        }
    }
}

impl Resources {
    /// Nothing exists.
    pub open spec fn none() -> Resources {
        Resources { window: None, shell_hook: false, event_hook: None }
    }

    /// What exists after `request` was carried out with the result `response`,
    /// if `self` existed before: what the system does, seen from outside.
    ///
    /// A window exists from the creation that returned its handle until its
    /// destruction, which also ends its registration. The window is
    /// registered once the registration reported success. A hook is installed
    /// where the installation returned a handle for it.
    pub open spec fn after(self, request: Request, response: Response) -> Resources {
        match (request, response) {
            (Request::CreateWindow { .. }, Response::Window(hwnd)) => if hwnd.null() {
                self
            } else {
                Resources { window: Some(hwnd), ..self }
            },
            (Request::RegisterShellHook { .. }, Response::ShellHook(registered)) => Resources {
                shell_hook: registered,
                ..self
            },
            (Request::InstallHook { .. }, Response::Hook(hook)) => if hook.0 == 0 {
                self
            } else {
                Resources { event_hook: Some(hook), ..self }
            },
            (Request::DestroyWindow { .. }, Response::Done) => Resources {
                window: None,
                shell_hook: false,
                ..self
            },
            _ => self,
        }
    }

    /// What exists after everything named in `teardown` was released: the
    /// registration of its window for shell notifications, and its hook.
    pub open spec fn released(self, teardown: Teardown) -> Resources {
        Resources {
            window: self.window,
            shell_hook: self.shell_hook && self.window != Some(teardown.hwnd),
            event_hook: if self.event_hook == Some(teardown.hook) {
                None
            } else {
                self.event_hook
            },
        }
    }
}

impl Stage {
    /// A stage that holds a window holds a real one.
    pub open spec fn wf(self) -> bool {
        match self {
            Stage::ResolvingInstance { .. } => true,
            Stage::RegisteringClass { .. } => true,
            Stage::CreatingWindow { .. } => true,
            Stage::PublishingHandle { hwnd } => !hwnd.null(),
            Stage::ShowingWindow { hwnd } => !hwnd.null(),
            Stage::BindingTarget { hwnd } => !hwnd.null(),
            Stage::RegisteringShellHook { hwnd } => !hwnd.null(),
            Stage::NegotiatingCode { hwnd } => !hwnd.null(),
            Stage::AnnouncingCode { hwnd, .. } => !hwnd.null(),
            Stage::InstallingHook { hwnd, .. } => !hwnd.null(),
            Stage::Unwinding { hwnd } => !hwnd.null(),
            Stage::Failed { .. } => true,
            Stage::Running { hwnd, .. } => !hwnd.null(),
            Stage::Stopped { hwnd, .. } => !hwnd.null(),
            Stage::Released { hwnd } => !hwnd.null(),
        }
    }

    /// The request that is pending in this stage; `None` once the
    /// construction is over, by success or by failure.
    pub open spec fn request(self) -> Option<Request> {
        match self {
            Stage::ResolvingInstance { .. } => Some(Request::ResolveInstance),
            Stage::RegisteringClass { instance, .. } => Some(Request::RegisterClass { instance }),
            Stage::CreatingWindow { wm, instance } => Some(
                Request::CreateWindow { instance, param: wm },
            ),
            Stage::PublishingHandle { hwnd } => Some(Request::PublishHandle { hwnd }),
            Stage::ShowingWindow { hwnd } => Some(
                Request::ShowWindow { hwnd, command: minimized_not_active() },
            ),
            Stage::BindingTarget { hwnd } => Some(Request::BindTarget { hwnd }),
            Stage::RegisteringShellHook { hwnd } => Some(Request::RegisterShellHook { hwnd }),
            Stage::NegotiatingCode { .. } => Some(Request::RegisterShellHookMessage),
            Stage::AnnouncingCode { code, .. } => Some(Request::SetNotificationCode { code }),
            Stage::InstallingHook { .. } => Some(
                Request::InstallHook { scope: HookScope::visibility_spec() },
            ),
            Stage::Unwinding { hwnd } => Some(Request::DestroyWindow { hwnd }),
            Stage::Failed { .. } => None,
            Stage::Running { .. } => None,
            Stage::Stopped { .. } => None,
            Stage::Released { .. } => None,
        }
    }

    /// Whether `response` answers the request that is pending in this stage.
    pub open spec fn expects(self, response: Response) -> bool {
        match self {
            Stage::ResolvingInstance { .. } => response is Instance,
            Stage::RegisteringClass { .. } => response is ClassAtom,
            Stage::CreatingWindow { .. } => response is Window,
            Stage::PublishingHandle { .. } => response is Done,
            Stage::ShowingWindow { .. } => response is Done,
            Stage::BindingTarget { .. } => response is Done,
            Stage::RegisteringShellHook { .. } => response is ShellHook,
            Stage::NegotiatingCode { .. } => response is MessageCode,
            Stage::AnnouncingCode { .. } => response is Done,
            Stage::InstallingHook { .. } => response is Hook,
            Stage::Unwinding { .. } => response is Done,
            Stage::Failed { .. } => false,
            Stage::Running { .. } => false,
            Stage::Stopped { .. } => false,
            Stage::Released { .. } => false,
        }
    }

    /// The stage that follows when the pending request is answered by
    /// `response`. A response that does not answer it changes nothing.
    pub open spec fn next(self, response: Response) -> Stage {
        match (self, response) {
            (Stage::ResolvingInstance { wm }, Response::Instance(Some(instance))) => {
                Stage::RegisteringClass { wm, instance }
            },
            (Stage::ResolvingInstance { .. }, Response::Instance(None)) => Stage::Failed {
                error: ConstructionError::InstanceUnavailable,
            },
            (Stage::RegisteringClass { wm, instance }, Response::ClassAtom(atom)) => if atom == 0 {
                Stage::Failed { error: ConstructionError::ClassRegistrationFailed }
            } else {
                Stage::CreatingWindow { wm, instance }
            },
            (Stage::CreatingWindow { .. }, Response::Window(hwnd)) => if hwnd.null() {
                Stage::Failed { error: ConstructionError::WindowCreationFailed }
            } else {
                Stage::PublishingHandle { hwnd }
            },
            (Stage::PublishingHandle { hwnd }, Response::Done) => Stage::ShowingWindow { hwnd },
            (Stage::ShowingWindow { hwnd }, Response::Done) => Stage::BindingTarget { hwnd },
            (Stage::BindingTarget { hwnd }, Response::Done) => Stage::RegisteringShellHook { hwnd },
            (Stage::RegisteringShellHook { hwnd }, Response::ShellHook(registered)) => if registered {
                Stage::NegotiatingCode { hwnd }
            } else {
                Stage::Unwinding { hwnd }
            },
            (Stage::NegotiatingCode { hwnd }, Response::MessageCode(code)) => Stage::AnnouncingCode {
                hwnd,
                code,
            },
            (Stage::AnnouncingCode { hwnd, code }, Response::Done) => Stage::InstallingHook {
                hwnd,
                code,
            },
            (Stage::InstallingHook { hwnd, code }, Response::Hook(hook)) => Stage::Running {
                hwnd,
                code,
                hook,
            },
            (Stage::Unwinding { .. }, Response::Done) => Stage::Failed {
                error: ConstructionError::ShellHookRegistrationFailed,
            },
            _ => self,
        }
    }

    /// The stage after a run of answers, first to last.
    pub open spec fn next_all(self, responses: Seq<Response>) -> Stage
        decreases responses.len(),
    {
        if responses.len() == 0 {
            self
        } else {
            self.next_all(responses.drop_last()).next(responses.last())
        }
    }

    /// The stage after a retrieval from the message queue returned
    /// `retrieved`: zero for the quit signal, -1 for an error of the queue,
    /// anything else for a message. Outside a running loop nothing changes.
    pub open spec fn after_retrieval(self, retrieved: i32) -> Stage {
        match self {
            Stage::Running { hwnd, hook, .. } => if retrieved == 0 {
                Stage::Stopped { hwnd, hook, clean: true }
            } else if retrieved == -1 {
                Stage::Stopped { hwnd, hook, clean: false }
            } else {
                self
            },
            _ => self,
        }
    }

    /// What the loop does after that retrieval.
    pub open spec fn pump_step(self, retrieved: i32) -> PumpStep {
        match self {
            Stage::Running { .. } => if retrieved == 0 {
                PumpStep::Finished
            } else if retrieved == -1 {
                PumpStep::Failed
            } else {
                PumpStep::Dispatch
            },
            _ => PumpStep::Finished,
        }
    }

    /// What is handed out for release in this stage: the hooks of a window
    /// whose loop has ended, and nothing in any other stage.
    pub open spec fn teardown(self) -> Option<Teardown> {
        match self {
            Stage::Stopped { hwnd, hook, .. } => Some(Teardown { hwnd, hook }),
            _ => None,
        }
    }

    /// The stage after the teardown was handed out.
    pub open spec fn after_teardown(self) -> Stage {
        match self {
            Stage::Stopped { hwnd, .. } => Stage::Released { hwnd },
            _ => self,
        }
    }

    /// What exists on the system's side in this stage.
    pub open spec fn resources(self) -> Resources {
        match self {
            Stage::ResolvingInstance { .. } => Resources::none(),
            Stage::RegisteringClass { .. } => Resources::none(),
            Stage::CreatingWindow { .. } => Resources::none(),
            Stage::PublishingHandle { hwnd } => Resources { window: Some(hwnd), ..Resources::none() },
            Stage::ShowingWindow { hwnd } => Resources { window: Some(hwnd), ..Resources::none() },
            Stage::BindingTarget { hwnd } => Resources { window: Some(hwnd), ..Resources::none() },
            Stage::RegisteringShellHook { hwnd } => Resources {
                window: Some(hwnd),
                ..Resources::none()
            },
            Stage::NegotiatingCode { hwnd } => Resources {
                window: Some(hwnd),
                shell_hook: true,
                event_hook: None,
            },
            Stage::AnnouncingCode { hwnd, .. } => Resources {
                window: Some(hwnd),
                shell_hook: true,
                event_hook: None,
            },
            Stage::InstallingHook { hwnd, .. } => Resources {
                window: Some(hwnd),
                shell_hook: true,
                event_hook: None,
            },
            Stage::Unwinding { hwnd } => Resources { window: Some(hwnd), ..Resources::none() },
            Stage::Failed { .. } => Resources::none(),
            Stage::Running { hwnd, hook, .. } => Resources {
                window: Some(hwnd),
                shell_hook: true,
                event_hook: if hook.0 == 0 {
                    None
                } else {
                    Some(hook)
                },
            },
            Stage::Stopped { hwnd, hook, .. } => Resources {
                window: Some(hwnd),
                shell_hook: true,
                event_hook: if hook.0 == 0 {
                    None
                } else {
                    Some(hook)
                },
            },
            Stage::Released { hwnd } => Resources { window: Some(hwnd), ..Resources::none() },
        }
    }
}

impl View for AppWindow {
    type V = Stage;

    closed spec fn view(&self) -> Stage {
        self.stage
    }
}

impl AppWindow {
    #[verifier::type_invariant]
    spec fn inv(self) -> bool {
        self.stage.wf()
    }

    /// Starts the construction of the message window for the engine `wm`.
    /// Nothing exists yet; the first request is pending.
    pub fn new(wm: EngineRef) -> (window: AppWindow)
        ensures
            window@ == (Stage::ResolvingInstance { wm }),
    {
        AppWindow { stage: Stage::ResolvingInstance { wm } }
    }

    /// The stage that the window is in.
    pub fn stage(&self) -> (stage: Stage)
        ensures
            stage == self@,
            stage.wf(),
    {
        proof {
            use_type_invariant(self);
        }
        self.stage
    }

    /// The request that is to be carried out next, or `None` once the
    /// construction is over.
    pub fn pending(&self) -> (request: Option<Request>)
        ensures
            request == self@.request(),
    {
        match self.stage {
            Stage::ResolvingInstance { .. } => Some(Request::ResolveInstance),
            Stage::RegisteringClass { instance, .. } => Some(Request::RegisterClass { instance }),
            Stage::CreatingWindow { wm, instance } => Some(
                Request::CreateWindow { instance, param: wm },
            ),
            Stage::PublishingHandle { hwnd } => Some(Request::PublishHandle { hwnd }),
            Stage::ShowingWindow { hwnd } => Some(
                Request::ShowWindow { hwnd, command: sw_showminnoactive() },
            ),
            Stage::BindingTarget { hwnd } => Some(Request::BindTarget { hwnd }),
            Stage::RegisteringShellHook { hwnd } => Some(Request::RegisterShellHook { hwnd }),
            Stage::NegotiatingCode { .. } => Some(Request::RegisterShellHookMessage),
            Stage::AnnouncingCode { code, .. } => Some(Request::SetNotificationCode { code }),
            Stage::InstallingHook { .. } => Some(Request::InstallHook { scope: HookScope::visibility() }),
            Stage::Unwinding { hwnd } => Some(Request::DestroyWindow { hwnd }),
            _ => None,
        }
    }

    /// Takes the system's answer to the pending request and moves on.
    ///
    /// Returns whether `response` answers the pending request. One that does
    /// not is refused, and the window stays as it is; so does every response
    /// once the construction is over.
    pub fn advance(&mut self, response: Response) -> (accepted: bool)
        ensures
            accepted == old(self)@.expects(response),
            final(self)@ == old(self)@.next(response),
            !accepted ==> final(self)@ == old(self)@,
    {
        proof {
            use_type_invariant(&*self);
        }
        let next = match (self.stage, response) {
            (Stage::ResolvingInstance { wm }, Response::Instance(Some(instance))) => {
                Stage::RegisteringClass { wm, instance }
            },
            (Stage::ResolvingInstance { .. }, Response::Instance(None)) => Stage::Failed {
                error: ConstructionError::InstanceUnavailable,
            },
            (Stage::RegisteringClass { wm, instance }, Response::ClassAtom(atom)) => if atom == 0 {
                Stage::Failed { error: ConstructionError::ClassRegistrationFailed }
            } else {
                Stage::CreatingWindow { wm, instance }
            },
            (Stage::CreatingWindow { .. }, Response::Window(hwnd)) => if hwnd.is_null() {
                Stage::Failed { error: ConstructionError::WindowCreationFailed }
            } else {
                Stage::PublishingHandle { hwnd }
            },
            (Stage::PublishingHandle { hwnd }, Response::Done) => Stage::ShowingWindow { hwnd },
            (Stage::ShowingWindow { hwnd }, Response::Done) => Stage::BindingTarget { hwnd },
            (Stage::BindingTarget { hwnd }, Response::Done) => Stage::RegisteringShellHook { hwnd },
            (Stage::RegisteringShellHook { hwnd }, Response::ShellHook(registered)) => if registered {
                Stage::NegotiatingCode { hwnd }
            } else {
                Stage::Unwinding { hwnd }
            },
            (Stage::NegotiatingCode { hwnd }, Response::MessageCode(code)) => Stage::AnnouncingCode {
                hwnd,
                code,
            },
            (Stage::AnnouncingCode { hwnd, code }, Response::Done) => Stage::InstallingHook {
                hwnd,
                code,
            },
            (Stage::InstallingHook { hwnd, code }, Response::Hook(hook)) => Stage::Running {
                hwnd,
                code,
                hook,
            },
            (Stage::Unwinding { .. }, Response::Done) => Stage::Failed {
                error: ConstructionError::ShellHookRegistrationFailed,
            },
            _ => {
                return false;
            },
        };
        self.stage = next;
        true
    }

    /// Why the construction failed, if it has.
    pub fn error(&self) -> (error: Option<ConstructionError>)
        ensures
            error == (match self@ {
                Stage::Failed { error } => Some(error),
                _ => None,
            }),
    {
        match self.stage {
            Stage::Failed { error } => Some(error),
            _ => None,
        }
    }

    /// Whether the construction has succeeded and the loop has not ended.
    pub fn is_running(&self) -> (running: bool)
        ensures
            running == (self@ is Running),
    {
        match self.stage {
            Stage::Running { .. } => true,
            _ => false,
        }
    }

    /// The handle of the window, while one exists.
    pub fn hwnd(&self) -> (hwnd: Option<WindowHandle>)
        ensures
            hwnd == self@.resources().window,
            hwnd matches Some(h) ==> !h.null(),
    {
        proof {
            use_type_invariant(self);
        }
        match self.stage {
            Stage::PublishingHandle { hwnd } => Some(hwnd),
            Stage::ShowingWindow { hwnd } => Some(hwnd),
            Stage::BindingTarget { hwnd } => Some(hwnd),
            Stage::RegisteringShellHook { hwnd } => Some(hwnd),
            Stage::NegotiatingCode { hwnd } => Some(hwnd),
            Stage::AnnouncingCode { hwnd, .. } => Some(hwnd),
            Stage::InstallingHook { hwnd, .. } => Some(hwnd),
            Stage::Unwinding { hwnd } => Some(hwnd),
            Stage::Running { hwnd, .. } => Some(hwnd),
            Stage::Stopped { hwnd, .. } => Some(hwnd),
            Stage::Released { hwnd } => Some(hwnd),
            _ => None,
        }
    }

    /// The handle that the installation of the visibility hook returned,
    /// from the success of the construction until the teardown.
    pub fn wineventhook(&self) -> (hook: Option<HookHandle>)
        ensures
            hook == (match self@ {
                Stage::Running { hook, .. } => Some(hook),
                Stage::Stopped { hook, .. } => Some(hook),
                _ => None,
            }),
    {
        match self.stage {
            Stage::Running { hook, .. } => Some(hook),
            Stage::Stopped { hook, .. } => Some(hook),
            _ => None,
        }
    }

    /// The code under which shell notifications arrive, once the system has
    /// assigned it and while the loop has not ended.
    pub fn shell_hook_id(&self) -> (code: Option<u32>)
        ensures
            code == (match self@ {
                Stage::AnnouncingCode { code, .. } => Some(code),
                Stage::InstallingHook { code, .. } => Some(code),
                Stage::Running { code, .. } => Some(code),
                _ => None,
            }),
    {
        match self.stage {
            Stage::AnnouncingCode { code, .. } => Some(code),
            Stage::InstallingHook { code, .. } => Some(code),
            Stage::Running { code, .. } => Some(code),
            _ => None,
        }
    }

    /// What exists on the system's side on account of the window.
    pub fn resources(&self) -> (resources: Resources)
        ensures
            resources == self@.resources(),
    {
        let window = self.hwnd();
        match self.stage {
            Stage::NegotiatingCode { .. } | Stage::AnnouncingCode { .. } | Stage::InstallingHook {
                ..
            } => Resources { window, shell_hook: true, event_hook: None },
            Stage::Running { hook, .. } | Stage::Stopped { hook, .. } => Resources {
                window,
                shell_hook: true,
                event_hook: if hook.0 == 0 {
                    None
                } else {
                    Some(hook)
                },
            },
            _ => Resources { window, shell_hook: false, event_hook: None },
        }
    }

    /// One turn of the message loop: decides what follows a retrieval from
    /// the queue that returned `retrieved`.
    ///
    /// Zero is the quit signal and ends the loop. -1 is an error of the
    /// queue, which ends the loop as well. Any other value stands for a
    /// message, which is to be translated and dispatched. Where no loop is
    /// running, because the construction has not succeeded or the loop has
    /// ended before, the answer is that the loop is over.
    pub fn handle_messages(&mut self, retrieved: i32) -> (step: PumpStep)
        ensures
            step == old(self)@.pump_step(retrieved),
            final(self)@ == old(self)@.after_retrieval(retrieved),
            step is Dispatch <==> old(self)@ is Running && retrieved != 0 && retrieved != -1,
            step is Dispatch ==> final(self)@ == old(self)@,
            old(self)@ is Running && retrieved == 0 ==> step is Finished && final(self)@ is Stopped,
            old(self)@ is Running && retrieved == -1 ==> step is Failed && final(self)@ is Stopped,
    {
        proof {
            use_type_invariant(&*self);
        }
        match self.stage {
            Stage::Running { hwnd, hook, .. } => {
                if retrieved == 0 {
                    self.stage = Stage::Stopped { hwnd, hook, clean: true };
                    PumpStep::Finished
                } else if retrieved == -1 {
                    self.stage = Stage::Stopped { hwnd, hook, clean: false };
                    PumpStep::Failed
                } else {
                    PumpStep::Dispatch
                }
            },
            _ => PumpStep::Finished,
        }
    }

    /// Hands out what is to be released, once.
    ///
    /// Returns the window and the hook exactly when the loop has ended and
    /// they have not been handed out before. Before the loop has ended, and
    /// from the second call on, it returns `None` and changes nothing.
    pub fn cleanup(&mut self) -> (teardown: Option<Teardown>)
        ensures
            teardown == old(self)@.teardown(),
            final(self)@ == old(self)@.after_teardown(),
            teardown is Some <==> old(self)@ is Stopped,
            final(self)@.teardown() is None,
    {
        proof {
            use_type_invariant(&*self);
        }
        match self.stage {
            Stage::Stopped { hwnd, hook, .. } => {
                self.stage = Stage::Released { hwnd };
                Some(Teardown { hwnd, hook })
            },
            _ => None,
        }
    }
}

/// What the system answers during one construction: the result of each
/// request that has one.
pub struct Answers {
    pub instance: Option<InstanceHandle>,
    pub atom: u16,
    pub hwnd: WindowHandle,
    pub registered: bool,
    pub code: u32,
    pub hook: HookHandle,
}

impl Answers {
    /// The answer to `request`.
    pub open spec fn answer(self, request: Request) -> Response {
        match request {
            Request::ResolveInstance => Response::Instance(self.instance),
            Request::RegisterClass { .. } => Response::ClassAtom(self.atom),
            Request::CreateWindow { .. } => Response::Window(self.hwnd),
            Request::RegisterShellHook { .. } => Response::ShellHook(self.registered),
            Request::RegisterShellHookMessage => Response::MessageCode(self.code),
            Request::InstallHook { .. } => Response::Hook(self.hook),
            _ => Response::Done,
        }
    }

    /// How a construction with these answers ends: with the first of the four
    /// checked steps that failed, or in a running window.
    pub open spec fn outcome(self) -> Stage {
        if self.instance is None {
            Stage::Failed { error: ConstructionError::InstanceUnavailable }
        } else if self.atom == 0 {
            Stage::Failed { error: ConstructionError::ClassRegistrationFailed }
        } else if self.hwnd.null() {
            Stage::Failed { error: ConstructionError::WindowCreationFailed }
        } else if !self.registered {
            Stage::Failed { error: ConstructionError::ShellHookRegistrationFailed }
        } else {
            Stage::Running { hwnd: self.hwnd, code: self.code, hook: self.hook }
        }
    }
}

impl Stage {
    /// Whether the construction is over, by success or by failure.
    pub open spec fn settled(self) -> bool {
        self.request() is None
    }

    /// The stage reached from this one when each pending request is carried
    /// out and answered by `system`, for at most `steps` requests.
    pub open spec fn drive(self, system: Answers, steps: nat) -> Stage
        decreases steps,
    {
        if steps == 0 {
            self
        } else {
            match self.request() {
                Some(request) => self.next(system.answer(request)).drive(
                    system,
                    (steps - 1) as nat,
                ),
                None => self,
            }
        }
    }

    /// The requests that are made on that way, in their order.
    pub open spec fn requested(self, system: Answers, steps: nat) -> Seq<Request>
        decreases steps,
    {
        if steps == 0 {
            Seq::empty()
        } else {
            match self.request() {
                Some(request) => seq![request] + self.next(system.answer(request)).requested(
                    system,
                    (steps - 1) as nat,
                ),
                None => Seq::empty(),
            }
        }
    }

    /// What exists on the system's side after a run of answers, if `world`
    /// existed before: each answer that was accepted stands for a request that
    /// was carried out, and a refused one for nothing.
    pub open spec fn performed(self, world: Resources, responses: Seq<Response>) -> Resources
        decreases responses.len(),
    {
        if responses.len() == 0 {
            world
        } else {
            let before = self.next_all(responses.drop_last());
            let earlier = self.performed(world, responses.drop_last());
            if before.expects(responses.last()) {
                earlier.after(before.request().unwrap(), responses.last())
            } else {
                earlier
            }
        }
    }
}

/// Every stage that the machine reaches holds a real window wherever it
/// holds one.
pub proof fn next_keeps_wf(stage: Stage, response: Response)
    requires
        stage.wf(),
    ensures
        stage.next(response).wf(),
        stage.after_retrieval(0).wf(),
        stage.after_teardown().wf(),
{
}

/// An answer is accepted exactly where a request is pending that it
/// answers; any other answer, and every answer once the construction is
/// over, leaves the stage as it is.
pub proof fn refused_changes_nothing(stage: Stage, response: Response)
    ensures
        !stage.expects(response) ==> stage.next(response) == stage,
        stage.settled() ==> !stage.expects(response),
        !stage.settled() ==> exists|answer: Response| stage.expects(answer),
{
    if !stage.settled() {
        match stage {
            Stage::ResolvingInstance { .. } => {
                assert(stage.expects(Response::Instance(None)));
            },
            Stage::RegisteringClass { .. } => {
                assert(stage.expects(Response::ClassAtom(0)));
            },
            Stage::CreatingWindow { .. } => {
                assert(stage.expects(Response::Window(WindowHandle(0))));
            },
            Stage::RegisteringShellHook { .. } => {
                assert(stage.expects(Response::ShellHook(false)));
            },
            Stage::NegotiatingCode { .. } => {
                assert(stage.expects(Response::MessageCode(0)));
            },
            Stage::InstallingHook { .. } => {
                assert(stage.expects(Response::Hook(HookHandle(0))));
            },
            _ => {
                assert(stage.expects(Response::Done));
            },
        }
    }
}

/// The account is exact at every step: what the next stage says exists is
/// what existed before, changed by what the request that was carried out did
/// on the system's side.
pub proof fn account_follows_request(stage: Stage, response: Response)
    requires
        stage.wf(),
        stage.expects(response),
    ensures
        stage.next(response).resources() == stage.resources().after(
            stage.request().unwrap(),
            response,
        ),
{
}

/// The account is exact along every run: whatever answers the machine is
/// given from the start, what its stage says exists is what the requests
/// that were carried out have left on the system's side.
pub proof fn account_is_exact(wm: EngineRef, responses: Seq<Response>)
    ensures
        (Stage::ResolvingInstance { wm }).next_all(responses).wf(),
        (Stage::ResolvingInstance { wm }).performed(Resources::none(), responses) == (
        Stage::ResolvingInstance { wm }).next_all(responses).resources(),
    decreases responses.len(),
{
    if responses.len() > 0 {
        let start = Stage::ResolvingInstance { wm };
        let before = start.next_all(responses.drop_last());
        account_is_exact(wm, responses.drop_last());
        next_keeps_wf(before, responses.last());
        if before.expects(responses.last()) {
            account_follows_request(before, responses.last());
        }
    }
}

/// A construction that has failed has left nothing behind: no window, no
/// registration for shell notifications, no hook.
pub proof fn failure_leaves_nothing(wm: EngineRef, responses: Seq<Response>)
    requires
        (Stage::ResolvingInstance { wm }).next_all(responses) is Failed,
    ensures
        (Stage::ResolvingInstance { wm }).performed(Resources::none(), responses)
            == Resources::none(),
{
    account_is_exact(wm, responses);
}

/// A construction that has succeeded has left a window that is registered
/// for shell notifications, and the hook where the system installed one. A
/// hook never exists without the window that it posts to.
pub proof fn success_leaves_window_and_hooks(wm: EngineRef, responses: Seq<Response>)
    ensures
        (Stage::ResolvingInstance { wm }).next_all(responses) matches Stage::Running {
            hwnd,
            hook,
            ..
        } ==> {
            let world = (Stage::ResolvingInstance { wm }).performed(Resources::none(), responses);
            &&& !hwnd.null()
            &&& world.window == Some(hwnd)
            &&& world.shell_hook
            &&& hook.0 != 0 ==> world.event_hook == Some(hook)
        },
        (Stage::ResolvingInstance { wm }).performed(Resources::none(), responses).event_hook
            is Some ==> (Stage::ResolvingInstance { wm }).performed(
            Resources::none(),
            responses,
        ).window is Some,
{
    account_is_exact(wm, responses);
}

/// The window's handle never changes: as long as a window exists, every
/// stage holds the handle that its creation returned.
pub proof fn handle_is_kept(stage: Stage, response: Response, retrieved: i32)
    requires
        stage.resources().window is Some,
    ensures
        stage.next(response).resources().window is Some ==> stage.next(
            response,
        ).resources().window == stage.resources().window,
        stage.after_retrieval(retrieved).resources().window == stage.resources().window,
        stage.after_teardown().resources().window == stage.resources().window,
{
}

/// Each failure has its one cause. From a stage that has not failed, an
/// answer leads to a failure exactly when the module handle is missing, the
/// class atom is zero, the window handle is null, or the window of a refused
/// shell hook registration has been destroyed; and the failure is the one
/// that names that cause.
pub proof fn failure_has_its_cause(stage: Stage, response: Response, error: ConstructionError)
    requires
        !(stage is Failed),
    ensures
        stage.next(response) == (Stage::Failed { error }) <==> {
            ||| (error == ConstructionError::InstanceUnavailable && stage is ResolvingInstance
                && response == Response::Instance(None))
            ||| (error == ConstructionError::ClassRegistrationFailed && stage is RegisteringClass
                && response == Response::ClassAtom(0))
            ||| (error == ConstructionError::WindowCreationFailed && stage is CreatingWindow
                && response == Response::Window(WindowHandle(0)))
            ||| (error == ConstructionError::ShellHookRegistrationFailed && stage is Unwinding
                && response == Response::Done)
        },
        !(stage is Unwinding) ==> (stage.next(response) is Unwinding <==> stage
            is RegisteringShellHook && response == Response::ShellHook(false)),
{
}

/// How a construction ends is decided by the system's answers alone: it
/// fails with the first checked step that failed, and succeeds if none did.
/// Ten requests are enough to get there.
pub proof fn construction_ends_as_answered(wm: EngineRef, system: Answers)
    ensures
        (Stage::ResolvingInstance { wm }).drive(system, 10) == system.outcome(),
        system.outcome().settled(),
{
    reveal_with_fuel(Stage::drive, 11);
}

/// The requests of a construction in which every step succeeds, in their
/// order.
pub proof fn construction_requests(wm: EngineRef, system: Answers)
    requires
        system.outcome() is Running,
    ensures
        (Stage::ResolvingInstance { wm }).requested(system, 10) == seq![
            Request::ResolveInstance,
            Request::RegisterClass { instance: system.instance.unwrap() },
            Request::CreateWindow { instance: system.instance.unwrap(), param: wm },
            Request::PublishHandle { hwnd: system.hwnd },
            Request::ShowWindow { hwnd: system.hwnd, command: minimized_not_active() },
            Request::BindTarget { hwnd: system.hwnd },
            Request::RegisterShellHook { hwnd: system.hwnd },
            Request::RegisterShellHookMessage,
            Request::SetNotificationCode { code: system.code },
            Request::InstallHook { scope: HookScope::visibility_spec() },
        ],
{
    reveal_with_fuel(Stage::requested, 11);
    assert((Stage::ResolvingInstance { wm }).requested(system, 10) =~= seq![
        Request::ResolveInstance,
        Request::RegisterClass { instance: system.instance.unwrap() },
        Request::CreateWindow { instance: system.instance.unwrap(), param: wm },
        Request::PublishHandle { hwnd: system.hwnd },
        Request::ShowWindow { hwnd: system.hwnd, command: minimized_not_active() },
        Request::BindTarget { hwnd: system.hwnd },
        Request::RegisterShellHook { hwnd: system.hwnd },
        Request::RegisterShellHookMessage,
        Request::SetNotificationCode { code: system.code },
        Request::InstallHook { scope: HookScope::visibility_spec() },
    ]);
}

/// A construction that fails stops at the failed step: nothing is requested
/// after it but, where the window existed already, its destruction.
pub proof fn failed_construction_requests(wm: EngineRef, system: Answers)
    requires
        system.outcome() is Failed,
    ensures
        system.instance is None ==> (Stage::ResolvingInstance { wm }).requested(system, 10)
            == seq![Request::ResolveInstance],
        system.instance is Some && system.atom == 0 ==> (Stage::ResolvingInstance {
            wm,
        }).requested(system, 10) == seq![
            Request::ResolveInstance,
            Request::RegisterClass { instance: system.instance.unwrap() },
        ],
        system.instance is Some && system.atom != 0 && system.hwnd.null() ==> (
        Stage::ResolvingInstance { wm }).requested(system, 10) == seq![
            Request::ResolveInstance,
            Request::RegisterClass { instance: system.instance.unwrap() },
            Request::CreateWindow { instance: system.instance.unwrap(), param: wm },
        ],
        system.instance is Some && system.atom != 0 && !system.hwnd.null() ==> (
        Stage::ResolvingInstance { wm }).requested(system, 10) == seq![
            Request::ResolveInstance,
            Request::RegisterClass { instance: system.instance.unwrap() },
            Request::CreateWindow { instance: system.instance.unwrap(), param: wm },
            Request::PublishHandle { hwnd: system.hwnd },
            Request::ShowWindow { hwnd: system.hwnd, command: minimized_not_active() },
            Request::BindTarget { hwnd: system.hwnd },
            Request::RegisterShellHook { hwnd: system.hwnd },
            Request::DestroyWindow { hwnd: system.hwnd },
        ],
{
    reveal_with_fuel(Stage::requested, 11);
    let start = Stage::ResolvingInstance { wm };
    if system.instance is None {
        assert(start.requested(system, 10) =~= seq![Request::ResolveInstance]);
    } else if system.atom == 0 {
        assert(start.requested(system, 10) =~= seq![
            Request::ResolveInstance,
            Request::RegisterClass { instance: system.instance.unwrap() },
        ]);
    } else if system.hwnd.null() {
        assert(start.requested(system, 10) =~= seq![
            Request::ResolveInstance,
            Request::RegisterClass { instance: system.instance.unwrap() },
            Request::CreateWindow { instance: system.instance.unwrap(), param: wm },
        ]);
    } else {
        assert(start.requested(system, 10) =~= seq![
            Request::ResolveInstance,
            Request::RegisterClass { instance: system.instance.unwrap() },
            Request::CreateWindow { instance: system.instance.unwrap(), param: wm },
            Request::PublishHandle { hwnd: system.hwnd },
            Request::ShowWindow { hwnd: system.hwnd, command: minimized_not_active() },
            Request::BindTarget { hwnd: system.hwnd },
            Request::RegisterShellHook { hwnd: system.hwnd },
            Request::DestroyWindow { hwnd: system.hwnd },
        ]);
    }
}

/// The destruction message ends the loop. In every state of the window and
/// after any run of deliveries, whatever they produced, its disposition is to
/// post the quit signal; and the retrieval of the quit signal, which returns
/// zero, ends a running loop at once, with the hooks ready for release.
pub proof fn destroy_ends_loop(
    binding: Binding,
    deliveries: Seq<Delivery>,
    destroy: Delivery,
    stage: Stage,
)
    requires
        destroy.message.code == destroy_code(),
        stage is Running,
    ensures
        disposition(binding_after_all(binding, deliveries), destroy.message) == Disposition::Quit,
        stage.pump_step(0) == PumpStep::Finished,
        stage.after_retrieval(0) is Stopped,
        stage.after_retrieval(0).teardown() is Some,
{
}

/// The hooks are handed out once, and only after the loop has ended: never
/// while the window is constructed or running, and never again after they
/// have been handed out.
pub proof fn teardown_happens_once(stage: Stage)
    ensures
        stage.teardown() is Some <==> stage is Stopped,
        stage.after_teardown().teardown() is None,
        stage is Stopped ==> stage.after_teardown().resources() == stage.resources().released(
            stage.teardown().unwrap(),
        ),
        stage is Stopped ==> stage.after_teardown().resources().window
            == stage.resources().window,
{
}

} // verus!
