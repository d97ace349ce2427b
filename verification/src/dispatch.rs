//! The window procedure: where a dispatched message goes.
//!
//! A window starts without an engine. The message that the system sends while
//! the window is created carries the reference to the engine, which is then
//! bound to the window. From then on every message is handed to the engine as
//! it came, and the engine's answer is the window's answer. The message that
//! announces the window's destruction is never handed on: it ends the message
//! loop, whatever state the window is in.
//!
//! The procedure itself touches nothing. It names what is to be done, and the
//! caller does it: posts the quit signal, stores the engine reference in the
//! window's association slot, calls the engine, or leaves the message to the
//! system's default processing.

use vstd::prelude::*;
use crate::codes::{create_code, destroy_code, wm_create, wm_destroy};
use crate::message::{Message, WindowHandle};

verus! {

/// A reference to the layout engine, which this library neither owns nor looks
/// into. Zero refers to no engine.
#[derive(Clone, Copy, Debug, PartialEq, Eq, Structural)]
pub struct EngineRef(pub isize);

/// What a window's association slot holds: zero as long as no engine is bound
/// to the window, the reference to the engine afterwards.
#[derive(Clone, Copy, Debug, PartialEq, Eq, Structural)]
pub struct Binding {
    pub slot: isize,
}

/// What is to be done with a dispatched message.
#[derive(Clone, Copy, Debug, PartialEq, Eq, Structural)]
pub enum Disposition {
    /// Post the quit signal, which ends the message loop. The message counts
    /// as handled.
    Quit,
    /// Read the creation parameter that the message points to, bind it to the
    /// window with [`Binding::bind`], and leave the message itself to default
    /// processing.
    Bind { message: Message },
    /// Hand the message to the engine's handler and answer what it answers.
    Forward { engine: EngineRef, message: Message },
    /// Leave the message to the system's default processing.
    Default { message: Message },
}

impl Binding {
    /// Whether an engine is bound to the window.
    pub open spec fn bound(self) -> bool {
        self.slot != 0
    }

    /// The binding after the creation parameter `param` was stored: `param`
    /// where it refers to an engine. A parameter that refers to none leaves the
    /// binding as it was, so that a bound window never loses its engine.
    pub open spec fn bind_spec(self, param: EngineRef) -> Binding {
        if param.0 != 0 {
            Binding { slot: param.0 }
        } else {
            self
        }
    }

    /// The state of a window to which nothing has been bound yet.
    pub fn unbound() -> (binding: Binding)
        ensures
            binding.slot == 0,
            !binding.bound(),
    {
        Binding { slot: 0 }
    }

    /// Tells whether an engine is bound to the window.
    pub fn is_bound(&self) -> (r: bool)
        ensures
            r == self.bound(),
    {
        self.slot != 0
    }

    /// Binds the engine that the creation parameter refers to.
    pub fn bind(self, param: EngineRef) -> (binding: Binding)
        ensures
            binding == self.bind_spec(param),
            param.0 != 0 ==> binding.bound() && binding.slot == param.0,
            self.bound() ==> binding.bound(),
    {
        if param.0 != 0 {
            Binding { slot: param.0 }
        } else {
            self
        }
    }
}

/// The disposition of `message` at a window in the state `binding`.
///
/// Destruction comes first and wins over everything else. Creation binds and
/// is not shown to the engine. Any other message goes to the engine where one
/// is bound, and to default processing where none is.
pub open spec fn disposition(binding: Binding, message: Message) -> Disposition {
    if message.code == destroy_code() {
        Disposition::Quit
    } else if message.code == create_code() {
        Disposition::Bind { message }
    } else if binding.bound() {
        Disposition::Forward { engine: EngineRef(binding.slot), message }
    } else {
        Disposition::Default { message }
    }
}

impl Disposition {
    /// What the window procedure answers, where `produced` is what carrying
    /// out this disposition produced: the engine's answer for a forwarded
    /// message, the answer of default processing otherwise. A quit answers
    /// zero, "handled", and produces nothing to pass on.
    pub open spec fn reply_spec(self, produced: isize) -> isize {
        if self is Quit {
            0
        } else {
            produced
        }
    }

    /// Computes the window procedure's answer from what carrying out this
    /// disposition produced.
    pub fn reply(&self, produced: isize) -> (answer: isize)
        ensures
            answer == self.reply_spec(produced),
            *self is Forward ==> answer == produced,
            *self is Quit ==> answer == 0,
    {
        match self {
            Disposition::Quit => 0,
            _ => produced,
        }
    }
}

/// The window procedure: decides what is to be done with the message
/// `(hwnd, msg, wparam, lparam)` at a window in the state `binding`.
///
/// The destruction message quits, in every state. The creation message binds.
/// Any other message is forwarded to the bound engine exactly as it came, or
/// left to default processing while no engine is bound.
pub fn wnd_proc(
    binding: Binding,
    hwnd: WindowHandle,
    msg: u32,
    wparam: usize,
    lparam: isize,
) -> (d: Disposition)
    ensures
        d == disposition(binding, Message { hwnd, code: msg, wparam, lparam }),
        msg == destroy_code() ==> d is Quit,
        !binding.bound() ==> !(d is Forward),
        binding.bound() && msg != destroy_code() && msg != create_code() ==> d == (
        Disposition::Forward {
            engine: EngineRef(binding.slot),
            message: Message { hwnd, code: msg, wparam, lparam },
        }),
{
    let message = Message { hwnd, code: msg, wparam, lparam };
    if msg == wm_destroy() {
        return Disposition::Quit;
    }
    if msg == wm_create() {
        return Disposition::Bind { message };
    }
    if binding.is_bound() {
        Disposition::Forward { engine: EngineRef(binding.slot), message }
    } else {
        Disposition::Default { message }
    }
}

/// One message on its way through the window procedure, with what the world
/// contributes to it: the creation parameter that it points to, which is read
/// only if the message announces a creation, and what carrying out its
/// disposition produces, which is the engine's answer where the message is
/// forwarded.
pub struct Delivery {
    pub message: Message,
    pub param: EngineRef,
    pub produced: isize,
}

/// The state of a window after one delivery.
pub open spec fn binding_after(binding: Binding, delivery: Delivery) -> Binding {
    if disposition(binding, delivery.message) is Bind {
        binding.bind_spec(delivery.param)
    } else {
        binding
    }
}

/// The state of a window after a run of deliveries, first to last.
pub open spec fn binding_after_all(binding: Binding, deliveries: Seq<Delivery>) -> Binding
    decreases deliveries.len(),
{
    if deliveries.len() == 0 {
        binding
    } else {
        binding_after(binding_after_all(binding, deliveries.drop_last()), deliveries.last())
    }
}

/// What the window procedure answers to a delivery at a window in the state
/// `binding`.
pub open spec fn answer(binding: Binding, delivery: Delivery) -> isize {
    disposition(binding, delivery.message).reply_spec(delivery.produced)
}

/// As long as no creation message has been delivered, the window stays
/// unbound, and no message reaches the engine: each one is left to default
/// processing, except the destruction message, which quits.
pub proof fn unbound_until_created(deliveries: Seq<Delivery>, next: Delivery)
    requires
        forall|i: int|
            0 <= i < deliveries.len() ==> (#[trigger] deliveries[i]).message.code != create_code(),
    ensures
        !binding_after_all(Binding { slot: 0 }, deliveries).bound(),
        !(disposition(binding_after_all(Binding { slot: 0 }, deliveries), next.message)
            is Forward),
        next.message.code != destroy_code() && next.message.code != create_code() ==> disposition(
            binding_after_all(Binding { slot: 0 }, deliveries),
            next.message,
        ) == (Disposition::Default { message: next.message }),
        next.message.code != destroy_code() ==> answer(
            binding_after_all(Binding { slot: 0 }, deliveries),
            next,
        ) == next.produced,
    decreases deliveries.len(),
{
    if deliveries.len() > 0 {
        let earlier = deliveries.drop_last();
        assert forall|i: int| 0 <= i < earlier.len() implies (#[trigger] earlier[i]).message.code
            != create_code() by {
            assert(earlier[i] == deliveries[i]);
        }
        unbound_until_created(earlier, next);
        assert(deliveries.last() == deliveries[deliveries.len() - 1]);
    }
}

/// A bound window stays bound: no run of deliveries takes the engine away
/// from it.
pub proof fn bound_stays_bound(binding: Binding, deliveries: Seq<Delivery>)
    requires
        binding.bound(),
    ensures
        binding_after_all(binding, deliveries).bound(),
    decreases deliveries.len(),
{
    if deliveries.len() > 0 {
        bound_stays_bound(binding, deliveries.drop_last());
    }
}

/// The creation message binds the engine that its parameter refers to, and
/// is itself left to default processing.
pub proof fn creation_binds(binding: Binding, delivery: Delivery)
    requires
        delivery.message.code == create_code(),
        delivery.param.0 != 0,
    ensures
        disposition(binding, delivery.message) == (Disposition::Bind { message: delivery.message }),
        binding_after(binding, delivery) == (Binding { slot: delivery.param.0 }),
        binding_after(binding, delivery).bound(),
        answer(binding, delivery) == delivery.produced,
{
}

/// A window keeps its engine until another creation message is delivered:
/// deliveries of other messages leave the binding as it is.
pub proof fn binding_changes_on_creation_only(binding: Binding, deliveries: Seq<Delivery>)
    requires
        forall|i: int|
            0 <= i < deliveries.len() ==> (#[trigger] deliveries[i]).message.code != create_code(),
    ensures
        binding_after_all(binding, deliveries) == binding,
    decreases deliveries.len(),
{
    if deliveries.len() > 0 {
        let earlier = deliveries.drop_last();
        assert forall|i: int| 0 <= i < earlier.len() implies (#[trigger] earlier[i]).message.code
            != create_code() by {
            assert(earlier[i] == deliveries[i]);
        }
        binding_changes_on_creation_only(binding, earlier);
        assert(deliveries.last() == deliveries[deliveries.len() - 1]);
    }
}

/// Once an engine is bound, every message but those of creation and
/// destruction is handed to the bound engine exactly as it came, whatever was
/// delivered in between, and the engine's answer is passed on unchanged.
pub proof fn bound_forwards_verbatim(binding: Binding, deliveries: Seq<Delivery>, next: Delivery)
    requires
        binding.bound(),
        next.message.code != destroy_code(),
        next.message.code != create_code(),
    ensures
        binding_after_all(binding, deliveries).slot != 0,
        disposition(binding_after_all(binding, deliveries), next.message) == (Disposition::Forward {
            engine: EngineRef(binding_after_all(binding, deliveries).slot),
            message: next.message,
        }),
        answer(binding_after_all(binding, deliveries), next) == next.produced,
{
    bound_stays_bound(binding, deliveries);
}

/// The destruction message quits and answers zero in every state: whatever
/// was delivered before it, to whichever engine, and whatever came of it.
pub proof fn destroy_always_quits(binding: Binding, deliveries: Seq<Delivery>, next: Delivery)
    requires
        next.message.code == destroy_code(),
    ensures
        disposition(binding_after_all(binding, deliveries), next.message) == Disposition::Quit,
        answer(binding_after_all(binding, deliveries), next) == 0,
{
}

} // verus!
