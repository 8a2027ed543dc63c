//! Dispatch of the engine's callbacks to event handlers.
//!
//! The engine calls back with a handler's tag, an element, the number of an
//! event group and a block of parameters. A handler goes through three states:
//!
//! ```text
//! Unattached --(attach)--> Attached --(detach)--> Detached
//! ```
//!
//! Events are delivered to an attached handler only, and only those of the
//! groups that it subscribed to. A handler is asked for its subscription when
//! it is registered, and again whenever the engine requests it, so that the
//! subscription is known before the first event. On detach the handler is
//! destroyed; whatever the engine sends afterwards is ignored.

#![allow(non_camel_case_types, non_snake_case)]

use crate::dom::event::{reason_of, EventHandler, EventReason};
use crate::scbehavior::{
    event_code, event_phase, BEHAVIOR_EVENTS, BEHAVIOR_EVENT_PARAMS, EVENT_GROUPS, INITIALIZATION_EVENTS,
    INITIALIZATION_PARAMS, PHASE_MASK, SCRIPTING_METHOD_PARAMS, TIMER_PARAMS,
};
use crate::scdom::HELEMENT;
use crate::schandler::NativeHandler;
use crate::sctypes::HWINDOW;
use crate::value::{models, Value};
use vstd::prelude::*;

verus! {

/// The number of the group of initialization events.
pub const GROUP_INITIALIZATION: u32 = 0x0000;

/// The number of the group of timer events.
pub const GROUP_TIMER: u32 = 0x0010;

/// The number of the group of behavior events.
pub const GROUP_BEHAVIOR_EVENT: u32 = 0x0100;

/// The number of the group of calls from script.
pub const GROUP_SCRIPTING_METHOD_CALL: u32 = 0x0400;

/// The number by which the engine asks for a handler's subscription.
pub const GROUP_SUBSCRIPTIONS_REQUEST: u32 = 0xFFFF_FFFF;

/// Where a handler stands in its life.
#[derive(Clone, Copy, PartialEq, Eq, Structural, Debug)]
pub enum HandlerState {
    /// Registered with the engine, not yet attached to an element.
    Unattached,
    /// Attached: events are delivered.
    Attached,
    /// Detached: the handler is destroyed. This state is final.
    Detached,
}

/// The block of parameters that comes with a callback. Which block it is goes
/// by the group of the event.
pub enum EventParams {
    /// Nothing that this library reads.
    Nothing,
    /// With a request for the subscription: the place for the groups that
    /// the handler asks for.
    Subscriptions(EVENT_GROUPS),
    /// With an initialization event.
    Initialization(INITIALIZATION_PARAMS),
    /// With a behavior event.
    BehaviorEvent(BEHAVIOR_EVENT_PARAMS),
    /// With a call from script.
    ScriptingMethod(SCRIPTING_METHOD_PARAMS),
    /// With a timer event.
    Timer(TIMER_PARAMS),
}

/// What a callback asks of the handler.
#[derive(Clone, Copy, PartialEq, Eq, Structural, Debug)]
pub enum Delivery {
    /// Nothing: the callback is not delivered, and answered "not handled".
    Ignore,
    /// The handler is asked for its subscription.
    Subscription,
    /// The handler is told that it is attached.
    Attach,
    /// The handler is told that it is detached, and destroyed.
    Detach,
    /// The handler is sent a behavior event.
    Event,
    /// The handler is sent a call from script.
    ScriptCall,
    /// The handler is sent a timer event.
    Timer,
}

/// Whether events of the group `evtg` are delivered under a subscription. A
/// handler that stated no preference is subscribed to every group.
pub open spec fn spec_subscribed(subscription: Option<EVENT_GROUPS>, evtg: u32) -> bool {
    match subscription {
        None => true,
        Some(groups) => groups.spec_contains(evtg),
    }
}

/// What a callback asks of a handler in the given state and with the given
/// subscription.
///
/// - A detached handler is asked nothing.
/// - The request for the subscription is passed on, whatever the element.
/// - An attach is told to a handler that is not yet attached, a detach to
///   any handler that is not yet detached, whatever the element.
/// - Every other event is delivered only to an attached handler, only with
///   an element, only where its group is subscribed to, and only where this
///   library knows the group and the block of parameters belongs to it.
pub open spec fn spec_delivery(
    state: HandlerState,
    subscription: Option<EVENT_GROUPS>,
    he: HELEMENT,
    evtg: u32,
    params: EventParams,
) -> Delivery {
    if state is Detached {
        Delivery::Ignore
    } else if evtg == GROUP_SUBSCRIPTIONS_REQUEST {
        if params is Subscriptions {
            Delivery::Subscription
        } else {
            Delivery::Ignore
        }
    } else if evtg == GROUP_INITIALIZATION {
        match params {
            EventParams::Initialization(p) => match p.cmd {
                INITIALIZATION_EVENTS::BEHAVIOR_ATTACH => if state is Unattached {
                    Delivery::Attach
                } else {
                    Delivery::Ignore
                },
                INITIALIZATION_EVENTS::BEHAVIOR_DETACH => Delivery::Detach,
            },
            _ => Delivery::Ignore,
        }
    } else if !(state is Attached) || he.0 == 0 || !spec_subscribed(subscription, evtg) {
        Delivery::Ignore
    } else if evtg == GROUP_BEHAVIOR_EVENT && params is BehaviorEvent {
        Delivery::Event
    } else if evtg == GROUP_SCRIPTING_METHOD_CALL && params is ScriptingMethod {
        Delivery::ScriptCall
    } else if evtg == GROUP_TIMER && params is Timer {
        Delivery::Timer
    } else {
        Delivery::Ignore
    }
}

/// The state of a handler after a callback.
pub open spec fn spec_next_state(state: HandlerState, delivery: Delivery) -> HandlerState {
    match delivery {
        Delivery::Attach => HandlerState::Attached,
        Delivery::Detach => HandlerState::Detached,
        _ => state,
    }
}

/// A window together with the handler of its events.
pub struct WindowHandler<T> {
    pub hwnd: HWINDOW,
    pub handler: T,
}

/// The handler of a window is the handler that it holds: whatever it is asked
/// or told, it asks or tells that handler, with what it was given, and answers
/// what that handler answers. The window stays the same.
impl<T: EventHandler> EventHandler for WindowHandler<T> {
    fn get_subscription(&mut self) -> (r: Option<EVENT_GROUPS>)
        ensures
            final(self).hwnd == old(self).hwnd,
            exists|m: &mut T|
                mut_ref_current(m) == old(self).handler && mut_ref_future(m) == final(self).handler
                    && #[trigger] call_ensures(T::get_subscription, (m,), r),
    {
        self.handler.get_subscription()
    }

    fn attached(&mut self, root: HELEMENT)
        ensures
            final(self).hwnd == old(self).hwnd,
            exists|m: &mut T|
                mut_ref_current(m) == old(self).handler && mut_ref_future(m) == final(self).handler
                    && #[trigger] call_ensures(T::attached, (m, root), ()),
    {
        self.handler.attached(root)
    }

    fn detached(&mut self, root: HELEMENT)
        ensures
            final(self).hwnd == old(self).hwnd,
            exists|m: &mut T|
                mut_ref_current(m) == old(self).handler && mut_ref_future(m) == final(self).handler
                    && #[trigger] call_ensures(T::detached, (m, root), ()),
    {
        self.handler.detached(root)
    }

    fn document_complete(&mut self, root: HELEMENT, target: HELEMENT)
        ensures
            final(self).hwnd == old(self).hwnd,
            exists|m: &mut T|
                mut_ref_current(m) == old(self).handler && mut_ref_future(m) == final(self).handler
                    && #[trigger] call_ensures(T::document_complete, (m, root, target), ()),
    {
        self.handler.document_complete(root, target)
    }

    fn document_close(&mut self, root: HELEMENT, target: HELEMENT)
        ensures
            final(self).hwnd == old(self).hwnd,
            exists|m: &mut T|
                mut_ref_current(m) == old(self).handler && mut_ref_future(m) == final(self).handler
                    && #[trigger] call_ensures(T::document_close, (m, root, target), ()),
    {
        self.handler.document_close(root, target)
    }

    fn on_script_call(&mut self, root: HELEMENT, name: &str, args: &[Value]) -> (r: Option<Value>)
        ensures
            final(self).hwnd == old(self).hwnd,
            exists|m: &mut T|
                mut_ref_current(m) == old(self).handler && mut_ref_future(m) == final(self).handler
                    && #[trigger] call_ensures(T::on_script_call, (m, root, name, args), r),
    {
        self.handler.on_script_call(root, name, args)
    }

    fn on_event(
        &mut self,
        root: HELEMENT,
        source: HELEMENT,
        target: HELEMENT,
        code: BEHAVIOR_EVENTS,
        phase: PHASE_MASK,
        reason: EventReason,
    ) -> (handled: bool)
        ensures
            final(self).hwnd == old(self).hwnd,
            exists|m: &mut T|
                mut_ref_current(m) == old(self).handler && mut_ref_future(m) == final(self).handler
                    && #[trigger] call_ensures(T::on_event, (m, root, source, target, code, phase, reason), handled),
    {
        self.handler.on_event(root, source, target, code, phase, reason)
    }

    fn on_timer(&mut self, root: HELEMENT, timer_id: u64) -> (handled: bool)
        ensures
            final(self).hwnd == old(self).hwnd,
            exists|m: &mut T|
                mut_ref_current(m) == old(self).handler && mut_ref_future(m) == final(self).handler
                    && #[trigger] call_ensures(T::on_timer, (m, root, timer_id), handled),
    {
        self.handler.on_timer(root, timer_id)
    }
}

/// A handler as it is registered with the engine: the handler in its wrapper,
/// where it stands in its life, and what it subscribed to.
pub struct Registration<T> {
    handler: NativeHandler<T>,
    attached: bool,
    subscription: Option<EVENT_GROUPS>,
}

impl<T> Registration<T> {
    /// The handler, until it is destroyed.
    pub closed spec fn handler(&self) -> Option<T> {
        self.handler@
    }

    /// Where the handler stands in its life. It is detached exactly when it is
    /// destroyed.
    pub closed spec fn state(&self) -> HandlerState {
        if self.handler@ is None {
            HandlerState::Detached
        } else if self.attached {
            HandlerState::Attached
        } else {
            HandlerState::Unattached
        }
    }

    /// The groups that the handler asked for when it was last asked for its
    /// subscription: when it was registered, or when the engine requested it
    /// since. `None` where it stated no preference.
    pub closed spec fn subscription(&self) -> Option<EVENT_GROUPS> {
        self.subscription
    }

    /// Registers a handler. It is not yet attached. It is asked for its
    /// subscription at once, so that no event is ever held against a
    /// subscription that was not asked for: what is registered is the handler
    /// as that question left it, subscribed to what it answered.
    pub fn register(handler: T) -> (r: Registration<T>) where T: EventHandler
        ensures
            r.state() is Unattached,
            r.handler() is Some,
            exists|m: &mut T|
                mut_ref_current(m) == handler && Some(mut_ref_future(m)) == r.handler()
                    && #[trigger] call_ensures(T::get_subscription, (m,), r.subscription()),
    {
        let mut handler = handler;
        let subscription = handler.get_subscription();
        Registration { handler: NativeHandler::from(handler), attached: false, subscription }
    }

    /// Where the handler stands in its life.
    pub fn get_state(&self) -> (s: HandlerState)
        ensures
            s == self.state(),
            s is Detached <==> self.handler() is None,
    {
        if self.handler.is_null() {
            HandlerState::Detached
        } else if self.attached {
            HandlerState::Attached
        } else {
            HandlerState::Unattached
        }
    }

    /// The groups that the handler is subscribed to.
    pub fn get_subscription(&self) -> (s: Option<EVENT_GROUPS>)
        ensures
            s == self.subscription(),
    {
        self.subscription
    }

    /// Access the handler by reference, as long as it is not destroyed.
    pub fn get_handler(&self) -> (r: Option<&T>)
        ensures
            r is Some == self.handler() is Some,
            r matches Some(h) ==> self.handler() == Some(*h),
    {
        if self.handler.is_null() {
            None
        } else {
            Some(self.handler.as_ref())
        }
    }

    /// What a callback asks of the handler; see [`spec_delivery`].
    pub fn classify(&self, he: HELEMENT, evtg: u32, params: &EventParams) -> (d: Delivery)
        ensures
            d == spec_delivery(self.state(), self.subscription(), he, evtg, *params),
    {
        let state = self.get_state();
        match state {
            HandlerState::Detached => {
                return Delivery::Ignore;
            },
            _ => {},
        }
        if evtg == GROUP_SUBSCRIPTIONS_REQUEST {
            return match params {
                EventParams::Subscriptions(_) => Delivery::Subscription,
                _ => Delivery::Ignore,
            };
        }
        if evtg == GROUP_INITIALIZATION {
            return match params {
                EventParams::Initialization(p) => match p.cmd {
                    INITIALIZATION_EVENTS::BEHAVIOR_ATTACH => match state {
                        HandlerState::Unattached => Delivery::Attach,
                        _ => Delivery::Ignore,
                    },
                    INITIALIZATION_EVENTS::BEHAVIOR_DETACH => Delivery::Detach,
                },
                _ => Delivery::Ignore,
            };
        }
        let subscribed = match self.subscription {
            None => true,
            Some(groups) => groups.contains(evtg),
        };
        match state {
            HandlerState::Attached => {},
            _ => {
                return Delivery::Ignore;
            },
        }
        if he.is_null() || !subscribed {
            return Delivery::Ignore;
        }
        match params {
            EventParams::BehaviorEvent(_) => if evtg == GROUP_BEHAVIOR_EVENT {
                Delivery::Event
            } else {
                Delivery::Ignore
            },
            EventParams::ScriptingMethod(_) => if evtg == GROUP_SCRIPTING_METHOD_CALL {
                Delivery::ScriptCall
            } else {
                Delivery::Ignore
            },
            EventParams::Timer(_) => if evtg == GROUP_TIMER {
                Delivery::Timer
            } else {
                Delivery::Ignore
            },
            _ => Delivery::Ignore,
        }
    }
}

/// A behavior event as a handler is sent it.
#[derive(Clone, Copy, PartialEq, Eq, Structural, Debug)]
pub struct BehaviorEvent {
    /// The element that the event comes from.
    pub source: HELEMENT,
    /// The element that the event is about.
    pub target: HELEMENT,
    /// The event code.
    pub code: BEHAVIOR_EVENTS,
    /// The phase of the event.
    pub phase: PHASE_MASK,
    /// The reason of the event, of the kind that goes with the code.
    pub reason: EventReason,
}

/// What a handler is told of the document before it is sent an event: that
/// the document is complete, or that it is about to be removed.
#[derive(Clone, Copy, PartialEq, Eq, Structural, Debug)]
pub enum DocumentNotice {
    /// The document is complete.
    Complete,
    /// The document is about to be removed.
    Close,
}

/// The behavior event that a block of parameters stands for: the code from the
/// low bits of the packed number and the phase from its high bits, and the
/// reason of the kind that goes with the code.
pub open spec fn spec_behavior_event(nm: BEHAVIOR_EVENT_PARAMS) -> BehaviorEvent {
    let code = BEHAVIOR_EVENTS::spec_from_code(crate::scbehavior::spec_event_code(nm.cmd));
    BehaviorEvent {
        source: nm.he,
        target: nm.heTarget,
        code,
        phase: crate::scbehavior::spec_phase_of(nm.cmd),
        reason: crate::dom::event::spec_reason_of(code, nm.reason),
    }
}

/// What a handler is told of the document with an event: of its completion
/// and of its removal, and each only once, while the event is on its way
/// down.
pub open spec fn spec_document_notice(event: BehaviorEvent) -> Option<DocumentNotice> {
    if event.phase == PHASE_MASK::SINKING && event.code == BEHAVIOR_EVENTS::DOCUMENT_COMPLETE {
        Some(DocumentNotice::Complete)
    } else if event.phase == PHASE_MASK::SINKING && event.code == BEHAVIOR_EVENTS::DOCUMENT_CLOSE {
        Some(DocumentNotice::Close)
    } else {
        None
    }
}

/// The behavior event that a block of parameters stands for.
pub fn behavior_event(nm: &BEHAVIOR_EVENT_PARAMS) -> (event: BehaviorEvent)
    ensures
        event == spec_behavior_event(*nm),
{
    let code = event_code(nm.cmd);
    let phase = event_phase(nm.cmd);
    let reason = reason_of(code, nm.reason);
    BehaviorEvent { source: nm.he, target: nm.heTarget, code, phase, reason }
}

/// What a handler is told of the document with an event.
pub fn document_notice(event: &BehaviorEvent) -> (notice: Option<DocumentNotice>)
    ensures
        notice == spec_document_notice(*event),
{
    match event.phase {
        // catch this only once
        PHASE_MASK::SINKING => match event.code {
            BEHAVIOR_EVENTS::DOCUMENT_COMPLETE => Some(DocumentNotice::Complete),
            BEHAVIOR_EVENTS::DOCUMENT_CLOSE => Some(DocumentNotice::Close),
            _ => None,
        },
        _ => None,
    }
}

/// The answer to a request for the subscription: whether the handler stated
/// a preference. Where it did, the groups are written to `out`, the place
/// that the engine reads them from; where it did not, `out` is left as it
/// was, and the engine falls back to its own set of groups.
pub fn subscription_outcome(needed: Option<EVENT_GROUPS>, out: &mut EVENT_GROUPS) -> (handled: bool)
    ensures
        handled == needed is Some,
        needed matches Some(groups) ==> *final(out) == groups,
        needed is None ==> *final(out) == *old(out),
{
    match needed {
        Some(groups) => {
            *out = groups;
            true
        },
        None => false,
    }
}

/// The answer to a call from script: whether the handler took the call.
/// Where it did, the value that it returned is packed into `slot`, the place
/// that the engine reads it from; where it did not, `slot` is left as it was.
pub fn script_call_outcome(rv: Option<Value>, slot: &mut Value) -> (handled: bool)
    ensures
        handled == rv is Some,
        rv matches Some(v) ==> final(slot)@ == v@,
        rv is None ==> *final(slot) == *old(slot),
{
    match rv {
        Some(v) => {
            v.pack_to(slot);
            true
        },
        None => false,
    }
}

/// The callback of the engine for an element's handler.
///
/// `tag` is the registered handler, `he` the element that the handler is
/// attached to, `evtg` the number of the event group, and `params` the block
/// of parameters that goes with it. The result is whether the event was
/// handled.
///
/// What is asked of the handler is [`spec_delivery`] of the state, the
/// subscription and the event. A callback that is not delivered changes
/// nothing and is answered `false`; nothing of the handler is touched then.
/// On attach and on detach the answer is `true`, and after a detach the
/// handler is destroyed. The answer to a delivered event is the handler's
/// own. A behavior event is handed to the handler as [`behavior_event`] reads
/// it, after the handler was told what [`document_notice`] finds in it; a call
/// from script is handed over with owned copies of its arguments. See
/// [`subscription_outcome`] and [`script_call_outcome`] for what is written
/// back to `params`.
pub fn _event_handler_proc<T: EventHandler>(
    tag: &mut Registration<T>,
    he: HELEMENT,
    evtg: u32,
    params: &mut EventParams,
) -> (handled: bool)
    ensures
        ({
            let d = spec_delivery(old(tag).state(), old(tag).subscription(), he, evtg, *old(params));
            &&& final(tag).state() == spec_next_state(old(tag).state(), d)
            &&& final(tag).state() is Detached <==> final(tag).handler() is None
            &&& d is Ignore ==> !handled && *final(tag) == *old(tag) && *final(params) == *old(params)
            &&& d is Attach || d is Detach ==> handled && *final(params) == *old(params)
            &&& !(d is Subscription) ==> final(tag).subscription() == old(tag).subscription()
            &&& d is Subscription ==> {
                &&& handled == final(tag).subscription() is Some
                &&& handled ==> *final(params) == EventParams::Subscriptions(final(tag).subscription()->0)
                &&& !handled ==> *final(params) == *old(params)
            }
            &&& d is Event || d is Timer ==> *final(params) == *old(params)
            &&& d is ScriptCall ==> {
                &&& (*final(params)) is ScriptingMethod
                &&& (*final(params))->ScriptingMethod_0.name == (*old(params))->ScriptingMethod_0.name
                &&& (*final(params))->ScriptingMethod_0.argv == (*old(params))->ScriptingMethod_0.argv
                &&& !handled ==> *final(params) == *old(params)
            }
            &&& !(d is Ignore) ==> old(tag).handler() is Some
            &&& d is Subscription ==> exists|m: &mut T|
                mut_ref_current(m) == old(tag).handler()->0 && final(tag).handler() == Some(mut_ref_future(m))
                    && #[trigger] call_ensures(T::get_subscription, (m,), final(tag).subscription())
            &&& d is Attach ==> exists|m: &mut T|
                mut_ref_current(m) == old(tag).handler()->0 && final(tag).handler() == Some(mut_ref_future(m))
                    && #[trigger] call_ensures(T::attached, (m, he), ())
            &&& d is Detach ==> exists|m: &mut T|
                mut_ref_current(m) == old(tag).handler()->0 && #[trigger] call_ensures(T::detached, (m, he), ())
            &&& d is Timer ==> exists|m: &mut T|
                mut_ref_current(m) == old(tag).handler()->0 && final(tag).handler() == Some(mut_ref_future(m))
                    && #[trigger] call_ensures(
                    T::on_timer,
                    (m, he, (*old(params))->Timer_0.timerId as u64),
                    handled,
                )
            &&& d is Event ==> ({
                let e = spec_behavior_event((*old(params))->BehaviorEvent_0);
                match spec_document_notice(e) {
                    None => exists|m: &mut T|
                        mut_ref_current(m) == old(tag).handler()->0 && final(tag).handler() == Some(
                            mut_ref_future(m),
                        ) && #[trigger] call_ensures(
                            T::on_event,
                            (m, he, e.source, e.target, e.code, e.phase, e.reason),
                            handled,
                        ),
                    Some(DocumentNotice::Complete) => exists|m1: &mut T, m2: &mut T|
                        #![trigger call_ensures(T::document_complete, (m1, he, e.target), ()), call_ensures(T::on_event, (m2, he, e.source, e.target, e.code, e.phase, e.reason), handled)]
                        mut_ref_current(m1) == old(tag).handler()->0 && call_ensures(
                            T::document_complete,
                            (m1, he, e.target),
                            (),
                        ) && mut_ref_current(m2) == mut_ref_future(m1) && final(tag).handler() == Some(
                            mut_ref_future(m2),
                        ) && call_ensures(
                            T::on_event,
                            (m2, he, e.source, e.target, e.code, e.phase, e.reason),
                            handled,
                        ),
                    Some(DocumentNotice::Close) => exists|m1: &mut T, m2: &mut T|
                        #![trigger call_ensures(T::document_close, (m1, he, e.target), ()), call_ensures(T::on_event, (m2, he, e.source, e.target, e.code, e.phase, e.reason), handled)]
                        mut_ref_current(m1) == old(tag).handler()->0 && call_ensures(
                            T::document_close,
                            (m1, he, e.target),
                            (),
                        ) && mut_ref_current(m2) == mut_ref_future(m1) && final(tag).handler() == Some(
                            mut_ref_future(m2),
                        ) && call_ensures(
                            T::on_event,
                            (m2, he, e.source, e.target, e.code, e.phase, e.reason),
                            handled,
                        ),
                }
            })
            &&& d is ScriptCall ==> exists|m: &mut T, name: &str, args: &[Value], rv: Option<Value>|
                mut_ref_current(m) == old(tag).handler()->0 && final(tag).handler() == Some(mut_ref_future(m))
                    && name@ == (*old(params))->ScriptingMethod_0.name@ && models(args@) == models(
                    (*old(params))->ScriptingMethod_0.argv@,
                ) && #[trigger] call_ensures(T::on_script_call, (m, he, name, args), rv) && handled
                    == rv is Some && (rv matches Some(v) ==> (*final(params))->ScriptingMethod_0.result@ == v@)
        }),
{
    let d = tag.classify(he, evtg, params);
    match d {
        Delivery::Ignore => {
            return false;
        },
        _ => {},
    }
    // the handler is there: a detached one is asked nothing
    let mut me = match tag.handler.take() {
        Some(me) => me,
        None => {
            return false;
        },
    };
    match d {
        Delivery::Subscription => {
            let needed = me.get_subscription();
            tag.subscription = needed;
            tag.handler.put(me);
            let mut out = EVENT_GROUPS::HANDLE_ALL;
            let handled = subscription_outcome(needed, &mut out);
            if handled {
                *params = EventParams::Subscriptions(out);
            }
            handled
        },
        Delivery::Attach => {
            me.attached(he);
            tag.attached = true;
            tag.handler.put(me);
            true
        },
        Delivery::Detach => {
            me.detached(he);
            // here we drop our handler; its wrapper stays empty
            tag.handler.destroy();
            true
        },
        Delivery::Event => {
            let handled = match &*params {
                EventParams::BehaviorEvent(nm) => {
                    let event = behavior_event(nm);
                    match document_notice(&event) {
                        Some(DocumentNotice::Complete) => {
                            me.document_complete(he, event.target);
                        },
                        Some(DocumentNotice::Close) => {
                            me.document_close(he, event.target);
                        },
                        None => {},
                    }
                    me.on_event(he, event.source, event.target, event.code, event.phase, event.reason)
                },
                _ => false,
            };
            tag.handler.put(me);
            handled
        },
        Delivery::ScriptCall => {
            let mut taken = EventParams::Nothing;
            std::mem::swap(params, &mut taken);
            let handled = match taken {
                EventParams::ScriptingMethod(nm) => {
                    let SCRIPTING_METHOD_PARAMS { name, argv, result } = nm;
                    let args = Value::unpack_from(argv.as_slice());
                    let rv = me.on_script_call(he, name.as_str(), args.as_slice());
                    let mut result = result;
                    let handled = script_call_outcome(rv, &mut result);
                    *params = EventParams::ScriptingMethod(SCRIPTING_METHOD_PARAMS { name, argv, result });
                    handled
                },
                other => {
                    *params = other;
                    false
                },
            };
            tag.handler.put(me);
            handled
        },
        Delivery::Timer => {
            let handled = match &*params {
                EventParams::Timer(nm) => me.on_timer(he, nm.timerId as u64),
                _ => false,
            };
            tag.handler.put(me);
            handled
        },
        Delivery::Ignore => {
            tag.handler.put(me);
            false
        },
    }
}

/// The callback of the engine for a window's handler.
///
/// `root` is the root element of the window's document; it is no element
/// while the window has no document. A window's handler is dispatched to as
/// an element's handler is, with the root in the place of the element: what
/// holds of a call of [`_event_handler_proc`] holds of this call. So the
/// handler is attached and detached whether or not the window has a
/// document, and is sent no other event before the window has one.
pub fn _event_handler_window_proc<T: EventHandler>(
    tag: &mut Registration<WindowHandler<T>>,
    root: HELEMENT,
    evtg: u32,
    params: &mut EventParams,
) -> (handled: bool)
    ensures
        exists|t: &mut Registration<WindowHandler<T>>, p: &mut EventParams|
            mut_ref_current(t) == *old(tag) && mut_ref_future(t) == *final(tag) && mut_ref_current(p) == *old(
                params,
            ) && mut_ref_future(p) == *final(params) && #[trigger] call_ensures(
                _event_handler_proc::<WindowHandler<T>>,
                (t, root, evtg, p),
                handled,
            ),
{
    _event_handler_proc(tag, root, evtg, params)
}

/// How far a handler has come in its life.
pub open spec fn spec_rank(state: HandlerState) -> nat {
    match state {
        HandlerState::Unattached => 0,
        HandlerState::Attached => 1,
        HandlerState::Detached => 2,
    }
}

/// The state after a callback, whatever the callback is.
pub open spec fn spec_step(
    state: HandlerState,
    subscription: Option<EVENT_GROUPS>,
    he: HELEMENT,
    evtg: u32,
    params: EventParams,
) -> HandlerState {
    spec_next_state(state, spec_delivery(state, subscription, he, evtg, params))
}

/// The life of a handler.
///
/// A detach after an attach leaves the handler detached. A detached handler
/// is asked nothing and stays detached, whatever is sent: no attach is seen by
/// it again. An attach is seen only by a handler that was never attached. A
/// handler never goes back in its life.
pub proof fn lemma_lifecycle(
    state: HandlerState,
    subscription: Option<EVENT_GROUPS>,
    he: HELEMENT,
    evtg: u32,
    params: EventParams,
)
    ensures
        spec_delivery(HandlerState::Detached, subscription, he, evtg, params) is Ignore,
        spec_step(HandlerState::Detached, subscription, he, evtg, params) is Detached,
        spec_delivery(state, subscription, he, evtg, params) is Attach ==> state is Unattached,
        spec_delivery(state, subscription, he, evtg, params) is Detach ==> !(state is Detached),
        spec_rank(state) <= spec_rank(spec_step(state, subscription, he, evtg, params)),
        spec_step(state, subscription, he, evtg, params) is Attached ==> state is Attached
            || spec_delivery(state, subscription, he, evtg, params) is Attach,
{
}

/// Attach, then detach: the handler is attached by the first and detached by
/// the second, and an attach that follows is ignored.
pub proof fn lemma_attach_detach(subscription: Option<EVENT_GROUPS>, he: HELEMENT)
    ensures
        ({
            let attach = EventParams::Initialization(
                INITIALIZATION_PARAMS { cmd: INITIALIZATION_EVENTS::BEHAVIOR_ATTACH },
            );
            let detach = EventParams::Initialization(
                INITIALIZATION_PARAMS { cmd: INITIALIZATION_EVENTS::BEHAVIOR_DETACH },
            );
            let first = spec_step(HandlerState::Unattached, subscription, he, GROUP_INITIALIZATION, attach);
            let second = spec_step(first, subscription, he, GROUP_INITIALIZATION, detach);
            &&& first is Attached
            &&& second is Detached
            &&& spec_delivery(second, subscription, he, GROUP_INITIALIZATION, attach) is Ignore
            &&& spec_step(second, subscription, he, GROUP_INITIALIZATION, attach) is Detached
        }),
{
}

/// Before it is attached a handler is sent no event: all that reaches it is
/// the request for its subscription, the attach and the detach.
pub proof fn lemma_nothing_before_attach(
    subscription: Option<EVENT_GROUPS>,
    he: HELEMENT,
    evtg: u32,
    params: EventParams,
)
    ensures
        ({
            let d = spec_delivery(HandlerState::Unattached, subscription, he, evtg, params);
            d is Ignore || d is Subscription || d is Attach || d is Detach
        }),
        evtg != GROUP_SUBSCRIPTIONS_REQUEST && evtg != GROUP_INITIALIZATION ==> spec_delivery(
            HandlerState::Unattached,
            subscription,
            he,
            evtg,
            params,
        ) is Ignore,
{
}

/// A handler is sent no event of a group that it did not subscribe to.
pub proof fn lemma_subscription_is_consulted(
    state: HandlerState,
    groups: EVENT_GROUPS,
    he: HELEMENT,
    evtg: u32,
    params: EventParams,
)
    requires
        evtg != GROUP_SUBSCRIPTIONS_REQUEST,
        evtg != GROUP_INITIALIZATION,
        !groups.spec_contains(evtg),
    ensures
        spec_delivery(state, Some(groups), he, evtg, params) is Ignore,
{
}

/// A handler that subscribed to timer events alone is sent no behavior event
/// and no call from script, wherever it stands in its life and whatever the
/// engine sends. A timer event reaches it once it is attached.
pub proof fn lemma_timer_alone(state: HandlerState, he: HELEMENT, params: EventParams)
    ensures
        spec_delivery(state, Some(EVENT_GROUPS::HANDLE_TIMER), he, GROUP_BEHAVIOR_EVENT, params) is Ignore,
        spec_delivery(state, Some(EVENT_GROUPS::HANDLE_TIMER), he, GROUP_SCRIPTING_METHOD_CALL, params) is Ignore,
        state is Attached && he.0 != 0 && params is Timer ==> spec_delivery(
            state,
            Some(EVENT_GROUPS::HANDLE_TIMER),
            he,
            GROUP_TIMER,
            params,
        ) is Timer,
{
    assert(0x10u32 & 0x100u32 == 0) by (bit_vector);
    assert(0x10u32 & 0x400u32 == 0) by (bit_vector);
    assert(0x10u32 & 0x10u32 != 0) by (bit_vector);
}

} // verus!
