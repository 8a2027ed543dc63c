//! Behaviors and event handling.
//!
//! A behavior is a handler of events that is bound to an element: the engine
//! attaches it, sends it the events of the groups that it subscribed to, and
//! detaches it, after which it is gone.

#![allow(non_camel_case_types, non_snake_case)]

use crate::scbehavior::{BEHAVIOR_EVENTS, EDIT_CHANGED_REASON, EVENT_GROUPS, EVENT_REASON, PHASE_MASK};
use crate::scdom::HELEMENT;
use crate::value::Value;
use vstd::prelude::*;

verus! {

/// Reason of a behavior event. Which kind of reason an event has goes by its
/// code, never by its phase.
#[derive(Clone, Copy, PartialEq, Eq, Structural, Debug)]
pub enum EventReason {
    /// General event source triggers (by mouse, key or synthesized).
    General(EVENT_REASON),
    /// Edit control change trigger.
    EditChanged(EDIT_CHANGED_REASON),
    /// `<video>` request for frame source binding: a handle of the engine's
    /// that this library does not look into.
    VideoBind(usize),
}

/// The kind of reason that goes with an event code, read from the number
/// `reason` that came with the event.
pub open spec fn spec_reason_of(code: BEHAVIOR_EVENTS, reason: usize) -> EventReason {
    match code {
        BEHAVIOR_EVENTS::EDIT_VALUE_CHANGED | BEHAVIOR_EVENTS::EDIT_VALUE_CHANGING => EventReason::EditChanged(
            EDIT_CHANGED_REASON::spec_from_code(reason),
        ),
        BEHAVIOR_EVENTS::VIDEO_BIND_RQ => EventReason::VideoBind(reason),
        _ => EventReason::General(EVENT_REASON::spec_from_code(reason)),
    }
}

/// The kind of reason that goes with an event code, read from the number
/// `reason` that came with the event.
pub fn reason_of(code: BEHAVIOR_EVENTS, reason: usize) -> (r: EventReason)
    ensures
        r == spec_reason_of(code, reason),
{
    match code {
        BEHAVIOR_EVENTS::EDIT_VALUE_CHANGED | BEHAVIOR_EVENTS::EDIT_VALUE_CHANGING => EventReason::EditChanged(
            EDIT_CHANGED_REASON::from_code(reason),
        ),
        BEHAVIOR_EVENTS::VIDEO_BIND_RQ => EventReason::VideoBind(reason),
        _ => EventReason::General(EVENT_REASON::from_code(reason)),
    }
}

/// The number of the group of behavior events: the one group whose events
/// have a reason.
pub const GROUP_OF_REASONS: u32 = 0x0100;

/// The reason of an event of the group `group` with the code `code`: a
/// behavior event has the reason that goes with its code, and an event of any
/// other group has none.
pub open spec fn spec_classify(group: u32, code: BEHAVIOR_EVENTS, reason: usize) -> Option<EventReason> {
    if group == GROUP_OF_REASONS {
        Some(spec_reason_of(code, reason))
    } else {
        None
    }
}

/// The reason of an event of the group `group` with the code `code`.
pub fn classify(group: u32, code: BEHAVIOR_EVENTS, reason: usize) -> (r: Option<EventReason>)
    ensures
        r == spec_classify(group, code, reason),
{
    if group == GROUP_OF_REASONS {
        Some(reason_of(code, reason))
    } else {
        None
    }
}

/// The kind of reason is chosen by the event code alone: the changes of an
/// editor have a reason of their own, the binding of a video carries a handle,
/// and every other event has a general reason.
pub proof fn lemma_reason_goes_by_code(code: BEHAVIOR_EVENTS, reason: usize, other: usize)
    ensures
        spec_reason_of(code, reason) is EditChanged <==> code == BEHAVIOR_EVENTS::EDIT_VALUE_CHANGED
            || code == BEHAVIOR_EVENTS::EDIT_VALUE_CHANGING,
        spec_reason_of(code, reason) is VideoBind <==> code == BEHAVIOR_EVENTS::VIDEO_BIND_RQ,
        spec_reason_of(code, reason) is General <==> !(code == BEHAVIOR_EVENTS::EDIT_VALUE_CHANGED
            || code == BEHAVIOR_EVENTS::EDIT_VALUE_CHANGING || code == BEHAVIOR_EVENTS::VIDEO_BIND_RQ),
        spec_reason_of(code, reason) is General == spec_reason_of(code, other) is General,
        spec_reason_of(code, reason) is EditChanged == spec_reason_of(code, other) is EditChanged,
{
}

/// DOM event handler which can be attached to any DOM element.
///
/// In notifications `root` means the DOM element to which we are attached
/// (`<html>` for window event handlers).
///
/// For all methods a default implementation is provided, so you have to
/// implement only the ones you need.
pub trait EventHandler {
    /// Return list of event groups this event handler is subscribed to.
    ///
    /// `None` is no preference: the handler is then sent the events of every
    /// group.
    ///
    /// A handler that does not say otherwise states no preference, and is
    /// left as it is.
    fn get_subscription(&mut self) -> (r: Option<EVENT_GROUPS>) where Self: Sized
        default_ensures
            r is None,
            *final(self) == *old(self),
    {
        None
    }

    /// Called when handler was attached to element or window.
    ///
    /// A handler that does not say otherwise is left as it is.
    fn attached(&mut self, root: HELEMENT) where Self: Sized
        default_ensures
            *final(self) == *old(self),
    {
    }

    /// Called when handler was detached from element or window.
    ///
    /// A handler that does not say otherwise is left as it is.
    fn detached(&mut self, root: HELEMENT) where Self: Sized
        default_ensures
            *final(self) == *old(self),
    {
    }

    /// Notification that document finishes its loading - all requests for
    /// external resources are finished.
    ///
    /// A handler that does not say otherwise is left as it is.
    fn document_complete(&mut self, root: HELEMENT, target: HELEMENT) where Self: Sized
        default_ensures
            *final(self) == *old(self),
    {
    }

    /// The last notification before document removal from the DOM.
    ///
    /// A handler that does not say otherwise is left as it is.
    fn document_close(&mut self, root: HELEMENT, target: HELEMENT) where Self: Sized
        default_ensures
            *final(self) == *old(self),
    {
    }

    /// Calls from script. `None` is "the call was not handled".
    ///
    /// A handler that does not say otherwise handles no call, and is left as
    /// it is.
    fn on_script_call(&mut self, root: HELEMENT, name: &str, args: &[Value]) -> (r: Option<Value>) where
        Self: Sized,

        default_ensures
            r is None,
            *final(self) == *old(self),
    {
        None
    }

    /// Notification event from builtin behaviors. Returns whether the event
    /// was consumed.
    ///
    /// A handler that does not say otherwise consumes no event, and is left
    /// as it is.
    fn on_event(
        &mut self,
        root: HELEMENT,
        source: HELEMENT,
        target: HELEMENT,
        code: BEHAVIOR_EVENTS,
        phase: PHASE_MASK,
        reason: EventReason,
    ) -> (handled: bool) where Self: Sized
        default_ensures
            !handled,
            *final(self) == *old(self),
    {
        false
    }

    /// Timer event from attached element. Returns whether the timer is to go on.
    ///
    /// A handler that does not say otherwise lets the timer end, and is left
    /// as it is.
    fn on_timer(&mut self, root: HELEMENT, timer_id: u64) -> (handled: bool) where Self: Sized
        default_ensures
            !handled,
            *final(self) == *old(self),
    {
        false
    }
}

} // verus!
