//! Behaviors support: the groups, codes, phases and reasons of events, and the
//! parameter blocks that come with them.
//!
//! Every rule on how an event is packed into numbers lives in this module,
//! so that the dispatch of events holds no bit pattern of its own.

#![allow(non_camel_case_types, non_snake_case)]

use crate::scdom::HELEMENT;
use crate::value::Value;
use vstd::prelude::*;

verus! {

/// What an initialization event tells: a handler is attached or detached.
#[derive(Clone, Copy, PartialEq, Eq, Structural, Debug)]
pub enum INITIALIZATION_EVENTS {
    /// The handler is detached from its element; it is destroyed and not used again.
    BEHAVIOR_DETACH,
    /// The handler is attached to its element.
    BEHAVIOR_ATTACH,
}

impl INITIALIZATION_EVENTS {
    /// The number that the engine uses for this variant.
    pub open spec fn spec_code(self) -> int {
        match self {
            INITIALIZATION_EVENTS::BEHAVIOR_DETACH => 0,
            INITIALIZATION_EVENTS::BEHAVIOR_ATTACH => 1,
        }
    }

    /// The variant that a number stands for, if there is one.
    pub open spec fn spec_from_code(code: int) -> Option<INITIALIZATION_EVENTS> {
        if code == 0 {
            Some(INITIALIZATION_EVENTS::BEHAVIOR_DETACH)
        } else if code == 1 {
            Some(INITIALIZATION_EVENTS::BEHAVIOR_ATTACH)
        } else {
            None
        }
    }

    /// The number that the engine uses for this variant.
    pub fn code(self) -> (code: u32)
        ensures
            code == self.spec_code(),
    {
        match self {
            INITIALIZATION_EVENTS::BEHAVIOR_DETACH => 0,
            INITIALIZATION_EVENTS::BEHAVIOR_ATTACH => 1,
        }
    }

    /// Reads a number back into its variant; `None` for a number that stands for none.
    pub fn from_code(code: u32) -> (r: Option<INITIALIZATION_EVENTS>)
        ensures
            r == Self::spec_from_code(code as int),
    {
        if code == 0 {
            Some(INITIALIZATION_EVENTS::BEHAVIOR_DETACH)
        } else if code == 1 {
            Some(INITIALIZATION_EVENTS::BEHAVIOR_ATTACH)
        } else {
            None
        }
    }

    /// Each variant is read back from its own code, and a number that is read back
    /// into a variant is that variant's code.
    pub proof fn lemma_code_round_trip(v: INITIALIZATION_EVENTS, code: int)
        ensures
            Self::spec_from_code(v.spec_code()) == Some(v),
            Self::spec_from_code(code) == Some(v) ==> v.spec_code() == code,
    {
    }
}

/// Parameters of an initialization event.
#[derive(Clone, Copy, PartialEq, Eq, Structural, Debug)]
pub struct INITIALIZATION_PARAMS {
    pub cmd: INITIALIZATION_EVENTS,
}

/// Parameters of a behavior event.
pub struct BEHAVIOR_EVENT_PARAMS {
    /// The event code and the phase, packed into one number.
    pub cmd: u32,
    /// The target element.
    pub heTarget: HELEMENT,
    /// The source element.
    pub he: HELEMENT,
    /// The reason of the event; what it means goes by the event code.
    pub reason: usize,
    /// Auxiliary data.
    pub data: Value,
}

/// Parameters of a call of a native method from script.
pub struct SCRIPTING_METHOD_PARAMS {
    /// The name of the method.
    pub name: String,
    /// The arguments of the call.
    pub argv: Vec<Value>,
    /// The slot for the value that the call returns.
    pub result: Value,
}

/// Parameters of a timer event.
#[derive(Clone, Copy, PartialEq, Eq, Structural, Debug)]
pub struct TIMER_PARAMS {
    /// The id of the timer, as it was given when the timer was started.
    pub timerId: usize,
}

/// Groups of events: a mask of the categories that a handler is interested in.
///
/// A group is one bit of the mask. Groups are joined with `|`.
#[derive(Clone, Copy, PartialEq, Eq, Structural, Debug)]
pub enum EVENT_GROUPS {
    /// Attached/detached.
    HANDLE_INITIALIZATION,
    /// Mouse events.
    HANDLE_MOUSE,
    /// Key events.
    HANDLE_KEY,
    /// Focus events; if this flag is set it also means that the element is focusable.
    HANDLE_FOCUS,
    /// Scroll events.
    HANDLE_SCROLL,
    /// Timer event.
    HANDLE_TIMER,
    /// Size changed event.
    HANDLE_SIZE,
    /// Drawing request (event).
    HANDLE_DRAW,
    /// Requested data has been delivered.
    HANDLE_DATA_ARRIVED,
    /// Logical, synthetic events: `BUTTON_CLICK`, `HYPERLINK_CLICK`, etc.
    HANDLE_BEHAVIOR_EVENT,
    /// Behavior specific methods.
    HANDLE_METHOD_CALL,
    /// Behavior specific methods, called from script.
    HANDLE_SCRIPTING_METHOD_CALL,
    /// Behavior specific methods using direct script values.
    HANDLE_TISCRIPT_METHOD_CALL,
    /// System drag-n-drop.
    HANDLE_EXCHANGE,
    /// Touch input events.
    HANDLE_GESTURE,
    /// All of them.
    HANDLE_ALL,
    /// Special value for getting subscription flags; it is a question, not a group.
    SUBSCRIPTIONS_REQUEST,
    /// A mask of several groups that has no name of its own.
    UNION(u32),
}

impl EVENT_GROUPS {
    /// The number that the engine uses for this value.
    pub open spec fn spec_code(self) -> u32 {
        match self {
            EVENT_GROUPS::HANDLE_INITIALIZATION => 0x0000,
            EVENT_GROUPS::HANDLE_MOUSE => 0x0001,
            EVENT_GROUPS::HANDLE_KEY => 0x0002,
            EVENT_GROUPS::HANDLE_FOCUS => 0x0004,
            EVENT_GROUPS::HANDLE_SCROLL => 0x0008,
            EVENT_GROUPS::HANDLE_TIMER => 0x0010,
            EVENT_GROUPS::HANDLE_SIZE => 0x0020,
            EVENT_GROUPS::HANDLE_DRAW => 0x0040,
            EVENT_GROUPS::HANDLE_DATA_ARRIVED => 0x0080,
            EVENT_GROUPS::HANDLE_BEHAVIOR_EVENT => 0x0100,
            EVENT_GROUPS::HANDLE_METHOD_CALL => 0x0200,
            EVENT_GROUPS::HANDLE_SCRIPTING_METHOD_CALL => 0x0400,
            EVENT_GROUPS::HANDLE_TISCRIPT_METHOD_CALL => 0x0800,
            EVENT_GROUPS::HANDLE_EXCHANGE => 0x1000,
            EVENT_GROUPS::HANDLE_GESTURE => 0x2000,
            EVENT_GROUPS::HANDLE_ALL => 0xFFFF,
            EVENT_GROUPS::SUBSCRIPTIONS_REQUEST => 0xFFFF_FFFF,
            EVENT_GROUPS::UNION(code) => code,
        }
    }

    /// Whether a number has a name among the variants.
    pub open spec fn is_named(code: u32) -> bool {
        code == 0x0000
        || code == 0x0001
        || code == 0x0002
        || code == 0x0004
        || code == 0x0008
        || code == 0x0010
        || code == 0x0020
        || code == 0x0040
        || code == 0x0080
        || code == 0x0100
        || code == 0x0200
        || code == 0x0400
        || code == 0x0800
        || code == 0x1000
        || code == 0x2000
        || code == 0xFFFF
        || code == 0xFFFF_FFFF
    }

    /// The value that a number stands for.
    pub open spec fn spec_from_code(code: u32) -> EVENT_GROUPS {
        if code == 0x0000 {
            EVENT_GROUPS::HANDLE_INITIALIZATION
        } else if code == 0x0001 {
            EVENT_GROUPS::HANDLE_MOUSE
        } else if code == 0x0002 {
            EVENT_GROUPS::HANDLE_KEY
        } else if code == 0x0004 {
            EVENT_GROUPS::HANDLE_FOCUS
        } else if code == 0x0008 {
            EVENT_GROUPS::HANDLE_SCROLL
        } else if code == 0x0010 {
            EVENT_GROUPS::HANDLE_TIMER
        } else if code == 0x0020 {
            EVENT_GROUPS::HANDLE_SIZE
        } else if code == 0x0040 {
            EVENT_GROUPS::HANDLE_DRAW
        } else if code == 0x0080 {
            EVENT_GROUPS::HANDLE_DATA_ARRIVED
        } else if code == 0x0100 {
            EVENT_GROUPS::HANDLE_BEHAVIOR_EVENT
        } else if code == 0x0200 {
            EVENT_GROUPS::HANDLE_METHOD_CALL
        } else if code == 0x0400 {
            EVENT_GROUPS::HANDLE_SCRIPTING_METHOD_CALL
        } else if code == 0x0800 {
            EVENT_GROUPS::HANDLE_TISCRIPT_METHOD_CALL
        } else if code == 0x1000 {
            EVENT_GROUPS::HANDLE_EXCHANGE
        } else if code == 0x2000 {
            EVENT_GROUPS::HANDLE_GESTURE
        } else if code == 0xFFFF {
            EVENT_GROUPS::HANDLE_ALL
        } else if code == 0xFFFF_FFFF {
            EVENT_GROUPS::SUBSCRIPTIONS_REQUEST
        } else {
            EVENT_GROUPS::UNION(code)
        }
    }

    /// Whether the value is written in its one proper form: a number that
    /// has a name is written by its name.
    pub open spec fn wf(self) -> bool {
        match self {
            EVENT_GROUPS::UNION(code) => !Self::is_named(code),
            _ => true,
        }
    }

    /// The number that the engine uses for this value.
    pub fn code(self) -> (code: u32)
        ensures
            code == self.spec_code(),
    {
        match self {
            EVENT_GROUPS::HANDLE_INITIALIZATION => 0x0000,
            EVENT_GROUPS::HANDLE_MOUSE => 0x0001,
            EVENT_GROUPS::HANDLE_KEY => 0x0002,
            EVENT_GROUPS::HANDLE_FOCUS => 0x0004,
            EVENT_GROUPS::HANDLE_SCROLL => 0x0008,
            EVENT_GROUPS::HANDLE_TIMER => 0x0010,
            EVENT_GROUPS::HANDLE_SIZE => 0x0020,
            EVENT_GROUPS::HANDLE_DRAW => 0x0040,
            EVENT_GROUPS::HANDLE_DATA_ARRIVED => 0x0080,
            EVENT_GROUPS::HANDLE_BEHAVIOR_EVENT => 0x0100,
            EVENT_GROUPS::HANDLE_METHOD_CALL => 0x0200,
            EVENT_GROUPS::HANDLE_SCRIPTING_METHOD_CALL => 0x0400,
            EVENT_GROUPS::HANDLE_TISCRIPT_METHOD_CALL => 0x0800,
            EVENT_GROUPS::HANDLE_EXCHANGE => 0x1000,
            EVENT_GROUPS::HANDLE_GESTURE => 0x2000,
            EVENT_GROUPS::HANDLE_ALL => 0xFFFF,
            EVENT_GROUPS::SUBSCRIPTIONS_REQUEST => 0xFFFF_FFFF,
            EVENT_GROUPS::UNION(code) => code,
        }
    }

    /// Reads a number back into the value that it stands for.
    pub fn from_code(code: u32) -> (r: EVENT_GROUPS)
        ensures
            r == Self::spec_from_code(code),
            r.wf(),
            r.spec_code() == code,
    {
        if code == 0x0000 {
            EVENT_GROUPS::HANDLE_INITIALIZATION
        } else if code == 0x0001 {
            EVENT_GROUPS::HANDLE_MOUSE
        } else if code == 0x0002 {
            EVENT_GROUPS::HANDLE_KEY
        } else if code == 0x0004 {
            EVENT_GROUPS::HANDLE_FOCUS
        } else if code == 0x0008 {
            EVENT_GROUPS::HANDLE_SCROLL
        } else if code == 0x0010 {
            EVENT_GROUPS::HANDLE_TIMER
        } else if code == 0x0020 {
            EVENT_GROUPS::HANDLE_SIZE
        } else if code == 0x0040 {
            EVENT_GROUPS::HANDLE_DRAW
        } else if code == 0x0080 {
            EVENT_GROUPS::HANDLE_DATA_ARRIVED
        } else if code == 0x0100 {
            EVENT_GROUPS::HANDLE_BEHAVIOR_EVENT
        } else if code == 0x0200 {
            EVENT_GROUPS::HANDLE_METHOD_CALL
        } else if code == 0x0400 {
            EVENT_GROUPS::HANDLE_SCRIPTING_METHOD_CALL
        } else if code == 0x0800 {
            EVENT_GROUPS::HANDLE_TISCRIPT_METHOD_CALL
        } else if code == 0x1000 {
            EVENT_GROUPS::HANDLE_EXCHANGE
        } else if code == 0x2000 {
            EVENT_GROUPS::HANDLE_GESTURE
        } else if code == 0xFFFF {
            EVENT_GROUPS::HANDLE_ALL
        } else if code == 0xFFFF_FFFF {
            EVENT_GROUPS::SUBSCRIPTIONS_REQUEST
        } else {
            EVENT_GROUPS::UNION(code)
        }
    }

    /// Every number is read back into a value in proper form that has that
    /// number, and a value in proper form is read back from its own number.
    pub proof fn lemma_code_round_trip(v: EVENT_GROUPS, code: u32)
        ensures
            Self::spec_from_code(code).spec_code() == code,
            Self::spec_from_code(code).wf(),
            v.wf() ==> Self::spec_from_code(v.spec_code()) == v,
    {
    }
}

impl EVENT_GROUPS {
    /// Whether the mask holds a bit of `group`.
    pub open spec fn spec_contains(self, group: u32) -> bool {
        self.spec_code() & group != 0
    }

    /// Whether the mask holds a bit of `group`.
    pub fn contains(self, group: u32) -> (r: bool)
        ensures
            r == self.spec_contains(group),
    {
        self.code() & group != 0
    }
}

/// Groups can be OR'ed as `HANDLE_MOUSE | HANDLE_KEY`.
impl std::ops::BitOr for EVENT_GROUPS {
    type Output = EVENT_GROUPS;

    fn bitor(self, rhs: EVENT_GROUPS) -> (r: EVENT_GROUPS)
        ensures
            r.spec_code() == self.spec_code() | rhs.spec_code(),
            r.wf(),
    {
        EVENT_GROUPS::from_code(self.code() | rhs.code())
    }
}

impl vstd::std_specs::ops::BitOrSpecImpl for EVENT_GROUPS {
    open spec fn obeys_bitor_spec() -> bool {
        true
    }

    open spec fn bitor_req(self, rhs: EVENT_GROUPS) -> bool {
        true
    }

    open spec fn bitor_spec(self, rhs: EVENT_GROUPS) -> EVENT_GROUPS {
        EVENT_GROUPS::spec_from_code(self.spec_code() | rhs.spec_code())
    }
}

/// A union holds a group exactly where one of its sides holds it, and joining
/// groups does not depend on their order.
pub proof fn lemma_union_contains(a: EVENT_GROUPS, b: EVENT_GROUPS, group: u32)
    ensures
        EVENT_GROUPS::spec_from_code(a.spec_code() | b.spec_code()).spec_contains(group) == (
        a.spec_contains(group) || b.spec_contains(group)),
        EVENT_GROUPS::spec_from_code(a.spec_code() | b.spec_code()) == EVENT_GROUPS::spec_from_code(
            b.spec_code() | a.spec_code(),
        ),
{
    let x = a.spec_code();
    let y = b.spec_code();
    assert(((x | y) & group != 0) == ((x & group != 0) || (y & group != 0))) by (bit_vector);
    assert(x | y == y | x) by (bit_vector);
}

/// Joining groups is joining sets: it does not depend on how the groups are
/// put in brackets, joining a mask with itself or with no group changes
/// nothing, and the mask of all groups holds every group that has a name.
pub proof fn lemma_union_laws(a: EVENT_GROUPS, b: EVENT_GROUPS, c: EVENT_GROUPS)
    ensures
        (a.spec_code() | b.spec_code()) | c.spec_code() == a.spec_code() | (b.spec_code() | c.spec_code()),
        a.spec_code() | a.spec_code() == a.spec_code(),
        a.spec_code() | EVENT_GROUPS::HANDLE_INITIALIZATION.spec_code() == a.spec_code(),
        a.wf() ==> EVENT_GROUPS::spec_from_code(a.spec_code() | a.spec_code()) == a,
        EVENT_GROUPS::is_named(a.spec_code()) && a.spec_code() != EVENT_GROUPS::HANDLE_INITIALIZATION.spec_code()
            && a.spec_code() != EVENT_GROUPS::SUBSCRIPTIONS_REQUEST.spec_code()
            ==> EVENT_GROUPS::HANDLE_ALL.spec_contains(a.spec_code()),
        !a.spec_contains(EVENT_GROUPS::HANDLE_INITIALIZATION.spec_code()),
{
    let x = a.spec_code();
    let y = b.spec_code();
    let z = c.spec_code();
    assert((x | y) | z == x | (y | z)) by (bit_vector);
    assert(x | x == x) by (bit_vector);
    assert(x | 0 == x) by (bit_vector);
    assert(x & 0 == 0) by (bit_vector);
    assert(x != 0 && (x | 0xFFFFu32) == 0xFFFFu32 ==> 0xFFFFu32 & x != 0) by (bit_vector);
    if EVENT_GROUPS::is_named(x) && x != 0 && x != 0xFFFF_FFFF {
        assert(x == 0x1 || x == 0x2 || x == 0x4 || x == 0x8 || x == 0x10 || x == 0x20 || x == 0x40 || x == 0x80
            || x == 0x100 || x == 0x200 || x == 0x400 || x == 0x800 || x == 0x1000 || x == 0x2000 || x
            == 0xFFFF);
        assert((x == 0x1 || x == 0x2 || x == 0x4 || x == 0x8 || x == 0x10 || x == 0x20 || x == 0x40 || x
            == 0x80 || x == 0x100 || x == 0x200 || x == 0x400 || x == 0x800 || x == 0x1000 || x == 0x2000
            || x == 0xFFFF) ==> (x | 0xFFFFu32) == 0xFFFFu32) by (bit_vector);
    }
}

/// Phase of an event on its way through the tree of elements.
#[derive(Clone, Copy, PartialEq, Eq, Structural, Debug)]
pub enum PHASE_MASK {
    /// Bubbling (emersion) phase.
    BUBBLING,
    /// Capture (immersion) phase; this flag is or'ed with the event code.
    SINKING,
    /// A marker: the event was consumed on its way.
    HANDLED,
}

impl PHASE_MASK {
    /// The number that the engine uses for this variant.
    pub open spec fn spec_code(self) -> int {
        match self {
            PHASE_MASK::BUBBLING => 0,
            PHASE_MASK::SINKING => 0x8000,
            PHASE_MASK::HANDLED => 0x10000,
        }
    }

    /// The variant that a number stands for, if there is one.
    pub open spec fn spec_from_code(code: int) -> Option<PHASE_MASK> {
        if code == 0 {
            Some(PHASE_MASK::BUBBLING)
        } else if code == 0x8000 {
            Some(PHASE_MASK::SINKING)
        } else if code == 0x10000 {
            Some(PHASE_MASK::HANDLED)
        } else {
            None
        }
    }

    /// The number that the engine uses for this variant.
    pub fn code(self) -> (code: u32)
        ensures
            code == self.spec_code(),
    {
        match self {
            PHASE_MASK::BUBBLING => 0,
            PHASE_MASK::SINKING => 0x8000,
            PHASE_MASK::HANDLED => 0x10000,
        }
    }

    /// Reads a number back into its variant; `None` for a number that stands for none.
    pub fn from_code(code: u32) -> (r: Option<PHASE_MASK>)
        ensures
            r == Self::spec_from_code(code as int),
    {
        if code == 0 {
            Some(PHASE_MASK::BUBBLING)
        } else if code == 0x8000 {
            Some(PHASE_MASK::SINKING)
        } else if code == 0x10000 {
            Some(PHASE_MASK::HANDLED)
        } else {
            None
        }
    }

    /// Each variant is read back from its own code, and a number that is read back
    /// into a variant is that variant's code.
    pub proof fn lemma_code_round_trip(v: PHASE_MASK, code: int)
        ensures
            Self::spec_from_code(v.spec_code()) == Some(v),
            Self::spec_from_code(code) == Some(v) ==> v.spec_code() == code,
    {
    }
}

/// General reason of a behavior event.
#[derive(Clone, Copy, PartialEq, Eq, Structural, Debug)]
pub enum EVENT_REASON {
    /// By a click of the mouse.
    BY_MOUSE_CLICK,
    /// By a key.
    BY_KEY_CLICK,
    /// Synthesized, programmatically generated.
    SYNTHESIZED,
    /// A number that stands for no reason named here; for some events it is an index or a count.
    OTHER(usize),
}

impl EVENT_REASON {
    /// The number that the engine uses for this value.
    pub open spec fn spec_code(self) -> usize {
        match self {
            EVENT_REASON::BY_MOUSE_CLICK => 0,
            EVENT_REASON::BY_KEY_CLICK => 1,
            EVENT_REASON::SYNTHESIZED => 2,
            EVENT_REASON::OTHER(code) => code,
        }
    }

    /// Whether a number has a name among the variants.
    pub open spec fn is_named(code: usize) -> bool {
        code == 0
        || code == 1
        || code == 2
    }

    /// The value that a number stands for.
    pub open spec fn spec_from_code(code: usize) -> EVENT_REASON {
        if code == 0 {
            EVENT_REASON::BY_MOUSE_CLICK
        } else if code == 1 {
            EVENT_REASON::BY_KEY_CLICK
        } else if code == 2 {
            EVENT_REASON::SYNTHESIZED
        } else {
            EVENT_REASON::OTHER(code)
        }
    }

    /// Whether the value is written in its one proper form: a number that
    /// has a name is written by its name.
    pub open spec fn wf(self) -> bool {
        match self {
            EVENT_REASON::OTHER(code) => !Self::is_named(code),
            _ => true,
        }
    }

    /// The number that the engine uses for this value.
    pub fn code(self) -> (code: usize)
        ensures
            code == self.spec_code(),
    {
        match self {
            EVENT_REASON::BY_MOUSE_CLICK => 0,
            EVENT_REASON::BY_KEY_CLICK => 1,
            EVENT_REASON::SYNTHESIZED => 2,
            EVENT_REASON::OTHER(code) => code,
        }
    }

    /// Reads a number back into the value that it stands for.
    pub fn from_code(code: usize) -> (r: EVENT_REASON)
        ensures
            r == Self::spec_from_code(code),
            r.wf(),
            r.spec_code() == code,
    {
        if code == 0 {
            EVENT_REASON::BY_MOUSE_CLICK
        } else if code == 1 {
            EVENT_REASON::BY_KEY_CLICK
        } else if code == 2 {
            EVENT_REASON::SYNTHESIZED
        } else {
            EVENT_REASON::OTHER(code)
        }
    }

    /// Every number is read back into a value in proper form that has that
    /// number, and a value in proper form is read back from its own number.
    pub proof fn lemma_code_round_trip(v: EVENT_REASON, code: usize)
        ensures
            Self::spec_from_code(code).spec_code() == code,
            Self::spec_from_code(code).wf(),
            v.wf() ==> Self::spec_from_code(v.spec_code()) == v,
    {
    }
}

/// Reason of a change in an editor.
#[derive(Clone, Copy, PartialEq, Eq, Structural, Debug)]
pub enum EDIT_CHANGED_REASON {
    /// Single char insertion.
    BY_INS_CHAR,
    /// Character range insertion, clipboard.
    BY_INS_CHARS,
    /// Single char deletion.
    BY_DEL_CHAR,
    /// Character range deletion (selection).
    BY_DEL_CHARS,
    /// A number that stands for no reason named here.
    OTHER(usize),
}

impl EDIT_CHANGED_REASON {
    /// The number that the engine uses for this value.
    pub open spec fn spec_code(self) -> usize {
        match self {
            EDIT_CHANGED_REASON::BY_INS_CHAR => 0,
            EDIT_CHANGED_REASON::BY_INS_CHARS => 1,
            EDIT_CHANGED_REASON::BY_DEL_CHAR => 2,
            EDIT_CHANGED_REASON::BY_DEL_CHARS => 3,
            EDIT_CHANGED_REASON::OTHER(code) => code,
        }
    }

    /// Whether a number has a name among the variants.
    pub open spec fn is_named(code: usize) -> bool {
        code == 0
        || code == 1
        || code == 2
        || code == 3
    }

    /// The value that a number stands for.
    pub open spec fn spec_from_code(code: usize) -> EDIT_CHANGED_REASON {
        if code == 0 {
            EDIT_CHANGED_REASON::BY_INS_CHAR
        } else if code == 1 {
            EDIT_CHANGED_REASON::BY_INS_CHARS
        } else if code == 2 {
            EDIT_CHANGED_REASON::BY_DEL_CHAR
        } else if code == 3 {
            EDIT_CHANGED_REASON::BY_DEL_CHARS
        } else {
            EDIT_CHANGED_REASON::OTHER(code)
        }
    }

    /// Whether the value is written in its one proper form: a number that
    /// has a name is written by its name.
    pub open spec fn wf(self) -> bool {
        match self {
            EDIT_CHANGED_REASON::OTHER(code) => !Self::is_named(code),
            _ => true,
        }
    }

    /// The number that the engine uses for this value.
    pub fn code(self) -> (code: usize)
        ensures
            code == self.spec_code(),
    {
        match self {
            EDIT_CHANGED_REASON::BY_INS_CHAR => 0,
            EDIT_CHANGED_REASON::BY_INS_CHARS => 1,
            EDIT_CHANGED_REASON::BY_DEL_CHAR => 2,
            EDIT_CHANGED_REASON::BY_DEL_CHARS => 3,
            EDIT_CHANGED_REASON::OTHER(code) => code,
        }
    }

    /// Reads a number back into the value that it stands for.
    pub fn from_code(code: usize) -> (r: EDIT_CHANGED_REASON)
        ensures
            r == Self::spec_from_code(code),
            r.wf(),
            r.spec_code() == code,
    {
        if code == 0 {
            EDIT_CHANGED_REASON::BY_INS_CHAR
        } else if code == 1 {
            EDIT_CHANGED_REASON::BY_INS_CHARS
        } else if code == 2 {
            EDIT_CHANGED_REASON::BY_DEL_CHAR
        } else if code == 3 {
            EDIT_CHANGED_REASON::BY_DEL_CHARS
        } else {
            EDIT_CHANGED_REASON::OTHER(code)
        }
    }

    /// Every number is read back into a value in proper form that has that
    /// number, and a value in proper form is read back from its own number.
    pub proof fn lemma_code_round_trip(v: EDIT_CHANGED_REASON, code: usize)
        ensures
            Self::spec_from_code(code).spec_code() == code,
            Self::spec_from_code(code).wf(),
            v.wf() ==> Self::spec_from_code(v.spec_code()) == v,
    {
    }
}

/// Behavior event code.
#[derive(Clone, Copy, PartialEq, Eq, Structural, Debug)]
pub enum BEHAVIOR_EVENTS {
    /// Click on button.
    BUTTON_CLICK,
    /// Mouse down or key down in button.
    BUTTON_PRESS,
    /// Checkbox/radio/slider changed its state/value.
    BUTTON_STATE_CHANGED,
    /// Before text change.
    EDIT_VALUE_CHANGING,
    /// After text change.
    EDIT_VALUE_CHANGED,
    /// Selection in `<select>` changed.
    SELECT_SELECTION_CHANGED,
    /// Node in select expanded/collapsed, the target is the node.
    SELECT_STATE_CHANGED,
    /// Request to show popup just received.
    POPUP_REQUEST,
    /// Popup element has been measured and ready to be shown on screen.
    POPUP_READY,
    /// Popup element is closed.
    POPUP_DISMISSED,
    /// Menu item activated by mouse hover or by keyboard.
    MENU_ITEM_ACTIVE,
    /// Menu item click.
    MENU_ITEM_CLICK,
    /// "Right-click".
    CONTEXT_MENU_REQUEST,
    /// Broadcast notification, sent to all elements of some container being shown or hidden.
    VISIUAL_STATUS_CHANGED,
    /// Broadcast notification, sent to all elements of some container that got new value of `:disabled` state.
    DISABLED_STATUS_CHANGED,
    /// Popup is about to be closed.
    POPUP_DISMISSING,
    /// Content has been changed.
    CONTENT_CHANGED,
    /// Generic click.
    CLICK,
    /// Generic change.
    CHANGE,
    /// Hyperlink click.
    HYPERLINK_CLICK,
    /// Element was collapsed.
    ELEMENT_COLLAPSED,
    /// Element was expanded.
    ELEMENT_EXPANDED,
    /// Activate (select) child.
    ACTIVATE_CHILD,
    /// Request to virtual grid to initialize its view.
    INIT_DATA_VIEW,
    /// Request from virtual grid to data source behavior to fill data in the table.
    ROWS_DATA_REQUEST,
    /// Ui state changed, observers shall update their visual states.
    UI_STATE_CHANGED,
    /// `behavior:form` detected submission event.
    FORM_SUBMIT,
    /// `behavior:form` detected reset event.
    FORM_RESET,
    /// Document in `behavior:frame` or root document is complete.
    DOCUMENT_COMPLETE,
    /// Request to `behavior:history`.
    HISTORY_PUSH,
    /// Request to `behavior:history`.
    HISTORY_DROP,
    /// Request to `behavior:history`.
    HISTORY_PRIOR,
    /// Request to `behavior:history`.
    HISTORY_NEXT,
    /// `behavior:history` notification - history stack has changed.
    HISTORY_STATE_CHANGED,
    /// Close popup request.
    CLOSE_POPUP,
    /// Request tooltip.
    REQUEST_TOOLTIP,
    /// Animation started or ended on the element.
    ANIMATION,
    /// Document created, script namespace initialized.
    DOCUMENT_CREATED,
    /// Document is about to be closed.
    DOCUMENT_CLOSE_REQUEST,
    /// Last notification before document removal from the DOM.
    DOCUMENT_CLOSE,
    /// Document has got DOM structure, styles and behaviors of DOM elements.
    DOCUMENT_READY,
    /// `<video>` "ready" notification.
    VIDEO_INITIALIZED,
    /// `<video>` playback started notification.
    VIDEO_STARTED,
    /// `<video>` playback stoped/paused notification.
    VIDEO_STOPPED,
    /// `<video>` request for frame source binding.
    VIDEO_BIND_RQ,
    /// `behavior:pager` starts pagination.
    PAGINATION_STARTS,
    /// `behavior:pager` paginated page no, reason -> page no.
    PAGINATION_PAGE,
    /// `behavior:pager` end pagination, reason -> total pages.
    PAGINATION_ENDS,
    /// All custom event codes shall be greater than this number.
    FIRST_APPLICATION_EVENT_CODE,
    /// A code that has no name here: an event of the application's own, or one of a newer engine.
    CUSTOM(u32),
}

impl BEHAVIOR_EVENTS {
    /// The number that the engine uses for this value.
    pub open spec fn spec_code(self) -> u32 {
        match self {
            BEHAVIOR_EVENTS::BUTTON_CLICK => 0,
            BEHAVIOR_EVENTS::BUTTON_PRESS => 1,
            BEHAVIOR_EVENTS::BUTTON_STATE_CHANGED => 2,
            BEHAVIOR_EVENTS::EDIT_VALUE_CHANGING => 3,
            BEHAVIOR_EVENTS::EDIT_VALUE_CHANGED => 4,
            BEHAVIOR_EVENTS::SELECT_SELECTION_CHANGED => 5,
            BEHAVIOR_EVENTS::SELECT_STATE_CHANGED => 6,
            BEHAVIOR_EVENTS::POPUP_REQUEST => 7,
            BEHAVIOR_EVENTS::POPUP_READY => 8,
            BEHAVIOR_EVENTS::POPUP_DISMISSED => 9,
            BEHAVIOR_EVENTS::MENU_ITEM_ACTIVE => 0xA,
            BEHAVIOR_EVENTS::MENU_ITEM_CLICK => 0xB,
            BEHAVIOR_EVENTS::CONTEXT_MENU_REQUEST => 0x10,
            BEHAVIOR_EVENTS::VISIUAL_STATUS_CHANGED => 0x11,
            BEHAVIOR_EVENTS::DISABLED_STATUS_CHANGED => 0x12,
            BEHAVIOR_EVENTS::POPUP_DISMISSING => 0x13,
            BEHAVIOR_EVENTS::CONTENT_CHANGED => 0x15,
            BEHAVIOR_EVENTS::CLICK => 0x16,
            BEHAVIOR_EVENTS::CHANGE => 0x17,
            BEHAVIOR_EVENTS::HYPERLINK_CLICK => 0x80,
            BEHAVIOR_EVENTS::ELEMENT_COLLAPSED => 0x90,
            BEHAVIOR_EVENTS::ELEMENT_EXPANDED => 0x91,
            BEHAVIOR_EVENTS::ACTIVATE_CHILD => 0x92,
            BEHAVIOR_EVENTS::INIT_DATA_VIEW => 0x93,
            BEHAVIOR_EVENTS::ROWS_DATA_REQUEST => 0x94,
            BEHAVIOR_EVENTS::UI_STATE_CHANGED => 0x95,
            BEHAVIOR_EVENTS::FORM_SUBMIT => 0x96,
            BEHAVIOR_EVENTS::FORM_RESET => 0x97,
            BEHAVIOR_EVENTS::DOCUMENT_COMPLETE => 0x98,
            BEHAVIOR_EVENTS::HISTORY_PUSH => 0x99,
            BEHAVIOR_EVENTS::HISTORY_DROP => 0x9A,
            BEHAVIOR_EVENTS::HISTORY_PRIOR => 0x9B,
            BEHAVIOR_EVENTS::HISTORY_NEXT => 0x9C,
            BEHAVIOR_EVENTS::HISTORY_STATE_CHANGED => 0x9D,
            BEHAVIOR_EVENTS::CLOSE_POPUP => 0x9E,
            BEHAVIOR_EVENTS::REQUEST_TOOLTIP => 0x9F,
            BEHAVIOR_EVENTS::ANIMATION => 0xA0,
            BEHAVIOR_EVENTS::DOCUMENT_CREATED => 0xC0,
            BEHAVIOR_EVENTS::DOCUMENT_CLOSE_REQUEST => 0xC1,
            BEHAVIOR_EVENTS::DOCUMENT_CLOSE => 0xC2,
            BEHAVIOR_EVENTS::DOCUMENT_READY => 0xC3,
            BEHAVIOR_EVENTS::VIDEO_INITIALIZED => 0xD1,
            BEHAVIOR_EVENTS::VIDEO_STARTED => 0xD2,
            BEHAVIOR_EVENTS::VIDEO_STOPPED => 0xD3,
            BEHAVIOR_EVENTS::VIDEO_BIND_RQ => 0xD4,
            BEHAVIOR_EVENTS::PAGINATION_STARTS => 0xE0,
            BEHAVIOR_EVENTS::PAGINATION_PAGE => 0xE1,
            BEHAVIOR_EVENTS::PAGINATION_ENDS => 0xE2,
            BEHAVIOR_EVENTS::FIRST_APPLICATION_EVENT_CODE => 0x100,
            BEHAVIOR_EVENTS::CUSTOM(code) => code,
        }
    }

    /// Whether a number has a name among the variants.
    pub open spec fn is_named(code: u32) -> bool {
        code == 0
        || code == 1
        || code == 2
        || code == 3
        || code == 4
        || code == 5
        || code == 6
        || code == 7
        || code == 8
        || code == 9
        || code == 0xA
        || code == 0xB
        || code == 0x10
        || code == 0x11
        || code == 0x12
        || code == 0x13
        || code == 0x15
        || code == 0x16
        || code == 0x17
        || code == 0x80
        || code == 0x90
        || code == 0x91
        || code == 0x92
        || code == 0x93
        || code == 0x94
        || code == 0x95
        || code == 0x96
        || code == 0x97
        || code == 0x98
        || code == 0x99
        || code == 0x9A
        || code == 0x9B
        || code == 0x9C
        || code == 0x9D
        || code == 0x9E
        || code == 0x9F
        || code == 0xA0
        || code == 0xC0
        || code == 0xC1
        || code == 0xC2
        || code == 0xC3
        || code == 0xD1
        || code == 0xD2
        || code == 0xD3
        || code == 0xD4
        || code == 0xE0
        || code == 0xE1
        || code == 0xE2
        || code == 0x100
    }

    /// The value that a number stands for.
    pub open spec fn spec_from_code(code: u32) -> BEHAVIOR_EVENTS {
        if code == 0 {
            BEHAVIOR_EVENTS::BUTTON_CLICK
        } else if code == 1 {
            BEHAVIOR_EVENTS::BUTTON_PRESS
        } else if code == 2 {
            BEHAVIOR_EVENTS::BUTTON_STATE_CHANGED
        } else if code == 3 {
            BEHAVIOR_EVENTS::EDIT_VALUE_CHANGING
        } else if code == 4 {
            BEHAVIOR_EVENTS::EDIT_VALUE_CHANGED
        } else if code == 5 {
            BEHAVIOR_EVENTS::SELECT_SELECTION_CHANGED
        } else if code == 6 {
            BEHAVIOR_EVENTS::SELECT_STATE_CHANGED
        } else if code == 7 {
            BEHAVIOR_EVENTS::POPUP_REQUEST
        } else if code == 8 {
            BEHAVIOR_EVENTS::POPUP_READY
        } else if code == 9 {
            BEHAVIOR_EVENTS::POPUP_DISMISSED
        } else if code == 0xA {
            BEHAVIOR_EVENTS::MENU_ITEM_ACTIVE
        } else if code == 0xB {
            BEHAVIOR_EVENTS::MENU_ITEM_CLICK
        } else if code == 0x10 {
            BEHAVIOR_EVENTS::CONTEXT_MENU_REQUEST
        } else if code == 0x11 {
            BEHAVIOR_EVENTS::VISIUAL_STATUS_CHANGED
        } else if code == 0x12 {
            BEHAVIOR_EVENTS::DISABLED_STATUS_CHANGED
        } else if code == 0x13 {
            BEHAVIOR_EVENTS::POPUP_DISMISSING
        } else if code == 0x15 {
            BEHAVIOR_EVENTS::CONTENT_CHANGED
        } else if code == 0x16 {
            BEHAVIOR_EVENTS::CLICK
        } else if code == 0x17 {
            BEHAVIOR_EVENTS::CHANGE
        } else if code == 0x80 {
            BEHAVIOR_EVENTS::HYPERLINK_CLICK
        } else if code == 0x90 {
            BEHAVIOR_EVENTS::ELEMENT_COLLAPSED
        } else if code == 0x91 {
            BEHAVIOR_EVENTS::ELEMENT_EXPANDED
        } else if code == 0x92 {
            BEHAVIOR_EVENTS::ACTIVATE_CHILD
        } else if code == 0x93 {
            BEHAVIOR_EVENTS::INIT_DATA_VIEW
        } else if code == 0x94 {
            BEHAVIOR_EVENTS::ROWS_DATA_REQUEST
        } else if code == 0x95 {
            BEHAVIOR_EVENTS::UI_STATE_CHANGED
        } else if code == 0x96 {
            BEHAVIOR_EVENTS::FORM_SUBMIT
        } else if code == 0x97 {
            BEHAVIOR_EVENTS::FORM_RESET
        } else if code == 0x98 {
            BEHAVIOR_EVENTS::DOCUMENT_COMPLETE
        } else if code == 0x99 {
            BEHAVIOR_EVENTS::HISTORY_PUSH
        } else if code == 0x9A {
            BEHAVIOR_EVENTS::HISTORY_DROP
        } else if code == 0x9B {
            BEHAVIOR_EVENTS::HISTORY_PRIOR
        } else if code == 0x9C {
            BEHAVIOR_EVENTS::HISTORY_NEXT
        } else if code == 0x9D {
            BEHAVIOR_EVENTS::HISTORY_STATE_CHANGED
        } else if code == 0x9E {
            BEHAVIOR_EVENTS::CLOSE_POPUP
        } else if code == 0x9F {
            BEHAVIOR_EVENTS::REQUEST_TOOLTIP
        } else if code == 0xA0 {
            BEHAVIOR_EVENTS::ANIMATION
        } else if code == 0xC0 {
            BEHAVIOR_EVENTS::DOCUMENT_CREATED
        } else if code == 0xC1 {
            BEHAVIOR_EVENTS::DOCUMENT_CLOSE_REQUEST
        } else if code == 0xC2 {
            BEHAVIOR_EVENTS::DOCUMENT_CLOSE
        } else if code == 0xC3 {
            BEHAVIOR_EVENTS::DOCUMENT_READY
        } else if code == 0xD1 {
            BEHAVIOR_EVENTS::VIDEO_INITIALIZED
        } else if code == 0xD2 {
            BEHAVIOR_EVENTS::VIDEO_STARTED
        } else if code == 0xD3 {
            BEHAVIOR_EVENTS::VIDEO_STOPPED
        } else if code == 0xD4 {
            BEHAVIOR_EVENTS::VIDEO_BIND_RQ
        } else if code == 0xE0 {
            BEHAVIOR_EVENTS::PAGINATION_STARTS
        } else if code == 0xE1 {
            BEHAVIOR_EVENTS::PAGINATION_PAGE
        } else if code == 0xE2 {
            BEHAVIOR_EVENTS::PAGINATION_ENDS
        } else if code == 0x100 {
            BEHAVIOR_EVENTS::FIRST_APPLICATION_EVENT_CODE
        } else {
            BEHAVIOR_EVENTS::CUSTOM(code)
        }
    }

    /// Whether the value is written in its one proper form: a number that
    /// has a name is written by its name.
    pub open spec fn wf(self) -> bool {
        match self {
            BEHAVIOR_EVENTS::CUSTOM(code) => !Self::is_named(code),
            _ => true,
        }
    }

    /// The number that the engine uses for this value.
    pub fn code(self) -> (code: u32)
        ensures
            code == self.spec_code(),
    {
        match self {
            BEHAVIOR_EVENTS::BUTTON_CLICK => 0,
            BEHAVIOR_EVENTS::BUTTON_PRESS => 1,
            BEHAVIOR_EVENTS::BUTTON_STATE_CHANGED => 2,
            BEHAVIOR_EVENTS::EDIT_VALUE_CHANGING => 3,
            BEHAVIOR_EVENTS::EDIT_VALUE_CHANGED => 4,
            BEHAVIOR_EVENTS::SELECT_SELECTION_CHANGED => 5,
            BEHAVIOR_EVENTS::SELECT_STATE_CHANGED => 6,
            BEHAVIOR_EVENTS::POPUP_REQUEST => 7,
            BEHAVIOR_EVENTS::POPUP_READY => 8,
            BEHAVIOR_EVENTS::POPUP_DISMISSED => 9,
            BEHAVIOR_EVENTS::MENU_ITEM_ACTIVE => 0xA,
            BEHAVIOR_EVENTS::MENU_ITEM_CLICK => 0xB,
            BEHAVIOR_EVENTS::CONTEXT_MENU_REQUEST => 0x10,
            BEHAVIOR_EVENTS::VISIUAL_STATUS_CHANGED => 0x11,
            BEHAVIOR_EVENTS::DISABLED_STATUS_CHANGED => 0x12,
            BEHAVIOR_EVENTS::POPUP_DISMISSING => 0x13,
            BEHAVIOR_EVENTS::CONTENT_CHANGED => 0x15,
            BEHAVIOR_EVENTS::CLICK => 0x16,
            BEHAVIOR_EVENTS::CHANGE => 0x17,
            BEHAVIOR_EVENTS::HYPERLINK_CLICK => 0x80,
            BEHAVIOR_EVENTS::ELEMENT_COLLAPSED => 0x90,
            BEHAVIOR_EVENTS::ELEMENT_EXPANDED => 0x91,
            BEHAVIOR_EVENTS::ACTIVATE_CHILD => 0x92,
            BEHAVIOR_EVENTS::INIT_DATA_VIEW => 0x93,
            BEHAVIOR_EVENTS::ROWS_DATA_REQUEST => 0x94,
            BEHAVIOR_EVENTS::UI_STATE_CHANGED => 0x95,
            BEHAVIOR_EVENTS::FORM_SUBMIT => 0x96,
            BEHAVIOR_EVENTS::FORM_RESET => 0x97,
            BEHAVIOR_EVENTS::DOCUMENT_COMPLETE => 0x98,
            BEHAVIOR_EVENTS::HISTORY_PUSH => 0x99,
            BEHAVIOR_EVENTS::HISTORY_DROP => 0x9A,
            BEHAVIOR_EVENTS::HISTORY_PRIOR => 0x9B,
            BEHAVIOR_EVENTS::HISTORY_NEXT => 0x9C,
            BEHAVIOR_EVENTS::HISTORY_STATE_CHANGED => 0x9D,
            BEHAVIOR_EVENTS::CLOSE_POPUP => 0x9E,
            BEHAVIOR_EVENTS::REQUEST_TOOLTIP => 0x9F,
            BEHAVIOR_EVENTS::ANIMATION => 0xA0,
            BEHAVIOR_EVENTS::DOCUMENT_CREATED => 0xC0,
            BEHAVIOR_EVENTS::DOCUMENT_CLOSE_REQUEST => 0xC1,
            BEHAVIOR_EVENTS::DOCUMENT_CLOSE => 0xC2,
            BEHAVIOR_EVENTS::DOCUMENT_READY => 0xC3,
            BEHAVIOR_EVENTS::VIDEO_INITIALIZED => 0xD1,
            BEHAVIOR_EVENTS::VIDEO_STARTED => 0xD2,
            BEHAVIOR_EVENTS::VIDEO_STOPPED => 0xD3,
            BEHAVIOR_EVENTS::VIDEO_BIND_RQ => 0xD4,
            BEHAVIOR_EVENTS::PAGINATION_STARTS => 0xE0,
            BEHAVIOR_EVENTS::PAGINATION_PAGE => 0xE1,
            BEHAVIOR_EVENTS::PAGINATION_ENDS => 0xE2,
            BEHAVIOR_EVENTS::FIRST_APPLICATION_EVENT_CODE => 0x100,
            BEHAVIOR_EVENTS::CUSTOM(code) => code,
        }
    }

    /// Reads a number back into the value that it stands for.
    pub fn from_code(code: u32) -> (r: BEHAVIOR_EVENTS)
        ensures
            r == Self::spec_from_code(code),
            r.wf(),
            r.spec_code() == code,
    {
        if code == 0 {
            BEHAVIOR_EVENTS::BUTTON_CLICK
        } else if code == 1 {
            BEHAVIOR_EVENTS::BUTTON_PRESS
        } else if code == 2 {
            BEHAVIOR_EVENTS::BUTTON_STATE_CHANGED
        } else if code == 3 {
            BEHAVIOR_EVENTS::EDIT_VALUE_CHANGING
        } else if code == 4 {
            BEHAVIOR_EVENTS::EDIT_VALUE_CHANGED
        } else if code == 5 {
            BEHAVIOR_EVENTS::SELECT_SELECTION_CHANGED
        } else if code == 6 {
            BEHAVIOR_EVENTS::SELECT_STATE_CHANGED
        } else if code == 7 {
            BEHAVIOR_EVENTS::POPUP_REQUEST
        } else if code == 8 {
            BEHAVIOR_EVENTS::POPUP_READY
        } else if code == 9 {
            BEHAVIOR_EVENTS::POPUP_DISMISSED
        } else if code == 0xA {
            BEHAVIOR_EVENTS::MENU_ITEM_ACTIVE
        } else if code == 0xB {
            BEHAVIOR_EVENTS::MENU_ITEM_CLICK
        } else if code == 0x10 {
            BEHAVIOR_EVENTS::CONTEXT_MENU_REQUEST
        } else if code == 0x11 {
            BEHAVIOR_EVENTS::VISIUAL_STATUS_CHANGED
        } else if code == 0x12 {
            BEHAVIOR_EVENTS::DISABLED_STATUS_CHANGED
        } else if code == 0x13 {
            BEHAVIOR_EVENTS::POPUP_DISMISSING
        } else if code == 0x15 {
            BEHAVIOR_EVENTS::CONTENT_CHANGED
        } else if code == 0x16 {
            BEHAVIOR_EVENTS::CLICK
        } else if code == 0x17 {
            BEHAVIOR_EVENTS::CHANGE
        } else if code == 0x80 {
            BEHAVIOR_EVENTS::HYPERLINK_CLICK
        } else if code == 0x90 {
            BEHAVIOR_EVENTS::ELEMENT_COLLAPSED
        } else if code == 0x91 {
            BEHAVIOR_EVENTS::ELEMENT_EXPANDED
        } else if code == 0x92 {
            BEHAVIOR_EVENTS::ACTIVATE_CHILD
        } else if code == 0x93 {
            BEHAVIOR_EVENTS::INIT_DATA_VIEW
        } else if code == 0x94 {
            BEHAVIOR_EVENTS::ROWS_DATA_REQUEST
        } else if code == 0x95 {
            BEHAVIOR_EVENTS::UI_STATE_CHANGED
        } else if code == 0x96 {
            BEHAVIOR_EVENTS::FORM_SUBMIT
        } else if code == 0x97 {
            BEHAVIOR_EVENTS::FORM_RESET
        } else if code == 0x98 {
            BEHAVIOR_EVENTS::DOCUMENT_COMPLETE
        } else if code == 0x99 {
            BEHAVIOR_EVENTS::HISTORY_PUSH
        } else if code == 0x9A {
            BEHAVIOR_EVENTS::HISTORY_DROP
        } else if code == 0x9B {
            BEHAVIOR_EVENTS::HISTORY_PRIOR
        } else if code == 0x9C {
            BEHAVIOR_EVENTS::HISTORY_NEXT
        } else if code == 0x9D {
            BEHAVIOR_EVENTS::HISTORY_STATE_CHANGED
        } else if code == 0x9E {
            BEHAVIOR_EVENTS::CLOSE_POPUP
        } else if code == 0x9F {
            BEHAVIOR_EVENTS::REQUEST_TOOLTIP
        } else if code == 0xA0 {
            BEHAVIOR_EVENTS::ANIMATION
        } else if code == 0xC0 {
            BEHAVIOR_EVENTS::DOCUMENT_CREATED
        } else if code == 0xC1 {
            BEHAVIOR_EVENTS::DOCUMENT_CLOSE_REQUEST
        } else if code == 0xC2 {
            BEHAVIOR_EVENTS::DOCUMENT_CLOSE
        } else if code == 0xC3 {
            BEHAVIOR_EVENTS::DOCUMENT_READY
        } else if code == 0xD1 {
            BEHAVIOR_EVENTS::VIDEO_INITIALIZED
        } else if code == 0xD2 {
            BEHAVIOR_EVENTS::VIDEO_STARTED
        } else if code == 0xD3 {
            BEHAVIOR_EVENTS::VIDEO_STOPPED
        } else if code == 0xD4 {
            BEHAVIOR_EVENTS::VIDEO_BIND_RQ
        } else if code == 0xE0 {
            BEHAVIOR_EVENTS::PAGINATION_STARTS
        } else if code == 0xE1 {
            BEHAVIOR_EVENTS::PAGINATION_PAGE
        } else if code == 0xE2 {
            BEHAVIOR_EVENTS::PAGINATION_ENDS
        } else if code == 0x100 {
            BEHAVIOR_EVENTS::FIRST_APPLICATION_EVENT_CODE
        } else {
            BEHAVIOR_EVENTS::CUSTOM(code)
        }
    }

    /// Every number is read back into a value in proper form that has that
    /// number, and a value in proper form is read back from its own number.
    pub proof fn lemma_code_round_trip(v: BEHAVIOR_EVENTS, code: u32)
        ensures
            Self::spec_from_code(code).spec_code() == code,
            Self::spec_from_code(code).wf(),
            v.wf() ==> Self::spec_from_code(v.spec_code()) == v,
    {
    }
}

/// Buttons of the mouse.
#[derive(Clone, Copy, PartialEq, Eq, Structural, Debug)]
pub enum MOUSE_BUTTONS {
    /// No button.
    NONE,
    /// Left or single button.
    MAIN,
    /// Right button.
    PROP,
    /// Middle button.
    MIDDLE,
}

impl MOUSE_BUTTONS {
    /// The number that the engine uses for this variant.
    pub open spec fn spec_code(self) -> int {
        match self {
            MOUSE_BUTTONS::NONE => 0,
            MOUSE_BUTTONS::MAIN => 1,
            MOUSE_BUTTONS::PROP => 2,
            MOUSE_BUTTONS::MIDDLE => 4,
        }
    }

    /// The variant that a number stands for, if there is one.
    pub open spec fn spec_from_code(code: int) -> Option<MOUSE_BUTTONS> {
        if code == 0 {
            Some(MOUSE_BUTTONS::NONE)
        } else if code == 1 {
            Some(MOUSE_BUTTONS::MAIN)
        } else if code == 2 {
            Some(MOUSE_BUTTONS::PROP)
        } else if code == 4 {
            Some(MOUSE_BUTTONS::MIDDLE)
        } else {
            None
        }
    }

    /// The number that the engine uses for this variant.
    pub fn code(self) -> (code: u32)
        ensures
            code == self.spec_code(),
    {
        match self {
            MOUSE_BUTTONS::NONE => 0,
            MOUSE_BUTTONS::MAIN => 1,
            MOUSE_BUTTONS::PROP => 2,
            MOUSE_BUTTONS::MIDDLE => 4,
        }
    }

    /// Reads a number back into its variant; `None` for a number that stands for none.
    pub fn from_code(code: u32) -> (r: Option<MOUSE_BUTTONS>)
        ensures
            r == Self::spec_from_code(code as int),
    {
        if code == 0 {
            Some(MOUSE_BUTTONS::NONE)
        } else if code == 1 {
            Some(MOUSE_BUTTONS::MAIN)
        } else if code == 2 {
            Some(MOUSE_BUTTONS::PROP)
        } else if code == 4 {
            Some(MOUSE_BUTTONS::MIDDLE)
        } else {
            None
        }
    }

    /// Each variant is read back from its own code, and a number that is read back
    /// into a variant is that variant's code.
    pub proof fn lemma_code_round_trip(v: MOUSE_BUTTONS, code: int)
        ensures
            Self::spec_from_code(v.spec_code()) == Some(v),
            Self::spec_from_code(code) == Some(v) ==> v.spec_code() == code,
    {
    }
}

/// Mouse events.
#[derive(Clone, Copy, PartialEq, Eq, Structural, Debug)]
pub enum MOUSE_EVENTS {
    MOUSE_ENTER,
    MOUSE_LEAVE,
    MOUSE_MOVE,
    MOUSE_UP,
    MOUSE_DOWN,
    MOUSE_DCLICK,
    MOUSE_WHEEL,
    /// Mouse pressed ticks.
    MOUSE_TICK,
    /// Mouse stay idle for some time.
    MOUSE_IDLE,
    /// Item dropped, target is that dropped item.
    DROP,
    /// Drag arrived to the target element that is one of current drop targets.
    DRAG_ENTER,
    /// Drag left one of current drop targets.
    DRAG_LEAVE,
    /// Drag src notification before drag start.
    DRAG_REQUEST,
    /// Mouse click event.
    MOUSE_CLICK,
    /// This flag is 'ORed' with `MOUSE_ENTER..MOUSE_DOWN` codes if dragging operation is in effect.
    DRAGGING,
}

impl MOUSE_EVENTS {
    /// The number that the engine uses for this variant.
    pub open spec fn spec_code(self) -> int {
        match self {
            MOUSE_EVENTS::MOUSE_ENTER => 0,
            MOUSE_EVENTS::MOUSE_LEAVE => 1,
            MOUSE_EVENTS::MOUSE_MOVE => 2,
            MOUSE_EVENTS::MOUSE_UP => 3,
            MOUSE_EVENTS::MOUSE_DOWN => 4,
            MOUSE_EVENTS::MOUSE_DCLICK => 5,
            MOUSE_EVENTS::MOUSE_WHEEL => 6,
            MOUSE_EVENTS::MOUSE_TICK => 7,
            MOUSE_EVENTS::MOUSE_IDLE => 8,
            MOUSE_EVENTS::DROP => 9,
            MOUSE_EVENTS::DRAG_ENTER => 0xA,
            MOUSE_EVENTS::DRAG_LEAVE => 0xB,
            MOUSE_EVENTS::DRAG_REQUEST => 0xC,
            MOUSE_EVENTS::MOUSE_CLICK => 0xFF,
            MOUSE_EVENTS::DRAGGING => 0x100,
        }
    }

    /// The variant that a number stands for, if there is one.
    pub open spec fn spec_from_code(code: int) -> Option<MOUSE_EVENTS> {
        if code == 0 {
            Some(MOUSE_EVENTS::MOUSE_ENTER)
        } else if code == 1 {
            Some(MOUSE_EVENTS::MOUSE_LEAVE)
        } else if code == 2 {
            Some(MOUSE_EVENTS::MOUSE_MOVE)
        } else if code == 3 {
            Some(MOUSE_EVENTS::MOUSE_UP)
        } else if code == 4 {
            Some(MOUSE_EVENTS::MOUSE_DOWN)
        } else if code == 5 {
            Some(MOUSE_EVENTS::MOUSE_DCLICK)
        } else if code == 6 {
            Some(MOUSE_EVENTS::MOUSE_WHEEL)
        } else if code == 7 {
            Some(MOUSE_EVENTS::MOUSE_TICK)
        } else if code == 8 {
            Some(MOUSE_EVENTS::MOUSE_IDLE)
        } else if code == 9 {
            Some(MOUSE_EVENTS::DROP)
        } else if code == 0xA {
            Some(MOUSE_EVENTS::DRAG_ENTER)
        } else if code == 0xB {
            Some(MOUSE_EVENTS::DRAG_LEAVE)
        } else if code == 0xC {
            Some(MOUSE_EVENTS::DRAG_REQUEST)
        } else if code == 0xFF {
            Some(MOUSE_EVENTS::MOUSE_CLICK)
        } else if code == 0x100 {
            Some(MOUSE_EVENTS::DRAGGING)
        } else {
            None
        }
    }

    /// The number that the engine uses for this variant.
    pub fn code(self) -> (code: u32)
        ensures
            code == self.spec_code(),
    {
        match self {
            MOUSE_EVENTS::MOUSE_ENTER => 0,
            MOUSE_EVENTS::MOUSE_LEAVE => 1,
            MOUSE_EVENTS::MOUSE_MOVE => 2,
            MOUSE_EVENTS::MOUSE_UP => 3,
            MOUSE_EVENTS::MOUSE_DOWN => 4,
            MOUSE_EVENTS::MOUSE_DCLICK => 5,
            MOUSE_EVENTS::MOUSE_WHEEL => 6,
            MOUSE_EVENTS::MOUSE_TICK => 7,
            MOUSE_EVENTS::MOUSE_IDLE => 8,
            MOUSE_EVENTS::DROP => 9,
            MOUSE_EVENTS::DRAG_ENTER => 0xA,
            MOUSE_EVENTS::DRAG_LEAVE => 0xB,
            MOUSE_EVENTS::DRAG_REQUEST => 0xC,
            MOUSE_EVENTS::MOUSE_CLICK => 0xFF,
            MOUSE_EVENTS::DRAGGING => 0x100,
        }
    }

    /// Reads a number back into its variant; `None` for a number that stands for none.
    pub fn from_code(code: u32) -> (r: Option<MOUSE_EVENTS>)
        ensures
            r == Self::spec_from_code(code as int),
    {
        if code == 0 {
            Some(MOUSE_EVENTS::MOUSE_ENTER)
        } else if code == 1 {
            Some(MOUSE_EVENTS::MOUSE_LEAVE)
        } else if code == 2 {
            Some(MOUSE_EVENTS::MOUSE_MOVE)
        } else if code == 3 {
            Some(MOUSE_EVENTS::MOUSE_UP)
        } else if code == 4 {
            Some(MOUSE_EVENTS::MOUSE_DOWN)
        } else if code == 5 {
            Some(MOUSE_EVENTS::MOUSE_DCLICK)
        } else if code == 6 {
            Some(MOUSE_EVENTS::MOUSE_WHEEL)
        } else if code == 7 {
            Some(MOUSE_EVENTS::MOUSE_TICK)
        } else if code == 8 {
            Some(MOUSE_EVENTS::MOUSE_IDLE)
        } else if code == 9 {
            Some(MOUSE_EVENTS::DROP)
        } else if code == 0xA {
            Some(MOUSE_EVENTS::DRAG_ENTER)
        } else if code == 0xB {
            Some(MOUSE_EVENTS::DRAG_LEAVE)
        } else if code == 0xC {
            Some(MOUSE_EVENTS::DRAG_REQUEST)
        } else if code == 0xFF {
            Some(MOUSE_EVENTS::MOUSE_CLICK)
        } else if code == 0x100 {
            Some(MOUSE_EVENTS::DRAGGING)
        } else {
            None
        }
    }

    /// Each variant is read back from its own code, and a number that is read back
    /// into a variant is that variant's code.
    pub proof fn lemma_code_round_trip(v: MOUSE_EVENTS, code: int)
        ensures
            Self::spec_from_code(v.spec_code()) == Some(v),
            Self::spec_from_code(code) == Some(v) ==> v.spec_code() == code,
    {
    }
}

/// Keys that modify an input event.
#[derive(Clone, Copy, PartialEq, Eq, Structural, Debug)]
pub enum KEYBOARD_STATES {
    /// No modifier is pressed.
    NONE,
    CONTROL_KEY_PRESSED,
    SHIFT_KEY_PRESSED,
    ALT_KEY_PRESSED,
}

impl KEYBOARD_STATES {
    /// The number that the engine uses for this variant.
    pub open spec fn spec_code(self) -> int {
        match self {
            KEYBOARD_STATES::NONE => 0,
            KEYBOARD_STATES::CONTROL_KEY_PRESSED => 0x1,
            KEYBOARD_STATES::SHIFT_KEY_PRESSED => 0x2,
            KEYBOARD_STATES::ALT_KEY_PRESSED => 0x4,
        }
    }

    /// The variant that a number stands for, if there is one.
    pub open spec fn spec_from_code(code: int) -> Option<KEYBOARD_STATES> {
        if code == 0 {
            Some(KEYBOARD_STATES::NONE)
        } else if code == 0x1 {
            Some(KEYBOARD_STATES::CONTROL_KEY_PRESSED)
        } else if code == 0x2 {
            Some(KEYBOARD_STATES::SHIFT_KEY_PRESSED)
        } else if code == 0x4 {
            Some(KEYBOARD_STATES::ALT_KEY_PRESSED)
        } else {
            None
        }
    }

    /// The number that the engine uses for this variant.
    pub fn code(self) -> (code: u32)
        ensures
            code == self.spec_code(),
    {
        match self {
            KEYBOARD_STATES::NONE => 0,
            KEYBOARD_STATES::CONTROL_KEY_PRESSED => 0x1,
            KEYBOARD_STATES::SHIFT_KEY_PRESSED => 0x2,
            KEYBOARD_STATES::ALT_KEY_PRESSED => 0x4,
        }
    }

    /// Reads a number back into its variant; `None` for a number that stands for none.
    pub fn from_code(code: u32) -> (r: Option<KEYBOARD_STATES>)
        ensures
            r == Self::spec_from_code(code as int),
    {
        if code == 0 {
            Some(KEYBOARD_STATES::NONE)
        } else if code == 0x1 {
            Some(KEYBOARD_STATES::CONTROL_KEY_PRESSED)
        } else if code == 0x2 {
            Some(KEYBOARD_STATES::SHIFT_KEY_PRESSED)
        } else if code == 0x4 {
            Some(KEYBOARD_STATES::ALT_KEY_PRESSED)
        } else {
            None
        }
    }

    /// Each variant is read back from its own code, and a number that is read back
    /// into a variant is that variant's code.
    pub proof fn lemma_code_round_trip(v: KEYBOARD_STATES, code: int)
        ensures
            Self::spec_from_code(v.spec_code()) == Some(v),
            Self::spec_from_code(code) == Some(v) ==> v.spec_code() == code,
    {
    }
}

/// Keyboard events.
#[derive(Clone, Copy, PartialEq, Eq, Structural, Debug)]
pub enum KEY_EVENTS {
    KEY_DOWN,
    KEY_UP,
    KEY_CHAR,
}

impl KEY_EVENTS {
    /// The number that the engine uses for this variant.
    pub open spec fn spec_code(self) -> int {
        match self {
            KEY_EVENTS::KEY_DOWN => 0,
            KEY_EVENTS::KEY_UP => 1,
            KEY_EVENTS::KEY_CHAR => 2,
        }
    }

    /// The variant that a number stands for, if there is one.
    pub open spec fn spec_from_code(code: int) -> Option<KEY_EVENTS> {
        if code == 0 {
            Some(KEY_EVENTS::KEY_DOWN)
        } else if code == 1 {
            Some(KEY_EVENTS::KEY_UP)
        } else if code == 2 {
            Some(KEY_EVENTS::KEY_CHAR)
        } else {
            None
        }
    }

    /// The number that the engine uses for this variant.
    pub fn code(self) -> (code: u32)
        ensures
            code == self.spec_code(),
    {
        match self {
            KEY_EVENTS::KEY_DOWN => 0,
            KEY_EVENTS::KEY_UP => 1,
            KEY_EVENTS::KEY_CHAR => 2,
        }
    }

    /// Reads a number back into its variant; `None` for a number that stands for none.
    pub fn from_code(code: u32) -> (r: Option<KEY_EVENTS>)
        ensures
            r == Self::spec_from_code(code as int),
    {
        if code == 0 {
            Some(KEY_EVENTS::KEY_DOWN)
        } else if code == 1 {
            Some(KEY_EVENTS::KEY_UP)
        } else if code == 2 {
            Some(KEY_EVENTS::KEY_CHAR)
        } else {
            None
        }
    }

    /// Each variant is read back from its own code, and a number that is read back
    /// into a variant is that variant's code.
    pub proof fn lemma_code_round_trip(v: KEY_EVENTS, code: int)
        ensures
            Self::spec_from_code(v.spec_code()) == Some(v),
            Self::spec_from_code(code) == Some(v) ==> v.spec_code() == code,
    {
    }
}

/// The bits of a packed event number that hold the event code.
pub const EVENT_CODE_BITS: u32 = 0x0000_0FFF;

/// The bits of a packed event number that hold the phase.
pub const EVENT_PHASE_BITS: u32 = 0xFFFF_F000;

/// The event code of a packed event number: its low bits.
pub open spec fn spec_event_code(cmd: u32) -> u32 {
    cmd & EVENT_CODE_BITS
}

/// The phase bits of a packed event number: its high bits.
pub open spec fn spec_event_phase_bits(cmd: u32) -> u32 {
    cmd & EVENT_PHASE_BITS
}

/// The phase that the phase bits stand for: sinking where that flag is set;
/// otherwise the marker of a consumed event where that flag is set; otherwise
/// bubbling.
pub open spec fn spec_phase_of(cmd: u32) -> PHASE_MASK {
    if cmd & 0x8000 != 0 {
        PHASE_MASK::SINKING
    } else if cmd & 0x10000 != 0 {
        PHASE_MASK::HANDLED
    } else {
        PHASE_MASK::BUBBLING
    }
}

/// The event code of a packed event number.
pub fn event_code(cmd: u32) -> (code: BEHAVIOR_EVENTS)
    ensures
        code == BEHAVIOR_EVENTS::spec_from_code(spec_event_code(cmd)),
        code.wf(),
{
    BEHAVIOR_EVENTS::from_code(cmd & EVENT_CODE_BITS)
}

/// The phase of a packed event number.
pub fn event_phase(cmd: u32) -> (phase: PHASE_MASK)
    ensures
        phase == spec_phase_of(cmd),
{
    if cmd & 0x8000 != 0 {
        PHASE_MASK::SINKING
    } else if cmd & 0x10000 != 0 {
        PHASE_MASK::HANDLED
    } else {
        PHASE_MASK::BUBBLING
    }
}

/// Whether the event is on its way down to its target.
pub fn is_sinking(cmd: u32) -> (r: bool)
    ensures
        r == (spec_phase_of(cmd) == PHASE_MASK::SINKING),
{
    cmd & 0x8000 != 0
}

/// Whether the event is on its way up from its target.
pub fn is_bubbling(cmd: u32) -> (r: bool)
    ensures
        r == (spec_phase_of(cmd) != PHASE_MASK::SINKING),
{
    cmd & 0x8000 == 0
}

/// Whether the event carries the marker of a consumed event.
pub fn is_handled(cmd: u32) -> (r: bool)
    ensures
        r == (cmd & 0x10000 != 0),
{
    cmd & 0x10000 != 0
}

/// Packs an event code and a phase into one number.
pub fn pack_event(code: BEHAVIOR_EVENTS, phase: PHASE_MASK) -> (cmd: u32)
    ensures
        cmd == (code.spec_code() & EVENT_CODE_BITS) | (phase.spec_code() as u32),
{
    (code.code() & EVENT_CODE_BITS) | phase.code()
}

/// What was packed is unpacked again: the code, where it fits into the bits
/// of the code, and the phase.
pub proof fn lemma_pack_round_trip(code: BEHAVIOR_EVENTS, phase: PHASE_MASK)
    requires
        code.wf(),
        code.spec_code() <= EVENT_CODE_BITS,
    ensures
        ({
            let cmd = (code.spec_code() & EVENT_CODE_BITS) | (phase.spec_code() as u32);
            &&& BEHAVIOR_EVENTS::spec_from_code(spec_event_code(cmd)) == code
            &&& spec_phase_of(cmd) == phase
            &&& spec_event_phase_bits(cmd) == phase.spec_code()
        }),
{
    let c = code.spec_code();
    let p = phase.spec_code() as u32;
    assert(p == 0 || p == 0x8000 || p == 0x10000);
    assert(c <= 0xFFF && (p == 0 || p == 0x8000 || p == 0x10000) ==> (((c & 0xFFF) | p) & 0xFFF) == c
        && (((c & 0xFFF) | p) & 0xFFFF_F000) == p && ((((c & 0xFFF) | p) & 0x8000) != 0) == (p
        == 0x8000) && ((((c & 0xFFF) | p) & 0x10000) != 0) == (p == 0x10000)) by (bit_vector);
}

/// The code and the phase of an event do not depend on one another: the code
/// is read from the low bits alone and the phase from the high bits alone.
pub proof fn lemma_code_and_phase_are_apart(cmd: u32, other: u32)
    ensures
        cmd & EVENT_CODE_BITS == other & EVENT_CODE_BITS ==> spec_event_code(cmd) == spec_event_code(
            other,
        ),
        cmd & EVENT_PHASE_BITS == other & EVENT_PHASE_BITS ==> spec_phase_of(cmd) == spec_phase_of(
            other,
        ),
{
    assert(cmd & 0xFFFF_F000 == other & 0xFFFF_F000 ==> (cmd & 0x8000) == (other & 0x8000) && (cmd
        & 0x10000) == (other & 0x10000)) by (bit_vector);
}

} // verus!
