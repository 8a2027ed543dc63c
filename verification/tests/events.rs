use sciter::dom::event::{reason_of, EventHandler, EventReason};
use sciter::eventhandler::{
    script_call_outcome, subscription_outcome, Delivery, EventParams, HandlerState, Registration, WindowHandler,
    _event_handler_proc, _event_handler_window_proc, GROUP_BEHAVIOR_EVENT, GROUP_INITIALIZATION,
    GROUP_SCRIPTING_METHOD_CALL, GROUP_SUBSCRIPTIONS_REQUEST, GROUP_TIMER,
};
use sciter::macros::{argument, check_arity};
use sciter::scbehavior::{
    event_code, event_phase, is_bubbling, is_handled, is_sinking, pack_event, BEHAVIOR_EVENTS, BEHAVIOR_EVENT_PARAMS,
    EDIT_CHANGED_REASON, EVENT_GROUPS, EVENT_REASON, INITIALIZATION_EVENTS, INITIALIZATION_PARAMS, PHASE_MASK,
    SCRIPTING_METHOD_PARAMS, TIMER_PARAMS,
};
use sciter::scdom::HELEMENT;
use sciter::sctypes::HWINDOW;
use sciter::value::Value;
use std::cell::RefCell;
use std::rc::Rc;

/// What a handler was called with, in the order of the calls.
#[derive(Default)]
struct Log {
    calls: Vec<String>,
    drops: u32,
}

struct Probe {
    log: Rc<RefCell<Log>>,
    subscription: Option<EVENT_GROUPS>,
    handles: bool,
}

impl Probe {
    fn new(subscription: Option<EVENT_GROUPS>) -> (Probe, Rc<RefCell<Log>>) {
        let log = Rc::new(RefCell::new(Log::default()));
        (Probe { log: log.clone(), subscription, handles: true }, log)
    }

    fn note(&self, what: String) {
        self.log.borrow_mut().calls.push(what);
    }
}

impl Drop for Probe {
    fn drop(&mut self) {
        self.log.borrow_mut().drops += 1;
    }
}

impl EventHandler for Probe {
    fn get_subscription(&mut self) -> Option<EVENT_GROUPS> {
        self.note("subscription".to_string());
        self.subscription
    }

    fn attached(&mut self, root: HELEMENT) {
        self.note(format!("attached {}", root.0));
    }

    fn detached(&mut self, root: HELEMENT) {
        self.note(format!("detached {}", root.0));
    }

    fn document_complete(&mut self, _root: HELEMENT, target: HELEMENT) {
        self.note(format!("complete {}", target.0));
    }

    fn document_close(&mut self, _root: HELEMENT, target: HELEMENT) {
        self.note(format!("close {}", target.0));
    }

    fn on_script_call(&mut self, _root: HELEMENT, name: &str, args: &[Value]) -> Option<Value> {
        self.note(format!("call {} {}", name, args.len()));
        match name {
            "sum" => {
                if let Some(e) = check_arity(name, args.len(), 2) {
                    return Some(e);
                }
                let a: i32 = match argument(name, 0, "i32", args) {
                    Ok(a) => a,
                    Err(e) => return Some(e),
                };
                let b: i32 = match argument(name, 1, "i32", args) {
                    Ok(b) => b,
                    Err(e) => return Some(e),
                };
                Some(Value::from(a + b))
            }
            _ => None,
        }
    }

    fn on_event(
        &mut self,
        _root: HELEMENT,
        source: HELEMENT,
        target: HELEMENT,
        code: BEHAVIOR_EVENTS,
        phase: PHASE_MASK,
        reason: EventReason,
    ) -> bool {
        self.note(format!("event {:?} {:?} {:?} {} {}", code, phase, reason, source.0, target.0));
        self.handles
    }

    fn on_timer(&mut self, _root: HELEMENT, timer_id: u64) -> bool {
        self.note(format!("timer {}", timer_id));
        self.handles
    }
}

fn attach() -> EventParams {
    EventParams::Initialization(INITIALIZATION_PARAMS { cmd: INITIALIZATION_EVENTS::BEHAVIOR_ATTACH })
}

fn detach() -> EventParams {
    EventParams::Initialization(INITIALIZATION_PARAMS { cmd: INITIALIZATION_EVENTS::BEHAVIOR_DETACH })
}

fn click(cmd: u32) -> EventParams {
    EventParams::BehaviorEvent(BEHAVIOR_EVENT_PARAMS {
        cmd,
        heTarget: HELEMENT(7),
        he: HELEMENT(5),
        reason: 1,
        data: Value::new(),
    })
}

fn script_call(name: &str, argv: Vec<Value>) -> EventParams {
    EventParams::ScriptingMethod(SCRIPTING_METHOD_PARAMS { name: name.to_string(), argv, result: Value::new() })
}

const ROOT: HELEMENT = HELEMENT(1);

#[test]
fn lifecycle() {
    let (probe, log) = Probe::new(None);
    let mut tag = Registration::register(probe);
    assert_eq!(tag.get_state(), HandlerState::Unattached);
    assert!(tag.get_handler().is_some());

    // attach
    let mut params = attach();
    assert!(_event_handler_proc(&mut tag, ROOT, GROUP_INITIALIZATION, &mut params));
    assert_eq!(tag.get_state(), HandlerState::Attached);
    assert_eq!(log.borrow().calls, ["subscription", "attached 1"]);

    // an event
    let mut params = click(pack_event(BEHAVIOR_EVENTS::BUTTON_CLICK, PHASE_MASK::BUBBLING));
    assert!(_event_handler_proc(&mut tag, ROOT, GROUP_BEHAVIOR_EVENT, &mut params));
    assert_eq!(tag.get_state(), HandlerState::Attached);

    // detach: the handler is told, and destroyed
    let mut params = detach();
    assert!(_event_handler_proc(&mut tag, ROOT, GROUP_INITIALIZATION, &mut params));
    assert_eq!(tag.get_state(), HandlerState::Detached);
    assert!(tag.get_handler().is_none());
    assert_eq!(log.borrow().drops, 1);
    assert_eq!(log.borrow().calls.last().unwrap(), "detached 1");
    let calls = log.borrow().calls.len();

    // a later attach is never seen, nor anything else
    let mut params = attach();
    assert!(!_event_handler_proc(&mut tag, ROOT, GROUP_INITIALIZATION, &mut params));
    assert_eq!(tag.get_state(), HandlerState::Detached);
    let mut params = click(0);
    assert!(!_event_handler_proc(&mut tag, ROOT, GROUP_BEHAVIOR_EVENT, &mut params));
    let mut params = EventParams::Subscriptions(EVENT_GROUPS::HANDLE_ALL);
    assert!(!_event_handler_proc(&mut tag, ROOT, GROUP_SUBSCRIPTIONS_REQUEST, &mut params));
    let mut params = detach();
    assert!(!_event_handler_proc(&mut tag, ROOT, GROUP_INITIALIZATION, &mut params));
    assert_eq!(log.borrow().calls.len(), calls);
    assert_eq!(log.borrow().drops, 1);

    drop(tag);
    assert_eq!(log.borrow().drops, 1);
}

#[test]
fn nothing_before_attach() {
    let (probe, log) = Probe::new(None);
    let mut tag = Registration::register(probe);

    let mut params = click(0);
    assert!(!_event_handler_proc(&mut tag, ROOT, GROUP_BEHAVIOR_EVENT, &mut params));
    let mut params = EventParams::Timer(TIMER_PARAMS { timerId: 1 });
    assert!(!_event_handler_proc(&mut tag, ROOT, GROUP_TIMER, &mut params));
    let mut params = script_call("sum", vec![]);
    assert!(!_event_handler_proc(&mut tag, ROOT, GROUP_SCRIPTING_METHOD_CALL, &mut params));

    assert_eq!(tag.get_state(), HandlerState::Unattached);
    // all that the handler was asked is its subscription, when it was registered
    assert_eq!(log.borrow().calls, ["subscription"]);
    assert_eq!(log.borrow().drops, 0);
}

#[test]
fn attach_is_seen_once() {
    let (probe, log) = Probe::new(None);
    let mut tag = Registration::register(probe);
    let mut params = attach();
    assert!(_event_handler_proc(&mut tag, ROOT, GROUP_INITIALIZATION, &mut params));
    let mut params = attach();
    assert!(!_event_handler_proc(&mut tag, ROOT, GROUP_INITIALIZATION, &mut params));
    assert_eq!(log.borrow().calls, ["subscription", "attached 1"]);
    assert_eq!(tag.get_state(), HandlerState::Attached);
}

#[test]
fn detach_before_attach_destroys() {
    let (probe, log) = Probe::new(None);
    let mut tag = Registration::register(probe);
    let mut params = detach();
    assert!(_event_handler_proc(&mut tag, HELEMENT(0), GROUP_INITIALIZATION, &mut params));
    assert_eq!(tag.get_state(), HandlerState::Detached);
    assert_eq!(log.borrow().drops, 1);
}

#[test]
fn subscription_scenario() {
    // a handler that subscribes to timers alone
    let (probe, log) = Probe::new(Some(EVENT_GROUPS::HANDLE_TIMER));
    let mut tag = Registration::register(probe);

    let mut params = EventParams::Subscriptions(EVENT_GROUPS::HANDLE_ALL);
    assert!(_event_handler_proc(&mut tag, HELEMENT(0), GROUP_SUBSCRIPTIONS_REQUEST, &mut params));
    match params {
        EventParams::Subscriptions(groups) => assert_eq!(groups, EVENT_GROUPS::HANDLE_TIMER),
        _ => panic!("the groups are written back"),
    }
    assert_eq!(tag.get_subscription(), Some(EVENT_GROUPS::HANDLE_TIMER));

    let mut params = attach();
    assert!(_event_handler_proc(&mut tag, ROOT, GROUP_INITIALIZATION, &mut params));
    let before = log.borrow().calls.len();

    // the engine sends a behavior event all the same: it is not delivered
    let mut params = click(pack_event(BEHAVIOR_EVENTS::BUTTON_CLICK, PHASE_MASK::SINKING));
    assert!(!_event_handler_proc(&mut tag, ROOT, GROUP_BEHAVIOR_EVENT, &mut params));
    let mut params = script_call("sum", vec![Value::from(1), Value::from(2)]);
    assert!(!_event_handler_proc(&mut tag, ROOT, GROUP_SCRIPTING_METHOD_CALL, &mut params));
    assert_eq!(log.borrow().calls.len(), before);

    // a timer event is
    let mut params = EventParams::Timer(TIMER_PARAMS { timerId: 42 });
    assert!(_event_handler_proc(&mut tag, ROOT, GROUP_TIMER, &mut params));
    assert_eq!(log.borrow().calls.last().unwrap(), "timer 42");
}

#[test]
fn no_preference_is_every_group() {
    let (probe, log) = Probe::new(None);
    let mut tag = Registration::register(probe);

    // the handler declines: the request is answered "not handled", the place is left
    let mut params = EventParams::Subscriptions(EVENT_GROUPS::HANDLE_MOUSE);
    assert!(!_event_handler_proc(&mut tag, HELEMENT(0), GROUP_SUBSCRIPTIONS_REQUEST, &mut params));
    match params {
        EventParams::Subscriptions(groups) => assert_eq!(groups, EVENT_GROUPS::HANDLE_MOUSE),
        _ => panic!("the place is left as it was"),
    }
    assert_eq!(tag.get_subscription(), None);

    let mut params = attach();
    _event_handler_proc(&mut tag, ROOT, GROUP_INITIALIZATION, &mut params);
    let mut params = click(pack_event(BEHAVIOR_EVENTS::BUTTON_CLICK, PHASE_MASK::BUBBLING));
    assert!(_event_handler_proc(&mut tag, ROOT, GROUP_BEHAVIOR_EVENT, &mut params));
    let mut params = EventParams::Timer(TIMER_PARAMS { timerId: 1 });
    assert!(_event_handler_proc(&mut tag, ROOT, GROUP_TIMER, &mut params));
    assert_eq!(log.borrow().calls.len(), 5);
}

#[test]
fn subscription_is_known_before_the_engine_asks() {
    // a handler that subscribes to timers alone, and an engine that never asks
    let (probe, log) = Probe::new(Some(EVENT_GROUPS::HANDLE_TIMER));
    let mut tag = Registration::register(probe);
    assert_eq!(tag.get_subscription(), Some(EVENT_GROUPS::HANDLE_TIMER));
    assert_eq!(log.borrow().calls, ["subscription"]);

    let mut params = attach();
    assert!(_event_handler_proc(&mut tag, ROOT, GROUP_INITIALIZATION, &mut params));

    // the engine sends a behavior event all the same: it is not delivered
    let mut params = click(pack_event(BEHAVIOR_EVENTS::DOCUMENT_COMPLETE, PHASE_MASK::BUBBLING));
    assert!(!_event_handler_proc(&mut tag, ROOT, GROUP_BEHAVIOR_EVENT, &mut params));
    let mut params = click(pack_event(BEHAVIOR_EVENTS::BUTTON_CLICK, PHASE_MASK::SINKING));
    assert!(!_event_handler_proc(&mut tag, ROOT, GROUP_BEHAVIOR_EVENT, &mut params));
    let mut params = script_call("sum", vec![Value::from(1), Value::from(2)]);
    assert!(!_event_handler_proc(&mut tag, ROOT, GROUP_SCRIPTING_METHOD_CALL, &mut params));
    assert_eq!(log.borrow().calls, ["subscription", "attached 1"]);

    // a timer event is
    let mut params = EventParams::Timer(TIMER_PARAMS { timerId: 42 });
    assert!(_event_handler_proc(&mut tag, ROOT, GROUP_TIMER, &mut params));
    assert_eq!(log.borrow().calls, ["subscription", "attached 1", "timer 42"]);

    // and the same for the handler of a window
    let (probe, log) = Probe::new(Some(EVENT_GROUPS::HANDLE_TIMER));
    let mut tag = Registration::register(WindowHandler { hwnd: HWINDOW(9), handler: probe });
    let mut params = attach();
    assert!(_event_handler_window_proc(&mut tag, ROOT, GROUP_INITIALIZATION, &mut params));
    let mut params = click(pack_event(BEHAVIOR_EVENTS::BUTTON_CLICK, PHASE_MASK::BUBBLING));
    assert!(!_event_handler_window_proc(&mut tag, ROOT, GROUP_BEHAVIOR_EVENT, &mut params));
    assert_eq!(log.borrow().calls, ["subscription", "attached 1"]);
}

#[test]
fn behavior_events_are_decoded() {
    let (probe, log) = Probe::new(None);
    let mut tag = Registration::register(probe);
    let mut params = attach();
    _event_handler_proc(&mut tag, ROOT, GROUP_INITIALIZATION, &mut params);

    let mut params = click(0x8000 | 0x98);
    assert!(_event_handler_proc(&mut tag, ROOT, GROUP_BEHAVIOR_EVENT, &mut params));
    {
        let log = log.borrow();
        let n = log.calls.len();
        // the document's completion is told once, on the way down
        assert_eq!(log.calls[n - 2], "complete 7");
        assert_eq!(log.calls[n - 1], "event DOCUMENT_COMPLETE SINKING General(BY_KEY_CLICK) 5 7");
    }

    let mut params = click(0x98);
    _event_handler_proc(&mut tag, ROOT, GROUP_BEHAVIOR_EVENT, &mut params);
    {
        let log = log.borrow();
        let n = log.calls.len();
        assert_eq!(log.calls[n - 2], "event DOCUMENT_COMPLETE SINKING General(BY_KEY_CLICK) 5 7");
        assert_eq!(log.calls[n - 1], "event DOCUMENT_COMPLETE BUBBLING General(BY_KEY_CLICK) 5 7");
    }

    let mut params = click(0x8000 | 0xC2);
    _event_handler_proc(&mut tag, ROOT, GROUP_BEHAVIOR_EVENT, &mut params);
    {
        let log = log.borrow();
        let n = log.calls.len();
        assert_eq!(log.calls[n - 2], "close 7");
    }

    let mut params = click(4);
    _event_handler_proc(&mut tag, ROOT, GROUP_BEHAVIOR_EVENT, &mut params);
    assert_eq!(log.borrow().calls.last().unwrap(), "event EDIT_VALUE_CHANGED BUBBLING EditChanged(BY_INS_CHARS) 5 7");

    // an event of the application's own
    let mut params = click(0x123);
    _event_handler_proc(&mut tag, ROOT, GROUP_BEHAVIOR_EVENT, &mut params);
    assert_eq!(log.borrow().calls.last().unwrap(), "event CUSTOM(291) BUBBLING General(BY_KEY_CLICK) 5 7");
}

#[test]
fn events_need_an_element_and_their_own_parameters() {
    let (probe, log) = Probe::new(None);
    let mut tag = Registration::register(probe);
    let mut params = attach();
    _event_handler_proc(&mut tag, ROOT, GROUP_INITIALIZATION, &mut params);
    let before = log.borrow().calls.len();

    // no element
    let mut params = click(0);
    assert!(!_event_handler_proc(&mut tag, HELEMENT(0), GROUP_BEHAVIOR_EVENT, &mut params));
    // the parameters of another group
    let mut params = EventParams::Timer(TIMER_PARAMS { timerId: 1 });
    assert!(!_event_handler_proc(&mut tag, ROOT, GROUP_BEHAVIOR_EVENT, &mut params));
    let mut params = EventParams::Nothing;
    assert!(!_event_handler_proc(&mut tag, ROOT, GROUP_TIMER, &mut params));
    // a group that is not dispatched
    let mut params = EventParams::Nothing;
    assert!(!_event_handler_proc(&mut tag, ROOT, 0x0001, &mut params));
    assert_eq!(log.borrow().calls.len(), before);
}

#[test]
fn a_handler_may_decline() {
    let (mut probe, _log) = Probe::new(None);
    probe.handles = false;
    let mut tag = Registration::register(probe);
    let mut params = attach();
    _event_handler_proc(&mut tag, ROOT, GROUP_INITIALIZATION, &mut params);
    let mut params = click(0);
    assert!(!_event_handler_proc(&mut tag, ROOT, GROUP_BEHAVIOR_EVENT, &mut params));
    let mut params = EventParams::Timer(TIMER_PARAMS { timerId: 1 });
    assert!(!_event_handler_proc(&mut tag, ROOT, GROUP_TIMER, &mut params));
}

#[test]
fn script_calls() {
    let (probe, _log) = Probe::new(None);
    let mut tag = Registration::register(probe);
    let mut params = attach();
    _event_handler_proc(&mut tag, ROOT, GROUP_INITIALIZATION, &mut params);

    let result_of = |params: &EventParams| match params {
        EventParams::ScriptingMethod(p) => p.result.clone(),
        _ => panic!("the parameters stay those of a call"),
    };

    let mut params = script_call("sum", vec![Value::from(2), Value::from(3)]);
    assert!(_event_handler_proc(&mut tag, ROOT, GROUP_SCRIPTING_METHOD_CALL, &mut params));
    assert_eq!(result_of(&params).to_int(), Some(5));

    // the wrong number of arguments: the caller in script gets an error value
    let mut params = script_call("sum", vec![Value::from(2)]);
    assert!(_event_handler_proc(&mut tag, ROOT, GROUP_SCRIPTING_METHOD_CALL, &mut params));
    assert!(result_of(&params).is_error_string());
    assert_eq!(result_of(&params).as_string().unwrap(), "sum error: 1 of 2 arguments provided.");

    // the wrong type
    let mut params = script_call("sum", vec![Value::from(2), Value::from("3")]);
    assert!(_event_handler_proc(&mut tag, ROOT, GROUP_SCRIPTING_METHOD_CALL, &mut params));
    assert_eq!(
        result_of(&params).as_string().unwrap(),
        "sum error: invalid type of 1 argument (i32 expected, string provided)."
    );

    // a function that the handler does not have: not handled, the slot is left
    let mut params = script_call("other", vec![]);
    assert!(!_event_handler_proc(&mut tag, ROOT, GROUP_SCRIPTING_METHOD_CALL, &mut params));
    assert!(result_of(&params).is_undefined());
}

#[test]
fn window_handler() {
    let (probe, log) = Probe::new(None);
    let mut tag = Registration::register(WindowHandler { hwnd: HWINDOW(9), handler: probe });

    // a window is attached before it has a document
    let mut params = attach();
    assert!(_event_handler_window_proc(&mut tag, HELEMENT(0), GROUP_INITIALIZATION, &mut params));
    assert_eq!(tag.get_state(), HandlerState::Attached);
    assert_eq!(log.borrow().calls, ["subscription", "attached 0"]);

    let mut params = click(0);
    assert!(!_event_handler_window_proc(&mut tag, HELEMENT(0), GROUP_BEHAVIOR_EVENT, &mut params));
    let mut params = click(0);
    assert!(_event_handler_window_proc(&mut tag, ROOT, GROUP_BEHAVIOR_EVENT, &mut params));

    let mut params = detach();
    assert!(_event_handler_window_proc(&mut tag, HELEMENT(0), GROUP_INITIALIZATION, &mut params));
    assert_eq!(tag.get_state(), HandlerState::Detached);
    assert_eq!(log.borrow().drops, 1);
}

#[test]
fn classification() {
    let (probe, _log) = Probe::new(Some(EVENT_GROUPS::HANDLE_BEHAVIOR_EVENT | EVENT_GROUPS::HANDLE_TIMER));
    let mut tag = Registration::register(probe);
    assert_eq!(tag.classify(ROOT, GROUP_INITIALIZATION, &attach()), Delivery::Attach);
    assert_eq!(tag.classify(ROOT, GROUP_INITIALIZATION, &detach()), Delivery::Detach);
    assert_eq!(tag.classify(ROOT, GROUP_INITIALIZATION, &EventParams::Nothing), Delivery::Ignore);
    assert_eq!(
        tag.classify(ROOT, GROUP_SUBSCRIPTIONS_REQUEST, &EventParams::Subscriptions(EVENT_GROUPS::HANDLE_ALL)),
        Delivery::Subscription
    );
    assert_eq!(tag.classify(ROOT, GROUP_SUBSCRIPTIONS_REQUEST, &EventParams::Nothing), Delivery::Ignore);
    assert_eq!(tag.classify(ROOT, GROUP_BEHAVIOR_EVENT, &click(0)), Delivery::Ignore);

    let mut params = EventParams::Subscriptions(EVENT_GROUPS::HANDLE_ALL);
    _event_handler_proc(&mut tag, ROOT, GROUP_SUBSCRIPTIONS_REQUEST, &mut params);
    let mut params = attach();
    _event_handler_proc(&mut tag, ROOT, GROUP_INITIALIZATION, &mut params);
    assert_eq!(tag.classify(ROOT, GROUP_BEHAVIOR_EVENT, &click(0)), Delivery::Event);
    assert_eq!(
        tag.classify(ROOT, GROUP_TIMER, &EventParams::Timer(TIMER_PARAMS { timerId: 1 })),
        Delivery::Timer
    );
    assert_eq!(tag.classify(ROOT, GROUP_SCRIPTING_METHOD_CALL, &script_call("f", vec![])), Delivery::Ignore);
    assert_eq!(tag.classify(ROOT, GROUP_INITIALIZATION, &attach()), Delivery::Ignore);
}

#[test]
fn outcomes() {
    let mut out = EVENT_GROUPS::HANDLE_ALL;
    assert!(subscription_outcome(Some(EVENT_GROUPS::HANDLE_KEY), &mut out));
    assert_eq!(out, EVENT_GROUPS::HANDLE_KEY);
    assert!(!subscription_outcome(None, &mut out));
    assert_eq!(out, EVENT_GROUPS::HANDLE_KEY);

    let mut slot = Value::from(1);
    assert!(script_call_outcome(Some(Value::from("r")), &mut slot));
    assert_eq!(slot, Value::from("r"));
    assert!(!script_call_outcome(None, &mut slot));
    assert_eq!(slot, Value::from("r"));
}

#[test]
fn groups_are_a_mask() {
    assert_eq!((EVENT_GROUPS::HANDLE_MOUSE | EVENT_GROUPS::HANDLE_KEY).code(), 3);
    assert_eq!(EVENT_GROUPS::HANDLE_MOUSE | EVENT_GROUPS::HANDLE_KEY, EVENT_GROUPS::UNION(3));
    assert_eq!(EVENT_GROUPS::HANDLE_MOUSE | EVENT_GROUPS::HANDLE_MOUSE, EVENT_GROUPS::HANDLE_MOUSE);
    assert_eq!(EVENT_GROUPS::HANDLE_MOUSE | EVENT_GROUPS::HANDLE_INITIALIZATION, EVENT_GROUPS::HANDLE_MOUSE);
    assert_eq!(EVENT_GROUPS::HANDLE_ALL | EVENT_GROUPS::HANDLE_TIMER, EVENT_GROUPS::HANDLE_ALL);
    let mask = EVENT_GROUPS::HANDLE_BEHAVIOR_EVENT | EVENT_GROUPS::HANDLE_SCRIPTING_METHOD_CALL;
    assert_eq!(mask.code(), 0x500);
    assert!(mask.contains(0x100));
    assert!(mask.contains(0x400));
    assert!(!mask.contains(0x10));
    assert!(EVENT_GROUPS::HANDLE_ALL.contains(0x2000));
    assert!(!EVENT_GROUPS::HANDLE_TIMER.contains(0x100));
    assert_eq!(EVENT_GROUPS::from_code(0x10), EVENT_GROUPS::HANDLE_TIMER);
    assert_eq!(EVENT_GROUPS::from_code(0xFFFF_FFFF), EVENT_GROUPS::SUBSCRIPTIONS_REQUEST);
    assert_eq!(EVENT_GROUPS::from_code(0x30), EVENT_GROUPS::UNION(0x30));
    assert_eq!(EVENT_GROUPS::SUBSCRIPTIONS_REQUEST.code(), 0xFFFF_FFFF);
}

#[test]
fn code_and_phase_are_packed() {
    assert_eq!(pack_event(BEHAVIOR_EVENTS::BUTTON_CLICK, PHASE_MASK::BUBBLING), 0);
    assert_eq!(pack_event(BEHAVIOR_EVENTS::HYPERLINK_CLICK, PHASE_MASK::SINKING), 0x8080);
    assert_eq!(pack_event(BEHAVIOR_EVENTS::VIDEO_BIND_RQ, PHASE_MASK::HANDLED), 0x100D4);
    assert_eq!(pack_event(BEHAVIOR_EVENTS::FIRST_APPLICATION_EVENT_CODE, PHASE_MASK::SINKING), 0x8100);
    assert_eq!(pack_event(BEHAVIOR_EVENTS::CUSTOM(0x1234), PHASE_MASK::BUBBLING), 0x234);

    assert_eq!(event_code(0x8080), BEHAVIOR_EVENTS::HYPERLINK_CLICK);
    assert_eq!(event_phase(0x8080), PHASE_MASK::SINKING);
    assert_eq!(event_code(0x100D4), BEHAVIOR_EVENTS::VIDEO_BIND_RQ);
    assert_eq!(event_phase(0x100D4), PHASE_MASK::HANDLED);
    assert_eq!(event_code(0x17), BEHAVIOR_EVENTS::CHANGE);
    assert_eq!(event_phase(0x17), PHASE_MASK::BUBBLING);
    assert_eq!(event_code(0x14), BEHAVIOR_EVENTS::CUSTOM(0x14));
    // on its way down and consumed: the way counts
    assert_eq!(event_phase(0x18000), PHASE_MASK::SINKING);
    assert!(is_sinking(0x18000) && is_handled(0x18000) && !is_bubbling(0x18000));
    assert!(is_bubbling(0x10016) && is_handled(0x10016) && !is_sinking(0x10016));
    assert!(is_bubbling(0x16) && !is_handled(0x16));

    for code in [BEHAVIOR_EVENTS::BUTTON_CLICK, BEHAVIOR_EVENTS::DOCUMENT_READY, BEHAVIOR_EVENTS::CUSTOM(0x555)] {
        for phase in [PHASE_MASK::BUBBLING, PHASE_MASK::SINKING, PHASE_MASK::HANDLED] {
            let cmd = pack_event(code, phase);
            assert_eq!(event_code(cmd), code);
            assert_eq!(event_phase(cmd), phase);
        }
    }
}

#[test]
fn reason_goes_by_the_code() {
    assert_eq!(
        reason_of(BEHAVIOR_EVENTS::BUTTON_CLICK, 0),
        EventReason::General(EVENT_REASON::BY_MOUSE_CLICK)
    );
    assert_eq!(reason_of(BEHAVIOR_EVENTS::BUTTON_CLICK, 2), EventReason::General(EVENT_REASON::SYNTHESIZED));
    assert_eq!(reason_of(BEHAVIOR_EVENTS::PAGINATION_PAGE, 12), EventReason::General(EVENT_REASON::OTHER(12)));
    assert_eq!(
        reason_of(BEHAVIOR_EVENTS::EDIT_VALUE_CHANGED, 0),
        EventReason::EditChanged(EDIT_CHANGED_REASON::BY_INS_CHAR)
    );
    assert_eq!(
        reason_of(BEHAVIOR_EVENTS::EDIT_VALUE_CHANGING, 3),
        EventReason::EditChanged(EDIT_CHANGED_REASON::BY_DEL_CHARS)
    );
    assert_eq!(
        reason_of(BEHAVIOR_EVENTS::EDIT_VALUE_CHANGING, 9),
        EventReason::EditChanged(EDIT_CHANGED_REASON::OTHER(9))
    );
    assert_eq!(reason_of(BEHAVIOR_EVENTS::VIDEO_BIND_RQ, 0xbeef), EventReason::VideoBind(0xbeef));
    assert_eq!(reason_of(BEHAVIOR_EVENTS::VIDEO_BIND_RQ, 0), EventReason::VideoBind(0));
}

#[test]
fn only_behavior_events_have_a_reason() {
    assert_eq!(
        sciter::dom::event::classify(GROUP_BEHAVIOR_EVENT, BEHAVIOR_EVENTS::BUTTON_CLICK, 1),
        Some(EventReason::General(EVENT_REASON::BY_KEY_CLICK))
    );
    assert_eq!(
        sciter::dom::event::classify(GROUP_BEHAVIOR_EVENT, BEHAVIOR_EVENTS::VIDEO_BIND_RQ, 7),
        Some(EventReason::VideoBind(7))
    );
    assert_eq!(sciter::dom::event::classify(GROUP_TIMER, BEHAVIOR_EVENTS::BUTTON_CLICK, 1), None);
    assert_eq!(sciter::dom::event::classify(GROUP_INITIALIZATION, BEHAVIOR_EVENTS::EDIT_VALUE_CHANGED, 1), None);
}

struct Silent;

impl EventHandler for Silent {}

#[test]
fn a_handler_that_says_nothing() {
    let mut s = Silent;
    assert_eq!(s.get_subscription(), None);
    assert!(s.on_script_call(ROOT, "sum", &[Value::from(1)]).is_none());
    assert!(!s.on_event(
        ROOT,
        HELEMENT(5),
        HELEMENT(7),
        BEHAVIOR_EVENTS::BUTTON_CLICK,
        PHASE_MASK::BUBBLING,
        EventReason::General(EVENT_REASON::BY_MOUSE_CLICK)
    ));
    assert!(!s.on_timer(ROOT, 1));
    s.attached(ROOT);
    s.detached(ROOT);
    s.document_complete(ROOT, HELEMENT(7));
    s.document_close(ROOT, HELEMENT(7));
}

#[test]
fn a_window_asks_its_handler() {
    let (probe, log) = Probe::new(Some(EVENT_GROUPS::HANDLE_KEY));
    let mut w = WindowHandler { hwnd: HWINDOW(9), handler: probe };
    assert_eq!(w.get_subscription(), Some(EVENT_GROUPS::HANDLE_KEY));
    w.attached(HELEMENT(2));
    w.document_complete(HELEMENT(2), HELEMENT(3));
    w.document_close(HELEMENT(2), HELEMENT(4));
    assert!(w.on_timer(HELEMENT(2), 11));
    assert!(w.on_event(
        HELEMENT(2),
        HELEMENT(5),
        HELEMENT(7),
        BEHAVIOR_EVENTS::CLICK,
        PHASE_MASK::SINKING,
        EventReason::General(EVENT_REASON::SYNTHESIZED)
    ));
    assert_eq!(w.on_script_call(HELEMENT(2), "sum", &[Value::from(2), Value::from(5)]).unwrap().to_int(), Some(7));
    assert!(w.on_script_call(HELEMENT(2), "other", &[]).is_none());
    w.handler.handles = false;
    assert!(!w.on_timer(HELEMENT(2), 12));
    w.detached(HELEMENT(2));
    assert_eq!(w.hwnd, HWINDOW(9));
    assert_eq!(
        log.borrow().calls,
        [
            "subscription",
            "attached 2",
            "complete 3",
            "close 4",
            "timer 11",
            "event CLICK SINKING General(SYNTHESIZED) 5 7",
            "call sum 2",
            "call other 0",
            "timer 12",
            "detached 2"
        ]
    );
}
