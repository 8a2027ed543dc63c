use sciter::dom::event::EventReason;
use sciter::eventhandler::{behavior_event, document_notice, BehaviorEvent, DocumentNotice};
use sciter::macros::{select_method, Selection, Signature};
use sciter::scbehavior::{BEHAVIOR_EVENTS, BEHAVIOR_EVENT_PARAMS, EVENT_REASON, PHASE_MASK};
use sciter::scdom::HELEMENT;
use sciter::scvalue::{VALUE_RESULT, VALUE_TYPE};
use sciter::platform::{Creation, OsWindow, SHOW_HIDE, SHOW_MAXIMIZE, SHOW_MINIMIZE, SHOW_NORMAL};
use sciter::schandler::NativeHandler;
use sciter::sctypes::{HWINDOW, RECT};
use sciter::value::{checked, compared, parsed, Foreign, Value};

fn table() -> Vec<Signature> {
    vec![
        Signature { name: "sum".to_string(), argc: 2 },
        Signature { name: "now".to_string(), argc: 0 },
        Signature { name: "sum".to_string(), argc: 3 },
    ]
}

#[test]
fn methods_are_found_by_name_and_arity() {
    let t = table();
    assert!(matches!(select_method(&t, "sum", 2), Selection::Call(0)));
    assert!(matches!(select_method(&t, "now", 0), Selection::Call(1)));
    assert!(matches!(select_method(&t, "then", 0), Selection::Missing));
    assert!(matches!(select_method(&t, "", 0), Selection::Missing));
    assert!(matches!(select_method(&[], "sum", 2), Selection::Missing));

    // the first function of a name counts
    match select_method(&t, "sum", 3) {
        Selection::Arity(e) => {
            assert!(e.is_error_string());
            assert_eq!(e.as_string().unwrap(), "sum error: 3 of 2 arguments provided.");
        }
        _ => panic!("the number of arguments is wrong"),
    }
    match select_method(&t, "now", 1) {
        Selection::Arity(e) => assert_eq!(e.as_string().unwrap(), "now error: 1 of 0 arguments provided."),
        _ => panic!("the number of arguments is wrong"),
    }
}

#[test]
fn parse_results() {
    assert_eq!(parsed(1, 0, Value::from(4)), Ok(Value::from(4)));
    assert_eq!(parsed(7, 3, Value::new()), Err(4));
    assert_eq!(parsed(7, 7, Value::new()), Err(0));
    assert_eq!(parsed(7, 1, Value::new()), Err(6));
    assert_eq!(parsed(3, 0, "any"), Ok("any"));
}

#[test]
fn show_commands() {
    assert_eq!(OsWindow::collapse(true), 0);
    assert_eq!(OsWindow::collapse(false), 6);
    assert_eq!(OsWindow::expand(true), 3);
    assert_eq!(OsWindow::expand(false), 1);
    assert_eq!((SHOW_HIDE, SHOW_NORMAL, SHOW_MAXIMIZE, SHOW_MINIMIZE), (0, 1, 3, 6));

    let mut w = OsWindow::new();
    assert!(!w.activates());
    w.create((0, 0, 10, 10), 2 | 4, HWINDOW(0));
    assert!(w.activates());
    w.create((0, 0, 10, 10), 4, HWINDOW(0));
    assert!(!w.activates());

    let framed = |rect: RECT| Creation { init_app: false, flags: 0, rect, parent: HWINDOW(0) }.framed();
    assert!(framed(RECT { left: 0, top: 0, right: 1, bottom: 1 }));
    assert!(!framed(RECT { left: 0, top: 0, right: 0, bottom: 1 }));
    assert!(!framed(RECT { left: 0, top: 0, right: 1, bottom: 0 }));
    assert!(!framed(RECT { left: 5, top: 5, right: 1, bottom: 9 }));
}

#[test]
fn handler_wrapper() {
    let mut p = NativeHandler::from(5);
    assert!(!p.is_null());
    assert_eq!(*p.as_ref(), 5);
    *p.as_mut() = 6;
    assert_eq!(*p.as_ref(), 6);
    assert_eq!(p.take(), Some(6));
    assert!(p.is_null());
    assert_eq!(p.take(), None);
    p.put(7);
    assert_eq!(*p.as_ref(), 7);
    p.destroy();
    assert!(p.is_null());
    p.destroy();
    assert!(p.is_null());
    let d: NativeHandler<String> = NativeHandler::default();
    assert!(d.is_null());
}

#[test]
fn answers_of_the_engine() {
    assert_eq!(checked(VALUE_RESULT::OK, 5), Some(5));
    assert_eq!(checked(VALUE_RESULT::OK_TRUE, 5), None);
    assert_eq!(checked(VALUE_RESULT::BAD_PARAMETER, 5), None);
    assert_eq!(checked(VALUE_RESULT::INCOMPATIBLE_TYPE, 5), None);
    assert!(compared(VALUE_RESULT::OK_TRUE));
    assert!(!compared(VALUE_RESULT::OK));
    assert!(!compared(VALUE_RESULT::BAD_PARAMETER));
    assert!(!compared(VALUE_RESULT::INCOMPATIBLE_TYPE));
}

#[test]
fn foreign_kinds() {
    assert_eq!(Foreign::Date.kind(), VALUE_TYPE::T_DATE);
    assert_eq!(Foreign::Currency.kind(), VALUE_TYPE::T_CURRENCY);
    assert_eq!(Foreign::Function.kind(), VALUE_TYPE::T_FUNCTION);
    assert_eq!(Foreign::Object.kind(), VALUE_TYPE::T_OBJECT);
    assert_eq!(Foreign::DomObject.kind(), VALUE_TYPE::T_DOM_OBJECT);
    assert_eq!(Foreign::Resource.kind(), VALUE_TYPE::T_RESOURCE);
    assert_eq!(Foreign::Range.kind(), VALUE_TYPE::T_RANGE);
    assert_eq!(Foreign::Enum.kind(), VALUE_TYPE::T_ENUM);
    assert_eq!(Foreign::Asset.kind(), VALUE_TYPE::T_ASSET);
    assert_eq!(Foreign::Unknown.kind(), VALUE_TYPE::T_UNKNOWN);
}

#[test]
fn behavior_events_are_read() {
    let nm = BEHAVIOR_EVENT_PARAMS { cmd: 0x8098, heTarget: HELEMENT(7), he: HELEMENT(5), reason: 2, data: Value::new() };
    let e = behavior_event(&nm);
    assert_eq!(
        e,
        BehaviorEvent {
            source: HELEMENT(5),
            target: HELEMENT(7),
            code: BEHAVIOR_EVENTS::DOCUMENT_COMPLETE,
            phase: PHASE_MASK::SINKING,
            reason: EventReason::General(EVENT_REASON::SYNTHESIZED),
        }
    );
    assert_eq!(document_notice(&e), Some(DocumentNotice::Complete));
    let close = BehaviorEvent { code: BEHAVIOR_EVENTS::DOCUMENT_CLOSE, ..e };
    assert_eq!(document_notice(&close), Some(DocumentNotice::Close));
    let up = BehaviorEvent { phase: PHASE_MASK::BUBBLING, ..e };
    assert_eq!(document_notice(&up), None);
    let consumed = BehaviorEvent { phase: PHASE_MASK::HANDLED, ..close };
    assert_eq!(document_notice(&consumed), None);
    let click = BehaviorEvent { code: BEHAVIOR_EVENTS::BUTTON_CLICK, ..e };
    assert_eq!(document_notice(&click), None);
}
