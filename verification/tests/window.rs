use sciter::dom::{found, ok_or, ok_or_skip, AttributeChange, Collector, Element, APPEND_INDEX};
use sciter::error::Error;
use sciter::host::{
    attach_answer, load_answer, ok_or_value, Host, HostHandler, HostNotification, _on_debug_notification,
    _on_handle_notification,
};
use sciter::om::{som_passport_t, IAsset, Passport};
use sciter::platform::{tray_message, tray_outcome, tray_point, Creation, OsWindow, TrayEvents};
use sciter::scbehavior::{KEYBOARD_STATES, KEY_EVENTS, MOUSE_BUTTONS, MOUSE_EVENTS};
use sciter::scdef::{
    GFX_LAYER, LOAD_RESULT, OUTPUT_SEVERITY, OUTPUT_SUBSYTEMS, SCITER_CREATE_WINDOW_FLAGS, SCITER_NOTIFICATION,
    SCITER_RESOURCE_TYPE, SCITER_RT_OPTIONS, SCN_ATTACH_BEHAVIOR, SCN_DATA_LOADED, SCN_LOAD_DATA,
    SCRIPT_RUNTIME_FEATURES,
};
use sciter::scdom::{ELEMENT_AREAS, HELEMENT, SCDOM_RESULT, SET_ELEMENT_HTML};
use sciter::scmsg::{SCITER_PAINT_TARGET_TYPE, SCITER_X_MSG, SCITER_X_MSG_CODE};
use sciter::screquest::HREQUEST;
use sciter::sctiscript::HVM;
use sciter::sctypes::{HWINDOW, POINT, RECT, SIZE};
use sciter::scvalue::{VALUE, VALUE_RESULT, VALUE_TYPE, VALUE_UNIT_TYPE_STRING};
use sciter::text::decimal_string;
use sciter::tiscript::{create_vm, get_current_vm, Vm, VmRequest};
use sciter::value::Value;
use sciter::window::{Builder, Options, Rectangle, Window};
use sciter::windowless::{
    bitmap_area, bitmap_size, handle_message, handled, KeyboardEvent, Message, MouseEvent, PaintEvent, RenderEvent,
    XMessage,
};
use sciter::{set_option, set_options, version, version_num, RuntimeOptions, Setting};

#[test]
fn versions() {
    assert_eq!(version_num(0x0003_0003, 0x0002_0000), 0x03030200);
    assert_eq!(version(0x0003_0003, 0x0002_0000), "3.3.2.0");
    assert_eq!(version_num(0x0004_0004, 0x0005_0000), 0x04040500);
    assert_eq!(version(0x0004_0004, 0x0005_0000), "4.4.5.0");
    assert_eq!(version(0, 0), "0.0.0.0");
    assert_eq!(version(0xFFFF_FFFF, 0x0001_000A), "65535.65535.1.10");
    assert_eq!(version_num(0, 0x0001_0002), 0x0102);
}

#[test]
fn decimals() {
    assert_eq!(decimal_string(0), "0");
    assert_eq!(decimal_string(7), "7");
    assert_eq!(decimal_string(10), "10");
    assert_eq!(decimal_string(1234567890), "1234567890");
    assert_eq!(decimal_string(u64::MAX), "18446744073709551615");
}

#[test]
fn rects() {
    let r = RECT { left: 10, top: 20, right: 110, bottom: 70 };
    assert_eq!(r.width(), 100);
    assert_eq!(r.height(), 50);
    assert_eq!(r.size(), SIZE { cx: 100, cy: 50 });
    assert_eq!(r.topleft(), POINT { x: 10, y: 20 });
    let r = RECT { left: 5, top: 5, right: 1, bottom: 2 };
    assert_eq!(r.width(), -4);
    assert_eq!(r.height(), -3);
    assert_eq!(RECT::default(), RECT { left: 0, top: 0, right: 0, bottom: 0 });
}

#[test]
fn element_areas() {
    assert_eq!(ELEMENT_AREAS::self_content(), 2);
    assert_eq!(ELEMENT_AREAS::self_rect(), 1);
    assert_eq!(ELEMENT_AREAS::MARGIN_BOX.code(), 0x30);
    assert_eq!(ELEMENT_AREAS::from_code(0x60), Some(ELEMENT_AREAS::SCROLLABLE_AREA));
    assert_eq!(ELEMENT_AREAS::from_code(0x70), None);
}

#[test]
fn codes() {
    assert_eq!(VALUE_RESULT::OK_TRUE.code(), -1);
    assert_eq!(VALUE_RESULT::from_code(2), Some(VALUE_RESULT::INCOMPATIBLE_TYPE));
    assert_eq!(VALUE_RESULT::from_code(3), None);
    assert_eq!(VALUE_RESULT::BAD_PARAMETER.to_string(), "BAD_PARAMETER");
    assert_eq!(VALUE_TYPE::T_UNDEFINED.code(), 0);
    assert_eq!(VALUE_TYPE::T_STRING.code(), 5);
    assert_eq!(VALUE_TYPE::T_ARRAY.code(), 9);
    assert_eq!(VALUE_TYPE::T_BYTES.code(), 12);
    assert_eq!(VALUE_TYPE::T_COLOR.code(), 19);
    assert_eq!(VALUE_TYPE::from_code(10), Some(VALUE_TYPE::T_MAP));
    assert_eq!(VALUE_TYPE::from_code(23), None);
    assert_eq!(VALUE_TYPE::T_DOM_OBJECT.name(), "T_DOM_OBJECT");
    assert_eq!(VALUE_TYPE::default(), VALUE_TYPE::T_UNDEFINED);
    assert_eq!(VALUE_UNIT_TYPE_STRING::SYMBOL.code(), 0xffff);
    assert_eq!(VALUE_UNIT_TYPE_STRING::from_code(0xfffe), Some(VALUE_UNIT_TYPE_STRING::FILE));
    assert_eq!(VALUE::new(), VALUE { t: VALUE_TYPE::T_UNDEFINED, u: 0, d: 0 });
    assert_eq!(VALUE::default(), VALUE::new());
    assert_eq!(SCDOM_RESULT::OK_NOT_HANDLED.code(), -1);
    assert_eq!(SCDOM_RESULT::from_code(5), Some(SCDOM_RESULT::OPERATION_FAILED));
    assert_eq!(SCITER_RT_OPTIONS::SCITER_TRANSPARENT_WINDOW.code(), 6);
    assert_eq!(SCITER_RT_OPTIONS::from_code(5), None);
    assert_eq!(SCITER_NOTIFICATION::from_code(4), Some(SCITER_NOTIFICATION::SC_ATTACH_BEHAVIOR));
    assert_eq!(SCITER_NOTIFICATION::from_code(3), None);
    assert_eq!(GFX_LAYER::AUTO.code(), 0xFFFF);
    assert_eq!(SCRIPT_RUNTIME_FEATURES::ALLOW_SYSINFO.code(), 8);
    assert_eq!(SCITER_RESOURCE_TYPE::RT_DATA_SOUND.code(), 7);
    assert_eq!(SET_ELEMENT_HTML::SOH_INSERT_AFTER.code(), 5);
    assert_eq!(LOAD_RESULT::LOAD_MYSELF.code(), 3);
    assert_eq!(MOUSE_EVENTS::MOUSE_CLICK.code(), 0xFF);
    assert_eq!(SCITER_X_MSG_CODE::SXM_FOCUS.code(), 8);
    assert_eq!(SCITER_X_MSG::from(SCITER_X_MSG_CODE::SXM_KEY).msg, SCITER_X_MSG_CODE::SXM_KEY);
}

#[test]
fn window_flags() {
    let f = SCITER_CREATE_WINDOW_FLAGS::SW_MAIN | SCITER_CREATE_WINDOW_FLAGS::SW_ALPHA;
    assert_eq!(f.code(), 128 | 64);
    assert!(f.has(SCITER_CREATE_WINDOW_FLAGS::SW_MAIN));
    assert!(!f.has(SCITER_CREATE_WINDOW_FLAGS::SW_POPUP));
    assert_eq!(f.without(SCITER_CREATE_WINDOW_FLAGS::SW_ALPHA), SCITER_CREATE_WINDOW_FLAGS::SW_MAIN);
    assert_eq!(f.without(SCITER_CREATE_WINDOW_FLAGS::SW_MAIN).code(), 64);
    assert_eq!(SCITER_CREATE_WINDOW_FLAGS::default(), SCITER_CREATE_WINDOW_FLAGS::SW_CHILD);
    assert_eq!(SCITER_CREATE_WINDOW_FLAGS::from_code(0), SCITER_CREATE_WINDOW_FLAGS::UNION(0));
    assert_eq!(SCITER_CREATE_WINDOW_FLAGS::from_code(1024), SCITER_CREATE_WINDOW_FLAGS::SW_OWNS_VM);
}

#[test]
fn builder() {
    let b = Builder::main_window();
    assert_eq!(b.flags.code(), 128 | 4 | 16 | 2);
    assert_eq!(b.rect, RECT::default());
    assert_eq!(b.parent, None);
    assert_eq!(Builder::popup_window().flags.code(), 256 | 16 | 2);
    assert_eq!(Builder::child_window().flags, SCITER_CREATE_WINDOW_FLAGS::SW_CHILD);
    assert_eq!(Builder::none().flags, SCITER_CREATE_WINDOW_FLAGS::SW_CHILD);
    assert_eq!(Builder::main().flags, SCITER_CREATE_WINDOW_FLAGS::SW_MAIN);
    assert_eq!(Builder::popup().flags, SCITER_CREATE_WINDOW_FLAGS::SW_POPUP);
    assert_eq!(Builder::tool().flags, SCITER_CREATE_WINDOW_FLAGS::SW_TOOL);
    assert_eq!(Builder::default(), Builder::none());
    assert_eq!(Builder::with_flags(SCITER_CREATE_WINDOW_FLAGS::SW_GLASSY).flags.code(), 32);

    assert_eq!(Builder::tool().with_title().flags.code(), 8 | 2);
    assert_eq!(Builder::tool().resizeable().flags.code(), 8 | 4);
    assert_eq!(Builder::tool().closeable().flags.code(), 8 | 16);
    assert_eq!(Builder::tool().glassy().flags.code(), 8 | 32);
    assert_eq!(Builder::tool().alpha().flags.code(), 8 | 64);
    assert_eq!(Builder::tool().debug().flags.code(), 8 | 512);
    assert_eq!(Builder::main_window().fixed().flags.code(), 128 | 16 | 2);
    assert_eq!(Builder::tool().fixed().flags.code(), 8);
    assert_eq!(Builder::tool().resizeable().resizeable().flags.code(), 8 | 4);

    let b = Builder::main_window().with_size((800, 600));
    assert_eq!(b.rect, RECT { left: 0, top: 0, right: 800, bottom: 600 });
    let b = b.with_pos((100, 50));
    assert_eq!(b.rect, RECT { left: 100, top: 50, right: 900, bottom: 650 });
    let b = b.with_size((10, 20));
    assert_eq!(b.rect, RECT { left: 100, top: 50, right: 110, bottom: 70 });
    let b = b.with_rect(Rectangle { x: 1, y: 2, width: 3, height: 4 });
    assert_eq!(b.rect, RECT { left: 1, top: 2, right: 4, bottom: 6 });
    let b = b.with_parent(HWINDOW(77));
    assert_eq!(b.parent, Some(HWINDOW(77)));

    let c = b.create();
    assert_eq!(
        c,
        Creation { init_app: true, flags: 150, rect: RECT { left: 1, top: 2, right: 4, bottom: 6 }, parent: HWINDOW(77) }
    );
    let c = Builder::popup_window().create();
    assert_eq!(c, Creation { init_app: false, flags: 274, rect: RECT::default(), parent: HWINDOW(0) });
    assert_eq!(Window::new(), Builder::main_window().create());
    assert_eq!(
        Window::create(RECT::default(), SCITER_CREATE_WINDOW_FLAGS::SW_MAIN, None),
        Creation { init_app: true, flags: 128, rect: RECT::default(), parent: HWINDOW(0) }
    );
}

#[test]
fn windows() {
    let w = Window::attach(HWINDOW(5));
    assert_eq!(w.get_hwnd(), HWINDOW(5));
    assert_eq!(w.get_host().get_hwnd(), HWINDOW(5));
    assert_eq!(Host::from(HWINDOW(3)).get_hwnd(), HWINDOW(3));

    assert_eq!(
        w.set_options(Options::SmoothScroll(true)),
        (HWINDOW(5), SCITER_RT_OPTIONS::SCITER_SMOOTH_SCROLL, 1)
    );
    assert_eq!(w.set_options(Options::FontSmoothing(3)).1, SCITER_RT_OPTIONS::SCITER_FONT_SMOOTHING);
    assert_eq!(w.set_options(Options::FontSmoothing(3)).2, 3);
    assert_eq!(
        w.set_options(Options::TransparentWindow(false)),
        (HWINDOW(5), SCITER_RT_OPTIONS::SCITER_TRANSPARENT_WINDOW, 0)
    );
    assert_eq!(w.set_options(Options::AlphaWindow(true)).1, SCITER_RT_OPTIONS::SCITER_ALPHA_WINDOW);
    assert_eq!(w.set_options(Options::MainWindow(true)).1, SCITER_RT_OPTIONS::SCITER_SET_MAIN_WINDOW);
    assert_eq!(w.set_options(Options::DebugMode(true)).1, SCITER_RT_OPTIONS::SCITER_SET_DEBUG_MODE);
    assert_eq!(
        w.set_options(Options::ScriptFeatures(0xF)),
        (HWINDOW(5), SCITER_RT_OPTIONS::SCITER_SET_SCRIPT_RUNTIME_FEATURES, 15)
    );
    assert_eq!(w.set_options(Options::LogicalPixel(true)).1, SCITER_RT_OPTIONS::SCITER_SET_PX_AS_DIP);

    let mut os = OsWindow::new();
    assert_eq!(os.get_hwnd(), HWINDOW(0));
    let c = os.create((10, 20, 300, 200), 128 | 4, HWINDOW(0));
    assert_eq!(
        c,
        Creation { init_app: true, flags: 132, rect: RECT { left: 10, top: 20, right: 310, bottom: 220 }, parent: HWINDOW(0) }
    );
    assert_eq!(os.get_flags(), 132);
    assert_eq!(os.created(HWINDOW(9)), HWINDOW(9));
    assert_eq!(os.get_hwnd(), HWINDOW(9));
    let c = OsWindow::from(HWINDOW(2)).create((0, 0, 1, 1), 4, HWINDOW(9));
    assert!(!c.init_app);
    assert_eq!(c.parent, HWINDOW(9));
}

#[test]
fn global_options() {
    let number = |o: RuntimeOptions<'_>| match set_options(o) {
        (option, Setting::Number(n)) => (option, n),
        _ => panic!("a number is set"),
    };
    assert_eq!(number(RuntimeOptions::ConnectionTimeout(5000)), (SCITER_RT_OPTIONS::SCITER_CONNECTION_TIMEOUT, 5000));
    assert_eq!(number(RuntimeOptions::OnHttpsError(2)), (SCITER_RT_OPTIONS::SCITER_HTTPS_ERROR, 2));
    assert_eq!(
        number(RuntimeOptions::ScriptFeatures(5)),
        (SCITER_RT_OPTIONS::SCITER_SET_SCRIPT_RUNTIME_FEATURES, 5)
    );
    assert_eq!(
        number(RuntimeOptions::GfxLayer(GFX_LAYER::SKIA_OPENGL)),
        (SCITER_RT_OPTIONS::SCITER_SET_GFX_LAYER, 5)
    );
    assert_eq!(number(RuntimeOptions::DebugMode(true)), (SCITER_RT_OPTIONS::SCITER_SET_DEBUG_MODE, 1));
    assert_eq!(number(RuntimeOptions::UxTheming(false)), (SCITER_RT_OPTIONS::SCITER_SET_UX_THEMING, 0));
    match set_options(RuntimeOptions::GpuBlacklist("{}")) {
        (SCITER_RT_OPTIONS::SCITER_SET_GPU_BLACKLIST, Setting::Text(json)) => assert_eq!(json, "{}"),
        _ => panic!("a text is set"),
    }
    assert_eq!(set_option(SCITER_RT_OPTIONS::SCITER_SET_DEBUG_MODE, 1), (10, 1));
}

#[test]
fn tray_events() {
    assert_eq!(tray_message(0x0001_0201), 0x0201);
    assert_eq!(tray_point(0x0014_000A), (10, 20));
    assert_eq!(tray_point(0xFFFF_FFFE), (-2, -1));
    assert_eq!(tray_point(0x8000_7FFF), (32767, -32768));
    assert_eq!(TrayEvents::from_message(0x007B, 1, 2, 0), TrayEvents::ContextMenu(1, 2));
    assert_eq!(TrayEvents::from_message(0x0201, 1, 2, 0), TrayEvents::LButtonDown(1, 2));
    assert_eq!(TrayEvents::from_message(0x0202, 1, 2, 0), TrayEvents::LButtonUp(1, 2));
    assert_eq!(TrayEvents::from_message(0x0203, 1, 2, 0), TrayEvents::LButtonDblClick(1, 2));
    assert_eq!(TrayEvents::from_message(0x0204, 1, 2, 0), TrayEvents::RButtonDown(1, 2));
    assert_eq!(TrayEvents::from_message(0x0205, 1, 2, 0), TrayEvents::RButtonUp(1, 2));
    assert_eq!(TrayEvents::from_message(0x0206, 1, 2, 0), TrayEvents::RButtonDblClick(1, 2));
    assert_eq!(TrayEvents::from_message(0x0207, 1, 2, 0), TrayEvents::MButtonDown(1, 2));
    assert_eq!(TrayEvents::from_message(0x0208, 1, 2, 0), TrayEvents::MButtonUp(1, 2));
    assert_eq!(TrayEvents::from_message(0x0209, 1, 2, 0), TrayEvents::MButtonDblClick(1, 2));
    assert_eq!(TrayEvents::from_message(0x0200, 1, 2, 99), TrayEvents::Unknown(99));
    assert_eq!(tray_outcome(Some(5)), (true, 5));
    assert_eq!(tray_outcome(None), (false, 0));
}

#[test]
fn windowless_messages() {
    match handle_message(Message::Create { backend: GFX_LAYER::SKIA_CPU, transparent: true }) {
        XMessage::Create(m) => {
            assert_eq!(m.header.msg, SCITER_X_MSG_CODE::SXM_CREATE);
            assert_eq!(m.backend, GFX_LAYER::SKIA_CPU);
            assert!(m.transparent);
        }
        _ => panic!(),
    }
    assert_eq!(handle_message(Message::Destroy).header().msg, SCITER_X_MSG_CODE::SXM_DESTROY);
    match handle_message(Message::Size { width: 800, height: 600 }) {
        XMessage::Size(m) => assert_eq!((m.header.msg, m.width, m.height), (SCITER_X_MSG_CODE::SXM_SIZE, 800, 600)),
        _ => panic!(),
    }
    match handle_message(Message::Resolution { ppi: 96 }) {
        XMessage::Resolution(m) => assert_eq!((m.header.msg, m.ppi), (SCITER_X_MSG_CODE::SXM_RESOLUTION, 96)),
        _ => panic!(),
    }
    match handle_message(Message::Focus { enter: true }) {
        XMessage::Focus(m) => assert_eq!((m.header.msg, m.enter), (SCITER_X_MSG_CODE::SXM_FOCUS, true)),
        _ => panic!(),
    }
    match handle_message(Message::Heartbit { milliseconds: 16 }) {
        XMessage::Heartbit(m) => assert_eq!((m.header.msg, m.time), (SCITER_X_MSG_CODE::SXM_HEARTBIT, 16)),
        _ => panic!(),
    }
    let mouse = MouseEvent {
        event: MOUSE_EVENTS::MOUSE_DOWN,
        button: MOUSE_BUTTONS::MAIN,
        modifiers: KEYBOARD_STATES::SHIFT_KEY_PRESSED,
        pos: POINT { x: 3, y: 4 },
    };
    match handle_message(Message::Mouse(mouse)) {
        XMessage::Mouse(m) => {
            assert_eq!(m.header.msg, SCITER_X_MSG_CODE::SXM_MOUSE);
            assert_eq!((m.event, m.button, m.modifiers, m.pos), (mouse.event, mouse.button, 2, mouse.pos));
        }
        _ => panic!(),
    }
    let key = KeyboardEvent { event: KEY_EVENTS::KEY_CHAR, code: 65, modifiers: KEYBOARD_STATES::ALT_KEY_PRESSED };
    match handle_message(Message::Keyboard(key)) {
        XMessage::Key(m) => assert_eq!((m.header.msg, m.event, m.code, m.modifiers), (SCITER_X_MSG_CODE::SXM_KEY, key.event, 65, 4)),
        _ => panic!(),
    }
    match handle_message(Message::Redraw) {
        XMessage::Paint(m) => {
            assert_eq!(m.header.msg, SCITER_X_MSG_CODE::SXM_PAINT);
            assert_eq!((m.element, m.isFore, m.targetType, m.callback), (HELEMENT(0), true, SCITER_PAINT_TARGET_TYPE::SPT_DEFAULT, false));
        }
        _ => panic!(),
    }
    let layer = PaintEvent { element: HELEMENT(8), foreground: false };
    match handle_message(Message::Paint(layer)) {
        XMessage::Paint(m) => assert_eq!((m.element, m.isFore, m.targetType, m.callback), (HELEMENT(8), false, SCITER_PAINT_TARGET_TYPE::SPT_DEFAULT, false)),
        _ => panic!(),
    }
    match handle_message(Message::RenderTo(RenderEvent { layer: Some(PaintEvent { element: HELEMENT(8), foreground: true }) })) {
        XMessage::Paint(m) => assert_eq!((m.element, m.isFore, m.targetType, m.callback), (HELEMENT(8), true, SCITER_PAINT_TARGET_TYPE::SPT_RECEIVER, true)),
        _ => panic!(),
    }
    match handle_message(Message::RenderTo(RenderEvent { layer: None })) {
        XMessage::Paint(m) => assert_eq!((m.element, m.isFore, m.targetType, m.callback), (HELEMENT(0), false, SCITER_PAINT_TARGET_TYPE::SPT_RECEIVER, true)),
        _ => panic!(),
    }
    assert!(handled(1));
    assert!(!handled(0));
    assert_eq!(bitmap_area(-5, 10, 100, 50), RECT { left: -5, top: 10, right: 95, bottom: 60 });
    assert_eq!(bitmap_size(100, 50), 20000);
    assert_eq!(bitmap_size(0, 50), 0);
}

#[test]
fn dom_results() {
    assert_eq!(ok_or(5, SCDOM_RESULT::OK), Ok(5));
    assert_eq!(ok_or(5, SCDOM_RESULT::OK_NOT_HANDLED), Err(SCDOM_RESULT::OK_NOT_HANDLED));
    assert_eq!(ok_or(5, SCDOM_RESULT::INVALID_HANDLE), Err(SCDOM_RESULT::INVALID_HANDLE));
    assert_eq!(ok_or_skip(5, SCDOM_RESULT::OPERATION_FAILED, SCDOM_RESULT::OPERATION_FAILED), Ok(5));
    assert_eq!(ok_or_skip(5, SCDOM_RESULT::OK, SCDOM_RESULT::OPERATION_FAILED), Ok(5));
    assert_eq!(
        ok_or_skip(5, SCDOM_RESULT::INVALID_HWND, SCDOM_RESULT::OPERATION_FAILED),
        Err(SCDOM_RESULT::INVALID_HWND)
    );
    assert_eq!(found(5, SCDOM_RESULT::OK), Ok(Some(5)));
    assert_eq!(found(5, SCDOM_RESULT::OK_NOT_HANDLED), Ok(None));
    assert_eq!(found(5, SCDOM_RESULT::PASSIVE_HANDLE), Err(SCDOM_RESULT::PASSIVE_HANDLE));
    assert_eq!(
        found(5, SCDOM_RESULT::INVALID_PARAMETER),
        Err(SCDOM_RESULT::INVALID_PARAMETER)
    );
}

#[test]
fn elements() {
    assert_eq!(Element::from(HELEMENT(4), SCDOM_RESULT::OK).as_ptr(), HELEMENT(4));
    assert_eq!(Element::from(HELEMENT(4), SCDOM_RESULT::INVALID_HANDLE).as_ptr(), HELEMENT(0));
    assert!(Element::from(HELEMENT(4), SCDOM_RESULT::OK).stop_timer());
    assert!(!Element::from(HELEMENT(0), SCDOM_RESULT::OK).stop_timer());

    assert_eq!(Element::first_sibling(0), None);
    assert_eq!(Element::first_sibling(3), Some(0));
    assert_eq!(Element::last_sibling(0), None);
    assert_eq!(Element::last_sibling(3), Some(2));
    assert_eq!(Element::next_sibling(0, 3), Some(1));
    assert_eq!(Element::next_sibling(2, 3), None);
    assert_eq!(Element::next_sibling(usize::MAX, 3), None);
    assert_eq!(Element::prev_sibling(0, 3), None);
    assert_eq!(Element::prev_sibling(1, 3), Some(0));
    assert_eq!(Element::prev_sibling(3, 3), Some(2));
    assert_eq!(Element::prev_sibling(4, 3), None);
    assert_eq!(Element::first_child(), 0);
    assert_eq!(Element::last_child(0), None);
    assert_eq!(Element::last_child(5), Some(4));
    assert_eq!(Element::pop(0), None);
    assert_eq!(Element::pop(1), Some(0));
    assert_eq!(Element::append(), APPEND_INDEX);
    assert_eq!(APPEND_INDEX, 0x7FFFFFFF);

    match Element::toggle_attribute("class", true, Some("big")) {
        AttributeChange::Assign(n, v) => assert_eq!((n.as_str(), v.as_str()), ("class", "big")),
        _ => panic!(),
    }
    match Element::toggle_attribute("class", false, None) {
        AttributeChange::Remove(n) => assert_eq!(n, "class"),
        _ => panic!(),
    }
    assert_eq!(Element::get_attribute("v".to_string(), SCDOM_RESULT::OK), Some("v".to_string()));
    assert_eq!(Element::get_attribute("v".to_string(), SCDOM_RESULT::OK_NOT_HANDLED), None);
    assert_eq!(Element::get_attribute("v".to_string(), SCDOM_RESULT::INVALID_HANDLE), None);
    assert_eq!(Element::set_html(None), SET_ELEMENT_HTML::SIH_REPLACE_CONTENT);
    assert_eq!(Element::set_html(Some(SET_ELEMENT_HTML::SOH_REPLACE)), SET_ELEMENT_HTML::SOH_REPLACE);

    let e = Element::from(HELEMENT(4), SCDOM_RESULT::OK);
    assert_eq!(e.display("div", None, None, None, None), "div");
    assert_eq!(e.display("input", Some("id"), Some("a b"), Some("text"), Some("n")), "input#id.a b|text(n)");
    assert_eq!(e.display("p", None, Some("c"), None, Some("n")), "p.c(n)");
    assert_eq!(Element::from(HELEMENT(0), SCDOM_RESULT::OK).display("p", Some("i"), None, None, None), "None");
}

struct Quiet;

impl HostHandler for Quiet {}

struct Loader {
    seen: Vec<String>,
}

impl HostHandler for Loader {
    fn on_data_load(&mut self, pnm: &mut SCN_LOAD_DATA) -> LOAD_RESULT {
        self.seen.push(format!("load {}", pnm.uri));
        pnm.outData = vec![1, 2, 3];
        pnm.outDataSize = 3;
        LOAD_RESULT::LOAD_DELAYED
    }

    fn on_data_loaded(&mut self, pnm: &SCN_DATA_LOADED) {
        self.seen.push(format!("loaded {} {}", pnm.uri, pnm.status));
    }

    fn on_attach_behavior(&mut self, pnm: &mut SCN_ATTACH_BEHAVIOR) -> bool {
        self.seen.push(format!("behavior {}", pnm.name));
        pnm.elementTag = 0x1234;
        true
    }

    fn on_engine_destroyed(&mut self) {
        self.seen.push("destroyed".to_string());
    }

    fn on_graphics_critical_failure(&mut self) {
        self.seen.push("failure".to_string());
    }

    fn on_debug_output(&mut self, subsystem: OUTPUT_SUBSYTEMS, severity: OUTPUT_SEVERITY, message: &str) {
        self.seen.push(format!("{:?}:{:?}: {}", severity, subsystem, message));
    }
}

fn load_data() -> HostNotification {
    HostNotification::LoadData(SCN_LOAD_DATA {
        code: 1,
        hwnd: HWINDOW(1),
        uri: "file://a.css".to_string(),
        outData: vec![],
        outDataSize: 0,
        dataType: SCITER_RESOURCE_TYPE::RT_DATA_STYLE,
        request_id: HREQUEST(0),
        principal: HELEMENT(0),
        initiator: HELEMENT(0),
    })
}

fn attach_behavior() -> HostNotification {
    HostNotification::AttachBehavior(SCN_ATTACH_BEHAVIOR {
        code: 4,
        hwnd: HWINDOW(1),
        element: HELEMENT(2),
        name: "clock".to_string(),
        elementProc: 0,
        elementTag: 0,
    })
}

#[test]
fn host_notifications() {
    // the handler that does nothing: the engine loads by itself, no behavior
    let mut quiet = Quiet;
    let mut nm = load_data();
    assert_eq!(_on_handle_notification(&mut quiet, &mut nm), 0);
    let mut nm = attach_behavior();
    assert_eq!(_on_handle_notification(&mut quiet, &mut nm), 0);

    let mut me = Loader { seen: vec![] };
    let mut nm = load_data();
    assert_eq!(_on_handle_notification(&mut me, &mut nm), 2);
    match &nm {
        HostNotification::LoadData(p) => assert_eq!(p.outData, [1, 2, 3]),
        _ => panic!(),
    }
    let mut nm = HostNotification::DataLoaded(SCN_DATA_LOADED {
        code: 2,
        hwnd: HWINDOW(1),
        uri: "file://a.css".to_string(),
        data: vec![],
        dataSize: 0,
        dataType: 2,
        status: 200,
    });
    assert_eq!(_on_handle_notification(&mut me, &mut nm), 0);
    let mut nm = attach_behavior();
    assert_eq!(_on_handle_notification(&mut me, &mut nm), 1);
    match &nm {
        HostNotification::AttachBehavior(p) => assert_eq!(p.elementTag, 0x1234),
        _ => panic!(),
    }
    let mut nm = HostNotification::EngineDestroyed;
    assert_eq!(_on_handle_notification(&mut me, &mut nm), 0);
    let mut nm = HostNotification::GraphicsCriticalFailure;
    assert_eq!(_on_handle_notification(&mut me, &mut nm), 0);
    let mut nm = HostNotification::Other(6);
    assert_eq!(_on_handle_notification(&mut me, &mut nm), 0);
    assert_eq!(nm.code(), 6);
    _on_debug_notification(&mut me, OUTPUT_SUBSYTEMS::CSS, OUTPUT_SEVERITY::WARNING, "bad rule");
    assert_eq!(
        me.seen,
        ["load file://a.css", "loaded file://a.css 200", "behavior clock", "destroyed", "failure", "WARNING:CSS: bad rule"]
    );

    assert_eq!(load_data().code(), 1);
    assert_eq!(attach_behavior().code(), 4);
    assert_eq!(HostNotification::EngineDestroyed.code(), 5);
    assert_eq!(HostNotification::GraphicsCriticalFailure.code(), 7);
    assert_eq!(load_answer(LOAD_RESULT::LOAD_DEFAULT), 0);
    assert_eq!(load_answer(LOAD_RESULT::LOAD_DISCARD), 1);
    assert_eq!(attach_answer(true), 1);
    assert_eq!(attach_answer(false), 0);
    assert_eq!(sciter::host::ok_or(1), Ok(()));
    assert_eq!(sciter::host::ok_or(0), Err(()));
    assert_eq!(ok_or_value(1, Value::from(1)), Ok(Value::from(1)));
    assert_eq!(ok_or_value(0, Value::error("e")), Err(Value::error("e")));
}

struct Thing {
    asked: std::cell::Cell<u32>,
}

impl Passport for Thing {
    fn get_passport(&self) -> som_passport_t {
        self.asked.set(self.asked.get() + 1);
        som_passport_t { flags: 0, name: 17 }
    }
}

#[test]
fn assets() {
    let mut a = *IAsset::new(Thing { asked: std::cell::Cell::new(0) });
    assert_eq!(a.get_references(), 0);
    assert_eq!(a.add_ref(), 1);
    assert_eq!(a.add_ref(), 2);
    assert!(!a.get_interface("any"));

    // the passport is asked for once
    assert_eq!(a.get_passport().name, 17);
    assert_eq!(a.get_passport().name, 17);
    assert_eq!(a.deref().asked.get(), 1);

    let (t, a) = a.release();
    assert_eq!(t, 1);
    let a = a.expect("one reference is left");
    let (t, a) = a.release();
    assert_eq!(t, 0);
    assert!(a.is_none());

    // the count wraps around
    let a = *IAsset::new(Thing { asked: std::cell::Cell::new(0) });
    let (t, a) = a.release();
    assert_eq!(t, -1);
    assert!(a.is_some());
}

#[test]
fn machines() {
    assert_eq!(create_vm(None, None, None), VmRequest { features: 0xFFFF_FFFF, heap_size: 1024 * 1024, stack_size: 64 * 1024 });
    assert_eq!(create_vm(Some(1), Some(2), Some(3)), VmRequest { features: 1, heap_size: 2, stack_size: 3 });
    assert_eq!(Vm::new(), create_vm(None, None, None));
    assert_eq!(Vm::with_features(SCRIPT_RUNTIME_FEATURES::ALLOW_EVAL), create_vm(Some(4), None, None));
    assert_eq!(get_current_vm(HVM(0)), None);
    assert_eq!(get_current_vm(HVM(8)), Some(HVM(8)));
    assert!(Vm::current(HVM(0)).is_none());
    assert_eq!(Vm::current(HVM(8)).unwrap().as_handle(), HVM(8));
    assert_eq!(Vm::from(HVM(3)).as_handle(), HVM(3));
    assert_eq!(sciter::tiscript::Value(5).0, 5);
}

#[test]
fn errors() {
    assert_eq!(Error::custom("bad"), Error::Message("bad".to_string()));
    assert_eq!(Error::custom("bad").description(), "bad");
    assert_eq!(Error::Unimplemented.description(), "dunno");
    assert_eq!(Error::UnsupportedType.description(), "dunno");
    assert_eq!(Error::ExpectedType("map".to_string()).description(), "dunno");
    assert_eq!(Error::custom("bad").to_string(), "bad");
}

#[test]
fn a_host_handler_that_says_nothing() {
    let mut quiet = Quiet;
    let mut load = match load_data() {
        HostNotification::LoadData(p) => p,
        _ => panic!(),
    };
    assert_eq!(quiet.on_data_load(&mut load), LOAD_RESULT::LOAD_DEFAULT);
    assert!(load.outData.is_empty());
    assert_eq!(load.outDataSize, 0);
    let mut attach = match attach_behavior() {
        HostNotification::AttachBehavior(p) => p,
        _ => panic!(),
    };
    assert!(!quiet.on_attach_behavior(&mut attach));
    assert_eq!((attach.elementProc, attach.elementTag), (0, 0));
    quiet.on_engine_destroyed();
    quiet.on_graphics_critical_failure();
    quiet.on_debug_output(OUTPUT_SUBSYTEMS::DOM, OUTPUT_SEVERITY::INFO, "");
}

#[test]
fn a_search_collects_what_it_is_shown() {
    // the first element: the search stops at once
    let mut one = Collector::first();
    assert!(one.on_element(7));
    assert_eq!(one.found_one(SCDOM_RESULT::OK), Some(7));
    assert_eq!(Collector::<u8>::first().found_one(SCDOM_RESULT::OK), None);
    let mut one = Collector::first();
    one.on_element(7);
    assert_eq!(one.found_one(SCDOM_RESULT::INVALID_HANDLE), None);

    // all elements: the search goes on, and keeps the order
    let mut all = Collector::all();
    assert!(!all.on_element(1));
    assert!(!all.on_element(2));
    assert!(!all.on_element(3));
    assert_eq!(all.found_all(SCDOM_RESULT::OK), Some(vec![1, 2, 3]));
    assert_eq!(Collector::<u8>::all().found_all(SCDOM_RESULT::OK), Some(vec![]));
    let mut all = Collector::all();
    all.on_element(1);
    assert_eq!(all.found_all(SCDOM_RESULT::OPERATION_FAILED), None);
    assert_eq!(Collector::<u8>::all().found_all(SCDOM_RESULT::OK_NOT_HANDLED), None);
}
