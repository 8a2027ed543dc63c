//! High-level native window wrapper.
//!
//! To create an instance of the engine you will need either to create a new
//! window or to attach (mix-in) the engine to an existing window.
//!
//! ## Creation of a new window:
//!
//! ```text
//! let creation = Builder::main_window().with_size((800, 600)).glassy().create();
//! ```
//!
//! The builder collects the flags and the place of the window; creating the
//! window itself is the part of the window system.

#![allow(non_camel_case_types, non_snake_case)]

use crate::host::Host;
use crate::platform::{Creation, OsWindow, FLAG_MAIN};
use crate::scdef::{SCITER_CREATE_WINDOW_FLAGS, SCITER_RT_OPTIONS};
use crate::sctypes::{HWINDOW, RECT};
use vstd::prelude::*;

verus! {

/// `SCITER_CREATE_WINDOW_FLAGS` alias.
pub type Flags = SCITER_CREATE_WINDOW_FLAGS;

/// Per-window engine options.
///
/// Used by [`Window::set_options()`](struct.Window.html#method.set_options).
#[derive(Clone, Copy, PartialEq, Eq, Structural, Debug)]
pub enum Options {
    /// Enable smooth scrolling, enabled by default.
    SmoothScroll(bool),
    /// Font rendering, value: `0` - system default, `1` - no smoothing, `2` - standard smoothing, `3` - ClearType.
    FontSmoothing(u8),
    /// Windows Aero support, value: `false` - normal drawing, `true` - window has transparent background.
    TransparentWindow(bool),
    /// Transparent windows support. When enabled, window uses per pixel alpha.
    AlphaWindow(bool),
    /// global or per-window; enables the inspector for this window, must be called before loading HTML.
    DebugMode(bool),
    /// global or per-window; value: combination of `SCRIPT_RUNTIME_FEATURES` flags.
    ScriptFeatures(u8),
    /// Window is main, will destroy all other dependent windows on close.
    MainWindow(bool),
    /// global or per-window; value: `true` - `1px` in CSS is treated as `1dip`, otherwise `1px` is a physical pixel (by default).
    LogicalPixel(bool),
}

/// The number that stands for a boolean in an option's value.
pub open spec fn spec_flag_value(enable: bool) -> usize {
    if enable {
        1
    } else {
        0
    }
}

/// Gives the number that an option's value takes for a boolean: 1 to
/// enable, 0 to disable.
pub fn flag_value(enable: bool) -> (r: usize)
    ensures
        r == spec_flag_value(enable),
{
    if enable {
        1
    } else {
        0
    }
}

impl Options {
    /// The option of the engine that is set, and the value that it is set to.
    pub open spec fn spec_setting(self) -> (SCITER_RT_OPTIONS, usize) {
        match self {
            Options::SmoothScroll(enable) => (SCITER_RT_OPTIONS::SCITER_SMOOTH_SCROLL, spec_flag_value(enable)),
            Options::FontSmoothing(technology) => (SCITER_RT_OPTIONS::SCITER_FONT_SMOOTHING, technology as usize),
            Options::TransparentWindow(enable) => (
                SCITER_RT_OPTIONS::SCITER_TRANSPARENT_WINDOW,
                spec_flag_value(enable),
            ),
            Options::AlphaWindow(enable) => (SCITER_RT_OPTIONS::SCITER_ALPHA_WINDOW, spec_flag_value(enable)),
            Options::MainWindow(enable) => (SCITER_RT_OPTIONS::SCITER_SET_MAIN_WINDOW, spec_flag_value(enable)),
            Options::DebugMode(enable) => (SCITER_RT_OPTIONS::SCITER_SET_DEBUG_MODE, spec_flag_value(enable)),
            Options::ScriptFeatures(mask) => (
                SCITER_RT_OPTIONS::SCITER_SET_SCRIPT_RUNTIME_FEATURES,
                mask as usize,
            ),
            Options::LogicalPixel(enable) => (SCITER_RT_OPTIONS::SCITER_SET_PX_AS_DIP, spec_flag_value(enable)),
        }
    }
}

/// Generic rectangle struct.
/// NOTE that this is different from the [`RECT`] type as it specifies width and height.
#[derive(Clone, Copy, PartialEq, Eq, Structural, Debug)]
pub struct Rectangle {
    pub x: i32,
    pub y: i32,
    pub width: i32,
    pub height: i32,
}

/// A window: the window of the platform and the host of the engine in it.
#[derive(Clone, Copy, PartialEq, Eq, Structural, Debug)]
pub struct Window {
    base: OsWindow,
    host: Host,
}

/// The view of a window is its handle. What else it holds is stated by
/// [`Window::spec_base`] and [`Window::spec_host`].
impl View for Window {
    type V = HWINDOW;

    closed spec fn view(&self) -> HWINDOW {
        self.base@.0
    }
}

impl Window {
    /// Create a new main window: what the engine is to be handed for it.
    pub fn new() -> (r: Creation)
        ensures
            r == Builder::spec_main_window().spec_creation(),
    {
        Builder::main_window().create()
    }

    /// Create a new window with the specified position, flags and an optional
    /// parent window: what the engine is to be handed for it. Without a parent
    /// the window is handed no handle.
    pub fn create(rect: RECT, flags: Flags, parent: Option<HWINDOW>) -> (r: Creation)
        ensures
            r == spec_creation(rect, flags, parent),
    {
        let code = flags.code();
        Creation {
            init_app: (code & FLAG_MAIN) != 0,
            flags: code,
            rect,
            parent: match parent {
                Some(hwnd) => hwnd,
                None => HWINDOW(0),
            },
        }
    }

    /// Attach the engine to an existing native window.
    pub fn attach(hwnd: HWINDOW) -> (r: Window)
        requires
            hwnd.0 != 0,
        ensures
            r@ == hwnd,
            r.spec_base()@ == (hwnd, 0u32),
            r.spec_host()@ == hwnd,
    {
        Window { base: OsWindow::from(hwnd), host: Host::attach(hwnd) }
    }

    /// The window of the platform: its handle, and the flags that it was
    /// created with.
    pub closed spec fn spec_base(&self) -> OsWindow {
        self.base
    }

    /// The host of the engine in this window.
    pub closed spec fn spec_host(&self) -> Host {
        self.host
    }

    /// Obtain the [`Host`] which offers some advanced control over the engine instance.
    pub fn get_host(&self) -> (host: Host)
        ensures
            host == self.spec_host(),
    {
        self.host
    }

    /// Get a native window handle.
    pub fn get_hwnd(&self) -> (hwnd: HWINDOW)
        ensures
            hwnd == self@,
    {
        self.base.get_hwnd()
    }

    /// Set various engine options, see the [`Options`]: the option of the
    /// engine that is to be set for this window, and the value for it.
    pub fn set_options(&self, options: Options) -> (r: (HWINDOW, SCITER_RT_OPTIONS, usize))
        ensures
            r.0 == self@,
            (r.1, r.2) == options.spec_setting(),
    {
        let (option, value) = match options {
            Options::SmoothScroll(enable) => (SCITER_RT_OPTIONS::SCITER_SMOOTH_SCROLL, flag_value(enable)),
            Options::FontSmoothing(technology) => (SCITER_RT_OPTIONS::SCITER_FONT_SMOOTHING, technology as usize),
            Options::TransparentWindow(enable) => (SCITER_RT_OPTIONS::SCITER_TRANSPARENT_WINDOW, flag_value(enable)),
            Options::AlphaWindow(enable) => (SCITER_RT_OPTIONS::SCITER_ALPHA_WINDOW, flag_value(enable)),
            Options::MainWindow(enable) => (SCITER_RT_OPTIONS::SCITER_SET_MAIN_WINDOW, flag_value(enable)),
            Options::DebugMode(enable) => (SCITER_RT_OPTIONS::SCITER_SET_DEBUG_MODE, flag_value(enable)),
            Options::ScriptFeatures(mask) => (SCITER_RT_OPTIONS::SCITER_SET_SCRIPT_RUNTIME_FEATURES, mask as usize),
            Options::LogicalPixel(enable) => (SCITER_RT_OPTIONS::SCITER_SET_PX_AS_DIP, flag_value(enable)),
        };
        (self.get_hwnd(), option, value)
    }
}

/// What the engine is handed to create a window with the given place, flags
/// and parent.
pub open spec fn spec_creation(rect: RECT, flags: Flags, parent: Option<HWINDOW>) -> Creation {
    Creation {
        init_app: flags.spec_code() & FLAG_MAIN != 0,
        flags: flags.spec_code(),
        rect,
        parent: match parent {
            Some(hwnd) => hwnd,
            None => HWINDOW(0),
        },
    }
}

/// Builder pattern for window creation.
///
/// For example,
///
/// ```text
/// let creation = Builder::main_window()
///   .with_size((800,600))
///   .resizeable()
///   .glassy()
///   .create();
/// ```
#[derive(Clone, Copy, PartialEq, Eq, Structural, Debug)]
pub struct Builder {
    pub flags: Flags,
    pub rect: RECT,
    pub parent: Option<HWINDOW>,
}

impl Default for Builder {
    fn default() -> (r: Builder)
        ensures
            r == Builder::spec_with_flags(SCITER_CREATE_WINDOW_FLAGS::SW_CHILD),
    {
        Builder {
            flags: SCITER_CREATE_WINDOW_FLAGS::SW_CHILD,
            rect: RECT { left: 0, top: 0, right: 0, bottom: 0 },
            parent: None,
        }
    }
}

impl Builder {
    /// A builder with the given flags, at no place and without a parent.
    pub open spec fn spec_with_flags(flags: Flags) -> Builder {
        Builder { flags, rect: RECT { left: 0, top: 0, right: 0, bottom: 0 }, parent: None }
    }

    /// The builder with the bits of `flag` added to its flags.
    pub open spec fn spec_or(self, flag: Flags) -> Builder {
        Builder {
            flags: Flags::spec_from_code(self.flags.spec_code() | flag.spec_code()),
            rect: self.rect,
            parent: self.parent,
        }
    }

    /// The builder with the bits of `flag` taken from its flags.
    pub open spec fn spec_and(self, flag: Flags) -> Builder {
        Builder {
            flags: Flags::spec_from_code(self.flags.spec_code() & !flag.spec_code()),
            rect: self.rect,
            parent: self.parent,
        }
    }

    /// The builder of a main window.
    pub open spec fn spec_main_window() -> Builder {
        Builder::spec_with_flags(Flags::SW_MAIN).spec_or(Flags::SW_RESIZEABLE).spec_or(
            Flags::SW_CONTROLS,
        ).spec_or(Flags::SW_TITLEBAR)
    }

    /// The builder of a popup window.
    pub open spec fn spec_popup_window() -> Builder {
        Builder::spec_with_flags(Flags::SW_POPUP).spec_or(Flags::SW_CONTROLS).spec_or(Flags::SW_TITLEBAR)
    }

    /// What the engine is handed to create the window that was built.
    pub open spec fn spec_creation(self) -> Creation {
        spec_creation(self.rect, self.flags, self.parent)
    }

    /// Main application window (resizeable with min/max buttons and title).
    /// Will terminate the app on close.
    pub fn main_window() -> (r: Builder)
        ensures
            r == Builder::spec_main_window(),
    {
        Builder::main().resizeable().closeable().with_title()
    }

    /// Popup window (with min/max buttons and title).
    pub fn popup_window() -> (r: Builder)
        ensures
            r == Builder::spec_popup_window(),
    {
        Builder::popup().closeable().with_title()
    }

    /// Child window style. if this flag is set all other flags are ignored.
    pub fn child_window() -> (r: Builder)
        ensures
            r == Builder::spec_with_flags(Flags::SW_CHILD),
    {
        Builder::with_flags(SCITER_CREATE_WINDOW_FLAGS::SW_CHILD)
    }

    /// If you want to start from scratch.
    pub fn none() -> (r: Builder)
        ensures
            r == Builder::spec_with_flags(Flags::SW_CHILD),
    {
        Builder::with_flags(SCITER_CREATE_WINDOW_FLAGS::SW_CHILD)
    }

    /// Start with some flags.
    pub fn with_flags(flags: Flags) -> (r: Builder)
        ensures
            r == Builder::spec_with_flags(flags),
    {
        Builder { flags, rect: RECT { left: 0, top: 0, right: 0, bottom: 0 }, parent: None }
    }

    /// Main window style (appears in taskbar).
    /// Will terminate the app on close.
    pub fn main() -> (r: Builder)
        ensures
            r == Builder::spec_with_flags(Flags::SW_MAIN),
    {
        Builder::with_flags(SCITER_CREATE_WINDOW_FLAGS::SW_MAIN)
    }

    /// Popup style, window is created as topmost.
    pub fn popup() -> (r: Builder)
        ensures
            r == Builder::spec_with_flags(Flags::SW_POPUP),
    {
        Builder::with_flags(SCITER_CREATE_WINDOW_FLAGS::SW_POPUP)
    }

    /// Tool window style (with thin titlebar).
    pub fn tool() -> (r: Builder)
        ensures
            r == Builder::spec_with_flags(Flags::SW_TOOL),
    {
        Builder::with_flags(SCITER_CREATE_WINDOW_FLAGS::SW_TOOL)
    }

    /// Specify the parent window (e.g. for child creation).
    pub fn with_parent(self, parent: HWINDOW) -> (r: Builder)
        ensures
            r == (Builder { parent: Some(parent), ..self }),
    {
        let mut b = self;
        b.parent = Some(parent);
        b
    }

    /// Specify the precise window size in `(width, height)` form.
    pub fn with_size(self, size: (i32, i32)) -> (r: Builder)
        requires
            i32::MIN <= self.rect.left + size.0 <= i32::MAX,
            i32::MIN <= self.rect.top + size.1 <= i32::MAX,
        ensures
            r.flags == self.flags,
            r.parent == self.parent,
            r.rect.left == self.rect.left,
            r.rect.top == self.rect.top,
            r.rect.right == self.rect.left + size.0,
            r.rect.bottom == self.rect.top + size.1,
    {
        let mut b = self;
        b.rect.right = b.rect.left + size.0;
        b.rect.bottom = b.rect.top + size.1;
        b
    }

    /// Specify the precise window position in `(X, Y)` form. The window keeps
    /// its size.
    pub fn with_pos(self, position: (i32, i32)) -> (r: Builder)
        requires
            self.rect.measurable(),
            i32::MIN <= position.0 + (self.rect.right - self.rect.left) <= i32::MAX,
            i32::MIN <= position.1 + (self.rect.bottom - self.rect.top) <= i32::MAX,
        ensures
            r.flags == self.flags,
            r.parent == self.parent,
            r.rect.left == position.0,
            r.rect.top == position.1,
            r.rect.right - r.rect.left == self.rect.right - self.rect.left,
            r.rect.bottom - r.rect.top == self.rect.bottom - self.rect.top,
    {
        let mut b = self;
        let size = b.rect.size();
        b.rect.left = position.0;
        b.rect.top = position.1;
        b.rect.right = position.0 + size.cx;
        b.rect.bottom = position.1 + size.cy;
        b
    }

    /// Specify the exact window rectangle in `(X, Y, W, H)` form.
    pub fn with_rect(self, rect: Rectangle) -> (r: Builder)
        requires
            i32::MIN <= rect.x + rect.width <= i32::MAX,
            i32::MIN <= rect.y + rect.height <= i32::MAX,
        ensures
            r.flags == self.flags,
            r.parent == self.parent,
            r.rect.left == rect.x,
            r.rect.top == rect.y,
            r.rect.right == rect.x + rect.width,
            r.rect.bottom == rect.y + rect.height,
    {
        let mut b = self;
        b.rect = RECT { left: rect.x, top: rect.y, right: rect.x + rect.width, bottom: rect.y + rect.height };
        b
    }

    /// Top level window, has titlebar.
    pub fn with_title(self) -> (r: Builder)
        ensures
            r == self.spec_or(Flags::SW_TITLEBAR),
    {
        self.or(SCITER_CREATE_WINDOW_FLAGS::SW_TITLEBAR)
    }

    /// Can be resized.
    pub fn resizeable(self) -> (r: Builder)
        ensures
            r == self.spec_or(Flags::SW_RESIZEABLE),
    {
        self.or(SCITER_CREATE_WINDOW_FLAGS::SW_RESIZEABLE)
    }

    /// Can not be resized.
    pub fn fixed(self) -> (r: Builder)
        ensures
            r == self.spec_and(Flags::SW_RESIZEABLE),
    {
        self.and(SCITER_CREATE_WINDOW_FLAGS::SW_RESIZEABLE)
    }

    /// Has minimize / maximize buttons.
    pub fn closeable(self) -> (r: Builder)
        ensures
            r == self.spec_or(Flags::SW_CONTROLS),
    {
        self.or(SCITER_CREATE_WINDOW_FLAGS::SW_CONTROLS)
    }

    /// Glassy window ("Acrylic" on Windows and "Vibrant" on macOS).
    pub fn glassy(self) -> (r: Builder)
        ensures
            r == self.spec_or(Flags::SW_GLASSY),
    {
        self.or(SCITER_CREATE_WINDOW_FLAGS::SW_GLASSY)
    }

    /// Transparent window.
    pub fn alpha(self) -> (r: Builder)
        ensures
            r == self.spec_or(Flags::SW_ALPHA),
    {
        self.or(SCITER_CREATE_WINDOW_FLAGS::SW_ALPHA)
    }

    /// Can be debugged with the inspector.
    pub fn debug(self) -> (r: Builder)
        ensures
            r == self.spec_or(Flags::SW_ENABLE_DEBUG),
    {
        self.or(SCITER_CREATE_WINDOW_FLAGS::SW_ENABLE_DEBUG)
    }

    fn or(self, flag: Flags) -> (r: Builder)
        ensures
            r == self.spec_or(flag),
    {
        let mut b = self;
        b.flags = Flags::from_code(b.flags.code() | flag.code());
        b
    }

    fn and(self, flag: Flags) -> (r: Builder)
        ensures
            r == self.spec_and(flag),
    {
        let mut b = self;
        b.flags = Flags::from_code(b.flags.code() & !flag.code());
        b
    }

    /// Consume the builder and give what the engine is to be handed to create
    /// the window with the built parameters.
    pub fn create(self) -> (r: Creation)
        ensures
            r == self.spec_creation(),
    {
        Window::create(self.rect, self.flags, self.parent)
    }
}

/// The flags of the windows that the builder starts from: a main window is a
/// main window with a frame to resize it, with buttons and with a title bar; a
/// popup window is a topmost window with buttons and with a title bar.
pub proof fn lemma_builder_flags()
    ensures
        Builder::spec_main_window().flags.spec_code() == 0x96,
        Builder::spec_popup_window().flags.spec_code() == 0x112,
        Builder::spec_main_window().spec_creation().init_app,
        !Builder::spec_popup_window().spec_creation().init_app,
{
    assert(128u32 | 4u32 == 132) by (bit_vector);
    assert(132u32 | 16u32 == 148) by (bit_vector);
    assert(148u32 | 2u32 == 150) by (bit_vector);
    assert(256u32 | 16u32 == 272) by (bit_vector);
    assert(272u32 | 2u32 == 274) by (bit_vector);
    assert(150u32 & 128u32 != 0) by (bit_vector);
    assert(274u32 & 128u32 == 0) by (bit_vector);
}

/// A flag that is set stays set however often it is set again, and a window
/// that was made fixed cannot be resized, whatever it could before.
pub proof fn lemma_builder_bits(b: Builder, flag: Flags)
    ensures
        b.spec_or(flag).spec_or(flag).flags.spec_code() == b.spec_or(flag).flags.spec_code(),
        b.spec_and(flag).flags.spec_code() & flag.spec_code() == 0,
        b.spec_or(flag).spec_and(flag).flags.spec_code() & flag.spec_code() == 0,
        b.spec_or(flag).flags.spec_code() & flag.spec_code() == flag.spec_code(),
{
    let x = b.flags.spec_code();
    let f = flag.spec_code();
    assert((x | f) | f == x | f) by (bit_vector);
    assert((x & !f) & f == 0) by (bit_vector);
    assert(((x | f) & !f) & f == 0) by (bit_vector);
    assert((x | f) & f == f) by (bit_vector);
}

} // verus!
