//! Platform-dependent windows support: what is decided on this side of the
//! window system.

#![allow(non_camel_case_types, non_snake_case)]

use crate::sctypes::{HWINDOW, RECT};
use vstd::prelude::*;

verus! {

/// The window flag of a main window: creating one starts up the application.
pub const FLAG_MAIN: u32 = 128;

/// The window flag of a window with a title bar: showing one brings the
/// application to the front.
pub const FLAG_TITLEBAR: u32 = 2;

/// The command of the window system that hides a window.
pub const SHOW_HIDE: i32 = 0;

/// The command of the window system that shows a window as it is.
pub const SHOW_NORMAL: i32 = 1;

/// The command of the window system that maximizes a window.
pub const SHOW_MAXIMIZE: i32 = 3;

/// The command of the window system that minimizes a window.
pub const SHOW_MINIMIZE: i32 = 6;

/// What a window of the platform can be asked to do.
pub trait BaseWindow {
    /// Create a new native window.
    fn create(&mut self, rect: (i32, i32, i32, i32), flags: u32, parent: HWINDOW) -> HWINDOW;

    /// Get native window handle.
    fn get_hwnd(&self) -> HWINDOW;

    /// Minimize or hide window.
    fn collapse(&self, hide: bool);

    /// Show or maximize window.
    fn expand(&self, maximize: bool);

    /// Close window.
    fn dismiss(&self);

    /// Set native window title.
    fn set_title(&mut self, title: &str);

    /// Get native window title.
    fn get_title(&self) -> String;

    /// Run the main app message loop until window been closed.
    fn run_app(&self);

    /// Post app quit message.
    fn quit_app(&self);
}

/// Events of an icon in the tray, with the place of the pointer.
#[derive(Clone, Copy, PartialEq, Eq, Structural, Debug)]
pub enum TrayEvents {
    Unknown(usize),
    ContextMenu(i32, i32),
    MouseMove(i32, i32),
    LButtonDown(i32, i32),
    LButtonUp(i32, i32),
    LButtonDblClick(i32, i32),
    RButtonDown(i32, i32),
    RButtonUp(i32, i32),
    RButtonDblClick(i32, i32),
    MButtonDown(i32, i32),
    MButtonUp(i32, i32),
    MButtonDblClick(i32, i32),
}

/// The low 16 bits of a number.
pub open spec fn spec_low_word(x: u32) -> u32 {
    x & 0xFFFF
}

/// The high 16 bits of a number.
pub open spec fn spec_high_word(x: u32) -> u32 {
    (x >> 16) & 0xFFFF
}

/// A word of 16 bits read as a signed number.
pub open spec fn spec_signed_word(w: u32) -> int {
    if w >= 0x8000 {
        w - 0x10000
    } else {
        w as int
    }
}

/// A word of 16 bits read as a signed number.
fn signed_word(w: u32) -> (r: i32)
    requires
        w <= 0xFFFF,
    ensures
        r == spec_signed_word(w),
{
    if w >= 0x8000 {
        (w as i32) - 0x10000
    } else {
        w as i32
    }
}

/// The number of the window message that an event of the tray icon stands
/// for: the low word of the second parameter of the message.
pub fn tray_message(lparam: u32) -> (msg: u32)
    ensures
        msg == spec_low_word(lparam),
{
    lparam & 0xFFFF
}

/// The place of the pointer at an event of the tray icon, on the screen: the
/// two words of the first parameter of the message, each a signed number.
pub fn tray_point(wparam: u32) -> (pt: (i32, i32))
    ensures
        pt.0 == spec_signed_word(spec_low_word(wparam)),
        pt.1 == spec_signed_word(spec_high_word(wparam)),
{
    let lo = wparam & 0xFFFF;
    let hi = (wparam >> 16) & 0xFFFF;
    assert(wparam & 0xFFFF <= 0xFFFF) by (bit_vector);
    assert((wparam >> 16) & 0xFFFF <= 0xFFFF) by (bit_vector);
    (signed_word(lo), signed_word(hi))
}

impl TrayEvents {
    /// The event that a window message stands for, at the place `(cx, cy)` of
    /// the pointer in the window. A message that stands for none gives
    /// `Unknown` with the first parameter of the message.
    pub open spec fn spec_from_message(msg: u32, cx: i32, cy: i32, wparam: usize) -> TrayEvents {
        if msg == 0x007B {
            TrayEvents::ContextMenu(cx, cy)
        } else if msg == 0x0201 {
            TrayEvents::LButtonDown(cx, cy)
        } else if msg == 0x0202 {
            TrayEvents::LButtonUp(cx, cy)
        } else if msg == 0x0203 {
            TrayEvents::LButtonDblClick(cx, cy)
        } else if msg == 0x0204 {
            TrayEvents::RButtonDown(cx, cy)
        } else if msg == 0x0205 {
            TrayEvents::RButtonUp(cx, cy)
        } else if msg == 0x0206 {
            TrayEvents::RButtonDblClick(cx, cy)
        } else if msg == 0x0207 {
            TrayEvents::MButtonDown(cx, cy)
        } else if msg == 0x0208 {
            TrayEvents::MButtonUp(cx, cy)
        } else if msg == 0x0209 {
            TrayEvents::MButtonDblClick(cx, cy)
        } else {
            TrayEvents::Unknown(wparam)
        }
    }

    /// The event that a window message stands for.
    pub fn from_message(msg: u32, cx: i32, cy: i32, wparam: usize) -> (r: TrayEvents)
        ensures
            r == Self::spec_from_message(msg, cx, cy, wparam),
    {
        if msg == 0x007B {
            TrayEvents::ContextMenu(cx, cy)
        } else if msg == 0x0201 {
            TrayEvents::LButtonDown(cx, cy)
        } else if msg == 0x0202 {
            TrayEvents::LButtonUp(cx, cy)
        } else if msg == 0x0203 {
            TrayEvents::LButtonDblClick(cx, cy)
        } else if msg == 0x0204 {
            TrayEvents::RButtonDown(cx, cy)
        } else if msg == 0x0205 {
            TrayEvents::RButtonUp(cx, cy)
        } else if msg == 0x0206 {
            TrayEvents::RButtonDblClick(cx, cy)
        } else if msg == 0x0207 {
            TrayEvents::MButtonDown(cx, cy)
        } else if msg == 0x0208 {
            TrayEvents::MButtonUp(cx, cy)
        } else if msg == 0x0209 {
            TrayEvents::MButtonDblClick(cx, cy)
        } else {
            TrayEvents::Unknown(wparam)
        }
    }
}

/// The answer to a message of the tray icon, from what the callback of the
/// application returned: whether the message was handled, and its result.
pub fn tray_outcome(result: Option<usize>) -> (r: (bool, usize))
    ensures
        r.0 == result is Some,
        result matches Some(n) ==> r.1 == n,
        result is None ==> r.1 == 0,
{
    match result {
        Some(n) => (true, n),
        None => (false, 0),
    }
}

/// All that the engine is handed to create a window.
#[derive(Clone, Copy, PartialEq, Eq, Structural, Debug)]
pub struct Creation {
    /// Whether the application is to be started up first: a main window is
    /// asked for.
    pub init_app: bool,
    /// The flags of the window.
    pub flags: u32,
    /// The place of the window.
    pub rect: RECT,
    /// The parent of the window, or no handle.
    pub parent: HWINDOW,
}

impl Creation {
    /// Whether the window is created at the place that was given for it: a
    /// place without a width or without a height is no place, and the window
    /// system is left to choose one.
    pub fn framed(&self) -> (r: bool)
        ensures
            r == (self.rect.right > self.rect.left && self.rect.bottom > self.rect.top),
    {
        self.rect.right > self.rect.left && self.rect.bottom > self.rect.top
    }
}

/// A window of the platform: its handle and the flags it was created with.
#[derive(Clone, Copy, PartialEq, Eq, Structural, Debug)]
pub struct OsWindow {
    hwnd: HWINDOW,
    flags: u32,
}

impl View for OsWindow {
    type V = (HWINDOW, u32);

    closed spec fn view(&self) -> (HWINDOW, u32) {
        (self.hwnd, self.flags)
    }
}

impl OsWindow {
    /// A window that is not yet created: it has no handle.
    pub fn new() -> (r: OsWindow)
        ensures
            r@ == (HWINDOW(0), 0u32),
    {
        OsWindow { hwnd: HWINDOW(0), flags: 0 }
    }

    /// A window that exists already.
    pub fn from(hwnd: HWINDOW) -> (r: OsWindow)
        ensures
            r@ == (hwnd, 0u32),
    {
        OsWindow { hwnd, flags: 0 }
    }

    /// Get native window handle.
    pub fn get_hwnd(&self) -> (hwnd: HWINDOW)
        ensures
            hwnd == self@.0,
    {
        self.hwnd
    }

    /// The flags that the window was created with.
    pub fn get_flags(&self) -> (flags: u32)
        ensures
            flags == self@.1,
    {
        self.flags
    }

    /// Minimize or hide window: the command of the window system for it.
    pub fn collapse(hide: bool) -> (n: i32)
        ensures
            n == if hide { SHOW_HIDE } else { SHOW_MINIMIZE },
    {
        if hide {
            SHOW_HIDE
        } else {
            SHOW_MINIMIZE
        }
    }

    /// Show or maximize window: the command of the window system for it.
    pub fn expand(maximize: bool) -> (n: i32)
        ensures
            n == if maximize { SHOW_MAXIMIZE } else { SHOW_NORMAL },
    {
        if maximize {
            SHOW_MAXIMIZE
        } else {
            SHOW_NORMAL
        }
    }

    /// Whether showing the window brings the application to the front: it
    /// does for a window with a title bar.
    pub fn activates(&self) -> (r: bool)
        ensures
            r == (self@.1 & FLAG_TITLEBAR != 0),
    {
        (self.flags & FLAG_TITLEBAR) != 0
    }

    /// Create a new native window, the first half: what the engine is to be
    /// handed. `rect` is the place of the window as `(x, y, width, height)`.
    /// The window keeps the flags.
    pub fn create(&mut self, rect: (i32, i32, i32, i32), flags: u32, parent: HWINDOW) -> (r: Creation)
        requires
            i32::MIN <= rect.0 + rect.2 <= i32::MAX,
            i32::MIN <= rect.1 + rect.3 <= i32::MAX,
        ensures
            r.init_app == (flags & FLAG_MAIN != 0),
            r.flags == flags,
            r.rect == (RECT { left: rect.0, top: rect.1, right: (rect.0 + rect.2) as i32, bottom: (rect.1 + rect.3) as i32 }),
            r.parent == parent,
            final(self)@ == (old(self)@.0, flags),
    {
        let (x, y, w, h) = rect;
        let rc = RECT { left: x, top: y, right: x + w, bottom: y + h };
        self.flags = flags;
        Creation { init_app: (flags & FLAG_MAIN) != 0, flags, rect: rc, parent }
    }

    /// Create a new native window, the second half: the window takes the handle
    /// that the engine gave for it.
    pub fn created(&mut self, hwnd: HWINDOW) -> (r: HWINDOW)
        requires
            hwnd.0 != 0,
        ensures
            r == hwnd,
            final(self)@ == (hwnd, old(self)@.1),
    {
        self.hwnd = hwnd;
        hwnd
    }
}

} // verus!
