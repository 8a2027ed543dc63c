//! Platform-dependent types.

#![allow(non_camel_case_types, non_snake_case)]

use vstd::prelude::*;

verus! {

/// Window native handle.
///
/// The handle is carried as the number that the engine gave; zero is no handle.
#[derive(Clone, Copy, PartialEq, Eq, Structural, Debug)]
pub struct HWINDOW(pub usize);

impl HWINDOW {
    /// No handle.
    pub fn null() -> (r: HWINDOW)
        ensures
            r.0 == 0,
    {
        HWINDOW(0)
    }

    /// Whether this is no handle.
    pub fn is_null(&self) -> (r: bool)
        ensures
            r == (self.0 == 0),
    {
        self.0 == 0
    }
}

impl Default for HWINDOW {
    fn default() -> (r: HWINDOW)
        ensures
            r.0 == 0,
    {
        HWINDOW(0)
    }
}

/// Archive native handle.
///
/// The handle is carried as the number that the engine gave; zero is no handle.
#[derive(Clone, Copy, PartialEq, Eq, Structural, Debug)]
pub struct HSARCHIVE(pub usize);

impl HSARCHIVE {
    /// No handle.
    pub fn null() -> (r: HSARCHIVE)
        ensures
            r.0 == 0,
    {
        HSARCHIVE(0)
    }

    /// Whether this is no handle.
    pub fn is_null(&self) -> (r: bool)
        ensures
            r == (self.0 == 0),
    {
        self.0 == 0
    }
}

impl Default for HSARCHIVE {
    fn default() -> (r: HSARCHIVE)
        ensures
            r.0 == 0,
    {
        HSARCHIVE(0)
    }
}

/// Defines the coordinates of the upper-left and lower-right corners of a rectangle.
#[derive(Clone, Copy, PartialEq, Eq, Structural, Debug)]
pub struct RECT {
    pub left: i32,
    pub top: i32,
    pub right: i32,
    pub bottom: i32,
}

impl RECT {
    /// Whether the height and the width of the rectangle are numbers of 32 bits.
    pub open spec fn measurable(self) -> bool {
        &&& i32::MIN <= self.bottom - self.top <= i32::MAX
        &&& i32::MIN <= self.right - self.left <= i32::MAX
    }

    /// Calculate height of rect.
    pub fn height(&self) -> (h: i32)
        requires
            i32::MIN <= self.bottom - self.top <= i32::MAX,
        ensures
            h == self.bottom - self.top,
    {
        self.bottom - self.top
    }

    /// Calculate width of rect.
    pub fn width(&self) -> (w: i32)
        requires
            i32::MIN <= self.right - self.left <= i32::MAX,
        ensures
            w == self.right - self.left,
    {
        self.right - self.left
    }

    /// Return the size of rect in width and height form.
    pub fn size(&self) -> (s: SIZE)
        requires
            self.measurable(),
        ensures
            s.cx == self.right - self.left,
            s.cy == self.bottom - self.top,
    {
        SIZE { cx: self.width(), cy: self.height() }
    }

    /// Returns the top-left point of rect.
    pub fn topleft(&self) -> (p: POINT)
        ensures
            p.x == self.left,
            p.y == self.top,
    {
        POINT { x: self.left, y: self.top }
    }
}

impl Default for RECT {
    fn default() -> (r: RECT)
        ensures
            r == (RECT { left: 0, top: 0, right: 0, bottom: 0 }),
    {
        RECT { left: 0, top: 0, right: 0, bottom: 0 }
    }
}

/// Defines the `x` and `y` coordinates of a point.
#[derive(Clone, Copy, PartialEq, Eq, Structural, Debug)]
pub struct POINT {
    pub x: i32,
    pub y: i32,
}

impl Default for POINT {
    fn default() -> (r: POINT)
        ensures
            r == (POINT { x: 0, y: 0 }),
    {
        POINT { x: 0, y: 0 }
    }
}

/// Specifies the width and height of a rectangle.
#[derive(Clone, Copy, PartialEq, Eq, Structural, Debug)]
pub struct SIZE {
    pub cx: i32,
    pub cy: i32,
}

impl Default for SIZE {
    fn default() -> (r: SIZE)
        ensures
            r == (SIZE { cx: 0, cy: 0 }),
    {
        SIZE { cx: 0, cy: 0 }
    }
}

/// A message of the window system.
#[derive(Clone, Copy, PartialEq, Eq, Structural, Debug)]
pub struct MSG {
    pub hwnd: HWINDOW,
    pub message: u32,
    pub wParam: usize,
    pub lParam: isize,
    pub time: u32,
    pub pt: POINT,
}

} // verus!
