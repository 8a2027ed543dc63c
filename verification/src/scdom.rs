//! DOM access, the plain data of it.

#![allow(non_camel_case_types, non_snake_case)]

use vstd::prelude::*;

verus! {

/// Element native handle.
///
/// The handle is carried as the number that the engine gave; zero is no handle.
#[derive(Clone, Copy, PartialEq, Eq, Structural, Debug)]
pub struct HELEMENT(pub usize);

impl HELEMENT {
    /// No handle.
    pub fn null() -> (r: HELEMENT)
        ensures
            r.0 == 0,
    {
        HELEMENT(0)
    }

    /// Whether this is no handle.
    pub fn is_null(&self) -> (r: bool)
        ensures
            r == (self.0 == 0),
    {
        self.0 == 0
    }
}

impl Default for HELEMENT {
    fn default() -> (r: HELEMENT)
        ensures
            r.0 == 0,
    {
        HELEMENT(0)
    }
}

/// Node native handle.
///
/// The handle is carried as the number that the engine gave; zero is no handle.
#[derive(Clone, Copy, PartialEq, Eq, Structural, Debug)]
pub struct HNODE(pub usize);

impl HNODE {
    /// No handle.
    pub fn null() -> (r: HNODE)
        ensures
            r.0 == 0,
    {
        HNODE(0)
    }

    /// Whether this is no handle.
    pub fn is_null(&self) -> (r: bool)
        ensures
            r == (self.0 == 0),
    {
        self.0 == 0
    }
}

impl Default for HNODE {
    fn default() -> (r: HNODE)
        ensures
            r.0 == 0,
    {
        HNODE(0)
    }
}

/// Type of the result value for DOM functions.
#[derive(Clone, Copy, PartialEq, Eq, Structural, Debug)]
pub enum SCDOM_RESULT {
    /// Function completed successfully.
    OK,
    /// Invalid `HWINDOW`.
    INVALID_HWND,
    /// Invalid `HELEMENT`.
    INVALID_HANDLE,
    /// Attempt to use `HELEMENT` which is not attached to document.
    PASSIVE_HANDLE,
    /// Parameter is invalid, e.g. pointer is null.
    INVALID_PARAMETER,
    /// Operation failed, e.g. invalid html passed.
    OPERATION_FAILED,
    /// Function completed successfully, but no result (e.g. no such attribute at element).
    OK_NOT_HANDLED,
}

impl SCDOM_RESULT {
    /// The number that the engine uses for this variant.
    pub open spec fn spec_code(self) -> int {
        match self {
            SCDOM_RESULT::OK => 0,
            SCDOM_RESULT::INVALID_HWND => 1,
            SCDOM_RESULT::INVALID_HANDLE => 2,
            SCDOM_RESULT::PASSIVE_HANDLE => 3,
            SCDOM_RESULT::INVALID_PARAMETER => 4,
            SCDOM_RESULT::OPERATION_FAILED => 5,
            SCDOM_RESULT::OK_NOT_HANDLED => -1,
        }
    }

    /// The variant that a number stands for, if there is one.
    pub open spec fn spec_from_code(code: int) -> Option<SCDOM_RESULT> {
        if code == 0 {
            Some(SCDOM_RESULT::OK)
        } else if code == 1 {
            Some(SCDOM_RESULT::INVALID_HWND)
        } else if code == 2 {
            Some(SCDOM_RESULT::INVALID_HANDLE)
        } else if code == 3 {
            Some(SCDOM_RESULT::PASSIVE_HANDLE)
        } else if code == 4 {
            Some(SCDOM_RESULT::INVALID_PARAMETER)
        } else if code == 5 {
            Some(SCDOM_RESULT::OPERATION_FAILED)
        } else if code == -1 {
            Some(SCDOM_RESULT::OK_NOT_HANDLED)
        } else {
            None
        }
    }

    /// The number that the engine uses for this variant.
    pub fn code(self) -> (code: i32)
        ensures
            code == self.spec_code(),
    {
        match self {
            SCDOM_RESULT::OK => 0,
            SCDOM_RESULT::INVALID_HWND => 1,
            SCDOM_RESULT::INVALID_HANDLE => 2,
            SCDOM_RESULT::PASSIVE_HANDLE => 3,
            SCDOM_RESULT::INVALID_PARAMETER => 4,
            SCDOM_RESULT::OPERATION_FAILED => 5,
            SCDOM_RESULT::OK_NOT_HANDLED => -1,
        }
    }

    /// Reads a number back into its variant; `None` for a number that stands for none.
    pub fn from_code(code: i32) -> (r: Option<SCDOM_RESULT>)
        ensures
            r == Self::spec_from_code(code as int),
    {
        if code == 0 {
            Some(SCDOM_RESULT::OK)
        } else if code == 1 {
            Some(SCDOM_RESULT::INVALID_HWND)
        } else if code == 2 {
            Some(SCDOM_RESULT::INVALID_HANDLE)
        } else if code == 3 {
            Some(SCDOM_RESULT::PASSIVE_HANDLE)
        } else if code == 4 {
            Some(SCDOM_RESULT::INVALID_PARAMETER)
        } else if code == 5 {
            Some(SCDOM_RESULT::OPERATION_FAILED)
        } else if code == -1 {
            Some(SCDOM_RESULT::OK_NOT_HANDLED)
        } else {
            None
        }
    }

    /// Each variant is read back from its own code, and a number that is read back
    /// into a variant is that variant's code.
    pub proof fn lemma_code_round_trip(v: SCDOM_RESULT, code: int)
        ensures
            Self::spec_from_code(v.spec_code()) == Some(v),
            Self::spec_from_code(code) == Some(v) ==> v.spec_code() == code,
    {
    }
}

/// `dom::Element.set_html()` options.
#[derive(Clone, Copy, PartialEq, Eq, Structural, Debug)]
pub enum SET_ELEMENT_HTML {
    /// Replace the content of the element.
    SIH_REPLACE_CONTENT,
    /// Insert html before the first child.
    SIH_INSERT_AT_START,
    /// Insert html after the last child.
    SIH_APPEND_AFTER_LAST,
    /// Replace the element itself.
    SOH_REPLACE,
    /// Insert html before the element.
    SOH_INSERT_BEFORE,
    /// Insert html after the element.
    SOH_INSERT_AFTER,
}

impl SET_ELEMENT_HTML {
    /// The number that the engine uses for this variant.
    pub open spec fn spec_code(self) -> int {
        match self {
            SET_ELEMENT_HTML::SIH_REPLACE_CONTENT => 0,
            SET_ELEMENT_HTML::SIH_INSERT_AT_START => 1,
            SET_ELEMENT_HTML::SIH_APPEND_AFTER_LAST => 2,
            SET_ELEMENT_HTML::SOH_REPLACE => 3,
            SET_ELEMENT_HTML::SOH_INSERT_BEFORE => 4,
            SET_ELEMENT_HTML::SOH_INSERT_AFTER => 5,
        }
    }

    /// The variant that a number stands for, if there is one.
    pub open spec fn spec_from_code(code: int) -> Option<SET_ELEMENT_HTML> {
        if code == 0 {
            Some(SET_ELEMENT_HTML::SIH_REPLACE_CONTENT)
        } else if code == 1 {
            Some(SET_ELEMENT_HTML::SIH_INSERT_AT_START)
        } else if code == 2 {
            Some(SET_ELEMENT_HTML::SIH_APPEND_AFTER_LAST)
        } else if code == 3 {
            Some(SET_ELEMENT_HTML::SOH_REPLACE)
        } else if code == 4 {
            Some(SET_ELEMENT_HTML::SOH_INSERT_BEFORE)
        } else if code == 5 {
            Some(SET_ELEMENT_HTML::SOH_INSERT_AFTER)
        } else {
            None
        }
    }

    /// The number that the engine uses for this variant.
    pub fn code(self) -> (code: u32)
        ensures
            code == self.spec_code(),
    {
        match self {
            SET_ELEMENT_HTML::SIH_REPLACE_CONTENT => 0,
            SET_ELEMENT_HTML::SIH_INSERT_AT_START => 1,
            SET_ELEMENT_HTML::SIH_APPEND_AFTER_LAST => 2,
            SET_ELEMENT_HTML::SOH_REPLACE => 3,
            SET_ELEMENT_HTML::SOH_INSERT_BEFORE => 4,
            SET_ELEMENT_HTML::SOH_INSERT_AFTER => 5,
        }
    }

    /// Reads a number back into its variant; `None` for a number that stands for none.
    pub fn from_code(code: u32) -> (r: Option<SET_ELEMENT_HTML>)
        ensures
            r == Self::spec_from_code(code as int),
    {
        if code == 0 {
            Some(SET_ELEMENT_HTML::SIH_REPLACE_CONTENT)
        } else if code == 1 {
            Some(SET_ELEMENT_HTML::SIH_INSERT_AT_START)
        } else if code == 2 {
            Some(SET_ELEMENT_HTML::SIH_APPEND_AFTER_LAST)
        } else if code == 3 {
            Some(SET_ELEMENT_HTML::SOH_REPLACE)
        } else if code == 4 {
            Some(SET_ELEMENT_HTML::SOH_INSERT_BEFORE)
        } else if code == 5 {
            Some(SET_ELEMENT_HTML::SOH_INSERT_AFTER)
        } else {
            None
        }
    }

    /// Each variant is read back from its own code, and a number that is read back
    /// into a variant is that variant's code.
    pub proof fn lemma_code_round_trip(v: SET_ELEMENT_HTML, code: int)
        ensures
            Self::spec_from_code(v.spec_code()) == Some(v),
            Self::spec_from_code(code) == Some(v) ==> v.spec_code() == code,
    {
    }
}

/// Bounding rectangle of the element.
#[derive(Clone, Copy, PartialEq, Eq, Structural, Debug)]
pub enum ELEMENT_AREAS {
    /// `or` this flag if you want to get window relative coordinates,
    /// otherwise it will use nearest windowed container e.g. popup window.
    ROOT_RELATIVE,
    /// `or` this flag if you want to get coordinates relative to the origin of element iself.
    SELF_RELATIVE,
    /// Position inside immediate container.
    CONTAINER_RELATIVE,
    /// Position relative to view - the window.
    VIEW_RELATIVE,
    /// Content (inner)  box.
    CONTENT_BOX,
    /// Content + paddings.
    PADDING_BOX,
    /// Content + paddings + border.
    BORDER_BOX,
    /// Content + paddings + border + margins.
    MARGIN_BOX,
    /// Relative to content origin - location of background image (if it set `no-repeat`).
    BACK_IMAGE_AREA,
    /// Relative to content origin - location of foreground image (if it set `no-repeat`).
    FORE_IMAGE_AREA,
    /// Scroll_area - scrollable area in content box.
    SCROLLABLE_AREA,
}

impl ELEMENT_AREAS {
    /// The number that the engine uses for this variant.
    pub open spec fn spec_code(self) -> int {
        match self {
            ELEMENT_AREAS::ROOT_RELATIVE => 0x01,
            ELEMENT_AREAS::SELF_RELATIVE => 0x02,
            ELEMENT_AREAS::CONTAINER_RELATIVE => 0x03,
            ELEMENT_AREAS::VIEW_RELATIVE => 0x04,
            ELEMENT_AREAS::CONTENT_BOX => 0x00,
            ELEMENT_AREAS::PADDING_BOX => 0x10,
            ELEMENT_AREAS::BORDER_BOX => 0x20,
            ELEMENT_AREAS::MARGIN_BOX => 0x30,
            ELEMENT_AREAS::BACK_IMAGE_AREA => 0x40,
            ELEMENT_AREAS::FORE_IMAGE_AREA => 0x50,
            ELEMENT_AREAS::SCROLLABLE_AREA => 0x60,
        }
    }

    /// The variant that a number stands for, if there is one.
    pub open spec fn spec_from_code(code: int) -> Option<ELEMENT_AREAS> {
        if code == 0x01 {
            Some(ELEMENT_AREAS::ROOT_RELATIVE)
        } else if code == 0x02 {
            Some(ELEMENT_AREAS::SELF_RELATIVE)
        } else if code == 0x03 {
            Some(ELEMENT_AREAS::CONTAINER_RELATIVE)
        } else if code == 0x04 {
            Some(ELEMENT_AREAS::VIEW_RELATIVE)
        } else if code == 0x00 {
            Some(ELEMENT_AREAS::CONTENT_BOX)
        } else if code == 0x10 {
            Some(ELEMENT_AREAS::PADDING_BOX)
        } else if code == 0x20 {
            Some(ELEMENT_AREAS::BORDER_BOX)
        } else if code == 0x30 {
            Some(ELEMENT_AREAS::MARGIN_BOX)
        } else if code == 0x40 {
            Some(ELEMENT_AREAS::BACK_IMAGE_AREA)
        } else if code == 0x50 {
            Some(ELEMENT_AREAS::FORE_IMAGE_AREA)
        } else if code == 0x60 {
            Some(ELEMENT_AREAS::SCROLLABLE_AREA)
        } else {
            None
        }
    }

    /// The number that the engine uses for this variant.
    pub fn code(self) -> (code: u32)
        ensures
            code == self.spec_code(),
    {
        match self {
            ELEMENT_AREAS::ROOT_RELATIVE => 0x01,
            ELEMENT_AREAS::SELF_RELATIVE => 0x02,
            ELEMENT_AREAS::CONTAINER_RELATIVE => 0x03,
            ELEMENT_AREAS::VIEW_RELATIVE => 0x04,
            ELEMENT_AREAS::CONTENT_BOX => 0x00,
            ELEMENT_AREAS::PADDING_BOX => 0x10,
            ELEMENT_AREAS::BORDER_BOX => 0x20,
            ELEMENT_AREAS::MARGIN_BOX => 0x30,
            ELEMENT_AREAS::BACK_IMAGE_AREA => 0x40,
            ELEMENT_AREAS::FORE_IMAGE_AREA => 0x50,
            ELEMENT_AREAS::SCROLLABLE_AREA => 0x60,
        }
    }

    /// Reads a number back into its variant; `None` for a number that stands for none.
    pub fn from_code(code: u32) -> (r: Option<ELEMENT_AREAS>)
        ensures
            r == Self::spec_from_code(code as int),
    {
        if code == 0x01 {
            Some(ELEMENT_AREAS::ROOT_RELATIVE)
        } else if code == 0x02 {
            Some(ELEMENT_AREAS::SELF_RELATIVE)
        } else if code == 0x03 {
            Some(ELEMENT_AREAS::CONTAINER_RELATIVE)
        } else if code == 0x04 {
            Some(ELEMENT_AREAS::VIEW_RELATIVE)
        } else if code == 0x00 {
            Some(ELEMENT_AREAS::CONTENT_BOX)
        } else if code == 0x10 {
            Some(ELEMENT_AREAS::PADDING_BOX)
        } else if code == 0x20 {
            Some(ELEMENT_AREAS::BORDER_BOX)
        } else if code == 0x30 {
            Some(ELEMENT_AREAS::MARGIN_BOX)
        } else if code == 0x40 {
            Some(ELEMENT_AREAS::BACK_IMAGE_AREA)
        } else if code == 0x50 {
            Some(ELEMENT_AREAS::FORE_IMAGE_AREA)
        } else if code == 0x60 {
            Some(ELEMENT_AREAS::SCROLLABLE_AREA)
        } else {
            None
        }
    }

    /// Each variant is read back from its own code, and a number that is read back
    /// into a variant is that variant's code.
    pub proof fn lemma_code_round_trip(v: ELEMENT_AREAS, code: int)
        ensures
            Self::spec_from_code(v.spec_code()) == Some(v),
            Self::spec_from_code(code) == Some(v) ==> v.spec_code() == code,
    {
    }
}

impl ELEMENT_AREAS {
    /// Size of content (i.e `(0, 0, width, height)`).
    pub fn self_content() -> (r: u32)
        ensures
            r == ELEMENT_AREAS::SELF_RELATIVE.spec_code(),
    {
        ELEMENT_AREAS::SELF_RELATIVE.code()
    }

    /// Size of rect (i.e `(left, top, width, height)`)
    pub fn self_rect() -> (r: u32)
        ensures
            r == ELEMENT_AREAS::ROOT_RELATIVE.spec_code(),
    {
        ELEMENT_AREAS::ROOT_RELATIVE.code()
    }
}

} // verus!
