//! Messages of the windowless engine: the plain data of them.

#![allow(non_camel_case_types, non_snake_case)]

use crate::scbehavior::{KEY_EVENTS, MOUSE_BUTTONS, MOUSE_EVENTS};
use crate::scdef::GFX_LAYER;
use crate::scdom::HELEMENT;
use crate::sctypes::POINT;
use vstd::prelude::*;

verus! {

/// Codes of the messages that the application sends to the engine.
#[derive(Clone, Copy, PartialEq, Eq, Structural, Debug)]
pub enum SCITER_X_MSG_CODE {
    SXM_CREATE,
    SXM_DESTROY,
    SXM_SIZE,
    SXM_PAINT,
    SXM_RESOLUTION,
    SXM_HEARTBIT,
    SXM_MOUSE,
    SXM_KEY,
    SXM_FOCUS,
}

impl SCITER_X_MSG_CODE {
    /// The number that the engine uses for this variant.
    pub open spec fn spec_code(self) -> int {
        match self {
            SCITER_X_MSG_CODE::SXM_CREATE => 0,
            SCITER_X_MSG_CODE::SXM_DESTROY => 1,
            SCITER_X_MSG_CODE::SXM_SIZE => 2,
            SCITER_X_MSG_CODE::SXM_PAINT => 3,
            SCITER_X_MSG_CODE::SXM_RESOLUTION => 4,
            SCITER_X_MSG_CODE::SXM_HEARTBIT => 5,
            SCITER_X_MSG_CODE::SXM_MOUSE => 6,
            SCITER_X_MSG_CODE::SXM_KEY => 7,
            SCITER_X_MSG_CODE::SXM_FOCUS => 8,
        }
    }

    /// The variant that a number stands for, if there is one.
    pub open spec fn spec_from_code(code: int) -> Option<SCITER_X_MSG_CODE> {
        if code == 0 {
            Some(SCITER_X_MSG_CODE::SXM_CREATE)
        } else if code == 1 {
            Some(SCITER_X_MSG_CODE::SXM_DESTROY)
        } else if code == 2 {
            Some(SCITER_X_MSG_CODE::SXM_SIZE)
        } else if code == 3 {
            Some(SCITER_X_MSG_CODE::SXM_PAINT)
        } else if code == 4 {
            Some(SCITER_X_MSG_CODE::SXM_RESOLUTION)
        } else if code == 5 {
            Some(SCITER_X_MSG_CODE::SXM_HEARTBIT)
        } else if code == 6 {
            Some(SCITER_X_MSG_CODE::SXM_MOUSE)
        } else if code == 7 {
            Some(SCITER_X_MSG_CODE::SXM_KEY)
        } else if code == 8 {
            Some(SCITER_X_MSG_CODE::SXM_FOCUS)
        } else {
            None
        }
    }

    /// The number that the engine uses for this variant.
    pub fn code(self) -> (code: u32)
        ensures
            code == self.spec_code(),
    {
        match self {
            SCITER_X_MSG_CODE::SXM_CREATE => 0,
            SCITER_X_MSG_CODE::SXM_DESTROY => 1,
            SCITER_X_MSG_CODE::SXM_SIZE => 2,
            SCITER_X_MSG_CODE::SXM_PAINT => 3,
            SCITER_X_MSG_CODE::SXM_RESOLUTION => 4,
            SCITER_X_MSG_CODE::SXM_HEARTBIT => 5,
            SCITER_X_MSG_CODE::SXM_MOUSE => 6,
            SCITER_X_MSG_CODE::SXM_KEY => 7,
            SCITER_X_MSG_CODE::SXM_FOCUS => 8,
        }
    }

    /// Reads a number back into its variant; `None` for a number that stands for none.
    pub fn from_code(code: u32) -> (r: Option<SCITER_X_MSG_CODE>)
        ensures
            r == Self::spec_from_code(code as int),
    {
        if code == 0 {
            Some(SCITER_X_MSG_CODE::SXM_CREATE)
        } else if code == 1 {
            Some(SCITER_X_MSG_CODE::SXM_DESTROY)
        } else if code == 2 {
            Some(SCITER_X_MSG_CODE::SXM_SIZE)
        } else if code == 3 {
            Some(SCITER_X_MSG_CODE::SXM_PAINT)
        } else if code == 4 {
            Some(SCITER_X_MSG_CODE::SXM_RESOLUTION)
        } else if code == 5 {
            Some(SCITER_X_MSG_CODE::SXM_HEARTBIT)
        } else if code == 6 {
            Some(SCITER_X_MSG_CODE::SXM_MOUSE)
        } else if code == 7 {
            Some(SCITER_X_MSG_CODE::SXM_KEY)
        } else if code == 8 {
            Some(SCITER_X_MSG_CODE::SXM_FOCUS)
        } else {
            None
        }
    }

    /// Each variant is read back from its own code, and a number that is read back
    /// into a variant is that variant's code.
    pub proof fn lemma_code_round_trip(v: SCITER_X_MSG_CODE, code: int)
        ensures
            Self::spec_from_code(v.spec_code()) == Some(v),
            Self::spec_from_code(code) == Some(v) ==> v.spec_code() == code,
    {
    }
}

/// Common header of message structures.
#[derive(Clone, Copy, PartialEq, Eq, Structural, Debug)]
pub struct SCITER_X_MSG {
    pub msg: SCITER_X_MSG_CODE,
}

impl From<SCITER_X_MSG_CODE> for SCITER_X_MSG {
    fn from(code: SCITER_X_MSG_CODE) -> (r: SCITER_X_MSG)
        ensures
            r.msg == code,
    {
        SCITER_X_MSG { msg: code }
    }
}

impl vstd::std_specs::convert::FromSpecImpl<SCITER_X_MSG_CODE> for SCITER_X_MSG {
    open spec fn obeys_from_spec() -> bool {
        true
    }

    open spec fn from_spec(code: SCITER_X_MSG_CODE) -> SCITER_X_MSG {
        SCITER_X_MSG { msg: code }
    }
}

/// Message to create the specific backend.
#[derive(Clone, Copy, PartialEq, Eq, Structural, Debug)]
pub struct SCITER_X_MSG_CREATE {
    pub header: SCITER_X_MSG,
    pub backend: GFX_LAYER,
    pub transparent: bool,
}

/// Message to destroy the current backend.
#[derive(Clone, Copy, PartialEq, Eq, Structural, Debug)]
pub struct SCITER_X_MSG_DESTROY {
    pub header: SCITER_X_MSG,
}

/// Message to notify the engine about view resize.
#[derive(Clone, Copy, PartialEq, Eq, Structural, Debug)]
pub struct SCITER_X_MSG_SIZE {
    pub header: SCITER_X_MSG,
    pub width: u32,
    pub height: u32,
}

/// Message to notify the engine about screen resolution change.
#[derive(Clone, Copy, PartialEq, Eq, Structural, Debug)]
pub struct SCITER_X_MSG_RESOLUTION {
    pub header: SCITER_X_MSG,
    /// Pixels per inch.
    pub ppi: u32,
}

/// Message to notify the engine about mouse input.
#[derive(Clone, Copy, PartialEq, Eq, Structural, Debug)]
pub struct SCITER_X_MSG_MOUSE {
    pub header: SCITER_X_MSG,
    pub event: MOUSE_EVENTS,
    pub button: MOUSE_BUTTONS,
    pub modifiers: u32,
    pub pos: POINT,
}

/// Message to notify the engine about keyboard input.
#[derive(Clone, Copy, PartialEq, Eq, Structural, Debug)]
pub struct SCITER_X_MSG_KEY {
    pub header: SCITER_X_MSG,
    pub event: KEY_EVENTS,
    pub code: u32,
    pub modifiers: u32,
}

/// Message to notify the engine about window focus change.
#[derive(Clone, Copy, PartialEq, Eq, Structural, Debug)]
pub struct SCITER_X_MSG_FOCUS {
    pub header: SCITER_X_MSG,
    pub enter: bool,
}

/// Give the engine a chance to process animations, timers and other timed things.
#[derive(Clone, Copy, PartialEq, Eq, Structural, Debug)]
pub struct SCITER_X_MSG_HEARTBIT {
    pub header: SCITER_X_MSG,
    /// Absolute time in milliseconds.
    pub time: u32,
}

/// `SCITER_X_MSG_PAINT` target identifier.
#[derive(Clone, Copy, PartialEq, Eq, Structural, Debug)]
pub enum SCITER_PAINT_TARGET_TYPE {
    /// default rendering target - window surface
    SPT_DEFAULT,
    /// target::receiver
    SPT_RECEIVER,
}

impl SCITER_PAINT_TARGET_TYPE {
    /// The number that the engine uses for this variant.
    pub open spec fn spec_code(self) -> int {
        match self {
            SCITER_PAINT_TARGET_TYPE::SPT_DEFAULT => 0,
            SCITER_PAINT_TARGET_TYPE::SPT_RECEIVER => 1,
        }
    }

    /// The variant that a number stands for, if there is one.
    pub open spec fn spec_from_code(code: int) -> Option<SCITER_PAINT_TARGET_TYPE> {
        if code == 0 {
            Some(SCITER_PAINT_TARGET_TYPE::SPT_DEFAULT)
        } else if code == 1 {
            Some(SCITER_PAINT_TARGET_TYPE::SPT_RECEIVER)
        } else {
            None
        }
    }

    /// The number that the engine uses for this variant.
    pub fn code(self) -> (code: u32)
        ensures
            code == self.spec_code(),
    {
        match self {
            SCITER_PAINT_TARGET_TYPE::SPT_DEFAULT => 0,
            SCITER_PAINT_TARGET_TYPE::SPT_RECEIVER => 1,
        }
    }

    /// Reads a number back into its variant; `None` for a number that stands for none.
    pub fn from_code(code: u32) -> (r: Option<SCITER_PAINT_TARGET_TYPE>)
        ensures
            r == Self::spec_from_code(code as int),
    {
        if code == 0 {
            Some(SCITER_PAINT_TARGET_TYPE::SPT_DEFAULT)
        } else if code == 1 {
            Some(SCITER_PAINT_TARGET_TYPE::SPT_RECEIVER)
        } else {
            None
        }
    }

    /// Each variant is read back from its own code, and a number that is read back
    /// into a variant is that variant's code.
    pub proof fn lemma_code_round_trip(v: SCITER_PAINT_TARGET_TYPE, code: int)
        ensures
            Self::spec_from_code(v.spec_code()) == Some(v),
            Self::spec_from_code(code) == Some(v) ==> v.spec_code() == code,
    {
    }
}

/// Message to paint view to the provided target.
#[derive(Clone, Copy, PartialEq, Eq, Structural, Debug)]
pub struct SCITER_X_MSG_PAINT {
    pub header: SCITER_X_MSG,
    /// The layer to paint, or no element for the whole document.
    pub element: HELEMENT,
    /// Whether the foreground of the layer is painted.
    pub isFore: bool,
    pub targetType: SCITER_PAINT_TARGET_TYPE,
    /// Whether the pixels go to a receiver of the application's.
    pub callback: bool,
}

} // verus!
