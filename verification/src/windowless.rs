//! Messages for the windowless engine.

#![allow(non_camel_case_types, non_snake_case)]

use crate::scbehavior::{KEYBOARD_STATES, KEY_EVENTS, MOUSE_BUTTONS, MOUSE_EVENTS};
use crate::scdef::GFX_LAYER;
use crate::scdom::HELEMENT;
use crate::scmsg::{
    SCITER_PAINT_TARGET_TYPE, SCITER_X_MSG, SCITER_X_MSG_CODE, SCITER_X_MSG_CREATE, SCITER_X_MSG_DESTROY,
    SCITER_X_MSG_FOCUS, SCITER_X_MSG_HEARTBIT, SCITER_X_MSG_KEY, SCITER_X_MSG_MOUSE, SCITER_X_MSG_PAINT,
    SCITER_X_MSG_RESOLUTION, SCITER_X_MSG_SIZE,
};
use crate::sctypes::{POINT, RECT};
use vstd::prelude::*;

verus! {

/// Application-provided events to notify the engine.
#[derive(Clone, Copy, PartialEq, Eq, Structural, Debug)]
pub enum Message {
    /// Creates an instance of the engine assotiated with the given handle.
    Create { backend: GFX_LAYER, transparent: bool },
    /// Destroys the engine instance.
    Destroy,
    /// Window size changes.
    Size { width: u32, height: u32 },
    /// Screen resolution changes.
    Resolution { ppi: u32 },
    /// Window focus event.
    Focus { enter: bool },
    /// Time changes in order to process animations, timers and other timed things.
    Heartbit { milliseconds: u32 },
    /// Redraw the whole document.
    Redraw,
    /// Redraw the specific layer.
    Paint(PaintEvent),
    /// Render to bitmap.
    RenderTo(RenderEvent),
    /// Mouse input.
    Mouse(MouseEvent),
    /// Keyboard input.
    Keyboard(KeyboardEvent),
}

#[derive(Clone, Copy, PartialEq, Eq, Structural, Debug)]
pub struct MouseEvent {
    pub event: MOUSE_EVENTS,
    pub button: MOUSE_BUTTONS,
    pub modifiers: KEYBOARD_STATES,
    pub pos: POINT,
}

#[derive(Clone, Copy, PartialEq, Eq, Structural, Debug)]
pub struct KeyboardEvent {
    pub event: KEY_EVENTS,
    pub code: u32,
    pub modifiers: KEYBOARD_STATES,
}

#[derive(Clone, Copy, PartialEq, Eq, Structural, Debug)]
pub struct PaintEvent {
    pub element: HELEMENT,
    pub foreground: bool,
}

/// A request to render to a bitmap. The receiver of the pixels is kept by the
/// caller of the engine.
#[derive(Clone, Copy, PartialEq, Eq, Structural, Debug)]
pub struct RenderEvent {
    pub layer: Option<PaintEvent>,
}

/// A message as the engine takes it.
#[derive(Clone, Copy, PartialEq, Eq, Structural, Debug)]
pub enum XMessage {
    Create(SCITER_X_MSG_CREATE),
    Destroy(SCITER_X_MSG_DESTROY),
    Size(SCITER_X_MSG_SIZE),
    Resolution(SCITER_X_MSG_RESOLUTION),
    Focus(SCITER_X_MSG_FOCUS),
    Heartbit(SCITER_X_MSG_HEARTBIT),
    Mouse(SCITER_X_MSG_MOUSE),
    Key(SCITER_X_MSG_KEY),
    Paint(SCITER_X_MSG_PAINT),
}

impl XMessage {
    /// The header of the message.
    pub open spec fn spec_header(self) -> SCITER_X_MSG {
        match self {
            XMessage::Create(m) => m.header,
            XMessage::Destroy(m) => m.header,
            XMessage::Size(m) => m.header,
            XMessage::Resolution(m) => m.header,
            XMessage::Focus(m) => m.header,
            XMessage::Heartbit(m) => m.header,
            XMessage::Mouse(m) => m.header,
            XMessage::Key(m) => m.header,
            XMessage::Paint(m) => m.header,
        }
    }

    /// The header of the message.
    pub fn header(&self) -> (h: SCITER_X_MSG)
        ensures
            h == self.spec_header(),
    {
        match self {
            XMessage::Create(m) => m.header,
            XMessage::Destroy(m) => m.header,
            XMessage::Size(m) => m.header,
            XMessage::Resolution(m) => m.header,
            XMessage::Focus(m) => m.header,
            XMessage::Heartbit(m) => m.header,
            XMessage::Mouse(m) => m.header,
            XMessage::Key(m) => m.header,
            XMessage::Paint(m) => m.header,
        }
    }

    /// Whether the header of the message carries the code that belongs to the
    /// kind of the message.
    pub open spec fn wf(self) -> bool {
        self.spec_header().msg == (match self {
            XMessage::Create(_) => SCITER_X_MSG_CODE::SXM_CREATE,
            XMessage::Destroy(_) => SCITER_X_MSG_CODE::SXM_DESTROY,
            XMessage::Size(_) => SCITER_X_MSG_CODE::SXM_SIZE,
            XMessage::Resolution(_) => SCITER_X_MSG_CODE::SXM_RESOLUTION,
            XMessage::Focus(_) => SCITER_X_MSG_CODE::SXM_FOCUS,
            XMessage::Heartbit(_) => SCITER_X_MSG_CODE::SXM_HEARTBIT,
            XMessage::Mouse(_) => SCITER_X_MSG_CODE::SXM_MOUSE,
            XMessage::Key(_) => SCITER_X_MSG_CODE::SXM_KEY,
            XMessage::Paint(_) => SCITER_X_MSG_CODE::SXM_PAINT,
        })
    }
}

/// The message of the engine that an event of the application becomes.
///
/// Every event becomes the message of its own kind, with what the event holds.
/// The three events that paint become a paint message: a redraw paints the
/// foreground of the whole document to the window, a paint event paints its
/// layer to the window, and a rendering paints its layer, or the background
/// of the whole document where it names none, to the receiver.
pub open spec fn spec_message(event: Message) -> XMessage {
    match event {
        Message::Create { backend, transparent } => XMessage::Create(
            SCITER_X_MSG_CREATE { header: SCITER_X_MSG { msg: SCITER_X_MSG_CODE::SXM_CREATE }, backend, transparent },
        ),
        Message::Destroy => XMessage::Destroy(
            SCITER_X_MSG_DESTROY { header: SCITER_X_MSG { msg: SCITER_X_MSG_CODE::SXM_DESTROY } },
        ),
        Message::Size { width, height } => XMessage::Size(
            SCITER_X_MSG_SIZE { header: SCITER_X_MSG { msg: SCITER_X_MSG_CODE::SXM_SIZE }, width, height },
        ),
        Message::Resolution { ppi } => XMessage::Resolution(
            SCITER_X_MSG_RESOLUTION { header: SCITER_X_MSG { msg: SCITER_X_MSG_CODE::SXM_RESOLUTION }, ppi },
        ),
        Message::Focus { enter } => XMessage::Focus(
            SCITER_X_MSG_FOCUS { header: SCITER_X_MSG { msg: SCITER_X_MSG_CODE::SXM_FOCUS }, enter },
        ),
        Message::Heartbit { milliseconds } => XMessage::Heartbit(
            SCITER_X_MSG_HEARTBIT { header: SCITER_X_MSG { msg: SCITER_X_MSG_CODE::SXM_HEARTBIT }, time: milliseconds },
        ),
        Message::Mouse(params) => XMessage::Mouse(
            SCITER_X_MSG_MOUSE {
                header: SCITER_X_MSG { msg: SCITER_X_MSG_CODE::SXM_MOUSE },
                event: params.event,
                button: params.button,
                modifiers: params.modifiers.spec_code() as u32,
                pos: params.pos,
            },
        ),
        Message::Keyboard(params) => XMessage::Key(
            SCITER_X_MSG_KEY {
                header: SCITER_X_MSG { msg: SCITER_X_MSG_CODE::SXM_KEY },
                event: params.event,
                code: params.code,
                modifiers: params.modifiers.spec_code() as u32,
            },
        ),
        Message::Redraw => XMessage::Paint(
            SCITER_X_MSG_PAINT {
                header: SCITER_X_MSG { msg: SCITER_X_MSG_CODE::SXM_PAINT },
                element: HELEMENT(0),
                isFore: true,
                targetType: SCITER_PAINT_TARGET_TYPE::SPT_DEFAULT,
                callback: false,
            },
        ),
        Message::Paint(paint) => XMessage::Paint(
            SCITER_X_MSG_PAINT {
                header: SCITER_X_MSG { msg: SCITER_X_MSG_CODE::SXM_PAINT },
                element: paint.element,
                isFore: paint.foreground,
                targetType: SCITER_PAINT_TARGET_TYPE::SPT_DEFAULT,
                callback: false,
            },
        ),
        Message::RenderTo(paint) => {
            let element = match paint.layer {
                Some(layer) => layer,
                None => PaintEvent { element: HELEMENT(0), foreground: false },
            };
            XMessage::Paint(
                SCITER_X_MSG_PAINT {
                    header: SCITER_X_MSG { msg: SCITER_X_MSG_CODE::SXM_PAINT },
                    element: element.element,
                    isFore: element.foreground,
                    targetType: SCITER_PAINT_TARGET_TYPE::SPT_RECEIVER,
                    callback: true,
                },
            )
        },
    }
}

/// Notify the engine about UI-specific events: the message that the engine is
/// to be handed for the event.
pub fn handle_message(event: Message) -> (msg: XMessage)
    ensures
        msg == spec_message(event),
        msg.wf(),
{
    match event {
        Message::Create { backend, transparent } => {
            let msg = SCITER_X_MSG_CREATE {
                header: SCITER_X_MSG { msg: SCITER_X_MSG_CODE::SXM_CREATE },
                backend,
                transparent,
            };
            XMessage::Create(msg)
        },
        Message::Destroy => {
            let msg = SCITER_X_MSG_DESTROY { header: SCITER_X_MSG { msg: SCITER_X_MSG_CODE::SXM_DESTROY } };
            XMessage::Destroy(msg)
        },
        Message::Size { width, height } => {
            let msg = SCITER_X_MSG_SIZE { header: SCITER_X_MSG { msg: SCITER_X_MSG_CODE::SXM_SIZE }, width, height };
            XMessage::Size(msg)
        },
        Message::Resolution { ppi } => {
            let msg = SCITER_X_MSG_RESOLUTION { header: SCITER_X_MSG { msg: SCITER_X_MSG_CODE::SXM_RESOLUTION }, ppi };
            XMessage::Resolution(msg)
        },
        Message::Focus { enter } => {
            let msg = SCITER_X_MSG_FOCUS { header: SCITER_X_MSG { msg: SCITER_X_MSG_CODE::SXM_FOCUS }, enter };
            XMessage::Focus(msg)
        },
        Message::Heartbit { milliseconds } => {
            let msg = SCITER_X_MSG_HEARTBIT {
                header: SCITER_X_MSG { msg: SCITER_X_MSG_CODE::SXM_HEARTBIT },
                time: milliseconds,
            };
            XMessage::Heartbit(msg)
        },
        Message::Mouse(params) => {
            let msg = SCITER_X_MSG_MOUSE {
                header: SCITER_X_MSG { msg: SCITER_X_MSG_CODE::SXM_MOUSE },
                event: params.event,
                button: params.button,
                modifiers: params.modifiers.code(),
                pos: params.pos,
            };
            XMessage::Mouse(msg)
        },
        Message::Keyboard(params) => {
            let msg = SCITER_X_MSG_KEY {
                header: SCITER_X_MSG { msg: SCITER_X_MSG_CODE::SXM_KEY },
                event: params.event,
                code: params.code,
                modifiers: params.modifiers.code(),
            };
            XMessage::Key(msg)
        },
        Message::Redraw => {
            let msg = SCITER_X_MSG_PAINT {
                header: SCITER_X_MSG { msg: SCITER_X_MSG_CODE::SXM_PAINT },
                element: HELEMENT(0),
                isFore: true,
                targetType: SCITER_PAINT_TARGET_TYPE::SPT_DEFAULT,
                callback: false,
            };
            XMessage::Paint(msg)
        },
        Message::Paint(paint) => {
            let msg = SCITER_X_MSG_PAINT {
                header: SCITER_X_MSG { msg: SCITER_X_MSG_CODE::SXM_PAINT },
                element: paint.element,
                isFore: paint.foreground,
                targetType: SCITER_PAINT_TARGET_TYPE::SPT_DEFAULT,
                callback: false,
            };
            XMessage::Paint(msg)
        },
        Message::RenderTo(paint) => {
            let element = match paint.layer {
                Some(layer) => layer,
                None => PaintEvent { element: HELEMENT(0), foreground: false },
            };
            let msg = SCITER_X_MSG_PAINT {
                header: SCITER_X_MSG { msg: SCITER_X_MSG_CODE::SXM_PAINT },
                element: element.element,
                isFore: element.foreground,
                targetType: SCITER_PAINT_TARGET_TYPE::SPT_RECEIVER,
                callback: true,
            };
            XMessage::Paint(msg)
        },
    }
}

/// Whether the engine took a message: it answers with a number that is not
/// zero.
pub fn handled(ok: u32) -> (r: bool)
    ensures
        r == (ok != 0),
{
    ok != 0
}

/// The area that a rendered bitmap covers.
pub fn bitmap_area(x: i32, y: i32, width: u32, height: u32) -> (area: RECT)
    requires
        x + width <= i32::MAX,
        y + height <= i32::MAX,
    ensures
        area.left == x,
        area.top == y,
        area.right == x + width,
        area.bottom == y + height,
{
    RECT { left: x, top: y, right: (x as i64 + width as i64) as i32, bottom: (y as i64 + height as i64) as i32 }
}

/// The number of bytes of a rendered bitmap: four for each of its pixels.
pub fn bitmap_size(width: u32, height: u32) -> (size: u32)
    requires
        width * height * 4 <= u32::MAX,
    ensures
        size == width * height * 4,
{
    assert(width * height <= width * height * 4) by (nonlinear_arith);
    width * height * 4
}

} // verus!
