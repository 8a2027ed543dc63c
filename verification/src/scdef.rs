//! Common declarations: options, notifications and the data that comes with them.

#![allow(non_camel_case_types, non_snake_case)]

use crate::scdom::HELEMENT;
use crate::screquest::HREQUEST;
use crate::sctypes::HWINDOW;
use vstd::prelude::*;

verus! {

/// A Direct2D render target, which this library only names.
pub struct ID2D1RenderTarget {
    _unused: usize,
}

/// A Direct2D factory, which this library only names.
pub struct ID2D1Factory {
    _unused: usize,
}

/// A DirectWrite factory, which this library only names.
pub struct IDWriteFactory {
    _unused: usize,
}

/// A DXGI swap chain, which this library only names.
pub struct IDXGISwapChain {
    _unused: usize,
}

/// A DXGI surface, which this library only names.
pub struct IDXGISurface {
    _unused: usize,
}

/// `HostHandler::on_data_load()` result code.
///
/// This notification gives application a chance to override built-in loader and
/// implement loading of resources in its own way (for example images can be loaded from
/// database or other resource).
#[derive(Clone, Copy, PartialEq, Eq, Structural, Debug)]
pub enum LOAD_RESULT {
    /// Do default loading if data not set.
    LOAD_DEFAULT,
    /// Discard request completely (data will not be loaded at document).
    LOAD_DISCARD,
    /// Data will be delivered later by the host application.
    LOAD_DELAYED,
    /// You return this result to indicate that your (the host) application took or
    /// will take care about `HREQUEST` in your code completely.
    LOAD_MYSELF,
}

impl LOAD_RESULT {
    /// The number that the engine uses for this variant.
    pub open spec fn spec_code(self) -> int {
        match self {
            LOAD_RESULT::LOAD_DEFAULT => 0,
            LOAD_RESULT::LOAD_DISCARD => 1,
            LOAD_RESULT::LOAD_DELAYED => 2,
            LOAD_RESULT::LOAD_MYSELF => 3,
        }
    }

    /// The variant that a number stands for, if there is one.
    pub open spec fn spec_from_code(code: int) -> Option<LOAD_RESULT> {
        if code == 0 {
            Some(LOAD_RESULT::LOAD_DEFAULT)
        } else if code == 1 {
            Some(LOAD_RESULT::LOAD_DISCARD)
        } else if code == 2 {
            Some(LOAD_RESULT::LOAD_DELAYED)
        } else if code == 3 {
            Some(LOAD_RESULT::LOAD_MYSELF)
        } else {
            None
        }
    }

    /// The number that the engine uses for this variant.
    pub fn code(self) -> (code: u32)
        ensures
            code == self.spec_code(),
    {
        match self {
            LOAD_RESULT::LOAD_DEFAULT => 0,
            LOAD_RESULT::LOAD_DISCARD => 1,
            LOAD_RESULT::LOAD_DELAYED => 2,
            LOAD_RESULT::LOAD_MYSELF => 3,
        }
    }

    /// Reads a number back into its variant; `None` for a number that stands for none.
    pub fn from_code(code: u32) -> (r: Option<LOAD_RESULT>)
        ensures
            r == Self::spec_from_code(code as int),
    {
        if code == 0 {
            Some(LOAD_RESULT::LOAD_DEFAULT)
        } else if code == 1 {
            Some(LOAD_RESULT::LOAD_DISCARD)
        } else if code == 2 {
            Some(LOAD_RESULT::LOAD_DELAYED)
        } else if code == 3 {
            Some(LOAD_RESULT::LOAD_MYSELF)
        } else {
            None
        }
    }

    /// Each variant is read back from its own code, and a number that is read back
    /// into a variant is that variant's code.
    pub proof fn lemma_code_round_trip(v: LOAD_RESULT, code: int)
        ensures
            Self::spec_from_code(v.spec_code()) == Some(v),
            Self::spec_from_code(code) == Some(v) ==> v.spec_code() == code,
    {
    }
}

/// Script runtime options.
#[derive(Clone, Copy, PartialEq, Eq, Structural, Debug)]
pub enum SCRIPT_RUNTIME_FEATURES {
    ALLOW_FILE_IO,
    ALLOW_SOCKET_IO,
    ALLOW_EVAL,
    ALLOW_SYSINFO,
}

impl SCRIPT_RUNTIME_FEATURES {
    /// The number that the engine uses for this variant.
    pub open spec fn spec_code(self) -> int {
        match self {
            SCRIPT_RUNTIME_FEATURES::ALLOW_FILE_IO => 0x1,
            SCRIPT_RUNTIME_FEATURES::ALLOW_SOCKET_IO => 0x2,
            SCRIPT_RUNTIME_FEATURES::ALLOW_EVAL => 0x4,
            SCRIPT_RUNTIME_FEATURES::ALLOW_SYSINFO => 0x8,
        }
    }

    /// The variant that a number stands for, if there is one.
    pub open spec fn spec_from_code(code: int) -> Option<SCRIPT_RUNTIME_FEATURES> {
        if code == 0x1 {
            Some(SCRIPT_RUNTIME_FEATURES::ALLOW_FILE_IO)
        } else if code == 0x2 {
            Some(SCRIPT_RUNTIME_FEATURES::ALLOW_SOCKET_IO)
        } else if code == 0x4 {
            Some(SCRIPT_RUNTIME_FEATURES::ALLOW_EVAL)
        } else if code == 0x8 {
            Some(SCRIPT_RUNTIME_FEATURES::ALLOW_SYSINFO)
        } else {
            None
        }
    }

    /// The number that the engine uses for this variant.
    pub fn code(self) -> (code: u32)
        ensures
            code == self.spec_code(),
    {
        match self {
            SCRIPT_RUNTIME_FEATURES::ALLOW_FILE_IO => 0x1,
            SCRIPT_RUNTIME_FEATURES::ALLOW_SOCKET_IO => 0x2,
            SCRIPT_RUNTIME_FEATURES::ALLOW_EVAL => 0x4,
            SCRIPT_RUNTIME_FEATURES::ALLOW_SYSINFO => 0x8,
        }
    }

    /// Reads a number back into its variant; `None` for a number that stands for none.
    pub fn from_code(code: u32) -> (r: Option<SCRIPT_RUNTIME_FEATURES>)
        ensures
            r == Self::spec_from_code(code as int),
    {
        if code == 0x1 {
            Some(SCRIPT_RUNTIME_FEATURES::ALLOW_FILE_IO)
        } else if code == 0x2 {
            Some(SCRIPT_RUNTIME_FEATURES::ALLOW_SOCKET_IO)
        } else if code == 0x4 {
            Some(SCRIPT_RUNTIME_FEATURES::ALLOW_EVAL)
        } else if code == 0x8 {
            Some(SCRIPT_RUNTIME_FEATURES::ALLOW_SYSINFO)
        } else {
            None
        }
    }

    /// Each variant is read back from its own code, and a number that is read back
    /// into a variant is that variant's code.
    pub proof fn lemma_code_round_trip(v: SCRIPT_RUNTIME_FEATURES, code: int)
        ensures
            Self::spec_from_code(v.spec_code()) == Some(v),
            Self::spec_from_code(code) == Some(v) ==> v.spec_code() == code,
    {
    }
}

/// Explicitly set a graphics layer.
#[derive(Clone, Copy, PartialEq, Eq, Structural, Debug)]
pub enum GFX_LAYER {
    /// An auto-selected backend.
    AUTO,
    /// Depends on OS: GDI, Cairo or CoreGraphics.
    CPU,
    /// A software rasterizer for Direct2D.
    WARP,
    /// A hardware Direct2D mode.
    D2D,
    /// Skia backend with CPU rasterization mode.
    SKIA_CPU,
    /// Skia backend with OpenGL rendering.
    SKIA_OPENGL,
}

impl GFX_LAYER {
    /// The number that the engine uses for this variant.
    pub open spec fn spec_code(self) -> int {
        match self {
            GFX_LAYER::AUTO => 0xFFFF,
            GFX_LAYER::CPU => 1,
            GFX_LAYER::WARP => 2,
            GFX_LAYER::D2D => 3,
            GFX_LAYER::SKIA_CPU => 4,
            GFX_LAYER::SKIA_OPENGL => 5,
        }
    }

    /// The variant that a number stands for, if there is one.
    pub open spec fn spec_from_code(code: int) -> Option<GFX_LAYER> {
        if code == 0xFFFF {
            Some(GFX_LAYER::AUTO)
        } else if code == 1 {
            Some(GFX_LAYER::CPU)
        } else if code == 2 {
            Some(GFX_LAYER::WARP)
        } else if code == 3 {
            Some(GFX_LAYER::D2D)
        } else if code == 4 {
            Some(GFX_LAYER::SKIA_CPU)
        } else if code == 5 {
            Some(GFX_LAYER::SKIA_OPENGL)
        } else {
            None
        }
    }

    /// The number that the engine uses for this variant.
    pub fn code(self) -> (code: u32)
        ensures
            code == self.spec_code(),
    {
        match self {
            GFX_LAYER::AUTO => 0xFFFF,
            GFX_LAYER::CPU => 1,
            GFX_LAYER::WARP => 2,
            GFX_LAYER::D2D => 3,
            GFX_LAYER::SKIA_CPU => 4,
            GFX_LAYER::SKIA_OPENGL => 5,
        }
    }

    /// Reads a number back into its variant; `None` for a number that stands for none.
    pub fn from_code(code: u32) -> (r: Option<GFX_LAYER>)
        ensures
            r == Self::spec_from_code(code as int),
    {
        if code == 0xFFFF {
            Some(GFX_LAYER::AUTO)
        } else if code == 1 {
            Some(GFX_LAYER::CPU)
        } else if code == 2 {
            Some(GFX_LAYER::WARP)
        } else if code == 3 {
            Some(GFX_LAYER::D2D)
        } else if code == 4 {
            Some(GFX_LAYER::SKIA_CPU)
        } else if code == 5 {
            Some(GFX_LAYER::SKIA_OPENGL)
        } else {
            None
        }
    }

    /// Each variant is read back from its own code, and a number that is read back
    /// into a variant is that variant's code.
    pub proof fn lemma_code_round_trip(v: GFX_LAYER, code: int)
        ensures
            Self::spec_from_code(v.spec_code()) == Some(v),
            Self::spec_from_code(code) == Some(v) ==> v.spec_code() == code,
    {
    }
}

/// Various engine options (global or per-window).
#[derive(Clone, Copy, PartialEq, Eq, Structural, Debug)]
pub enum SCITER_RT_OPTIONS {
    /// value:TRUE - enable, value:FALSE - disable, enabled by default.
    SCITER_SMOOTH_SCROLL,
    /// global; value: milliseconds, connection timeout of http client.
    SCITER_CONNECTION_TIMEOUT,
    /// global; value: 0 - drop connection, 1 - use builtin dialog, 2 - accept connection silently.
    SCITER_HTTPS_ERROR,
    /// value: 0 - system default, 1 - no smoothing, 2 - std smoothing, 3 - clear type.
    SCITER_FONT_SMOOTHING,
    /// Windows Aero support, value:
    /// 0 - normal drawing,
    /// 1 - window has transparent background.
    SCITER_TRANSPARENT_WINDOW,
    /// global; value = json - GPU black list.
    SCITER_SET_GPU_BLACKLIST,
    /// global or per-window; value - combination of [`SCRIPT_RUNTIME_FEATURES`] flags.
    SCITER_SET_SCRIPT_RUNTIME_FEATURES,
    /// global (must be called before any window creation); value - [`GFX_LAYER`].
    SCITER_SET_GFX_LAYER,
    /// global or per-window; value - TRUE/FALSE
    SCITER_SET_DEBUG_MODE,
    /// global; value - BOOL, TRUE - the engine will use "unisex" theme that is common for all platforms.
    SCITER_SET_UX_THEMING,
    /// value - TRUE/FALSE - window uses per pixel alpha.
    SCITER_ALPHA_WINDOW,
    /// global; value: UTF-8 encoded script source to be loaded into each view before any other script execution.
    SCITER_SET_INIT_SCRIPT,
    /// per-window; value - TRUE/FALSE - window is main, will destroy all other dependent windows on close.
    SCITER_SET_MAIN_WINDOW,
    /// global; value - max request length in megabytes.
    SCITER_SET_MAX_HTTP_DATA_LENGTH,
    /// global or per-window; value: TRUE - `1px` in CSS is treated as `1dip`, otherwise `1px` is a physical pixel.
    SCITER_SET_PX_AS_DIP,
}

impl SCITER_RT_OPTIONS {
    /// The number that the engine uses for this variant.
    pub open spec fn spec_code(self) -> int {
        match self {
            SCITER_RT_OPTIONS::SCITER_SMOOTH_SCROLL => 1,
            SCITER_RT_OPTIONS::SCITER_CONNECTION_TIMEOUT => 2,
            SCITER_RT_OPTIONS::SCITER_HTTPS_ERROR => 3,
            SCITER_RT_OPTIONS::SCITER_FONT_SMOOTHING => 4,
            SCITER_RT_OPTIONS::SCITER_TRANSPARENT_WINDOW => 6,
            SCITER_RT_OPTIONS::SCITER_SET_GPU_BLACKLIST => 7,
            SCITER_RT_OPTIONS::SCITER_SET_SCRIPT_RUNTIME_FEATURES => 8,
            SCITER_RT_OPTIONS::SCITER_SET_GFX_LAYER => 9,
            SCITER_RT_OPTIONS::SCITER_SET_DEBUG_MODE => 10,
            SCITER_RT_OPTIONS::SCITER_SET_UX_THEMING => 11,
            SCITER_RT_OPTIONS::SCITER_ALPHA_WINDOW => 12,
            SCITER_RT_OPTIONS::SCITER_SET_INIT_SCRIPT => 13,
            SCITER_RT_OPTIONS::SCITER_SET_MAIN_WINDOW => 14,
            SCITER_RT_OPTIONS::SCITER_SET_MAX_HTTP_DATA_LENGTH => 15,
            SCITER_RT_OPTIONS::SCITER_SET_PX_AS_DIP => 16,
        }
    }

    /// The variant that a number stands for, if there is one.
    pub open spec fn spec_from_code(code: int) -> Option<SCITER_RT_OPTIONS> {
        if code == 1 {
            Some(SCITER_RT_OPTIONS::SCITER_SMOOTH_SCROLL)
        } else if code == 2 {
            Some(SCITER_RT_OPTIONS::SCITER_CONNECTION_TIMEOUT)
        } else if code == 3 {
            Some(SCITER_RT_OPTIONS::SCITER_HTTPS_ERROR)
        } else if code == 4 {
            Some(SCITER_RT_OPTIONS::SCITER_FONT_SMOOTHING)
        } else if code == 6 {
            Some(SCITER_RT_OPTIONS::SCITER_TRANSPARENT_WINDOW)
        } else if code == 7 {
            Some(SCITER_RT_OPTIONS::SCITER_SET_GPU_BLACKLIST)
        } else if code == 8 {
            Some(SCITER_RT_OPTIONS::SCITER_SET_SCRIPT_RUNTIME_FEATURES)
        } else if code == 9 {
            Some(SCITER_RT_OPTIONS::SCITER_SET_GFX_LAYER)
        } else if code == 10 {
            Some(SCITER_RT_OPTIONS::SCITER_SET_DEBUG_MODE)
        } else if code == 11 {
            Some(SCITER_RT_OPTIONS::SCITER_SET_UX_THEMING)
        } else if code == 12 {
            Some(SCITER_RT_OPTIONS::SCITER_ALPHA_WINDOW)
        } else if code == 13 {
            Some(SCITER_RT_OPTIONS::SCITER_SET_INIT_SCRIPT)
        } else if code == 14 {
            Some(SCITER_RT_OPTIONS::SCITER_SET_MAIN_WINDOW)
        } else if code == 15 {
            Some(SCITER_RT_OPTIONS::SCITER_SET_MAX_HTTP_DATA_LENGTH)
        } else if code == 16 {
            Some(SCITER_RT_OPTIONS::SCITER_SET_PX_AS_DIP)
        } else {
            None
        }
    }

    /// The number that the engine uses for this variant.
    pub fn code(self) -> (code: u32)
        ensures
            code == self.spec_code(),
    {
        match self {
            SCITER_RT_OPTIONS::SCITER_SMOOTH_SCROLL => 1,
            SCITER_RT_OPTIONS::SCITER_CONNECTION_TIMEOUT => 2,
            SCITER_RT_OPTIONS::SCITER_HTTPS_ERROR => 3,
            SCITER_RT_OPTIONS::SCITER_FONT_SMOOTHING => 4,
            SCITER_RT_OPTIONS::SCITER_TRANSPARENT_WINDOW => 6,
            SCITER_RT_OPTIONS::SCITER_SET_GPU_BLACKLIST => 7,
            SCITER_RT_OPTIONS::SCITER_SET_SCRIPT_RUNTIME_FEATURES => 8,
            SCITER_RT_OPTIONS::SCITER_SET_GFX_LAYER => 9,
            SCITER_RT_OPTIONS::SCITER_SET_DEBUG_MODE => 10,
            SCITER_RT_OPTIONS::SCITER_SET_UX_THEMING => 11,
            SCITER_RT_OPTIONS::SCITER_ALPHA_WINDOW => 12,
            SCITER_RT_OPTIONS::SCITER_SET_INIT_SCRIPT => 13,
            SCITER_RT_OPTIONS::SCITER_SET_MAIN_WINDOW => 14,
            SCITER_RT_OPTIONS::SCITER_SET_MAX_HTTP_DATA_LENGTH => 15,
            SCITER_RT_OPTIONS::SCITER_SET_PX_AS_DIP => 16,
        }
    }

    /// Reads a number back into its variant; `None` for a number that stands for none.
    pub fn from_code(code: u32) -> (r: Option<SCITER_RT_OPTIONS>)
        ensures
            r == Self::spec_from_code(code as int),
    {
        if code == 1 {
            Some(SCITER_RT_OPTIONS::SCITER_SMOOTH_SCROLL)
        } else if code == 2 {
            Some(SCITER_RT_OPTIONS::SCITER_CONNECTION_TIMEOUT)
        } else if code == 3 {
            Some(SCITER_RT_OPTIONS::SCITER_HTTPS_ERROR)
        } else if code == 4 {
            Some(SCITER_RT_OPTIONS::SCITER_FONT_SMOOTHING)
        } else if code == 6 {
            Some(SCITER_RT_OPTIONS::SCITER_TRANSPARENT_WINDOW)
        } else if code == 7 {
            Some(SCITER_RT_OPTIONS::SCITER_SET_GPU_BLACKLIST)
        } else if code == 8 {
            Some(SCITER_RT_OPTIONS::SCITER_SET_SCRIPT_RUNTIME_FEATURES)
        } else if code == 9 {
            Some(SCITER_RT_OPTIONS::SCITER_SET_GFX_LAYER)
        } else if code == 10 {
            Some(SCITER_RT_OPTIONS::SCITER_SET_DEBUG_MODE)
        } else if code == 11 {
            Some(SCITER_RT_OPTIONS::SCITER_SET_UX_THEMING)
        } else if code == 12 {
            Some(SCITER_RT_OPTIONS::SCITER_ALPHA_WINDOW)
        } else if code == 13 {
            Some(SCITER_RT_OPTIONS::SCITER_SET_INIT_SCRIPT)
        } else if code == 14 {
            Some(SCITER_RT_OPTIONS::SCITER_SET_MAIN_WINDOW)
        } else if code == 15 {
            Some(SCITER_RT_OPTIONS::SCITER_SET_MAX_HTTP_DATA_LENGTH)
        } else if code == 16 {
            Some(SCITER_RT_OPTIONS::SCITER_SET_PX_AS_DIP)
        } else {
            None
        }
    }

    /// Each variant is read back from its own code, and a number that is read back
    /// into a variant is that variant's code.
    pub proof fn lemma_code_round_trip(v: SCITER_RT_OPTIONS, code: int)
        ensures
            Self::spec_from_code(v.spec_code()) == Some(v),
            Self::spec_from_code(code) == Some(v) ==> v.spec_code() == code,
    {
    }
}

/// Window flags: a mask of the features of a window.
///
/// A flag is one bit of the mask. Flags can be OR'ed as `SW_MAIN|SW_ALPHA`.
#[derive(Clone, Copy, PartialEq, Eq, Structural, Debug)]
pub enum SCITER_CREATE_WINDOW_FLAGS {
    /// child window only, if this flag is set all other flags ignored.
    SW_CHILD,
    /// toplevel window, has titlebar.
    SW_TITLEBAR,
    /// has resizeable frame.
    SW_RESIZEABLE,
    /// is tool window.
    SW_TOOL,
    /// has minimize / maximize buttons.
    SW_CONTROLS,
    /// glassy window - "Acrylic" on Windows and "Vibrant" on macOS.
    SW_GLASSY,
    /// transparent window (e.g. `WS_EX_LAYERED` on Windows, macOS is supported too).
    SW_ALPHA,
    /// main window of the app, will terminate the app on close.
    SW_MAIN,
    /// the window is created as topmost window.
    SW_POPUP,
    /// make this window inspector ready.
    SW_ENABLE_DEBUG,
    /// it has its own script VM.
    SW_OWNS_VM,
    /// A mask of several flags, or of none.
    UNION(u32),
}

impl SCITER_CREATE_WINDOW_FLAGS {
    /// The number that the engine uses for this value.
    pub open spec fn spec_code(self) -> u32 {
        match self {
            SCITER_CREATE_WINDOW_FLAGS::SW_CHILD => 1,
            SCITER_CREATE_WINDOW_FLAGS::SW_TITLEBAR => 2,
            SCITER_CREATE_WINDOW_FLAGS::SW_RESIZEABLE => 4,
            SCITER_CREATE_WINDOW_FLAGS::SW_TOOL => 8,
            SCITER_CREATE_WINDOW_FLAGS::SW_CONTROLS => 16,
            SCITER_CREATE_WINDOW_FLAGS::SW_GLASSY => 32,
            SCITER_CREATE_WINDOW_FLAGS::SW_ALPHA => 64,
            SCITER_CREATE_WINDOW_FLAGS::SW_MAIN => 128,
            SCITER_CREATE_WINDOW_FLAGS::SW_POPUP => 256,
            SCITER_CREATE_WINDOW_FLAGS::SW_ENABLE_DEBUG => 512,
            SCITER_CREATE_WINDOW_FLAGS::SW_OWNS_VM => 1024,
            SCITER_CREATE_WINDOW_FLAGS::UNION(code) => code,
        }
    }

    /// Whether a number has a name among the variants.
    pub open spec fn is_named(code: u32) -> bool {
        code == 1
        || code == 2
        || code == 4
        || code == 8
        || code == 16
        || code == 32
        || code == 64
        || code == 128
        || code == 256
        || code == 512
        || code == 1024
    }

    /// The value that a number stands for.
    pub open spec fn spec_from_code(code: u32) -> SCITER_CREATE_WINDOW_FLAGS {
        if code == 1 {
            SCITER_CREATE_WINDOW_FLAGS::SW_CHILD
        } else if code == 2 {
            SCITER_CREATE_WINDOW_FLAGS::SW_TITLEBAR
        } else if code == 4 {
            SCITER_CREATE_WINDOW_FLAGS::SW_RESIZEABLE
        } else if code == 8 {
            SCITER_CREATE_WINDOW_FLAGS::SW_TOOL
        } else if code == 16 {
            SCITER_CREATE_WINDOW_FLAGS::SW_CONTROLS
        } else if code == 32 {
            SCITER_CREATE_WINDOW_FLAGS::SW_GLASSY
        } else if code == 64 {
            SCITER_CREATE_WINDOW_FLAGS::SW_ALPHA
        } else if code == 128 {
            SCITER_CREATE_WINDOW_FLAGS::SW_MAIN
        } else if code == 256 {
            SCITER_CREATE_WINDOW_FLAGS::SW_POPUP
        } else if code == 512 {
            SCITER_CREATE_WINDOW_FLAGS::SW_ENABLE_DEBUG
        } else if code == 1024 {
            SCITER_CREATE_WINDOW_FLAGS::SW_OWNS_VM
        } else {
            SCITER_CREATE_WINDOW_FLAGS::UNION(code)
        }
    }

    /// Whether the value is written in its one proper form: a number that
    /// has a name is written by its name.
    pub open spec fn wf(self) -> bool {
        match self {
            SCITER_CREATE_WINDOW_FLAGS::UNION(code) => !Self::is_named(code),
            _ => true,
        }
    }

    /// The number that the engine uses for this value.
    pub fn code(self) -> (code: u32)
        ensures
            code == self.spec_code(),
    {
        match self {
            SCITER_CREATE_WINDOW_FLAGS::SW_CHILD => 1,
            SCITER_CREATE_WINDOW_FLAGS::SW_TITLEBAR => 2,
            SCITER_CREATE_WINDOW_FLAGS::SW_RESIZEABLE => 4,
            SCITER_CREATE_WINDOW_FLAGS::SW_TOOL => 8,
            SCITER_CREATE_WINDOW_FLAGS::SW_CONTROLS => 16,
            SCITER_CREATE_WINDOW_FLAGS::SW_GLASSY => 32,
            SCITER_CREATE_WINDOW_FLAGS::SW_ALPHA => 64,
            SCITER_CREATE_WINDOW_FLAGS::SW_MAIN => 128,
            SCITER_CREATE_WINDOW_FLAGS::SW_POPUP => 256,
            SCITER_CREATE_WINDOW_FLAGS::SW_ENABLE_DEBUG => 512,
            SCITER_CREATE_WINDOW_FLAGS::SW_OWNS_VM => 1024,
            SCITER_CREATE_WINDOW_FLAGS::UNION(code) => code,
        }
    }

    /// Reads a number back into the value that it stands for.
    pub fn from_code(code: u32) -> (r: SCITER_CREATE_WINDOW_FLAGS)
        ensures
            r == Self::spec_from_code(code),
            r.wf(),
            r.spec_code() == code,
    {
        if code == 1 {
            SCITER_CREATE_WINDOW_FLAGS::SW_CHILD
        } else if code == 2 {
            SCITER_CREATE_WINDOW_FLAGS::SW_TITLEBAR
        } else if code == 4 {
            SCITER_CREATE_WINDOW_FLAGS::SW_RESIZEABLE
        } else if code == 8 {
            SCITER_CREATE_WINDOW_FLAGS::SW_TOOL
        } else if code == 16 {
            SCITER_CREATE_WINDOW_FLAGS::SW_CONTROLS
        } else if code == 32 {
            SCITER_CREATE_WINDOW_FLAGS::SW_GLASSY
        } else if code == 64 {
            SCITER_CREATE_WINDOW_FLAGS::SW_ALPHA
        } else if code == 128 {
            SCITER_CREATE_WINDOW_FLAGS::SW_MAIN
        } else if code == 256 {
            SCITER_CREATE_WINDOW_FLAGS::SW_POPUP
        } else if code == 512 {
            SCITER_CREATE_WINDOW_FLAGS::SW_ENABLE_DEBUG
        } else if code == 1024 {
            SCITER_CREATE_WINDOW_FLAGS::SW_OWNS_VM
        } else {
            SCITER_CREATE_WINDOW_FLAGS::UNION(code)
        }
    }

    /// Every number is read back into a value in proper form that has that
    /// number, and a value in proper form is read back from its own number.
    pub proof fn lemma_code_round_trip(v: SCITER_CREATE_WINDOW_FLAGS, code: u32)
        ensures
            Self::spec_from_code(code).spec_code() == code,
            Self::spec_from_code(code).wf(),
            v.wf() ==> Self::spec_from_code(v.spec_code()) == v,
    {
    }
}

impl Default for SCITER_CREATE_WINDOW_FLAGS {
    fn default() -> (r: SCITER_CREATE_WINDOW_FLAGS)
        ensures
            r == SCITER_CREATE_WINDOW_FLAGS::SW_CHILD,
    {
        SCITER_CREATE_WINDOW_FLAGS::SW_CHILD
    }
}

/// Flags can be OR'ed as `SW_MAIN|SW_ALPHA`.
impl std::ops::BitOr for SCITER_CREATE_WINDOW_FLAGS {
    type Output = SCITER_CREATE_WINDOW_FLAGS;

    fn bitor(self, rhs: SCITER_CREATE_WINDOW_FLAGS) -> (r: SCITER_CREATE_WINDOW_FLAGS)
        ensures
            r.spec_code() == self.spec_code() | rhs.spec_code(),
            r.wf(),
    {
        SCITER_CREATE_WINDOW_FLAGS::from_code(self.code() | rhs.code())
    }
}

impl vstd::std_specs::ops::BitOrSpecImpl for SCITER_CREATE_WINDOW_FLAGS {
    open spec fn obeys_bitor_spec() -> bool {
        true
    }

    open spec fn bitor_req(self, rhs: SCITER_CREATE_WINDOW_FLAGS) -> bool {
        true
    }

    open spec fn bitor_spec(self, rhs: SCITER_CREATE_WINDOW_FLAGS) -> SCITER_CREATE_WINDOW_FLAGS {
        SCITER_CREATE_WINDOW_FLAGS::spec_from_code(self.spec_code() | rhs.spec_code())
    }
}

impl SCITER_CREATE_WINDOW_FLAGS {
    /// Whether the mask holds a bit of `flag`.
    pub open spec fn spec_has(self, flag: SCITER_CREATE_WINDOW_FLAGS) -> bool {
        self.spec_code() & flag.spec_code() != 0
    }

    /// Whether the mask holds a bit of `flag`.
    pub fn has(self, flag: SCITER_CREATE_WINDOW_FLAGS) -> (r: bool)
        ensures
            r == self.spec_has(flag),
    {
        self.code() & flag.code() != 0
    }

    /// The mask without the bits of `flag`.
    pub fn without(self, flag: SCITER_CREATE_WINDOW_FLAGS) -> (r: SCITER_CREATE_WINDOW_FLAGS)
        ensures
            r.spec_code() == self.spec_code() & !flag.spec_code(),
            r.wf(),
    {
        SCITER_CREATE_WINDOW_FLAGS::from_code(self.code() & !flag.code())
    }
}

/// Codes of the notifications that the engine sends to the host.
#[derive(Clone, Copy, PartialEq, Eq, Structural, Debug)]
pub enum SCITER_NOTIFICATION {
    SC_LOAD_DATA,
    SC_DATA_LOADED,
    SC_ATTACH_BEHAVIOR,
    SC_ENGINE_DESTROYED,
    SC_POSTED_NOTIFICATION,
    SC_GRAPHICS_CRITICAL_FAILURE,
}

impl SCITER_NOTIFICATION {
    /// The number that the engine uses for this variant.
    pub open spec fn spec_code(self) -> int {
        match self {
            SCITER_NOTIFICATION::SC_LOAD_DATA => 1,
            SCITER_NOTIFICATION::SC_DATA_LOADED => 2,
            SCITER_NOTIFICATION::SC_ATTACH_BEHAVIOR => 4,
            SCITER_NOTIFICATION::SC_ENGINE_DESTROYED => 5,
            SCITER_NOTIFICATION::SC_POSTED_NOTIFICATION => 6,
            SCITER_NOTIFICATION::SC_GRAPHICS_CRITICAL_FAILURE => 7,
        }
    }

    /// The variant that a number stands for, if there is one.
    pub open spec fn spec_from_code(code: int) -> Option<SCITER_NOTIFICATION> {
        if code == 1 {
            Some(SCITER_NOTIFICATION::SC_LOAD_DATA)
        } else if code == 2 {
            Some(SCITER_NOTIFICATION::SC_DATA_LOADED)
        } else if code == 4 {
            Some(SCITER_NOTIFICATION::SC_ATTACH_BEHAVIOR)
        } else if code == 5 {
            Some(SCITER_NOTIFICATION::SC_ENGINE_DESTROYED)
        } else if code == 6 {
            Some(SCITER_NOTIFICATION::SC_POSTED_NOTIFICATION)
        } else if code == 7 {
            Some(SCITER_NOTIFICATION::SC_GRAPHICS_CRITICAL_FAILURE)
        } else {
            None
        }
    }

    /// The number that the engine uses for this variant.
    pub fn code(self) -> (code: u32)
        ensures
            code == self.spec_code(),
    {
        match self {
            SCITER_NOTIFICATION::SC_LOAD_DATA => 1,
            SCITER_NOTIFICATION::SC_DATA_LOADED => 2,
            SCITER_NOTIFICATION::SC_ATTACH_BEHAVIOR => 4,
            SCITER_NOTIFICATION::SC_ENGINE_DESTROYED => 5,
            SCITER_NOTIFICATION::SC_POSTED_NOTIFICATION => 6,
            SCITER_NOTIFICATION::SC_GRAPHICS_CRITICAL_FAILURE => 7,
        }
    }

    /// Reads a number back into its variant; `None` for a number that stands for none.
    pub fn from_code(code: u32) -> (r: Option<SCITER_NOTIFICATION>)
        ensures
            r == Self::spec_from_code(code as int),
    {
        if code == 1 {
            Some(SCITER_NOTIFICATION::SC_LOAD_DATA)
        } else if code == 2 {
            Some(SCITER_NOTIFICATION::SC_DATA_LOADED)
        } else if code == 4 {
            Some(SCITER_NOTIFICATION::SC_ATTACH_BEHAVIOR)
        } else if code == 5 {
            Some(SCITER_NOTIFICATION::SC_ENGINE_DESTROYED)
        } else if code == 6 {
            Some(SCITER_NOTIFICATION::SC_POSTED_NOTIFICATION)
        } else if code == 7 {
            Some(SCITER_NOTIFICATION::SC_GRAPHICS_CRITICAL_FAILURE)
        } else {
            None
        }
    }

    /// Each variant is read back from its own code, and a number that is read back
    /// into a variant is that variant's code.
    pub proof fn lemma_code_round_trip(v: SCITER_NOTIFICATION, code: int)
        ensures
            Self::spec_from_code(v.spec_code()) == Some(v),
            Self::spec_from_code(code) == Some(v) ==> v.spec_code() == code,
    {
    }
}

/// Resource type identifiers.
#[derive(Clone, Copy, PartialEq, Eq, Structural, Debug)]
pub enum SCITER_RESOURCE_TYPE {
    RT_DATA_HTML,
    RT_DATA_IMAGE,
    RT_DATA_STYLE,
    RT_DATA_CURSOR,
    RT_DATA_SCRIPT,
    RT_DATA_RAW,
    RT_DATA_FONT,
    /// wav bytes
    RT_DATA_SOUND,
}

impl SCITER_RESOURCE_TYPE {
    /// The number that the engine uses for this variant.
    pub open spec fn spec_code(self) -> int {
        match self {
            SCITER_RESOURCE_TYPE::RT_DATA_HTML => 0,
            SCITER_RESOURCE_TYPE::RT_DATA_IMAGE => 1,
            SCITER_RESOURCE_TYPE::RT_DATA_STYLE => 2,
            SCITER_RESOURCE_TYPE::RT_DATA_CURSOR => 3,
            SCITER_RESOURCE_TYPE::RT_DATA_SCRIPT => 4,
            SCITER_RESOURCE_TYPE::RT_DATA_RAW => 5,
            SCITER_RESOURCE_TYPE::RT_DATA_FONT => 6,
            SCITER_RESOURCE_TYPE::RT_DATA_SOUND => 7,
        }
    }

    /// The variant that a number stands for, if there is one.
    pub open spec fn spec_from_code(code: int) -> Option<SCITER_RESOURCE_TYPE> {
        if code == 0 {
            Some(SCITER_RESOURCE_TYPE::RT_DATA_HTML)
        } else if code == 1 {
            Some(SCITER_RESOURCE_TYPE::RT_DATA_IMAGE)
        } else if code == 2 {
            Some(SCITER_RESOURCE_TYPE::RT_DATA_STYLE)
        } else if code == 3 {
            Some(SCITER_RESOURCE_TYPE::RT_DATA_CURSOR)
        } else if code == 4 {
            Some(SCITER_RESOURCE_TYPE::RT_DATA_SCRIPT)
        } else if code == 5 {
            Some(SCITER_RESOURCE_TYPE::RT_DATA_RAW)
        } else if code == 6 {
            Some(SCITER_RESOURCE_TYPE::RT_DATA_FONT)
        } else if code == 7 {
            Some(SCITER_RESOURCE_TYPE::RT_DATA_SOUND)
        } else {
            None
        }
    }

    /// The number that the engine uses for this variant.
    pub fn code(self) -> (code: u32)
        ensures
            code == self.spec_code(),
    {
        match self {
            SCITER_RESOURCE_TYPE::RT_DATA_HTML => 0,
            SCITER_RESOURCE_TYPE::RT_DATA_IMAGE => 1,
            SCITER_RESOURCE_TYPE::RT_DATA_STYLE => 2,
            SCITER_RESOURCE_TYPE::RT_DATA_CURSOR => 3,
            SCITER_RESOURCE_TYPE::RT_DATA_SCRIPT => 4,
            SCITER_RESOURCE_TYPE::RT_DATA_RAW => 5,
            SCITER_RESOURCE_TYPE::RT_DATA_FONT => 6,
            SCITER_RESOURCE_TYPE::RT_DATA_SOUND => 7,
        }
    }

    /// Reads a number back into its variant; `None` for a number that stands for none.
    pub fn from_code(code: u32) -> (r: Option<SCITER_RESOURCE_TYPE>)
        ensures
            r == Self::spec_from_code(code as int),
    {
        if code == 0 {
            Some(SCITER_RESOURCE_TYPE::RT_DATA_HTML)
        } else if code == 1 {
            Some(SCITER_RESOURCE_TYPE::RT_DATA_IMAGE)
        } else if code == 2 {
            Some(SCITER_RESOURCE_TYPE::RT_DATA_STYLE)
        } else if code == 3 {
            Some(SCITER_RESOURCE_TYPE::RT_DATA_CURSOR)
        } else if code == 4 {
            Some(SCITER_RESOURCE_TYPE::RT_DATA_SCRIPT)
        } else if code == 5 {
            Some(SCITER_RESOURCE_TYPE::RT_DATA_RAW)
        } else if code == 6 {
            Some(SCITER_RESOURCE_TYPE::RT_DATA_FONT)
        } else if code == 7 {
            Some(SCITER_RESOURCE_TYPE::RT_DATA_SOUND)
        } else {
            None
        }
    }

    /// Each variant is read back from its own code, and a number that is read back
    /// into a variant is that variant's code.
    pub proof fn lemma_code_round_trip(v: SCITER_RESOURCE_TYPE, code: int)
        ensures
            Self::spec_from_code(v.spec_code()) == Some(v),
            Self::spec_from_code(code) == Some(v) ==> v.spec_code() == code,
    {
    }
}

/// Debug output categories.
#[derive(Clone, Copy, PartialEq, Eq, Structural, Debug)]
pub enum OUTPUT_SUBSYTEMS {
    /// html parser & runtime
    DOM,
    /// csss! parser & runtime
    CSSS,
    /// css parser
    CSS,
    /// TIS parser & runtime
    TIS,
}

impl OUTPUT_SUBSYTEMS {
    /// The number that the engine uses for this variant.
    pub open spec fn spec_code(self) -> int {
        match self {
            OUTPUT_SUBSYTEMS::DOM => 0,
            OUTPUT_SUBSYTEMS::CSSS => 1,
            OUTPUT_SUBSYTEMS::CSS => 2,
            OUTPUT_SUBSYTEMS::TIS => 3,
        }
    }

    /// The variant that a number stands for, if there is one.
    pub open spec fn spec_from_code(code: int) -> Option<OUTPUT_SUBSYTEMS> {
        if code == 0 {
            Some(OUTPUT_SUBSYTEMS::DOM)
        } else if code == 1 {
            Some(OUTPUT_SUBSYTEMS::CSSS)
        } else if code == 2 {
            Some(OUTPUT_SUBSYTEMS::CSS)
        } else if code == 3 {
            Some(OUTPUT_SUBSYTEMS::TIS)
        } else {
            None
        }
    }

    /// The number that the engine uses for this variant.
    pub fn code(self) -> (code: u32)
        ensures
            code == self.spec_code(),
    {
        match self {
            OUTPUT_SUBSYTEMS::DOM => 0,
            OUTPUT_SUBSYTEMS::CSSS => 1,
            OUTPUT_SUBSYTEMS::CSS => 2,
            OUTPUT_SUBSYTEMS::TIS => 3,
        }
    }

    /// Reads a number back into its variant; `None` for a number that stands for none.
    pub fn from_code(code: u32) -> (r: Option<OUTPUT_SUBSYTEMS>)
        ensures
            r == Self::spec_from_code(code as int),
    {
        if code == 0 {
            Some(OUTPUT_SUBSYTEMS::DOM)
        } else if code == 1 {
            Some(OUTPUT_SUBSYTEMS::CSSS)
        } else if code == 2 {
            Some(OUTPUT_SUBSYTEMS::CSS)
        } else if code == 3 {
            Some(OUTPUT_SUBSYTEMS::TIS)
        } else {
            None
        }
    }

    /// Each variant is read back from its own code, and a number that is read back
    /// into a variant is that variant's code.
    pub proof fn lemma_code_round_trip(v: OUTPUT_SUBSYTEMS, code: int)
        ensures
            Self::spec_from_code(v.spec_code()) == Some(v),
            Self::spec_from_code(code) == Some(v) ==> v.spec_code() == code,
    {
    }
}

/// Debug output severity.
#[derive(Clone, Copy, PartialEq, Eq, Structural, Debug)]
pub enum OUTPUT_SEVERITY {
    INFO,
    WARNING,
    ERROR,
}

impl OUTPUT_SEVERITY {
    /// The number that the engine uses for this variant.
    pub open spec fn spec_code(self) -> int {
        match self {
            OUTPUT_SEVERITY::INFO => 0,
            OUTPUT_SEVERITY::WARNING => 1,
            OUTPUT_SEVERITY::ERROR => 2,
        }
    }

    /// The variant that a number stands for, if there is one.
    pub open spec fn spec_from_code(code: int) -> Option<OUTPUT_SEVERITY> {
        if code == 0 {
            Some(OUTPUT_SEVERITY::INFO)
        } else if code == 1 {
            Some(OUTPUT_SEVERITY::WARNING)
        } else if code == 2 {
            Some(OUTPUT_SEVERITY::ERROR)
        } else {
            None
        }
    }

    /// The number that the engine uses for this variant.
    pub fn code(self) -> (code: u32)
        ensures
            code == self.spec_code(),
    {
        match self {
            OUTPUT_SEVERITY::INFO => 0,
            OUTPUT_SEVERITY::WARNING => 1,
            OUTPUT_SEVERITY::ERROR => 2,
        }
    }

    /// Reads a number back into its variant; `None` for a number that stands for none.
    pub fn from_code(code: u32) -> (r: Option<OUTPUT_SEVERITY>)
        ensures
            r == Self::spec_from_code(code as int),
    {
        if code == 0 {
            Some(OUTPUT_SEVERITY::INFO)
        } else if code == 1 {
            Some(OUTPUT_SEVERITY::WARNING)
        } else if code == 2 {
            Some(OUTPUT_SEVERITY::ERROR)
        } else {
            None
        }
    }

    /// Each variant is read back from its own code, and a number that is read back
    /// into a variant is that variant's code.
    pub proof fn lemma_code_round_trip(v: OUTPUT_SEVERITY, code: int)
        ensures
            Self::spec_from_code(v.spec_code()) == Some(v),
            Self::spec_from_code(code) == Some(v) ==> v.spec_code() == code,
    {
    }
}

/// Notifies that the engine is about to download a referred resource.
pub struct SCN_LOAD_DATA {
    /// `SC_LOAD_DATA` here.
    pub code: u32,
    /// `HWINDOW` of the window this callback was attached to.
    pub hwnd: HWINDOW,
    /// [in] Fully qualified uri, for example "http://server/folder/file.ext".
    pub uri: String,
    /// [in,out] loaded data to return. If data exists in the cache then this field holds it.
    pub outData: Vec<u8>,
    /// [in,out] loaded data size to return.
    pub outDataSize: u32,
    /// [in] resource type category
    pub dataType: SCITER_RESOURCE_TYPE,
    /// [in] request handle that can be used with the request API.
    pub request_id: HREQUEST,
    /// [in] destination element for request.
    pub principal: HELEMENT,
    /// [in] source element for request.
    pub initiator: HELEMENT,
}

/// This notification indicates that external data (for example image) download process completed.
pub struct SCN_DATA_LOADED {
    /// `SC_DATA_LOADED` here.
    pub code: u32,
    /// `HWINDOW` of the window this callback was attached to.
    pub hwnd: HWINDOW,
    /// [in] fully qualified uri, for example "http://server/folder/file.ext".
    pub uri: String,
    /// [in] loaded data.
    pub data: Vec<u8>,
    /// [in] loaded data size (in bytes).
    pub dataSize: u32,
    /// [in] resource type category
    pub dataType: u32,
    /// Download status code:
    ///
    /// * status = 0 and `dataSize == 0` - unknown error.
    /// * status = 100..505 - http response status, note: 200 - OK!
    /// * status > 12000 - wininet error code
    pub status: u32,
}

/// This notification is sent on parsing the document and while processing elements
/// having non empty `behavior: ` style attribute value.
pub struct SCN_ATTACH_BEHAVIOR {
    /// `SC_ATTACH_BEHAVIOR` here.
    pub code: u32,
    /// `HWINDOW` of the window this callback was attached to.
    pub hwnd: HWINDOW,
    /// [in] target DOM element handle
    pub element: HELEMENT,
    /// [in] string that appears as value of CSS `behavior: ` attribute.
    pub name: String,
    /// [out] the event procedure of the behavior, by its address.
    pub elementProc: usize,
    /// [out] tag value, passed as is into the event procedure.
    pub elementTag: usize,
}

/// The head that every notification starts with.
#[derive(Clone, Copy, PartialEq, Eq, Structural, Debug)]
pub struct SCITER_CALLBACK_NOTIFICATION {
    pub code: u32,
    pub hwnd: HWINDOW,
}

/// Parameters of a method call on an element.
#[derive(Clone, Copy, PartialEq, Eq, Structural, Debug)]
pub struct METHOD_PARAMS {
    pub methodID: u32,
}

/// A name and a value of a request.
pub struct REQUEST_PARAM {
    pub name: String,
    pub value: String,
}

} // verus!
