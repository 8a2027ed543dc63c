//! Bindings core for an embedded HTML/CSS/script engine.
//!
//! The engine is an embeddable HTML/CSS/script engine that renders the UI of
//! desktop applications. It exposes a dynamic value type, a tree of UI
//! elements, and a protocol of callbacks for events and notifications.
//!
//! This library is the part of the bindings that decides and computes: the
//! dynamic [`Value`] with its conversions, the model of events, and the
//! dispatch of the engine's callbacks to [`EventHandler`]s and
//! [`HostHandler`]s. It calls nothing of the engine itself. Where the engine
//! is to be called, a function of this library gives what the engine is to be
//! handed, and another takes what the engine answered.
//!
//! * [Window](window/index.html) creation
//! * [Behaviors](dom/event/index.html) and event handling
//! * [DOM](dom/index.html) access methods
//! * The [Value](value/index.html) interface

#![allow(non_camel_case_types, non_snake_case)]

pub mod dom;
pub mod error;
pub mod eventhandler;
pub mod host;
pub mod ieee;
pub mod macros;
pub mod om;
pub mod platform;
pub mod scbehavior;
pub mod scdef;
pub mod scdom;
pub mod scgraphics;
pub mod schandler;
pub mod scmsg;
pub mod screquest;
pub mod sctiscript;
pub mod sctypes;
pub mod scvalue;
pub mod text;
pub mod tiscript;
pub mod value;
pub mod window;
pub mod windowless;

pub use crate::dom::event::EventHandler;
pub use crate::dom::Element;
pub use crate::host::{Host, HostHandler};
pub use crate::scdef::{GFX_LAYER, SCITER_RT_OPTIONS};
pub use crate::scdom::HELEMENT;
pub use crate::value::{FromValue, Value};
pub use crate::window::Window;

use crate::text::{append_decimal, decimal};
use vstd::prelude::*;

verus! {

/// The four parts of the engine's version, from the two numbers in which the
/// engine reports it: each number holds two parts of 16 bits.
pub open spec fn spec_version_parts(v1: u32, v2: u32) -> (u32, u32, u32, u32) {
    (v1 >> 16, v1 & 0xFFFF, v2 >> 16, v2 & 0xFFFF)
}

/// Engine version number (e.g. `0x03030200`): the four parts of the version,
/// the first in the highest byte.
pub open spec fn spec_version_num(v1: u32, v2: u32) -> u32 {
    ((v1 >> 16) << 24) | ((v1 & 0xFFFF) << 16) | ((v2 >> 16) << 8) | (v2 & 0xFFFF)
}

/// Engine version number (e.g. `0x03030200`), from the two numbers in which
/// the engine reports its version.
pub fn version_num(v1: u32, v2: u32) -> (num: u32)
    ensures
        num == spec_version_num(v1, v2),
{
    ((v1 >> 16) << 24) | ((v1 & 0xFFFF) << 16) | ((v2 >> 16) << 8) | (v2 & 0xFFFF)
}

/// Where each part of the version fits into a byte, the version number holds
/// the four parts in its four bytes, the first part in the highest.
pub proof fn lemma_version_num_bytes(v1: u32, v2: u32)
    requires
        v1 >> 16 <= 0xFF,
        v1 & 0xFFFF <= 0xFF,
        v2 >> 16 <= 0xFF,
        v2 & 0xFFFF <= 0xFF,
    ensures
        spec_version_num(v1, v2) >> 24 == v1 >> 16,
        (spec_version_num(v1, v2) >> 16) & 0xFF == v1 & 0xFFFF,
        (spec_version_num(v1, v2) >> 8) & 0xFF == v2 >> 16,
        spec_version_num(v1, v2) & 0xFF == v2 & 0xFFFF,
{
    let a = v1 >> 16;
    let b = v1 & 0xFFFF;
    let c = v2 >> 16;
    let d = v2 & 0xFFFF;
    assert(a <= 0xFF && b <= 0xFF && c <= 0xFF && d <= 0xFF ==> ((a << 24) | (b << 16) | (c << 8) | d)
        >> 24 == a && (((a << 24) | (b << 16) | (c << 8) | d) >> 16) & 0xFF == b && (((a << 24) | (b
        << 16) | (c << 8) | d) >> 8) & 0xFF == c && ((a << 24) | (b << 16) | (c << 8) | d) & 0xFF
        == d) by (bit_vector);
}

/// Engine version string (e.g. "`3.3.2.0`"): the four parts of the version in
/// decimal digits, with dots between them.
pub open spec fn spec_version(v1: u32, v2: u32) -> Seq<char> {
    let parts = spec_version_parts(v1, v2);
    decimal(parts.0 as nat) + "."@ + decimal(parts.1 as nat) + "."@ + decimal(parts.2 as nat) + "."@
        + decimal(parts.3 as nat)
}

/// Engine version string (e.g. "`3.3.2.0`"), from the two numbers in which the
/// engine reports its version.
pub fn version(v1: u32, v2: u32) -> (version: String)
    ensures
        version@ == spec_version(v1, v2),
{
    let mut version = String::new();
    append_decimal(&mut version, (v1 >> 16) as u64);
    version.append(".");
    append_decimal(&mut version, (v1 & 0xFFFF) as u64);
    version.append(".");
    append_decimal(&mut version, (v2 >> 16) as u64);
    version.append(".");
    append_decimal(&mut version, (v2 & 0xFFFF) as u64);
    assert(version@ =~= spec_version(v1, v2));
    version
}

/// Various global engine options.
#[derive(Clone, Copy, Debug)]
pub enum RuntimeOptions<'a> {
    /// global; value: milliseconds, connection timeout of http client.
    ConnectionTimeout(u32),
    /// global; value: 0 - drop connection, 1 - use builtin dialog, 2 - accept connection silently.
    OnHttpsError(u8),
    /// global; value = json - GPU black list.
    GpuBlacklist(&'a str),
    /// global or per-window; value - combination of [SCRIPT_RUNTIME_FEATURES](enum.SCRIPT_RUNTIME_FEATURES.html) flags.
    ScriptFeatures(u8),
    /// global (must be called before any window creation); value - [GFX_LAYER](enum.GFX_LAYER.html).
    GfxLayer(GFX_LAYER),
    /// global or per-window; value - TRUE/FALSE
    DebugMode(bool),
    /// global; value - BOOL, TRUE - the engine will use "unisex" theme that is common for all platforms.
    /// That UX theme is not using OS primitives for rendering input elements.
    /// Use it if you want exactly the same (modulo fonts) look-n-feel on all platforms.
    UxTheming(bool),
}

/// The value that an option of the engine is set to: a number, or a text that
/// the engine is handed by its address.
#[derive(Clone, Copy, Debug)]
pub enum Setting<'a> {
    /// A number.
    Number(usize),
    /// A text.
    Text(&'a str),
}

/// The option of the engine that stands for a global option, and the value
/// that it is set to.
pub open spec fn spec_setting(options: RuntimeOptions) -> (SCITER_RT_OPTIONS, Setting) {
    match options {
        RuntimeOptions::ConnectionTimeout(ms) => (
            SCITER_RT_OPTIONS::SCITER_CONNECTION_TIMEOUT,
            Setting::Number(ms as usize),
        ),
        RuntimeOptions::OnHttpsError(behavior) => (
            SCITER_RT_OPTIONS::SCITER_HTTPS_ERROR,
            Setting::Number(behavior as usize),
        ),
        RuntimeOptions::GpuBlacklist(json) => (SCITER_RT_OPTIONS::SCITER_SET_GPU_BLACKLIST, Setting::Text(json)),
        RuntimeOptions::ScriptFeatures(mask) => (
            SCITER_RT_OPTIONS::SCITER_SET_SCRIPT_RUNTIME_FEATURES,
            Setting::Number(mask as usize),
        ),
        RuntimeOptions::GfxLayer(backend) => (
            SCITER_RT_OPTIONS::SCITER_SET_GFX_LAYER,
            Setting::Number(backend.spec_code() as usize),
        ),
        RuntimeOptions::DebugMode(enable) => (
            SCITER_RT_OPTIONS::SCITER_SET_DEBUG_MODE,
            Setting::Number(crate::window::spec_flag_value(enable)),
        ),
        RuntimeOptions::UxTheming(enable) => (
            SCITER_RT_OPTIONS::SCITER_SET_UX_THEMING,
            Setting::Number(crate::window::spec_flag_value(enable)),
        ),
    }
}

/// Set various engine global options, see the [`RuntimeOptions`](enum.RuntimeOptions.html):
/// the option of the engine that is to be set, and the value for it.
pub fn set_options<'a>(options: RuntimeOptions<'a>) -> (r: (SCITER_RT_OPTIONS, Setting<'a>))
    ensures
        r == spec_setting(options),
{
    match options {
        RuntimeOptions::ConnectionTimeout(ms) => (
            SCITER_RT_OPTIONS::SCITER_CONNECTION_TIMEOUT,
            Setting::Number(ms as usize),
        ),
        RuntimeOptions::OnHttpsError(behavior) => (SCITER_RT_OPTIONS::SCITER_HTTPS_ERROR, Setting::Number(behavior as usize)),
        RuntimeOptions::GpuBlacklist(json) => (SCITER_RT_OPTIONS::SCITER_SET_GPU_BLACKLIST, Setting::Text(json)),
        RuntimeOptions::ScriptFeatures(mask) => (
            SCITER_RT_OPTIONS::SCITER_SET_SCRIPT_RUNTIME_FEATURES,
            Setting::Number(mask as usize),
        ),
        RuntimeOptions::GfxLayer(backend) => (SCITER_RT_OPTIONS::SCITER_SET_GFX_LAYER, Setting::Number(backend.code() as usize)),
        RuntimeOptions::DebugMode(enable) => (
            SCITER_RT_OPTIONS::SCITER_SET_DEBUG_MODE,
            Setting::Number(crate::window::flag_value(enable)),
        ),
        RuntimeOptions::UxTheming(enable) => (
            SCITER_RT_OPTIONS::SCITER_SET_UX_THEMING,
            Setting::Number(crate::window::flag_value(enable)),
        ),
    }
}

/// Set various engine global options, see the [`SCITER_RT_OPTIONS`](enum.SCITER_RT_OPTIONS.html):
/// the number of the option that is to be set, and the value for it.
pub fn set_option(option: SCITER_RT_OPTIONS, value: usize) -> (r: (u32, usize))
    ensures
        r.0 == option.spec_code(),
        r.1 == value,
{
    (option.code(), value)
}

} // verus!
