//! Host application helpers: the notifications that the engine sends to its
//! host, and what is answered to them.

#![allow(non_camel_case_types, non_snake_case)]

use crate::scdef::{
    LOAD_RESULT, OUTPUT_SEVERITY, OUTPUT_SUBSYTEMS, SCITER_NOTIFICATION, SCN_ATTACH_BEHAVIOR,
    SCN_DATA_LOADED, SCN_LOAD_DATA,
};
use crate::sctypes::HWINDOW;
use vstd::prelude::*;

verus! {

/// A specialized `Result` type for host operations.
pub type Result<T> = std::result::Result<T, ()>;

/// The result of an operation of the engine that answers with a boolean:
/// zero is failure, any other number success.
pub fn ok_or(ok: u32) -> (r: Result<()>)
    ensures
        r is Ok == (ok != 0),
{
    if ok != 0 {
        Ok(())
    } else {
        Err(())
    }
}

/// The result of an evaluation or of a call of a script function: the value
/// that came back is the result where the engine reports success, and the
/// error of the script where it does not.
pub fn ok_or_value<T>(ok: u32, rv: T) -> (r: std::result::Result<T, T>)
    ensures
        ok != 0 ==> r == Ok::<T, T>(rv),
        ok == 0 ==> r == Err::<T, T>(rv),
{
    if ok != 0 {
        Ok(rv)
    } else {
        Err(rv)
    }
}

/// Notification handler of the host.
///
/// ## Resource handling and custom resource loader
///
/// HTML loaded into the engine may contain external resources: CSS, images,
/// fonts, cursors and scripts. To get any of such resources the engine will
/// first send `on_data_load(SCN_LOAD_DATA)` notification to your application.
///
/// Your application can provide your own data for such resources or delegate
/// resource loading to built-in HTTP client and file loader or discard loading
/// at all.
///
/// For all methods a default implementation is provided.
pub trait HostHandler {
    /// Notifies that the engine is about to download a referred resource.
    ///
    /// A handler that does not say otherwise leaves the loading to the engine:
    /// it answers `LOAD_DEFAULT`, provides no data, and is left as it is.
    fn on_data_load(&mut self, pnm: &mut SCN_LOAD_DATA) -> (r: LOAD_RESULT) where Self: Sized
        default_ensures
            r == LOAD_RESULT::LOAD_DEFAULT,
            *final(pnm) == *old(pnm),
            *final(self) == *old(self),
    {
        LOAD_RESULT::LOAD_DEFAULT
    }

    /// This notification indicates that external data (for example image)
    /// download process completed.
    ///
    /// A handler that does not say otherwise is left as it is.
    fn on_data_loaded(&mut self, pnm: &SCN_DATA_LOADED) where Self: Sized
        default_ensures
            *final(self) == *old(self),
    {
    }

    /// This notification is sent on parsing the document and while processing
    /// elements having non empty `style.behavior` attribute value.
    ///
    /// A handler that does not say otherwise provides no behavior: it answers
    /// `false`, leaves the request as it came, and is left as it is.
    fn on_attach_behavior(&mut self, pnm: &mut SCN_ATTACH_BEHAVIOR) -> (r: bool) where Self: Sized
        default_ensures
            !r,
            *final(pnm) == *old(pnm),
            *final(self) == *old(self),
    {
        false
    }

    /// This notification is sent when instance of the engine is destroyed.
    ///
    /// A handler that does not say otherwise is left as it is.
    fn on_engine_destroyed(&mut self) where Self: Sized
        default_ensures
            *final(self) == *old(self),
    {
    }

    /// This notification is sent when the engine encounters critical rendering
    /// error: e.g. DirectX gfx driver error. Most probably bad gfx drivers.
    ///
    /// A handler that does not say otherwise is left as it is.
    fn on_graphics_critical_failure(&mut self) where Self: Sized
        default_ensures
            *final(self) == *old(self),
    {
    }

    /// This output function will be used for reporting problems found while
    /// loading html and css documents.
    ///
    /// A handler that does not say otherwise is left as it is.
    fn on_debug_output(&mut self, subsystem: OUTPUT_SUBSYTEMS, severity: OUTPUT_SEVERITY, message: &str) where Self: Sized
        default_ensures
            *final(self) == *old(self),
    {
    }
}

/// A notification of the engine with the data that comes with it.
pub enum HostNotification {
    /// The engine is about to download a resource.
    LoadData(SCN_LOAD_DATA),
    /// A download is completed.
    DataLoaded(SCN_DATA_LOADED),
    /// An element asks for a behavior.
    AttachBehavior(SCN_ATTACH_BEHAVIOR),
    /// The instance of the engine is destroyed.
    EngineDestroyed,
    /// The engine met a critical rendering error.
    GraphicsCriticalFailure,
    /// A notification that this library passes over, by its code.
    Other(u32),
}

impl HostNotification {
    /// The code of the notification.
    pub open spec fn spec_code(self) -> int {
        match self {
            HostNotification::LoadData(_) => SCITER_NOTIFICATION::SC_LOAD_DATA.spec_code(),
            HostNotification::DataLoaded(_) => SCITER_NOTIFICATION::SC_DATA_LOADED.spec_code(),
            HostNotification::AttachBehavior(_) => SCITER_NOTIFICATION::SC_ATTACH_BEHAVIOR.spec_code(),
            HostNotification::EngineDestroyed => SCITER_NOTIFICATION::SC_ENGINE_DESTROYED.spec_code(),
            HostNotification::GraphicsCriticalFailure => SCITER_NOTIFICATION::SC_GRAPHICS_CRITICAL_FAILURE.spec_code(),
            HostNotification::Other(code) => code as int,
        }
    }

    /// The code of the notification.
    pub fn code(&self) -> (code: u32)
        ensures
            code == self.spec_code(),
    {
        match self {
            HostNotification::LoadData(_) => SCITER_NOTIFICATION::SC_LOAD_DATA.code(),
            HostNotification::DataLoaded(_) => SCITER_NOTIFICATION::SC_DATA_LOADED.code(),
            HostNotification::AttachBehavior(_) => SCITER_NOTIFICATION::SC_ATTACH_BEHAVIOR.code(),
            HostNotification::EngineDestroyed => SCITER_NOTIFICATION::SC_ENGINE_DESTROYED.code(),
            HostNotification::GraphicsCriticalFailure => SCITER_NOTIFICATION::SC_GRAPHICS_CRITICAL_FAILURE.code(),
            HostNotification::Other(code) => *code,
        }
    }
}

/// What the engine is answered after a request to load data: the code of the
/// handler's answer.
pub fn load_answer(re: LOAD_RESULT) -> (r: u32)
    ensures
        r == re.spec_code(),
{
    re.code()
}

/// What the engine is answered after a request for a behavior: 1 where the
/// handler provided one, 0 where it did not.
pub fn attach_answer(re: bool) -> (r: u32)
    ensures
        r == if re { 1u32 } else { 0u32 },
{
    if re {
        1
    } else {
        0
    }
}

/// Notification handler of the engine: hands a notification to the method of
/// the host's handler that is there for it, and gives the number that the
/// engine is answered.
///
/// A request to load data is answered with the code of what the handler
/// decided, a request for a behavior with 1 or 0, and everything else with 0.
/// A notification without data of its own is left as it is.
///
/// - With a request to load data the handler's `on_data_load` is called; the
///   notification holds afterwards what the handler made of the request, and
///   the answer is [`load_answer`] of the handler's.
/// - With a completed download the handler's `on_data_loaded` is called.
/// - With a request for a behavior the handler's `on_attach_behavior` is
///   called; the notification holds afterwards what the handler made of the
///   request, and the answer is [`attach_answer`] of the handler's.
/// - With the end of the engine the handler's `on_engine_destroyed` is called,
///   with a critical failure of the graphics its
///   `on_graphics_critical_failure`.
/// - With any other notification the handler is not called at all.
pub fn _on_handle_notification<T: HostHandler>(me: &mut T, nm: &mut HostNotification) -> (r: u32)
    ensures
        (*old(nm)) is LoadData ==> (*final(nm)) is LoadData && r <= 3,
        (*old(nm)) is AttachBehavior ==> (*final(nm)) is AttachBehavior && r <= 1,
        !((*old(nm)) is LoadData) && !((*old(nm)) is AttachBehavior) ==> r == 0 && *final(nm) == *old(nm),
        (*old(nm)) matches HostNotification::LoadData(p) ==> exists|
            m: &mut T,
            q: &mut SCN_LOAD_DATA,
            re: LOAD_RESULT,
        |
            mut_ref_current(m) == *old(me) && mut_ref_future(m) == *final(me) && mut_ref_current(q) == p
                && *final(nm) == HostNotification::LoadData(mut_ref_future(q)) && #[trigger] call_ensures(
                T::on_data_load,
                (m, q),
                re,
            ) && r == re.spec_code(),
        (*old(nm)) matches HostNotification::DataLoaded(p) ==> exists|m: &mut T|
            mut_ref_current(m) == *old(me) && mut_ref_future(m) == *final(me) && #[trigger] call_ensures(
                T::on_data_loaded,
                (m, &p),
                (),
            ),
        (*old(nm)) matches HostNotification::AttachBehavior(p) ==> exists|
            m: &mut T,
            q: &mut SCN_ATTACH_BEHAVIOR,
            re: bool,
        |
            mut_ref_current(m) == *old(me) && mut_ref_future(m) == *final(me) && mut_ref_current(q) == p
                && *final(nm) == HostNotification::AttachBehavior(mut_ref_future(q))
                && #[trigger] call_ensures(T::on_attach_behavior, (m, q), re) && r == if re {
                1u32
            } else {
                0u32
            },
        (*old(nm)) is EngineDestroyed ==> exists|m: &mut T|
            mut_ref_current(m) == *old(me) && mut_ref_future(m) == *final(me) && #[trigger] call_ensures(
                T::on_engine_destroyed,
                (m,),
                (),
            ),
        (*old(nm)) is GraphicsCriticalFailure ==> exists|m: &mut T|
            mut_ref_current(m) == *old(me) && mut_ref_future(m) == *final(me) && #[trigger] call_ensures(
                T::on_graphics_critical_failure,
                (m,),
                (),
            ),
        (*old(nm)) is Other ==> *final(me) == *old(me),
{
    let mut taken = HostNotification::Other(0);
    std::mem::swap(nm, &mut taken);
    match taken {
        HostNotification::LoadData(scnm) => {
            let mut scnm = scnm;
            let re = me.on_data_load(&mut scnm);
            *nm = HostNotification::LoadData(scnm);
            load_answer(re)
        },
        HostNotification::DataLoaded(scnm) => {
            me.on_data_loaded(&scnm);
            *nm = HostNotification::DataLoaded(scnm);
            0
        },
        HostNotification::AttachBehavior(scnm) => {
            let mut scnm = scnm;
            let re = me.on_attach_behavior(&mut scnm);
            *nm = HostNotification::AttachBehavior(scnm);
            attach_answer(re)
        },
        HostNotification::EngineDestroyed => {
            me.on_engine_destroyed();
            *nm = HostNotification::EngineDestroyed;
            0
        },
        HostNotification::GraphicsCriticalFailure => {
            me.on_graphics_critical_failure();
            *nm = HostNotification::GraphicsCriticalFailure;
            0
        },
        HostNotification::Other(code) => {
            *nm = HostNotification::Other(code);
            0
        },
    }
}

/// Debug output handler of the engine: hands a message to the host's handler.
/// The handler's `on_debug_output` is called with the subsystem, the severity
/// and the message as they came.
pub fn _on_debug_notification<T: HostHandler>(
    me: &mut T,
    subsystem: OUTPUT_SUBSYTEMS,
    severity: OUTPUT_SEVERITY,
    message: &str,
)
    ensures
        exists|m: &mut T|
            mut_ref_current(m) == *old(me) && mut_ref_future(m) == *final(me) && #[trigger] call_ensures(
                T::on_debug_output,
                (m, subsystem, severity, message),
                (),
            ),
{
    me.on_debug_output(subsystem, severity, message);
}

/// Host runtime support: the window that an instance of the engine lives in.
#[derive(Clone, Copy, PartialEq, Eq, Structural, Debug)]
pub struct Host {
    hwnd: HWINDOW,
}

impl View for Host {
    type V = HWINDOW;

    closed spec fn view(&self) -> HWINDOW {
        self.hwnd
    }
}

impl Host {
    /// The host of the engine in the given window.
    pub fn from(hwnd: HWINDOW) -> (r: Host)
        ensures
            r@ == hwnd,
    {
        Host { hwnd }
    }

    /// The host of the engine in the given window.
    pub fn attach(hwnd: HWINDOW) -> (r: Host)
        ensures
            r@ == hwnd,
    {
        Host { hwnd }
    }

    /// Get native window handle.
    pub fn get_hwnd(&self) -> (hwnd: HWINDOW)
        ensures
            hwnd == self@,
    {
        self.hwnd
    }
}

} // verus!
