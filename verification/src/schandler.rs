//! Native handler wrappers.

use vstd::prelude::*;

verus! {

/// Native wrapper for handlers which can be passed to the engine.
///
/// The wrapper owns the handler until it is destroyed. Destroying it drops
/// the handler and leaves the wrapper empty, so that the handler is dropped
/// once however often its wrapper is destroyed.
pub struct NativeHandler<T> {
    // the handler; `None` once it is destroyed
    handler: Option<T>,
}

impl<T> View for NativeHandler<T> {
    type V = Option<T>;

    closed spec fn view(&self) -> Option<T> {
        self.handler
    }
}

impl<T> Default for NativeHandler<T> {
    /// An empty wrapper.
    fn default() -> (r: NativeHandler<T>)
        ensures
            r@ is None,
    {
        NativeHandler { handler: None }
    }
}

impl<T> NativeHandler<T> {
    /// Construct boxed wrapper from handler object.
    pub fn from(handler: T) -> (r: NativeHandler<T>)
        ensures
            r@ == Some(handler),
    {
        NativeHandler { handler: Some(handler) }
    }

    /// Whether the wrapper is empty: it never held a handler, or its handler
    /// is destroyed.
    pub fn is_null(&self) -> (r: bool)
        ensures
            r == (self@ is None),
    {
        self.handler.is_none()
    }

    /// Access handler by reference.
    pub fn as_ref(&self) -> (r: &T)
        requires
            self@ is Some,
        ensures
            self@ == Some(*r),
    {
        self.handler.as_ref().unwrap()
    }

    /// Access handler by mutable reference.
    pub fn as_mut(&mut self) -> (r: &mut T)
        requires
            old(self)@ is Some,
        ensures
            old(self)@ == Some(*r),
            final(self)@ == Some(*final(r)),
    {
        self.handler.as_mut().unwrap()
    }

    /// Takes the handler out of the wrapper, which is empty afterwards.
    pub fn take(&mut self) -> (r: Option<T>)
        ensures
            r == old(self)@,
            final(self)@ is None,
    {
        self.handler.take()
    }

    /// Puts a handler into the wrapper; the one that it held is destroyed.
    pub fn put(&mut self, handler: T)
        ensures
            final(self)@ == Some(handler),
    {
        self.handler = Some(handler);
    }

    /// Call destructor of handler: the handler is dropped, if there is one,
    /// and the wrapper is empty afterwards.
    pub fn destroy(&mut self)
        ensures
            final(self)@ is None,
    {
        self.handler = None;
    }
}

} // verus!
