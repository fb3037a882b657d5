//! The surface binder: a handle to the window, looked up until it is found
//! and kept from then on.

use vstd::prelude::*;

verus! {

/// What the binder holds after a lookup came back with `found`, when it held
/// `cached` before: a handle once held is kept, and nothing is held until a
/// lookup finds one.
pub open spec fn resolve<H>(cached: Option<H>, found: Option<H>) -> Option<H> {
    if cached is Some {
        cached
    } else {
        found
    }
}

/// A handle that is held outlasts every later lookup, whatever it finds.
pub proof fn law_bound_handle_is_kept<H>(cached: Option<H>, found: Option<H>, later: Option<H>)
    requires
        resolve(cached, found) is Some,
    ensures
        resolve(resolve(cached, found), later) == resolve(cached, found),
{
}

/// A lookup that finds nothing leaves nothing held.
pub proof fn law_nothing_found_nothing_held<H>(cached: Option<H>)
    ensures
        resolve(cached, None) == cached,
{
}

/// Holds the handle to the window once a lookup has found it. `H` is the
/// handle type of the host application.
#[derive(Debug)]
pub struct SurfaceBinder<H> {
    handle: Option<H>,
}

impl<H> View for SurfaceBinder<H> {
    type V = Option<H>;

    closed spec fn view(&self) -> Option<H> {
        self.handle
    }
}

impl<H> SurfaceBinder<H> {
    /// A binder that holds nothing. No lookup is made to build it.
    pub fn new() -> (binder: Self)
        ensures
            binder@ is None,
    {
        SurfaceBinder { handle: None }
    }

    /// Whether a handle is held, so that no lookup is needed.
    pub fn is_bound(&self) -> (bound: bool)
        ensures
            bound == (self@ is Some),
    {
        self.handle.is_some()
    }

    /// The handle, if one is held.
    pub fn handle(&self) -> (handle: Option<&H>)
        ensures
            match handle {
                Some(h) => self@ == Some(*h),
                None => self@ is None,
            },
    {
        self.handle.as_ref()
    }

    /// Takes the result of a lookup. A handle that was found is kept, unless
    /// one is held already: then the one held stays, and `found` is dropped.
    pub fn offer(&mut self, found: Option<H>) -> (bound: bool)
        ensures
            final(self)@ == resolve(old(self)@, found),
            bound == (final(self)@ is Some),
    {
        if self.handle.is_none() {
            self.handle = found;
        }
        self.handle.is_some()
    }
}

} // verus!
