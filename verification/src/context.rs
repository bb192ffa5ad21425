//! The handle under which the renderer keeps the state of one dialog.

use vstd::prelude::*;

verus! {

/// Sole holder of one renderer handle. A context is never null and cannot be
/// copied, so the handle has one owner from creation to release.
#[derive(Debug)]
pub struct Context {
    handle: usize,
}

impl Context {
    #[verifier::type_invariant]
    spec fn is_live(self) -> bool {
        self.handle != 0
    }

    /// The handle held.
    pub closed spec fn spec_handle(&self) -> usize {
        self.handle
    }

    /// Takes charge of the handle that the renderer gave out. The renderer
    /// gives the null handle when it could not allocate; there is no context
    /// to make of it, and the caller has to stop.
    pub fn new(handle: usize) -> (r: Self)
        requires
            handle != 0,
        ensures
            r.spec_handle() == handle,
    {
        Context { handle }
    }

    /// The handle, for a call to the renderer.
    #[verifier::when_used_as_spec(spec_handle)]
    pub fn handle(&self) -> (r: usize)
        ensures
            r == self.spec_handle(),
            r != 0,
    {
        proof {
            use_type_invariant(self);
        }
        self.handle
    }

    /// Gives the handle up for release; the context is gone.
    pub fn into_handle(self) -> (r: usize)
        ensures
            r == self.handle(),
            r != 0,
    {
        proof {
            use_type_invariant(&self);
        }
        self.handle
    }
}

} // verus!
