use vstd::prelude::*;

verus! {

/// One constructed index instance: the opaque native identity under which
/// the foreign engine keeps it.
///
/// Exactly one `IndexHandle` owns the underlying native resource at a time:
/// the value cannot be cloned, and giving the identity up with
/// [`IndexHandle::into_raw`] consumes it, so the ownership passes on rather
/// than multiplies. The identity itself says nothing this layer reads — the
/// dimensionality and element count of the index live behind it, inside the
/// engine.
pub struct IndexHandle {
    raw: usize,
}

impl IndexHandle {
    /// The native identity.
    pub closed spec fn id(self) -> usize {
        self.raw
    }

    /// A well-formed handle never holds the null identity.
    pub open spec fn wf(self) -> bool {
        self.id() != 0
    }

    /// Establishes sole ownership over a raw identity the boundary handed
    /// out. Called only after a successful status check, on an identity the
    /// boundary wrote into its out-parameter — never on null.
    pub fn wrap_handle(raw: usize) -> (h: IndexHandle)
        requires
            raw != 0,
        ensures
            h.id() == raw,
            h.wf(),
    {
        IndexHandle { raw }
    }

    /// Gives the native identity up; with it, the obligation to release the
    /// resource passes to the caller.
    pub fn into_raw(self) -> (r: usize)
        ensures
            r == self.id(),
    {
        self.raw
    }
}

} // verus!
