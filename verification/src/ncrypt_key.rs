//! CNG private keys.

use vstd::prelude::*;

verus! {

/// A CNG handle to a key.
///
/// The handle is an opaque number that only the platform can interpret. The
/// wrapper is the single owner of it: it cannot be copied, and whoever holds
/// the wrapper is the one to release the key.
#[derive(Debug)]
pub struct NcryptKey(usize);

impl View for NcryptKey {
    type V = usize;

    closed spec fn view(&self) -> usize {
        self.0
    }
}

impl NcryptKey {
    /// Takes ownership of a key handle.
    pub fn from_inner(handle: usize) -> (key: NcryptKey)
        ensures
            key@ == handle,
    {
        NcryptKey(handle)
    }

    /// The handle, for a call into the platform.
    pub fn as_inner(&self) -> (handle: usize)
        ensures
            handle == self@,
    {
        self.0
    }

    /// Gives the handle up to the caller, who is then to release it.
    pub fn into_inner(self) -> (handle: usize)
        ensures
            handle == self@,
    {
        self.0
    }
}

} // verus!
