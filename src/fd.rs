use vstd::prelude::*;

verus! {

/// Ownership of one descriptor that the supervisor passed to this process.
///
/// The value records the descriptor number. Only the decoder makes one, for a
/// number that the activation protocol says is open and owned by this process;
/// giving it up with [`OwnedFd::into_raw`] hands that ownership to the caller,
/// who turns the number into a live socket handle.
pub struct OwnedFd {
    fd: u32,
}

impl View for OwnedFd {
    type V = u32;

    closed spec fn view(&self) -> u32 {
        self.fd
    }
}

impl OwnedFd {
    /// Takes ownership of descriptor `fd`, which the activation protocol
    /// guarantees to be open and not owned by any other value.
    pub(crate) fn from_raw(fd: u32) -> (r: OwnedFd)
        ensures
            r@ == fd,
    {
        OwnedFd { fd }
    }

    /// Releases ownership of the underlying descriptor, returning its number.
    pub fn into_raw(self) -> (r: u32)
        ensures
            r == self@,
    {
        self.fd
    }
}

} // verus!
