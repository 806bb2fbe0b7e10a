use vstd::prelude::*;

verus! {

/// The single error kind of this crate: a raw signed return code reported by
/// the external unwinding library, carried verbatim. The meanings of the
/// individual codes are library-defined; no remapping is attempted here.
#[derive(Clone, Copy, Debug, PartialEq, Eq, Structural)]
pub enum Error {
    /// The library call returned this (non-zero, usually negative) code.
    LibunwindError(i32),
}

impl Error {
    /// The raw library code carried by this error.
    pub fn code(&self) -> (r: i32)
        ensures
            *self == Error::LibunwindError(r),
    {
        match *self {
            Error::LibunwindError(c) => c,
        }
    }
}

} // verus!
