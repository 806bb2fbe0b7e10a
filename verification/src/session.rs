use vstd::prelude::*;
use crate::cursor::{Cursor, Phase};
use crate::error::Error;

verus! {

/// How aggressively the unwinding library may cache architecture and debug
/// metadata across unwinds, chosen once when the address space is created.
#[derive(Clone, Copy, Debug, PartialEq, Eq, Structural)]
pub enum CachingPolicy {
    /// No caching at all.
    NoCaching,
    /// One cache shared by every thread.
    Global,
    /// One cache per calling thread; safe as long as each thread owns a
    /// disjoint set of cursors.
    PerThread,
}

/// One unwinding session: the decision core around the library's
/// address-space abstraction, and the factory for frame cursors.
///
/// The foreign address-space handle itself lives outside this type, owned by
/// the shell that created it and released exactly once when the session is
/// dropped; every cursor borrows it and must not outlive it. This type fixes
/// the session's one-time configuration and decides whether a creation or an
/// attach succeeded.
pub struct LibUnwind {
    /// The caching policy registered when the address space was created.
    pub caching_policy: CachingPolicy,
}

impl LibUnwind {
    /// Judges the library's report on creating the address space: on code
    /// `0` the session exists, configured once with per-thread caching (a
    /// deliberate latency/throughput trade favoring repeated unwinds from
    /// the same calling thread); any other code is the session's failure,
    /// carried verbatim.
    pub fn new(code: i32) -> (r: Result<LibUnwind, Error>)
        ensures
            code == 0 ==> r == Ok::<LibUnwind, Error>(
                LibUnwind { caching_policy: CachingPolicy::PerThread },
            ),
            code != 0 ==> r == Err::<LibUnwind, Error>(Error::LibunwindError(code)),
    {
        if code == 0 {
            Ok(LibUnwind { caching_policy: CachingPolicy::PerThread })
        } else {
            Err(Error::LibunwindError(code))
        }
    }

    /// Judges the library's report on initializing a remote cursor against a
    /// fresh attach handle. On code `0` the cursor exists, positioned at the
    /// frame active at the moment of attach and not yet advanced; no cursor
    /// ever escapes from a failed initialization. Any non-zero code is the
    /// attach's failure, carried verbatim (the attach handle acquired before
    /// the failure must still be released by the shell).
    pub fn cursor(&self, code: i32) -> (r: Result<Cursor, Error>)
        ensures
            code == 0 ==> (r matches Ok(c) && c.phase == Phase::Initial),
            code != 0 ==> r == Err::<Cursor, Error>(Error::LibunwindError(code)),
    {
        if code == 0 {
            Ok(Cursor::new())
        } else {
            Err(Error::LibunwindError(code))
        }
    }
}

} // verus!
