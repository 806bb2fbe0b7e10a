use vstd::prelude::*;
use crate::error::Error;

verus! {

/// Initial capacity, in bytes, of the procedure-name buffer.
pub const NAME_BUFFER_INITIAL_CAPACITY: usize = 128;

/// The library code reporting that the name buffer was too small and the
/// call should be retried with a larger one. The exact sentinel is
/// library-version-dependent; confirm it against the bound library's
/// documented error enumeration.
pub const NAME_BUFFER_TOO_SMALL: i32 = -2;

/// What the UTF-8 decode of a byte sequence comes to, invalid sequences
/// replaced by U+FFFD; named here, defined by the standard library.
pub uninterp spec fn lossy_utf8(bytes: Seq<u8>) -> Seq<char>;

/// The index of the first NUL byte, or the length when there is none.
pub open spec fn first_nul(bytes: Seq<u8>) -> int
    decreases bytes.len(),
{
    if bytes.len() == 0 {
        0
    } else if bytes[0] == 0 {
        0
    } else {
        1 + first_nul(bytes.drop_first())
    }
}

/// The bytes before the first NUL: what a NUL-terminated library buffer
/// actually carries as the name.
pub open spec fn nul_prefix(bytes: Seq<u8>) -> Seq<u8> {
    bytes.take(first_nul(bytes))
}

/// The verdict on one attempt of the procedure-name call.
#[derive(Clone, Copy, Debug, PartialEq, Eq, Structural)]
pub enum NameStep {
    /// The library wrote the NUL-terminated name; decode the buffer.
    Resolved,
    /// The buffer was too small; it has been doubled, retry the call.
    Retry,
    /// Any other failure ends the resolution with this error.
    Failed(Error),
}

/// The growable-buffer protocol of procedure-name resolution: the buffer
/// starts at [`NAME_BUFFER_INITIAL_CAPACITY`] bytes and doubles each time
/// the library reports it too small, until the call succeeds or fails with a
/// different code.
pub struct NameQuery {
    /// The capacity, in bytes, the next attempt must use.
    pub capacity: usize,
}

impl NameQuery {
    /// A fresh resolution, sized for the first attempt.
    pub fn new() -> (r: NameQuery)
        ensures
            r.capacity == NAME_BUFFER_INITIAL_CAPACITY,
    {
        NameQuery { capacity: NAME_BUFFER_INITIAL_CAPACITY }
    }

    /// Applies the return code of one procedure-name call made with the
    /// current capacity: success resolves, the too-small sentinel doubles
    /// the capacity for a retry, and any other code fails carrying the code
    /// verbatim.
    pub fn apply_code(&mut self, code: i32) -> (r: NameStep)
        requires
            old(self).capacity <= usize::MAX / 2,
        ensures
            code == 0 ==> r == NameStep::Resolved && final(self).capacity == old(self).capacity,
            code == NAME_BUFFER_TOO_SMALL ==> r == NameStep::Retry && final(self).capacity == 2
                * old(self).capacity,
            code != 0 && code != NAME_BUFFER_TOO_SMALL ==> r == NameStep::Failed(
                Error::LibunwindError(code),
            ) && final(self).capacity == old(self).capacity,
    {
        if code == 0 {
            NameStep::Resolved
        } else if code == NAME_BUFFER_TOO_SMALL {
            self.capacity = self.capacity * 2;
            NameStep::Retry
        } else {
            NameStep::Failed(Error::LibunwindError(code))
        }
    }
}

/// Relies on the standard library's `String::from_utf8_lossy`: decodes the
/// bytes as UTF-8 with every invalid sequence replaced by U+FFFD, never
/// failing; the result is a function of the bytes alone, valid UTF-8 — ASCII
/// in particular — decodes to itself, and an empty input gives an empty
/// string.
#[verifier::external_body]
fn utf8_lossy(bytes: &Vec<u8>) -> (r: String)
    ensures
        r@ == lossy_utf8(bytes@),
        bytes@.len() == 0 ==> r@.len() == 0,
        (forall|k: int| 0 <= k < bytes@.len() ==> bytes@[k] < 128) ==> (r@.len() == bytes@.len()
            && (forall|k: int| 0 <= k < bytes@.len() ==> r@[k] == bytes@[k] as char)),
{
    String::from_utf8_lossy(bytes.as_slice()).into_owned()
}

proof fn lemma_first_nul_at(bytes: Seq<u8>, n: int)
    requires
        0 <= n <= bytes.len(),
        forall|j: int| 0 <= j < n ==> bytes[j] != 0,
        n < bytes.len() ==> bytes[n] == 0,
    ensures
        first_nul(bytes) == n,
    decreases bytes.len(),
{
    if n > 0 {
        assert(bytes[0] != 0);
        assert forall|j: int| 0 <= j < n - 1 implies bytes.drop_first()[j] != 0 by {
            assert(bytes.drop_first()[j] == bytes[j + 1]);
        }
        lemma_first_nul_at(bytes.drop_first(), n - 1);
    }
}

/// Decodes a NUL-terminated name buffer as the library left it: the bytes
/// before the first NUL (the whole buffer when no NUL is present), read as
/// UTF-8 with invalid sequences replaced rather than failing — name
/// resolution is best-effort and never rejects a name. An all-ASCII name
/// comes back exactly as its bytes.
pub fn decode_name(buf: &Vec<u8>) -> (r: String)
    ensures
        r@ == lossy_utf8(nul_prefix(buf@)),
        (forall|k: int| 0 <= k < nul_prefix(buf@).len() ==> nul_prefix(buf@)[k] < 128) ==> (
        r@.len() == nul_prefix(buf@).len() && (forall|k: int|
            0 <= k < nul_prefix(buf@).len() ==> r@[k] == nul_prefix(buf@)[k] as char)),
{
    let mut n: usize = 0;
    while n < buf.len() && buf[n] != 0
        invariant
            n <= buf@.len(),
            forall|j: int| 0 <= j < n ==> buf@[j] != 0,
        decreases buf@.len() - n,
    {
        n = n + 1;
    }
    proof {
        lemma_first_nul_at(buf@, n as int);
    }
    let mut prefix: Vec<u8> = Vec::new();
    let mut j: usize = 0;
    while j < n
        invariant
            j <= n,
            n <= buf@.len(),
            prefix@ == buf@.take(j as int),
        decreases n - j,
    {
        let b = buf[j];
        prefix.push(b);
        j = j + 1;
        proof {
            assert(prefix@ =~= buf@.take(j as int));
        }
    }
    proof {
        assert(prefix@ =~= nul_prefix(buf@));
    }
    utf8_lossy(&prefix)
}

} // verus!
