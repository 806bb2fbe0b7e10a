use vstd::prelude::*;
use crate::error::Error;

verus! {

/// Iteration state of a frame cursor.
///
/// A cursor starts in `Initial` (freshly attached, not yet advanced: the
/// current frame is the one active at the moment of attach). Once it has
/// produced its first element it is `Active`. `Exhausted` is terminal: the
/// sequence has ended, cleanly or with an error, and no further frames are
/// produced.
#[derive(Clone, Copy, Debug, PartialEq, Eq, Structural)]
pub enum Phase {
    Initial,
    Active,
    Exhausted,
}

/// What the caller must do to advance the cursor by one element.
#[derive(Clone, Copy, Debug, PartialEq, Eq, Structural)]
pub enum Advance {
    /// Materialize the attach-time frame: read its instruction pointer
    /// without invoking the library's step operation.
    AttachFrame,
    /// Invoke the library's step operation and feed its return code to
    /// [`Cursor::apply_step`].
    Step,
    /// The sequence has ended; there is nothing to do.
    Done,
}

/// The verdict on a step-operation return code.
#[derive(Clone, Copy, Debug, PartialEq, Eq, Structural)]
pub enum StepOutcome {
    /// The step succeeded: another frame is available; read its instruction
    /// pointer and feed the result to [`Cursor::apply_frame`].
    ReadFrame,
    /// Clean end of the stack: the sequence ends without yielding.
    End,
    /// The unwinder failed: yield this error as the final element.
    Failed(Error),
}

/// The decision core of a frame cursor: a forward-only, non-restartable walk
/// over the frames of an attached process.
///
/// The foreign per-attach state (the library cursor structure and the attach
/// handle) lives outside this type; the shell that owns it asks
/// [`Cursor::advance_kind`] what to do, performs the foreign call, and feeds
/// the raw return values back in. This type decides every transition of the
/// iteration protocol and is the single place where frame-boundary detection
/// (the zero sentinel) and error termination are enforced.
pub struct Cursor {
    /// Where the walk currently stands.
    pub phase: Phase,
}

/// Maps a register-read return code to the value read or to the error
/// carrying that exact code. The library reports `0` for a successful read
/// of `value`; any non-zero code is a failure and is passed through verbatim.
pub fn register_outcome(code: i32, value: u64) -> (r: Result<u64, Error>)
    ensures
        code == 0 ==> r == Ok::<u64, Error>(value),
        code != 0 ==> r == Err::<u64, Error>(Error::LibunwindError(code)),
{
    if code == 0 {
        Ok(value)
    } else {
        Err(Error::LibunwindError(code))
    }
}

impl Cursor {
    /// A freshly attached cursor, positioned at the frame active at the
    /// moment of attach and not yet advanced.
    pub fn new() -> (r: Cursor)
        ensures
            r.phase == Phase::Initial,
    {
        Cursor { phase: Phase::Initial }
    }

    /// What the next advance requires of the shell: the attach-time frame is
    /// materialized without a step, every later frame requires one, and an
    /// exhausted cursor requires nothing.
    pub fn advance_kind(&self) -> (r: Advance)
        ensures
            self.phase == Phase::Initial ==> r == Advance::AttachFrame,
            self.phase == Phase::Active ==> r == Advance::Step,
            self.phase == Phase::Exhausted ==> r == Advance::Done,
    {
        match self.phase {
            Phase::Initial => Advance::AttachFrame,
            Phase::Active => Advance::Step,
            Phase::Exhausted => Advance::Done,
        }
    }

    /// Applies the return code of the library's step operation. A positive
    /// code means another frame is available; `0` is the clean end of the
    /// stack; a negative code terminates the walk with exactly one error
    /// element carrying that code.
    pub fn apply_step(&mut self, code: i32) -> (r: StepOutcome)
        requires
            old(self).phase == Phase::Active,
        ensures
            code > 0 ==> r == StepOutcome::ReadFrame && final(self).phase == Phase::Active,
            code == 0 ==> r == StepOutcome::End && final(self).phase == Phase::Exhausted,
            code < 0 ==> r == StepOutcome::Failed(Error::LibunwindError(code))
                && final(self).phase == Phase::Exhausted,
    {
        if code == 0 {
            self.phase = Phase::Exhausted;
            StepOutcome::End
        } else if code < 0 {
            self.phase = Phase::Exhausted;
            StepOutcome::Failed(Error::LibunwindError(code))
        } else {
            StepOutcome::ReadFrame
        }
    }

    /// Applies an instruction-pointer read for the frame about to be
    /// yielded: either the attach-time frame (from `Initial`) or the frame a
    /// successful step just moved to (from `Active`).
    ///
    /// An instruction pointer of `0` is the natural end-of-stack sentinel:
    /// the sequence ends without yielding it. A failed read yields its error
    /// and ends the sequence. Any other value is yielded and the walk goes
    /// on.
    pub fn apply_frame(&mut self, read: Result<u64, Error>) -> (r: Option<Result<u64, Error>>)
        requires
            old(self).phase != Phase::Exhausted,
        ensures
            match read {
                Ok(ip) => if ip == 0 {
                    r is None && final(self).phase == Phase::Exhausted
                } else {
                    r == Some(Ok::<u64, Error>(ip)) && final(self).phase == Phase::Active
                },
                Err(e) => r == Some(Err::<u64, Error>(e)) && final(self).phase
                    == Phase::Exhausted,
            },
    {
        match read {
            Ok(ip) => {
                if ip == 0 {
                    self.phase = Phase::Exhausted;
                    None
                } else {
                    self.phase = Phase::Active;
                    Some(Ok(ip))
                }
            },
            Err(e) => {
                self.phase = Phase::Exhausted;
                Some(Err(e))
            },
        }
    }
}

} // verus!
