use vstd::prelude::*;
use crate::cursor::{register_outcome, Cursor, Phase, StepOutcome};
use crate::error::Error;

verus! {

/// One advance's worth of library replies: the return code of the step
/// operation, and — consulted only when the step reports another frame — the
/// return code and value of the instruction-pointer read that follows it.
#[derive(Clone, Copy, Debug, PartialEq, Eq, Structural)]
pub struct Probe {
    /// Return code of the step operation: positive for another frame, `0`
    /// for the clean end of the stack, negative for an unwinder failure.
    pub code: i32,
    /// Return code of the instruction-pointer read (`0` on success).
    pub ip_code: i32,
    /// The instruction pointer read, meaningful when `ip_code == 0`.
    pub ip_value: u64,
}

/// What a register read comes to: the value on code `0`, otherwise the error
/// carrying the library's code verbatim.
pub open spec fn register_read(code: i32, value: u64) -> Result<u64, Error> {
    if code == 0 {
        Ok(value)
    } else {
        Err(Error::LibunwindError(code))
    }
}

/// What an instruction-pointer read contributes to the frame sequence: a
/// read of `0` is the end-of-stack sentinel and yields nothing, a failed
/// read yields its error, and any other value is yielded as a frame.
pub open spec fn frame_yield(read: Result<u64, Error>) -> Option<Result<u64, Error>> {
    match read {
        Ok(ip) => if ip == 0 {
            None
        } else {
            Some(Ok(ip))
        },
        Err(e) => Some(Err(e)),
    }
}

/// The elements an active cursor still yields, given the library replies it
/// will receive, one [`Probe`] per advance. A non-positive step code or a
/// sentinel instruction pointer ends the sequence; an error element is
/// always the last.
pub open spec fn walk(probes: Seq<Probe>) -> Seq<Result<u64, Error>>
    decreases probes.len(),
{
    if probes.len() == 0 {
        Seq::empty()
    } else {
        let p = probes[0];
        if p.code == 0 {
            Seq::empty()
        } else if p.code < 0 {
            seq![Err(Error::LibunwindError(p.code))]
        } else {
            match frame_yield(register_read(p.ip_code, p.ip_value)) {
                None => Seq::empty(),
                Some(Ok(ip)) => seq![Ok(ip)] + walk(probes.drop_first()),
                Some(Err(e)) => seq![Err(e)],
            }
        }
    }
}

/// The full sequence a freshly attached cursor yields: the attach-time frame
/// first — produced from the initial instruction-pointer read alone, with no
/// step — followed by the frames the step operation uncovers.
pub open spec fn unwound(first_code: i32, first_value: u64, probes: Seq<Probe>) -> Seq<
    Result<u64, Error>,
> {
    match frame_yield(register_read(first_code, first_value)) {
        None => Seq::empty(),
        Some(Ok(ip)) => seq![Ok(ip)] + walk(probes),
        Some(Err(e)) => seq![Err(e)],
    }
}

/// Drains a cursor to completion against a scripted set of library replies:
/// `first_code`/`first_value` are the instruction-pointer read at the
/// attach-time frame, and `probes` supplies one reply per later advance.
/// Returns exactly the sequence the iteration protocol defines, in order.
/// The walk also ends, yielding what it has, if the script runs out while
/// the cursor is still active.
pub fn drain(first_code: i32, first_value: u64, probes: &Vec<Probe>) -> (r: Vec<
    Result<u64, Error>,
>)
    ensures
        r@ == unwound(first_code, first_value, probes@),
{
    let mut cursor = Cursor::new();
    let mut out: Vec<Result<u64, Error>> = Vec::new();
    let first = register_outcome(first_code, first_value);
    match cursor.apply_frame(first) {
        Some(elem) => {
            out.push(elem);
            proof {
                assert(out@ =~= seq![elem]);
            }
        },
        None => (),
    }
    proof {
        assert(first == register_read(first_code, first_value));
        assert(probes@.skip(0) =~= probes@);
        if cursor.phase == Phase::Active {
            assert(unwound(first_code, first_value, probes@) == out@ + walk(probes@.skip(0)));
        } else {
            assert(unwound(first_code, first_value, probes@) == out@);
        }
    }
    let mut i: usize = 0;
    while i < probes.len() && cursor.phase == Phase::Active
        invariant
            i <= probes.len(),
            cursor.phase != Phase::Initial,
            cursor.phase == Phase::Active ==> unwound(first_code, first_value, probes@) == out@
                + walk(probes@.skip(i as int)),
            cursor.phase == Phase::Exhausted ==> unwound(first_code, first_value, probes@)
                == out@,
        decreases probes.len() - i,
    {
        let p = probes[i];
        let ghost rest = probes@.skip(i as int);
        proof {
            assert(rest.len() > 0);
            assert(rest[0] == p);
            assert(rest.drop_first() =~= probes@.skip(i as int + 1));
        }
        i = i + 1;
        match cursor.apply_step(p.code) {
            StepOutcome::ReadFrame => {
                let read = register_outcome(p.ip_code, p.ip_value);
                let ghost out_before = out@;
                match cursor.apply_frame(read) {
                    Some(elem) => {
                        out.push(elem);
                        proof {
                            assert(out@ =~= out_before + seq![elem]);
                            if cursor.phase == Phase::Active {
                                assert(walk(rest) =~= seq![elem] + walk(rest.drop_first()));
                                assert(out_before + walk(rest) =~= out@ + walk(
                                    rest.drop_first(),
                                ));
                            } else {
                                assert(walk(rest) =~= seq![elem]);
                                assert(out_before + walk(rest) =~= out@);
                            }
                        }
                    },
                    None => {
                        proof {
                            assert(walk(rest) =~= Seq::<Result<u64, Error>>::empty());
                            assert(out_before + walk(rest) =~= out@);
                        }
                    },
                }
            },
            StepOutcome::End => {
                proof {
                    assert(walk(rest) =~= Seq::<Result<u64, Error>>::empty());
                    assert(out@ + walk(rest) =~= out@);
                }
            },
            StepOutcome::Failed(e) => {
                let ghost out_before = out@;
                out.push(Err(e));
                proof {
                    assert(walk(rest) =~= seq![Err::<u64, Error>(e)]);
                    assert(out_before + walk(rest) =~= out@);
                }
            },
        }
    }
    proof {
        if cursor.phase == Phase::Active {
            assert(probes@.skip(probes@.len() as int) =~= Seq::<Probe>::empty());
            assert(out@ + walk(probes@.skip(i as int)) =~= out@);
        }
    }
    out
}

/// The first yielded element, if there is one, is the frame active at attach
/// time: it is determined by the initial instruction-pointer read alone,
/// before any step operation is consulted.
pub proof fn lemma_first_element_is_attach_frame(
    first_code: i32,
    first_value: u64,
    probes: Seq<Probe>,
)
    ensures
        unwound(first_code, first_value, probes).len() > 0 ==> Some(
            unwound(first_code, first_value, probes)[0],
        ) == frame_yield(register_read(first_code, first_value)),
{
}

proof fn lemma_walk_never_zero(probes: Seq<Probe>)
    ensures
        forall|k: int|
            0 <= k < walk(probes).len() ==> walk(probes)[k] != Ok::<u64, Error>(0u64),
    decreases probes.len(),
{
    if probes.len() > 0 {
        lemma_walk_never_zero(probes.drop_first());
    }
}

/// The value `0` never appears as a yielded frame: it is reserved as the
/// end-of-stack sentinel and ends the sequence instead of being produced.
pub proof fn lemma_no_zero_frames(first_code: i32, first_value: u64, probes: Seq<Probe>)
    ensures
        forall|k: int|
            0 <= k < unwound(first_code, first_value, probes).len() ==> unwound(
                first_code,
                first_value,
                probes,
            )[k] != Ok::<u64, Error>(0u64),
{
    lemma_walk_never_zero(probes);
}

proof fn lemma_walk_length(probes: Seq<Probe>)
    ensures
        walk(probes).len() <= probes.len(),
    decreases probes.len(),
{
    if probes.len() > 0 {
        lemma_walk_length(probes.drop_first());
    }
}

/// The frame sequence is finite: it never outruns the replies the library
/// gives, so draining a cursor always terminates.
pub proof fn lemma_sequence_is_finite(first_code: i32, first_value: u64, probes: Seq<Probe>)
    ensures
        unwound(first_code, first_value, probes).len() <= 1 + probes.len(),
{
    lemma_walk_length(probes);
}

/// A step that fails at advance `k` — after `k` advances that each uncovered
/// a frame — cuts the walk to exactly the `k` frames before it followed by
/// that one error, whatever replies would have come after.
pub proof fn lemma_failing_step_cuts_walk(probes: Seq<Probe>, k: int)
    requires
        0 <= k < probes.len(),
        forall|j: int|
            0 <= j < k ==> probes[j].code > 0 && probes[j].ip_code == 0 && probes[j].ip_value
                != 0,
        probes[k].code < 0,
    ensures
        walk(probes).len() == k + 1,
        walk(probes)[k] == Err::<u64, Error>(Error::LibunwindError(probes[k].code)),
        forall|j: int| 0 <= j < k ==> walk(probes)[j] == Ok::<u64, Error>(probes[j].ip_value),
    decreases k,
{
    if k > 0 {
        let tail = probes.drop_first();
        assert forall|j: int|
            0 <= j < k - 1 implies tail[j].code > 0 && tail[j].ip_code == 0 && tail[j].ip_value
            != 0 by {
            assert(tail[j] == probes[j + 1]);
        }
        assert(tail[k - 1] == probes[k]);
        lemma_failing_step_cuts_walk(tail, k - 1);
        assert(walk(probes) =~= seq![Ok::<u64, Error>(probes[0].ip_value)] + walk(tail));
    }
}

proof fn lemma_walk_error_terminal(probes: Seq<Probe>)
    ensures
        forall|k: int|
            0 <= k < walk(probes).len() && walk(probes)[k] is Err ==> k == walk(
                probes,
            ).len() - 1,
    decreases probes.len(),
{
    if probes.len() > 0 {
        lemma_walk_error_terminal(probes.drop_first());
    }
}

/// An error element is always the last element: once a step or a register
/// read fails, exactly that one error is yielded and nothing follows it,
/// whatever replies would have come after.
pub proof fn lemma_error_is_terminal(first_code: i32, first_value: u64, probes: Seq<Probe>)
    ensures
        forall|k: int|
            0 <= k < unwound(first_code, first_value, probes).len() && unwound(
                first_code,
                first_value,
                probes,
            )[k] is Err ==> k == unwound(first_code, first_value, probes).len() - 1,
{
    lemma_walk_error_terminal(probes);
}

} // verus!
