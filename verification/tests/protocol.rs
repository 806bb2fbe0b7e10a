use remote_unwind::cursor::{register_outcome, Advance, Cursor, Phase, StepOutcome};
use remote_unwind::error::Error;
use remote_unwind::frames::{drain, Probe};
use remote_unwind::session::{CachingPolicy, LibUnwind};

fn probe(code: i32, ip_code: i32, ip_value: u64) -> Probe {
    Probe {
        code,
        ip_code,
        ip_value,
    }
}

#[test]
fn first_element_is_attach_frame_without_step() {
    // The attach-time frame comes out first, produced from the initial
    // instruction-pointer read alone: a fresh cursor does not ask for a step.
    let cursor = Cursor::new();
    assert_eq!(cursor.advance_kind(), Advance::AttachFrame);

    let out = drain(0, 0x1000, &vec![probe(0, 0, 0)]);
    assert_eq!(out[0], Ok(0x1000));
}

#[test]
fn zero_is_never_yielded_as_a_frame() {
    // A zero instruction pointer is the end sentinel, both at the attach
    // frame and after a step: it ends the walk without being yielded.
    let out = drain(0, 0, &vec![probe(1, 0, 0x2000)]);
    assert_eq!(out, vec![]);

    let out = drain(0, 0x1000, &vec![probe(1, 0, 0), probe(1, 0, 0x3000)]);
    assert_eq!(out, vec![Ok(0x1000)]);
    assert!(out.iter().all(|e| *e != Ok(0)));
}

#[test]
fn three_frames_then_clean_stop() {
    // Attach frame plus two stepped frames, then the step operation reports
    // no more: exactly three frames, ended cleanly.
    let out = drain(
        0,
        0x1000,
        &vec![probe(1, 0, 0x2000), probe(1, 0, 0x3000), probe(0, 0, 0)],
    );
    assert_eq!(out, vec![Ok(0x1000), Ok(0x2000), Ok(0x3000)]);
}

#[test]
fn every_positive_step_code_yields_a_frame() {
    // Step codes {1, 1, 1, 0}: the attach frame is yielded before any step,
    // so each of the three positive codes uncovers one further frame.
    let out = drain(
        0,
        0x10,
        &vec![
            probe(1, 0, 0x20),
            probe(1, 0, 0x30),
            probe(1, 0, 0x40),
            probe(0, 0, 0),
        ],
    );
    assert_eq!(out, vec![Ok(0x10), Ok(0x20), Ok(0x30), Ok(0x40)]);
}

#[test]
fn negative_step_code_yields_one_error_and_nothing_more() {
    // A failing step at the third advance yields exactly one error element
    // carrying that code, and nothing follows, whatever codes would have.
    let out = drain(
        0,
        0xa0,
        &vec![
            probe(1, 0, 0xb0),
            probe(-5, 0, 0),
            probe(1, 0, 0xc0),
            probe(1, 0, 0xd0),
        ],
    );
    assert_eq!(
        out,
        vec![Ok(0xa0), Ok(0xb0), Err(Error::LibunwindError(-5))]
    );
}

#[test]
fn failed_instruction_pointer_read_yields_its_error_last() {
    let out = drain(0, 0xa0, &vec![probe(1, -8, 0), probe(1, 0, 0xb0)]);
    assert_eq!(out, vec![Ok(0xa0), Err(Error::LibunwindError(-8))]);

    // A failed read at the attach frame itself is the only element.
    let out = drain(-3, 0, &vec![probe(1, 0, 0xb0)]);
    assert_eq!(out, vec![Err(Error::LibunwindError(-3))]);
}

#[test]
fn cursor_machine_transitions() {
    let mut cursor = Cursor::new();
    assert_eq!(cursor.phase, Phase::Initial);

    // Attach frame materialized, cursor becomes active.
    assert_eq!(cursor.apply_frame(Ok(0x1000)), Some(Ok(0x1000)));
    assert_eq!(cursor.phase, Phase::Active);
    assert_eq!(cursor.advance_kind(), Advance::Step);

    // A successful step asks for the new frame's instruction pointer.
    assert_eq!(cursor.apply_step(1), StepOutcome::ReadFrame);
    assert_eq!(cursor.apply_frame(Ok(0x2000)), Some(Ok(0x2000)));

    // A clean end is terminal.
    assert_eq!(cursor.apply_step(0), StepOutcome::End);
    assert_eq!(cursor.phase, Phase::Exhausted);
    assert_eq!(cursor.advance_kind(), Advance::Done);
}

#[test]
fn cursor_machine_error_paths_are_terminal() {
    let mut cursor = Cursor::new();
    cursor.apply_frame(Ok(0x1000));
    assert_eq!(
        cursor.apply_step(-11),
        StepOutcome::Failed(Error::LibunwindError(-11))
    );
    assert_eq!(cursor.phase, Phase::Exhausted);

    let mut cursor = Cursor::new();
    cursor.apply_frame(Ok(0x1000));
    cursor.apply_step(2);
    assert_eq!(
        cursor.apply_frame(Err(Error::LibunwindError(-4))),
        Some(Err(Error::LibunwindError(-4)))
    );
    assert_eq!(cursor.phase, Phase::Exhausted);

    // The zero sentinel at the attach frame exhausts the cursor silently.
    let mut cursor = Cursor::new();
    assert_eq!(cursor.apply_frame(Ok(0)), None);
    assert_eq!(cursor.phase, Phase::Exhausted);
}

#[test]
fn register_reads_map_codes_exactly() {
    // Register queries (instruction pointer, stack pointer, arbitrary
    // number) share one mapping: code 0 hands the value through, any other
    // code becomes the error carrying exactly that code.
    assert_eq!(register_outcome(0, 0xdead), Ok(0xdead));
    assert_eq!(register_outcome(-1, 0xdead), Err(Error::LibunwindError(-1)));
    assert_eq!(register_outcome(-3, 0), Err(Error::LibunwindError(-3)));
    assert_eq!(register_outcome(7, 42), Err(Error::LibunwindError(7)));
    assert_eq!(Error::LibunwindError(-9).code(), -9);
}

#[test]
fn session_reports_creation_and_attach_failures() {
    let session = LibUnwind::new(0).unwrap();
    assert_eq!(session.caching_policy, CachingPolicy::PerThread);
    match LibUnwind::new(-7) {
        Err(Error::LibunwindError(code)) => assert_eq!(code, -7),
        _ => panic!("creation failure must carry the library code"),
    }

    let cursor = session.cursor(0).unwrap();
    assert_eq!(cursor.phase, Phase::Initial);
    match session.cursor(-2) {
        Err(Error::LibunwindError(code)) => assert_eq!(code, -2),
        _ => panic!("attach failure must carry the library code"),
    }
}
