use remote_unwind::error::Error;
use remote_unwind::name::{
    decode_name, NameQuery, NameStep, NAME_BUFFER_INITIAL_CAPACITY, NAME_BUFFER_TOO_SMALL,
};

#[test]
fn buffer_doubles_until_the_library_is_satisfied() {
    // The library reports "too small" for the first two sizes and succeeds
    // on the third: the capacity must have grown 128 -> 256 -> 512.
    let mut query = NameQuery::new();
    assert_eq!(query.capacity, NAME_BUFFER_INITIAL_CAPACITY);
    assert_eq!(query.capacity, 128);

    assert_eq!(query.apply_code(NAME_BUFFER_TOO_SMALL), NameStep::Retry);
    assert_eq!(query.capacity, 256);

    assert_eq!(query.apply_code(NAME_BUFFER_TOO_SMALL), NameStep::Retry);
    assert_eq!(query.capacity, 512);

    assert_eq!(query.apply_code(0), NameStep::Resolved);
    assert_eq!(query.capacity, 512);
}

#[test]
fn other_codes_end_resolution_with_that_code() {
    let mut query = NameQuery::new();
    assert_eq!(
        query.apply_code(-1),
        NameStep::Failed(Error::LibunwindError(-1))
    );
    assert_eq!(query.capacity, 128);
    assert_eq!(
        query.apply_code(-22),
        NameStep::Failed(Error::LibunwindError(-22))
    );
}

#[test]
fn valid_utf8_names_decode_losslessly() {
    // The buffer is larger than the name; everything after the first NUL is
    // ignored, and valid UTF-8 comes back unchanged.
    let mut buf = b"py_spam_target".to_vec();
    buf.push(0);
    buf.extend_from_slice(b"stale bytes left over");
    buf.resize(128, 0);
    assert_eq!(decode_name(&buf), "py_spam_target");

    let mut buf = "fonction_élevée".as_bytes().to_vec();
    buf.push(0);
    buf.resize(64, 0);
    assert_eq!(decode_name(&buf), "fonction_élevée");
}

#[test]
fn invalid_byte_sequences_are_replaced_not_rejected() {
    // Resolution is best-effort: invalid UTF-8 never fails the call, each
    // invalid sequence becomes the replacement character.
    let buf = vec![0xff, 0xfe, 0];
    assert_eq!(decode_name(&buf), "\u{FFFD}\u{FFFD}");

    let mut buf = b"name_".to_vec();
    buf.push(0xc3); // truncated two-byte sequence
    buf.push(0);
    assert_eq!(decode_name(&buf), "name_\u{FFFD}");
}

#[test]
fn a_buffer_without_nul_decodes_whole() {
    let buf = b"abc".to_vec();
    assert_eq!(decode_name(&buf), "abc");
    let buf: Vec<u8> = Vec::new();
    assert_eq!(decode_name(&buf), "");
}
