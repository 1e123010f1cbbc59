use gputools_replay::hl::error::Error;
use gputools_replay::replay::error::{FetchError, HarvesterError, SessionError};

#[test]
fn errors_display_their_message() {
    assert_eq!(
        SessionError::AlreadyOpen.message(),
        "a replay session is already open in this process (one per process)"
    );
    assert_eq!(
        HarvesterError::BadMagic.message(),
        "not a capture block: wrong magic"
    );
}

#[test]
fn numeric_fields_are_written_in_decimal() {
    assert_eq!(
        SessionError::Apr { code: -12 }.message(),
        "APR bootstrap failed (code -12)"
    );
    assert_eq!(
        HarvesterError::WrongType(3).message(),
        "capture block is not a texture block (type 3)"
    );
    assert_eq!(
        FetchError::Parse("x".to_string()).message(),
        "reply parse failed: x"
    );
}

#[test]
fn high_level_errors_report_their_fields() {
    assert_eq!(
        Error::FormatMismatch { requested: 4, actual: 16 }.message(),
        "format mismatch: requested 4 B, format is 16 B"
    );
    assert_eq!(
        Error::Padded { bytes_per_row: 12, row_len: 8 }.message(),
        "rows are padded (bytes_per_row 12 > row 8); use rows()"
    );
    assert_eq!(Error::UnknownFormat(0xff00).message(), "unknown pixel format 0xff00");
    assert_eq!(Error::UnknownFormat(0).message(), "unknown pixel format 0x0");
    assert_eq!(
        Error::Misaligned { align: 4 }.message(),
        "payload offset not 4-aligned for the requested element type"
    );
    assert_eq!(
        Error::Fetch(FetchError::Timeout).message(),
        "fetch timed out"
    );
    assert_eq!(
        Error::BadPipeline("no $top.root".to_string()).message(),
        "bad pipeline payload: no $top.root"
    );
}
