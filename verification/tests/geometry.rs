use terminal_session::error::IoError;
use terminal_session::geometry::{
    parse_cursor_report, query_screen_size, CursorProbe, ProbeStep, ScreenSize, SizeQuery,
    MOVE_CURSOR_FAR, REPORT_CURSOR_POSITION,
};
use terminal_session::input::ReadOutcome;

fn size(columns: u16, rows: u16) -> Result<ScreenSize, IoError> {
    Ok(ScreenSize { columns, rows })
}

fn malformed() -> Result<ScreenSize, IoError> {
    Err(IoError::MalformedCursorReport)
}

/// Feeds `bytes` to a fresh probe and returns how it ended, or the probe if
/// it wants more.
fn probe_bytes(bytes: &[u8]) -> ProbeStep {
    let mut step = ProbeStep::ReadMore(CursorProbe::new());
    for &byte in bytes {
        step = match step {
            ProbeStep::ReadMore(probe) => probe.feed(ReadOutcome::Byte(byte)),
            finished => return finished,
        };
    }
    step
}

#[test]
fn report_of_24_rows_80_columns() {
    assert_eq!(parse_cursor_report(b"\x1b[24;80R"), size(80, 24));
}

#[test]
fn report_names_the_row_first() {
    assert_eq!(parse_cursor_report(b"\x1b[1;2R"), size(2, 1));
    assert_eq!(parse_cursor_report(b"\x1b[50;132R"), size(132, 50));
}

#[test]
fn report_without_separator_is_malformed() {
    assert_eq!(parse_cursor_report(b"\x1b[24R"), malformed());
}

#[test]
fn report_without_escape_prefix_is_malformed() {
    assert_eq!(parse_cursor_report(b"24;80R"), malformed());
    assert_eq!(parse_cursor_report(b"[24;80R"), malformed());
    assert_eq!(parse_cursor_report(b"\x1b24;80R"), malformed());
    assert_eq!(parse_cursor_report(b"\x1b]24;80R"), malformed());
}

#[test]
fn report_without_terminator_is_malformed() {
    assert_eq!(parse_cursor_report(b"\x1b[24;80"), malformed());
    assert_eq!(parse_cursor_report(b"\x1b[24;80r"), malformed());
    assert_eq!(parse_cursor_report(b"\x1b[24;80R\n"), malformed());
}

#[test]
fn report_with_wrong_field_count_is_malformed() {
    assert_eq!(parse_cursor_report(b"\x1b[24;80;1R"), malformed());
    assert_eq!(parse_cursor_report(b"\x1b[24;;80R"), malformed());
    assert_eq!(parse_cursor_report(b"\x1b[R"), malformed());
    assert_eq!(parse_cursor_report(b"\x1b[24;80RR"), malformed());
}

#[test]
fn report_with_empty_field_is_malformed() {
    assert_eq!(parse_cursor_report(b"\x1b[;R"), malformed());
    assert_eq!(parse_cursor_report(b"\x1b[24;R"), malformed());
    assert_eq!(parse_cursor_report(b"\x1b[;80R"), malformed());
}

#[test]
fn report_with_non_numeric_field_is_malformed() {
    assert_eq!(parse_cursor_report(b"\x1b[2a;80R"), malformed());
    assert_eq!(parse_cursor_report(b"\x1b[24;8 0R"), malformed());
    assert_eq!(parse_cursor_report(b"\x1b[ 24;80R"), malformed());
    assert_eq!(parse_cursor_report(b"\x1b[-1;80R"), malformed());
    assert_eq!(parse_cursor_report(b"\x1b[24;0x50R"), malformed());
    assert_eq!(parse_cursor_report(b"\x1b[24;8\xb0R"), malformed());
    assert_eq!(parse_cursor_report(b"\x1b[/;:R"), malformed());
}

#[test]
fn report_field_may_carry_a_plus_sign() {
    assert_eq!(parse_cursor_report(b"\x1b[+24;+80R"), size(80, 24));
    assert_eq!(parse_cursor_report(b"\x1b[+;80R"), malformed());
    assert_eq!(parse_cursor_report(b"\x1b[++24;80R"), malformed());
    assert_eq!(parse_cursor_report(b"\x1b[24+;80R"), malformed());
}

#[test]
fn report_field_may_have_leading_zeros() {
    assert_eq!(parse_cursor_report(b"\x1b[0024;00000000000000000080R"), size(80, 24));
    assert_eq!(parse_cursor_report(b"\x1b[0;0R"), size(0, 0));
}

#[test]
fn report_field_is_bounded_by_sixteen_bits() {
    assert_eq!(parse_cursor_report(b"\x1b[65535;65535R"), size(65535, 65535));
    assert_eq!(parse_cursor_report(b"\x1b[65536;1R"), malformed());
    assert_eq!(parse_cursor_report(b"\x1b[1;65536R"), malformed());
    assert_eq!(parse_cursor_report(b"\x1b[1;99999999999999999999999R"), malformed());
    assert_eq!(parse_cursor_report(b"\x1b[1;655350R"), malformed());
}

#[test]
fn short_input_is_malformed() {
    assert_eq!(parse_cursor_report(b""), malformed());
    assert_eq!(parse_cursor_report(b"R"), malformed());
    assert_eq!(parse_cursor_report(b"\x1b["), malformed());
    assert_eq!(parse_cursor_report(b"\x1bR"), malformed());
}

#[test]
fn known_size_needs_no_probe() {
    let direct = ScreenSize { columns: 120, rows: 40 };
    assert_eq!(query_screen_size(Some(direct)), SizeQuery::Known(direct));
}

#[test]
fn unknown_size_starts_a_probe() {
    match query_screen_size(None) {
        SizeQuery::Probe(probe) => {
            assert!(probe.received().is_empty());
            assert_eq!(probe.request(), b"\x1b[999C\x1b[999B\x1b[6n".to_vec());
        }
        SizeQuery::Known(size) => panic!("no size was known, got {:?}", size),
    }
}

#[test]
fn probe_request_is_move_then_ask() {
    assert_eq!(&MOVE_CURSOR_FAR[..], &b"\x1b[999C\x1b[999B"[..]);
    assert_eq!(&REPORT_CURSOR_POSITION[..], &b"\x1b[6n"[..]);
    let mut expected = MOVE_CURSOR_FAR.to_vec();
    expected.extend_from_slice(&REPORT_CURSOR_POSITION);
    assert_eq!(CursorProbe::new().request(), expected);
}

#[test]
fn probe_reads_a_report_byte_by_byte() {
    assert_eq!(probe_bytes(b"\x1b[24;80R"), ProbeStep::Finished(size(80, 24)));
}

#[test]
fn probe_waits_for_the_terminator() {
    match probe_bytes(b"\x1b[24;80") {
        ProbeStep::ReadMore(probe) => {
            assert_eq!(probe.received(), &b"\x1b[24;80".to_vec());
            assert_eq!(
                probe.feed(ReadOutcome::Byte(b'R')),
                ProbeStep::Finished(size(80, 24))
            );
        }
        ProbeStep::Finished(verdict) => panic!("the report had not ended, got {:?}", verdict),
    }
}

#[test]
fn probe_never_settles_without_terminator() {
    let mut probe = CursorProbe::new();
    for round in 0..1000 {
        let outcome = if round % 3 == 0 {
            ReadOutcome::Empty
        } else {
            ReadOutcome::Byte(b"\x1b[24;80"[round % 7])
        };
        probe = match probe.feed(outcome) {
            ProbeStep::ReadMore(probe) => probe,
            ProbeStep::Finished(verdict) => panic!("no terminator was read, got {:?}", verdict),
        };
    }
    assert_eq!(probe.received().len(), 666);
}

#[test]
fn probe_skips_empty_reads() {
    let mut step = ProbeStep::ReadMore(CursorProbe::new());
    for &byte in b"\x1b[7;9R" {
        for outcome in [ReadOutcome::Empty, ReadOutcome::Empty, ReadOutcome::Byte(byte)] {
            step = match step {
                ProbeStep::ReadMore(probe) => probe.feed(outcome),
                ProbeStep::Finished(verdict) => {
                    panic!("more was fed than the report holds, got {:?}", verdict)
                }
            };
        }
    }
    assert_eq!(step, ProbeStep::Finished(size(9, 7)));
}

#[test]
fn probe_rejects_a_malformed_report() {
    assert_eq!(probe_bytes(b"\x1b[24R"), ProbeStep::Finished(malformed()));
    assert_eq!(probe_bytes(b"24;80R"), ProbeStep::Finished(malformed()));
    assert_eq!(probe_bytes(b"R"), ProbeStep::Finished(malformed()));
}

#[test]
fn probe_stops_at_the_first_terminator() {
    assert_eq!(probe_bytes(b"\x1b[1;2R\x1b[3;4R"), ProbeStep::Finished(size(2, 1)));
}

#[test]
fn probe_fails_on_a_failed_read() {
    let probe = match probe_bytes(b"\x1b[24") {
        ProbeStep::ReadMore(probe) => probe,
        ProbeStep::Finished(verdict) => panic!("the report had not ended, got {:?}", verdict),
    };
    assert_eq!(probe.feed(ReadOutcome::Failed), ProbeStep::Finished(Err(IoError::Read)));
}

#[test]
fn probe_does_not_retry_an_interrupted_read() {
    assert_eq!(
        CursorProbe::new().feed(ReadOutcome::Interrupted),
        ProbeStep::Finished(Err(IoError::Read))
    );
}
