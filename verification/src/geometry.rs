//! Screen geometry: how the session learns the size of the screen.
//!
//! There are two strategies. The platform may simply know the size of the
//! window. Where it does not, the cursor is sent as far right and down as it
//! will go and the terminal is asked where it ended up; its answer, a cursor
//! position report, arrives on the input stream as `ESC [ row ; column R`.

use vstd::prelude::*;
use crate::error::IoError;
use crate::input::ReadOutcome;

verus! {

/// The escape byte that opens every control sequence.
pub const ESCAPE: u8 = 0x1b;

/// `[`, the second byte of a control sequence.
pub const OPEN_BRACKET: u8 = 0x5b;

/// `;`, between the two fields of a cursor position report.
pub const SEPARATOR: u8 = 0x3b;

/// `R`, the last byte of a cursor position report.
pub const TERMINATOR: u8 = 0x52;

/// `+`, which may stand in front of the digits of a field.
pub const PLUS_SIGN: u8 = 0x2b;

/// The digit `0`.
pub const DIGIT_ZERO: u8 = 0x30;

/// The digit `9`.
pub const DIGIT_NINE: u8 = 0x39;

/// `ESC [ 999 C ESC [ 999 B`: moves the cursor 999 cells right, then 999 cells
/// down; the terminal stops it at the bottom-right corner.
pub const MOVE_CURSOR_FAR: [u8; 12] = [
    0x1b, 0x5b, 0x39, 0x39, 0x39, 0x43, 0x1b, 0x5b, 0x39, 0x39, 0x39, 0x42,
];

/// `ESC [ 6 n`: asks the terminal to report the cursor position.
pub const REPORT_CURSOR_POSITION: [u8; 4] = [0x1b, 0x5b, 0x36, 0x6e];

/// The usable size of the screen, in character cells.
#[derive(Clone, Copy, Debug, PartialEq, Eq, Structural)]
pub struct ScreenSize {
    pub columns: u16,
    pub rows: u16,
}

/// A decimal digit.
pub open spec fn is_digit(byte: u8) -> bool {
    DIGIT_ZERO <= byte <= DIGIT_NINE
}

/// Nothing but decimal digits.
pub open spec fn all_digits(bytes: Seq<u8>) -> bool {
    forall|i: int| 0 <= i < bytes.len() ==> is_digit(#[trigger] bytes[i])
}

/// What a byte adds to a decimal number: its digit, and nothing if it is none.
pub open spec fn digit_value(byte: u8) -> nat {
    if is_digit(byte) {
        (byte - DIGIT_ZERO) as nat
    } else {
        0
    }
}

/// The number that `digits` spell in base ten, most significant digit first.
pub open spec fn decimal_value(digits: Seq<u8>) -> nat
    decreases digits.len(),
{
    if digits.len() == 0 {
        0
    } else {
        10 * decimal_value(digits.drop_last()) + digit_value(digits.last())
    }
}

/// The digits of a field: the field without its plus sign, if it has one.
pub open spec fn field_digits(field: Seq<u8>) -> Seq<u8> {
    if field.len() > 0 && field[0] == PLUS_SIGN {
        field.drop_first()
    } else {
        field
    }
}

/// The number in a field of a report: at least one decimal digit, an optional
/// plus sign in front, and a value of at most 65535. Any other field has none.
pub open spec fn field_value(field: Seq<u8>) -> Option<u16> {
    let digits = field_digits(field);
    if digits.len() > 0 && all_digits(digits) && decimal_value(digits) <= u16::MAX {
        Some(decimal_value(digits) as u16)
    } else {
        None
    }
}

/// The place of the first separator in `body`, or the length of `body` if it
/// holds none.
pub open spec fn separator_index(body: Seq<u8>) -> int
    decreases body.len(),
{
    if body.len() == 0 || body[0] == SEPARATOR {
        0
    } else {
        1 + separator_index(body.drop_first())
    }
}

/// The report that a terminal sends for the given row and column fields.
pub open spec fn report_of(row_field: Seq<u8>, column_field: Seq<u8>) -> Seq<u8> {
    seq![ESCAPE, OPEN_BRACKET] + row_field + seq![SEPARATOR] + column_field + seq![TERMINATOR]
}

/// The screen size that a cursor position report states, if it is well formed:
/// the escape prefix, a row field, one separator, a column field, the
/// terminator, and nothing else.
pub open spec fn reported_size(report: Seq<u8>) -> Option<ScreenSize> {
    if report.len() >= 3 && report[0] == ESCAPE && report[1] == OPEN_BRACKET && report.last()
        == TERMINATOR {
        let body = report.subrange(2, report.len() - 1);
        let at = separator_index(body);
        if at < body.len() {
            match (field_value(body.take(at)), field_value(body.skip(at + 1))) {
                (Some(rows), Some(columns)) => Some(ScreenSize { columns, rows }),
                _ => None,
            }
        } else {
            None
        }
    } else {
        None
    }
}

/// The result of parsing `report`.
pub open spec fn parse_model(report: Seq<u8>) -> Result<ScreenSize, IoError> {
    match reported_size(report) {
        Some(size) => Ok(size),
        None => Err(IoError::MalformedCursorReport),
    }
}

proof fn lemma_decimal_value_of_prefix(digits: Seq<u8>, count: int)
    requires
        0 <= count <= digits.len(),
    ensures
        decimal_value(digits.take(count)) <= decimal_value(digits),
    decreases digits.len() - count,
{
    if count == digits.len() {
        assert(digits.take(count) =~= digits);
    } else {
        assert(digits.drop_last().take(count) =~= digits.take(count));
        lemma_decimal_value_of_prefix(digits.drop_last(), count);
    }
}

proof fn lemma_separator_index_found(body: Seq<u8>, at: int)
    requires
        0 <= at <= body.len(),
        forall|i: int| 0 <= i < at ==> body[i] != SEPARATOR,
        at < body.len() ==> body[at] == SEPARATOR,
    ensures
        separator_index(body) == at,
    decreases body.len(),
{
    if at > 0 {
        let rest = body.drop_first();
        assert forall|i: int| 0 <= i < at - 1 implies rest[i] != SEPARATOR by {
            assert(rest[i] == body[i + 1]);
        }
        lemma_separator_index_found(rest, at - 1);
    }
}

/// Reads the number in `bytes[from..to]`.
fn parse_field(bytes: &[u8], from: usize, to: usize) -> (value: Option<u16>)
    requires
        from <= to <= bytes.len(),
    ensures
        value == field_value(bytes@.subrange(from as int, to as int)),
{
    let ghost field = bytes@.subrange(from as int, to as int);
    let mut start: usize = from;
    if start < to && bytes[start] == PLUS_SIGN {
        start = start + 1;
    }
    let ghost digits = bytes@.subrange(start as int, to as int);
    assert(digits =~= field_digits(field));
    if start == to {
        return None;
    }
    let mut value: u32 = 0;
    let mut at: usize = start;
    while at < to
        invariant
            from <= start <= at <= to <= bytes.len(),
            field == bytes@.subrange(from as int, to as int),
            digits == bytes@.subrange(start as int, to as int),
            digits == field_digits(field),
            all_digits(digits.take(at - start)),
            value == decimal_value(digits.take(at - start)),
            value <= u16::MAX,
        decreases to - at,
    {
        let byte = bytes[at];
        if byte < DIGIT_ZERO || byte > DIGIT_NINE {
            assert(!is_digit(digits[at - start]));
            return None;
        }
        let ghost longer = digits.take(at - start + 1);
        proof {
            assert(longer.drop_last() =~= digits.take(at - start));
            assert(longer.last() == byte);
            assert forall|i: int| 0 <= i < longer.len() implies is_digit(#[trigger] longer[i]) by {
                if i < at - start {
                    assert(longer[i] == digits.take(at - start)[i]);
                }
            }
        }
        let next: u32 = value * 10 + (byte - DIGIT_ZERO) as u32;
        if next > 65535 {
            proof {
                lemma_decimal_value_of_prefix(digits, at - start + 1);
            }
            return None;
        }
        value = next;
        at = at + 1;
    }
    assert(digits.take(at - start) =~= digits);
    Some(value as u16)
}

/// Parses a cursor position report.
///
/// A well-formed report gives the size it states, the column field as the
/// number of columns and the row field as the number of rows. Anything else
/// is an error: no prefix, no terminator, no separator or more than one, a
/// field that is no number or does not fit sixteen bits.
pub fn parse_cursor_report(report: &[u8]) -> (result: Result<ScreenSize, IoError>)
    ensures
        result == parse_model(report@),
{
    let length = report.len();
    if length < 3 || report[0] != ESCAPE || report[1] != OPEN_BRACKET || report[length - 1]
        != TERMINATOR {
        return Err(IoError::MalformedCursorReport);
    }
    let end: usize = length - 1;
    let ghost body = report@.subrange(2, end as int);
    let mut at: usize = 2;
    while at < end && report[at] != SEPARATOR
        invariant
            2 <= at <= end < report.len(),
            body == report@.subrange(2, end as int),
            forall|i: int| 0 <= i < at - 2 ==> body[i] != SEPARATOR,
        decreases end - at,
    {
        at = at + 1;
    }
    proof {
        lemma_separator_index_found(body, at - 2);
    }
    if at == end {
        return Err(IoError::MalformedCursorReport);
    }
    assert(body.take(at - 2) =~= report@.subrange(2, at as int));
    assert(body.skip(at - 2 + 1) =~= report@.subrange(at + 1, end as int));
    let rows = parse_field(report, 2, at);
    let columns = parse_field(report, at + 1, end);
    match (rows, columns) {
        (Some(rows), Some(columns)) => Ok(ScreenSize { columns, rows }),
        _ => Err(IoError::MalformedCursorReport),
    }
}

/// Where the size of the screen comes from.
#[derive(Debug, PartialEq, Eq)]
pub enum SizeQuery {
    /// The platform knew it.
    Known(ScreenSize),
    /// The terminal has to be asked, with this probe.
    Probe(CursorProbe),
}

/// The fallback strategy: a cursor position report in the making.
///
/// Its value is the bytes of the report received so far.
#[derive(Debug, PartialEq, Eq)]
pub struct CursorProbe {
    received: Vec<u8>,
}

/// What a probe does after one read of the input stream.
#[derive(Debug, PartialEq, Eq)]
pub enum ProbeStep {
    /// The report is not complete: read again, and feed this probe.
    ReadMore(CursorProbe),
    /// The probe is over, with the size of the screen or an error.
    Finished(Result<ScreenSize, IoError>),
}

impl View for CursorProbe {
    type V = Seq<u8>;

    closed spec fn view(&self) -> Seq<u8> {
        self.received@
    }
}

/// How a probe that has received `received` ends on the next read, if it does:
/// the terminator completes the report, which is then parsed; a read that
/// fails, interrupted or not, ends the probe with an error.
pub open spec fn probe_verdict(received: Seq<u8>, outcome: ReadOutcome) -> Option<
    Result<ScreenSize, IoError>,
> {
    match outcome {
        ReadOutcome::Byte(byte) => if byte == TERMINATOR {
            Some(parse_model(received.push(byte)))
        } else {
            None
        },
        ReadOutcome::Empty => None,
        ReadOutcome::Interrupted => Some(Err(IoError::Read)),
        ReadOutcome::Failed => Some(Err(IoError::Read)),
    }
}

/// What a probe that has received `received` holds after the next read.
pub open spec fn probe_received(received: Seq<u8>, outcome: ReadOutcome) -> Seq<u8> {
    match outcome {
        ReadOutcome::Byte(byte) => received.push(byte),
        _ => received,
    }
}

/// How a probe that has received `received` ends over the reads `outcomes`,
/// if it does.
pub open spec fn probe_run(received: Seq<u8>, outcomes: Seq<ReadOutcome>) -> Option<
    Result<ScreenSize, IoError>,
>
    decreases outcomes.len(),
{
    if outcomes.len() == 0 {
        None
    } else {
        match probe_verdict(received, outcomes.first()) {
            Some(verdict) => Some(verdict),
            None => probe_run(probe_received(received, outcomes.first()), outcomes.drop_first()),
        }
    }
}

/// Chooses the strategy: the size that the platform gave, where it gave one,
/// and a fresh cursor probe where it did not.
pub fn query_screen_size(direct: Option<ScreenSize>) -> (query: SizeQuery)
    ensures
        match direct {
            Some(size) => query matches SizeQuery::Known(known) && known == size,
            None => query matches SizeQuery::Probe(probe) && probe@ == Seq::<u8>::empty(),
        },
{
    match direct {
        Some(size) => SizeQuery::Known(size),
        None => SizeQuery::Probe(CursorProbe::new()),
    }
}

impl CursorProbe {
    /// A probe that has received nothing.
    pub fn new() -> (probe: CursorProbe)
        ensures
            probe@ == Seq::<u8>::empty(),
    {
        CursorProbe { received: Vec::new() }
    }

    /// The bytes to write to the terminal before the first read: the cursor
    /// is moved far right and down, then asked for.
    pub fn request(&self) -> (bytes: Vec<u8>)
        ensures
            bytes@ == MOVE_CURSOR_FAR@ + REPORT_CURSOR_POSITION@,
    {
        let mut bytes: Vec<u8> = Vec::new();
        bytes.extend_from_slice(&MOVE_CURSOR_FAR);
        bytes.extend_from_slice(&REPORT_CURSOR_POSITION);
        assert(bytes@ =~= MOVE_CURSOR_FAR@ + REPORT_CURSOR_POSITION@);
        bytes
    }

    /// The bytes received so far.
    pub fn received(&self) -> (bytes: &Vec<u8>)
        ensures
            bytes@ == self@,
    {
        &self.received
    }

    /// Takes the outcome of one read.
    ///
    /// A byte joins the report. The probe goes on reading until the byte is
    /// the terminator, however long that takes; then the report is parsed. An
    /// empty read changes nothing. A failed read ends the probe.
    pub fn feed(self, outcome: ReadOutcome) -> (step: ProbeStep)
        ensures
            match step {
                ProbeStep::ReadMore(probe) => probe_verdict(self@, outcome) is None && probe@
                    == probe_received(self@, outcome),
                ProbeStep::Finished(verdict) => probe_verdict(self@, outcome) == Some(verdict),
            },
    {
        let mut probe = self;
        match outcome {
            ReadOutcome::Byte(byte) => {
                probe.received.push(byte);
                if byte == TERMINATOR {
                    ProbeStep::Finished(parse_cursor_report(probe.received.as_slice()))
                } else {
                    ProbeStep::ReadMore(probe)
                }
            },
            ReadOutcome::Empty => ProbeStep::ReadMore(probe),
            ReadOutcome::Interrupted => ProbeStep::Finished(Err(IoError::Read)),
            ReadOutcome::Failed => ProbeStep::Finished(Err(IoError::Read)),
        }
    }
}

proof fn lemma_separator_index_is_first(body: Seq<u8>)
    ensures
        0 <= separator_index(body) <= body.len(),
        forall|i: int| 0 <= i < separator_index(body) ==> body[i] != SEPARATOR,
        separator_index(body) < body.len() ==> body[separator_index(body)] == SEPARATOR,
    decreases body.len(),
{
    if body.len() == 0 || body[0] == SEPARATOR {
    } else {
        let rest = body.drop_first();
        lemma_separator_index_is_first(rest);
        assert forall|i: int| 0 <= i < separator_index(body) implies body[i] != SEPARATOR by {
            if i > 0 {
                assert(body[i] == rest[i - 1]);
            }
        }
    }
}

proof fn lemma_field_holds_no_separator(field: Seq<u8>)
    requires
        field_value(field) is Some,
    ensures
        forall|i: int| 0 <= i < field.len() ==> field[i] != SEPARATOR,
{
    let digits = field_digits(field);
    assert forall|i: int| 0 <= i < field.len() implies field[i] != SEPARATOR by {
        if field[0] == PLUS_SIGN {
            if i > 0 {
                assert(is_digit(digits[i - 1]));
            }
        } else {
            assert(is_digit(digits[i]));
        }
    }
}

/// A report made of the prefix, a row field that holds a number, a separator,
/// a column field that holds a number, and the terminator is accepted, and
/// the size is that of its fields.
pub proof fn lemma_well_formed_report_is_accepted(row_field: Seq<u8>, column_field: Seq<u8>)
    requires
        field_value(row_field) is Some,
        field_value(column_field) is Some,
    ensures
        reported_size(report_of(row_field, column_field)) == Some(
            ScreenSize {
                columns: field_value(column_field).unwrap(),
                rows: field_value(row_field).unwrap(),
            },
        ),
{
    let report = report_of(row_field, column_field);
    let body = report.subrange(2, report.len() - 1);
    assert(body =~= row_field + seq![SEPARATOR] + column_field);
    lemma_field_holds_no_separator(row_field);
    lemma_separator_index_found(body, row_field.len() as int);
    assert(body.take(row_field.len() as int) =~= row_field);
    assert(body.skip(row_field.len() as int + 1) =~= column_field);
}

/// A report that is accepted is made of the prefix, a row field, a separator,
/// a column field and the terminator, and the size is that of its fields: no
/// other report yields a size, and no report yields another size.
pub proof fn lemma_accepted_report_is_well_formed(report: Seq<u8>)
    requires
        reported_size(report) is Some,
    ensures
        exists|row_field: Seq<u8>, column_field: Seq<u8>|
            {
                &&& report == #[trigger] report_of(row_field, column_field)
                &&& field_value(row_field) == Some(reported_size(report).unwrap().rows)
                &&& field_value(column_field) == Some(reported_size(report).unwrap().columns)
            },
{
    let body = report.subrange(2, report.len() - 1);
    let at = separator_index(body);
    lemma_separator_index_is_first(body);
    let row_field = body.take(at);
    let column_field = body.skip(at + 1);
    assert(report =~= report_of(row_field, column_field));
}

/// While neither the terminator arrives nor a read fails, a probe goes on
/// reading: it never settles on a size from a report that has not ended.
pub proof fn lemma_probe_waits_for_terminator(received: Seq<u8>, outcomes: Seq<ReadOutcome>)
    requires
        forall|i: int|
            0 <= i < outcomes.len() ==> #[trigger] outcomes[i] is Empty || (outcomes[i] is Byte
                && outcomes[i]->Byte_0 != TERMINATOR),
    ensures
        probe_run(received, outcomes) is None,
    decreases outcomes.len(),
{
    if outcomes.len() > 0 {
        let rest = outcomes.drop_first();
        assert forall|i: int| 0 <= i < rest.len() implies #[trigger] rest[i] is Empty || (
        rest[i] is Byte && rest[i]->Byte_0 != TERMINATOR) by {
            assert(rest[i] == outcomes[i + 1]);
        }
        lemma_probe_waits_for_terminator(probe_received(received, outcomes.first()), rest);
    }
}

/// A probe that ends with a size has read the terminator.
pub proof fn lemma_probe_success_needs_terminator(received: Seq<u8>, outcomes: Seq<ReadOutcome>)
    requires
        probe_run(received, outcomes) matches Some(Ok(_)),
    ensures
        exists|i: int|
            0 <= i < outcomes.len() && #[trigger] outcomes[i] == ReadOutcome::Byte(TERMINATOR),
    decreases outcomes.len(),
{
    if outcomes.len() > 0 {
        if probe_verdict(received, outcomes.first()) is Some {
            assert(outcomes[0] == ReadOutcome::Byte(TERMINATOR));
        } else {
            let rest = outcomes.drop_first();
            lemma_probe_success_needs_terminator(
                probe_received(received, outcomes.first()),
                rest,
            );
            let i = choose|i: int|
                0 <= i < rest.len() && #[trigger] rest[i] == ReadOutcome::Byte(TERMINATOR);
            assert(outcomes[i + 1] == ReadOutcome::Byte(TERMINATOR));
        }
    }
}

} // verus!
