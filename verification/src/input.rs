//! Keyboard input: what a single read of the input stream can yield, and what
//! reading a key makes of it.

use vstd::prelude::*;
use crate::error::IoError;

verus! {

/// The bits of a letter that its control chord keeps.
pub const CONTROL_MASK: u8 = 0x1f;

/// The letter `q`, whose control chord quits.
pub const QUIT_LETTER: u8 = 0x71;

/// What one read of a single byte from the input stream yielded.
#[derive(Clone, Copy, Debug, PartialEq, Eq, Structural)]
pub enum ReadOutcome {
    /// One byte arrived.
    Byte(u8),
    /// The read returned without a byte: its timeout ran out.
    Empty,
    /// The read was interrupted by a signal before any byte arrived.
    Interrupted,
    /// The read failed for any other reason.
    Failed,
}

/// What reading a key does after one read of the input stream.
#[derive(Clone, Copy, Debug, PartialEq, Eq, Structural)]
pub enum ReadStep {
    /// No key yet: read again.
    Retry,
    /// The key that was pressed.
    Key(u8),
    /// Reading failed.
    Fail(IoError),
}

/// The byte that a terminal sends for `letter` pressed together with control.
pub open spec fn control_chord(letter: u8) -> u8 {
    letter & CONTROL_MASK
}

/// The key that ends the session: control and `q`.
pub open spec fn quit_key() -> u8 {
    control_chord(QUIT_LETTER)
}

/// What [`read_key`] makes of one read.
pub open spec fn read_key_model(outcome: ReadOutcome) -> ReadStep {
    match outcome {
        ReadOutcome::Byte(byte) => ReadStep::Key(byte),
        ReadOutcome::Empty => ReadStep::Retry,
        ReadOutcome::Interrupted => ReadStep::Retry,
        ReadOutcome::Failed => ReadStep::Fail(IoError::Read),
    }
}

/// The keys that successive calls of [`read_key`] hand out while the input
/// stream yields `outcomes`, one read after the other.
pub open spec fn delivered_keys(outcomes: Seq<ReadOutcome>) -> Seq<u8>
    decreases outcomes.len(),
{
    if outcomes.len() == 0 {
        Seq::empty()
    } else {
        let before = delivered_keys(outcomes.drop_last());
        match read_key_model(outcomes.last()) {
            ReadStep::Key(key) => before.push(key),
            _ => before,
        }
    }
}

/// A read that did not fail: it yielded a byte, ran into its timeout or was
/// interrupted.
pub open spec fn is_not_failed(outcome: ReadOutcome) -> bool {
    outcome is Byte || outcome is Empty || outcome is Interrupted
}

/// A read that yielded a byte.
pub open spec fn is_byte(outcome: ReadOutcome) -> bool {
    outcome is Byte
}

/// The byte of a read that yielded one.
pub open spec fn byte_of(outcome: ReadOutcome) -> u8 {
    outcome->Byte_0
}

/// The byte of a control chord.
pub fn ctrl_key(letter: u8) -> (key: u8)
    ensures
        key == control_chord(letter),
        key <= CONTROL_MASK,
{
    assert(letter & 0x1f <= 0x1f) by (bit_vector);
    letter & CONTROL_MASK
}

/// Decides what reading a key does with the outcome of one read: a byte is the
/// key, whatever its value; an empty or interrupted read is tried again; any
/// other failure ends the attempt.
pub fn read_key(outcome: ReadOutcome) -> (step: ReadStep)
    ensures
        step == read_key_model(outcome),
{
    match outcome {
        ReadOutcome::Byte(byte) => ReadStep::Key(byte),
        ReadOutcome::Empty => ReadStep::Retry,
        ReadOutcome::Interrupted => ReadStep::Retry,
        ReadOutcome::Failed => ReadStep::Fail(IoError::Read),
    }
}

/// The quit key is the byte 0x11.
pub proof fn lemma_quit_key_value()
    ensures
        quit_key() == 0x11,
{
    assert(0x71u8 & 0x1fu8 == 0x11u8) by (bit_vector);
}

/// The keys delivered over two stretches of reads are those of the first
/// stretch followed by those of the second.
pub proof fn lemma_delivered_keys_concat(first: Seq<ReadOutcome>, second: Seq<ReadOutcome>)
    ensures
        delivered_keys(first + second) == delivered_keys(first) + delivered_keys(second),
    decreases second.len(),
{
    if second.len() == 0 {
        assert(first + second =~= first);
        assert(delivered_keys(first) + delivered_keys(second) =~= delivered_keys(first));
    } else {
        assert((first + second).drop_last() =~= first + second.drop_last());
        assert((first + second).last() == second.last());
        lemma_delivered_keys_concat(first, second.drop_last());
        let before = delivered_keys(first) + delivered_keys(second.drop_last());
        match read_key_model(second.last()) {
            ReadStep::Key(key) => {
                assert(before.push(key) =~= delivered_keys(first) + delivered_keys(
                    second.drop_last(),
                ).push(key));
            },
            _ => {},
        }
    }
}

/// Whatever bytes arrive, and however many reads in between run into their
/// timeout or are interrupted, every byte is delivered as a key exactly once
/// and in the order of arrival, and no read without a byte delivers anything.
pub proof fn lemma_each_byte_delivered_once_in_order(outcomes: Seq<ReadOutcome>)
    requires
        forall|i: int| 0 <= i < outcomes.len() ==> is_not_failed(#[trigger] outcomes[i]),
    ensures
        delivered_keys(outcomes) == outcomes.filter(|o: ReadOutcome| is_byte(o)).map_values(
            |o: ReadOutcome| byte_of(o),
        ),
    decreases outcomes.len(),
{
    let pick = |o: ReadOutcome| is_byte(o);
    let value = |o: ReadOutcome| byte_of(o);
    reveal(Seq::filter);
    if outcomes.len() == 0 {
        assert(outcomes.filter(pick).map_values(value) =~= Seq::<u8>::empty());
    } else {
        let front = outcomes.drop_last();
        lemma_each_byte_delivered_once_in_order(front);
        if is_byte(outcomes.last()) {
            assert(outcomes.filter(pick) == front.filter(pick).push(outcomes.last()));
            assert(outcomes.filter(pick).map_values(value) =~= front.filter(pick).map_values(
                value,
            ).push(byte_of(outcomes.last())));
        } else {
            assert(outcomes.filter(pick) == front.filter(pick));
        }
    }
}

} // verus!
