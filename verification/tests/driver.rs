use terminal_session::attributes::{AttributeLayout, TerminalAttributes};
use terminal_session::driver::{exit_code, Action, Driver, Event, Phase};
use terminal_session::error::IoError;
use terminal_session::geometry::ScreenSize;
use terminal_session::input::ReadOutcome;
use terminal_session::session::TerminalSession;

fn saved() -> TerminalAttributes {
    TerminalAttributes {
        input_flags: 0o42402,
        output_flags: 0o5,
        control_flags: 0o2277,
        local_flags: 0o105073,
        control_chars: vec![3, 28, 127, 21, 4, 0, 1, 0, 17, 19, 26, 0, 18, 15, 23, 22],
    }
}

fn new_session() -> TerminalSession {
    let layout = AttributeLayout {
        break_interrupt: 0o2,
        carriage_return_to_newline: 0o400,
        parity_check: 0o20,
        strip_eighth_bit: 0o40,
        flow_control: 0o2000,
        output_processing: 0o1,
        eight_bit_chars: 0o60,
        echo: 0o10,
        canonical: 0o2,
        extended_input: 0o100000,
        signals: 0o1,
        min_slot: 6,
        timeout_slot: 5,
    };
    TerminalSession::create_with_layout(saved(), ScreenSize { columns: 10, rows: 3 }, layout)
        .unwrap()
}

fn raw() -> Action {
    Action::Apply(new_session().enable_raw_mode())
}

fn frame() -> Action {
    Action::Write(new_session().refresh_screen())
}

fn restore() -> Action {
    Action::Apply(saved())
}

fn key(byte: u8) -> Event {
    Event::Read(ReadOutcome::Byte(byte))
}

/// Every action of a run that takes the given events, the first included.
fn run(events: &[Event]) -> (Vec<Action>, Phase) {
    let (mut driver, first) = Driver::start(new_session());
    let mut actions = vec![first];
    for &event in events {
        actions.push(driver.step(event));
    }
    (actions, driver.phase())
}

#[test]
fn start_enables_raw_mode() {
    let (driver, first) = Driver::start(new_session());
    assert_eq!(first, raw());
    assert_eq!(driver.phase(), Phase::EnablingRawMode);
    assert_eq!(driver.session().saved_attributes(), &saved());
}

#[test]
fn control_q_ends_the_run_with_exit_code_zero() {
    let (actions, phase) = run(&[
        Event::Applied,
        Event::Written,
        key(0x11),
        Event::Written,
        Event::Written,
        Event::Applied,
    ]);
    assert_eq!(
        actions,
        vec![raw(), frame(), Action::Read, frame(), frame(), restore(), Action::Exit(Ok(()))]
    );
    assert_eq!(phase, Phase::Restored(Ok(())));
    assert_eq!(exit_code(Ok(())), 0);
}

#[test]
fn final_frame_is_the_clear_sequence() {
    let (actions, _) = run(&[
        Event::Applied,
        Event::Written,
        key(0x11),
        Event::Written,
        Event::Written,
        Event::Applied,
    ]);
    assert_eq!(
        actions[4],
        Action::Write(
            b"\x1b[?25l\x1b[H~\x1b[K\r\nSpaghetti editor -- verison 0.0.1\x1b[K\r\n~\x1b[K\x1b[H\x1b[?25h"
                .to_vec()
        )
    );
    assert_eq!(actions[5], Action::Apply(saved()));
}

#[test]
fn other_keys_refresh_and_read_again() {
    let (actions, phase) = run(&[
        Event::Applied,
        Event::Written,
        key(b'a'),
        Event::Written,
        key(0x00),
        Event::Written,
        key(0x7f),
        Event::Written,
    ]);
    assert_eq!(
        actions,
        vec![
            raw(),
            frame(),
            Action::Read,
            frame(),
            Action::Read,
            frame(),
            Action::Read,
            frame(),
            Action::Read
        ]
    );
    assert_eq!(phase, Phase::AwaitingKey);
}

#[test]
fn empty_and_interrupted_reads_are_repeated() {
    let (actions, phase) = run(&[
        Event::Applied,
        Event::Written,
        Event::Read(ReadOutcome::Empty),
        Event::Read(ReadOutcome::Interrupted),
        Event::Read(ReadOutcome::Empty),
    ]);
    assert_eq!(
        actions,
        vec![raw(), frame(), Action::Read, Action::Read, Action::Read, Action::Read]
    );
    assert_eq!(phase, Phase::AwaitingKey);
}

#[test]
fn read_failure_restores_and_exits_with_the_error() {
    let (actions, phase) = run(&[
        Event::Applied,
        Event::Written,
        Event::Read(ReadOutcome::Failed),
        Event::Written,
        Event::Applied,
    ]);
    assert_eq!(
        actions,
        vec![raw(), frame(), Action::Read, frame(), restore(), Action::Exit(Err(IoError::Read))]
    );
    assert_eq!(phase, Phase::Restored(Err(IoError::Read)));
    assert_eq!(exit_code(Err(IoError::Read)), 1);
}

#[test]
fn write_failure_restores_and_exits_with_the_error() {
    let (actions, _) = run(&[Event::Applied, Event::WriteFailed, Event::Written, Event::Applied]);
    assert_eq!(
        actions,
        vec![raw(), frame(), frame(), restore(), Action::Exit(Err(IoError::Write))]
    );
}

#[test]
fn failure_to_enable_raw_mode_restores_and_exits_with_the_error() {
    let (actions, _) = run(&[Event::ApplyFailed, Event::Written, Event::Applied]);
    assert_eq!(
        actions,
        vec![raw(), frame(), restore(), Action::Exit(Err(IoError::Attributes))]
    );
}

#[test]
fn write_failure_after_control_q_is_an_error() {
    let (actions, _) = run(&[
        Event::Applied,
        Event::Written,
        key(0x11),
        Event::WriteFailed,
        Event::Written,
        Event::Applied,
    ]);
    assert_eq!(
        actions,
        vec![
            raw(),
            frame(),
            Action::Read,
            frame(),
            frame(),
            restore(),
            Action::Exit(Err(IoError::Write))
        ]
    );
}

#[test]
fn cleanup_failures_are_passed_over() {
    let (actions, _) = run(&[
        Event::Applied,
        Event::Written,
        key(0x11),
        Event::Written,
        Event::WriteFailed,
        Event::ApplyFailed,
    ]);
    assert_eq!(
        actions,
        vec![raw(), frame(), Action::Read, frame(), frame(), restore(), Action::Exit(Ok(()))]
    );
    let (actions, _) = run(&[
        Event::Applied,
        Event::Written,
        Event::Read(ReadOutcome::Failed),
        Event::WriteFailed,
        Event::ApplyFailed,
    ]);
    assert_eq!(actions.last(), Some(&Action::Exit(Err(IoError::Read))));
}

#[test]
fn an_event_that_answers_nothing_repeats_the_action() {
    let (actions, phase) = run(&[Event::Written, key(0x11), Event::WriteFailed]);
    assert_eq!(actions, vec![raw(), raw(), raw(), raw()]);
    assert_eq!(phase, Phase::EnablingRawMode);
    let (actions, phase) = run(&[Event::Applied, Event::Applied, key(0x11), Event::ApplyFailed]);
    assert_eq!(actions, vec![raw(), frame(), frame(), frame(), frame()]);
    assert_eq!(phase, Phase::Refreshing);
    let (actions, phase) = run(&[Event::Applied, Event::Written, Event::Written, Event::Applied]);
    assert_eq!(actions, vec![raw(), frame(), Action::Read, Action::Read, Action::Read]);
    assert_eq!(phase, Phase::AwaitingKey);
}

#[test]
fn exit_is_final() {
    let (actions, phase) = run(&[
        Event::ApplyFailed,
        Event::Written,
        Event::Applied,
        Event::Applied,
        Event::Written,
        key(0x11),
        Event::Read(ReadOutcome::Failed),
    ]);
    assert_eq!(actions.len(), 8);
    for action in &actions[3..] {
        assert_eq!(action, &Action::Exit(Err(IoError::Attributes)));
    }
    assert_eq!(phase, Phase::Restored(Err(IoError::Attributes)));
}

#[test]
fn every_exit_follows_a_restore() {
    let alphabet = [
        Event::Applied,
        Event::ApplyFailed,
        Event::Written,
        Event::WriteFailed,
        key(0x11),
        key(b'x'),
        Event::Read(ReadOutcome::Empty),
        Event::Read(ReadOutcome::Failed),
    ];
    let mut script = vec![0usize; 6];
    loop {
        let events: Vec<Event> = script.iter().map(|&index| alphabet[index]).collect();
        let (actions, _) = run(&events);
        let mut last_applied = None;
        for action in &actions {
            match action {
                Action::Apply(attributes) => last_applied = Some(attributes.clone()),
                Action::Exit(_) => assert_eq!(last_applied, Some(saved()), "{:?}", events),
                _ => {}
            }
        }
        let mut place = 0;
        while place < script.len() && script[place] == alphabet.len() - 1 {
            script[place] = 0;
            place += 1;
        }
        if place == script.len() {
            break;
        }
        script[place] += 1;
    }
}

#[test]
fn exit_codes() {
    assert_eq!(exit_code(Ok(())), 0);
    for error in [
        IoError::Attributes,
        IoError::MalformedCursorReport,
        IoError::Read,
        IoError::Write,
    ] {
        assert_eq!(exit_code(Err(error)), 1);
    }
}
