use job_security::pty::window_size_or_default;
use job_security::pty::{
    controlling_tty_start, controlling_tty_step, default_term_char, term_char_step, wait_echo_step,
    EchoAction, EchoEvent, SpecialChar, TermCharNext, TtyAction, TtyEvent, TtyFailure, TtyStage,
    DEFAULT_TERM_COLS, DEFAULT_TERM_ROWS,
};

const ENXIO: i32 = 6;

fn no_device() -> TtyEvent {
    TtyEvent::Failed { errno: ENXIO, no_device: true }
}

fn run(events: &[TtyEvent]) -> Vec<TtyAction> {
    let (mut stage, first) = controlling_tty_start();
    let mut actions = vec![first];
    for e in events {
        let (next_stage, action) = controlling_tty_step(stage, *e);
        stage = next_stage;
        actions.push(action);
    }
    actions
}

#[test]
fn default_window_size() {
    assert_eq!((DEFAULT_TERM_COLS, DEFAULT_TERM_ROWS), (80, 24));
}

#[test]
fn term_char_lookup() {
    assert_eq!(default_term_char(SpecialChar::Intr), 3);
    assert_eq!(default_term_char(SpecialChar::Eof), 4);
    assert_eq!(term_char_step(SpecialChar::Eof, 0, None), TermCharNext::Ask(0));
    assert_eq!(term_char_step(SpecialChar::Eof, 1, Some(26)), TermCharNext::Use(26));
    assert_eq!(term_char_step(SpecialChar::Eof, 1, None), TermCharNext::Ask(1));
    assert_eq!(term_char_step(SpecialChar::Eof, 2, None), TermCharNext::Use(4));
    assert_eq!(term_char_step(SpecialChar::Intr, 2, None), TermCharNext::Use(3));
    assert_eq!(term_char_step(SpecialChar::Intr, 2, Some(0x7f)), TermCharNext::Use(0x7f));
}

#[test]
fn echo_wait() {
    assert_eq!(wait_echo_step(true, None, EchoEvent::Clock { elapsed_nanos: u128::MAX }), EchoAction::ReadEcho);
    assert_eq!(wait_echo_step(true, Some(100), EchoEvent::Clock { elapsed_nanos: 99 }), EchoAction::ReadEcho);
    assert_eq!(wait_echo_step(true, Some(100), EchoEvent::Clock { elapsed_nanos: 100 }), EchoAction::Finish(false));
    assert_eq!(wait_echo_step(false, Some(100), EchoEvent::Echo(false)), EchoAction::Finish(true));
    assert_eq!(wait_echo_step(false, Some(100), EchoEvent::Echo(true)), EchoAction::Sleep { millis: 100 });
}

#[test]
fn controlling_tty_success_without_old_terminal() {
    let actions = run(&[no_device(), TtyEvent::Done, no_device(), TtyEvent::Opened(5), TtyEvent::Done, TtyEvent::Opened(6), TtyEvent::Done]);
    assert_eq!(
        actions,
        vec![
            TtyAction::OpenDevTty,
            TtyAction::CreateSession,
            TtyAction::OpenDevTty,
            TtyAction::OpenPts,
            TtyAction::Close(5),
            TtyAction::OpenDevTtyWriteOnly,
            TtyAction::Close(6),
            TtyAction::Finish(Ok(())),
        ]
    );
}

#[test]
fn controlling_tty_closes_old_terminal() {
    let actions = run(&[TtyEvent::Opened(3), TtyEvent::Done, TtyEvent::Done]);
    assert_eq!(actions, vec![TtyAction::OpenDevTty, TtyAction::Close(3), TtyAction::CreateSession, TtyAction::OpenDevTty]);
}

#[test]
fn controlling_tty_still_attached_is_not_supported() {
    let actions = run(&[no_device(), TtyEvent::Done, TtyEvent::Opened(4), TtyEvent::Done]);
    assert_eq!(actions.last(), Some(&TtyAction::Finish(Err(TtyFailure::NotSupported))));
    let actions = run(&[no_device(), TtyEvent::Done, TtyEvent::Failed { errno: 13, no_device: false }]);
    assert_eq!(actions.last(), Some(&TtyAction::Finish(Err(TtyFailure::NotSupported))));
}

#[test]
fn controlling_tty_passes_errors_on() {
    let actions = run(&[TtyEvent::Failed { errno: 13, no_device: false }]);
    assert_eq!(actions.last(), Some(&TtyAction::Finish(Err(TtyFailure::Os(13)))));
    let actions = run(&[no_device(), TtyEvent::Failed { errno: 1, no_device: false }]);
    assert_eq!(actions.last(), Some(&TtyAction::Finish(Err(TtyFailure::Os(1)))));
    let actions = run(&[no_device(), TtyEvent::Done, no_device(), no_device()]);
    assert_eq!(actions.last(), Some(&TtyAction::Finish(Err(TtyFailure::Os(ENXIO)))));
    let (stage, _) = controlling_tty_step(TtyStage::ProbeAttached, TtyEvent::Failed { errno: 5, no_device: false });
    assert_eq!(stage, TtyStage::Finished);
}

#[test]
fn window_size_defaults_to_80x24() {
    assert_eq!(window_size_or_default(0, 0), (80, 24));
    assert_eq!(window_size_or_default(120, 40), (120, 40));
    assert_eq!(window_size_or_default(0, 40), (0, 40));
}
