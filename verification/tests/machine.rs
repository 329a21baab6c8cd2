use focus_paste::error::{PasteError, Phase, Stage};
use focus_paste::keys::{Direction, Key, KeyEvent, Platform};
use focus_paste::machine::PasteMachine;
use focus_paste::model::{Action, Event};
use focus_paste::plan::{plan, Step, SETTLE_DELAY_MS};

fn key_event(key: Key, direction: Direction) -> KeyEvent {
    KeyEvent { key, direction }
}

fn emit(key: Key, direction: Direction) -> Step {
    Step::Emit(key_event(key, direction))
}

/// What a scripted system answers: whether the handle can be had, and which
/// key event, counted from zero over the key events alone, is rejected.
struct Script {
    handle: Result<(), &'static str>,
    reject_key: Option<(usize, &'static str)>,
}

/// What a driver saw: every action it performed, and the result.
struct Seen {
    acquired: usize,
    log: Vec<Step>,
    result: Result<(), PasteError>,
    machine: PasteMachine,
}

fn drive(mut machine: PasteMachine, script: &Script) -> Seen {
    let mut acquired = 0;
    let mut keys_sent = 0;
    let mut log = Vec::new();
    for _ in 0..100 {
        match machine.next_action() {
            Action::Acquire => {
                acquired += 1;
                machine.advance(match script.handle {
                    Ok(()) => Event::HandleAcquired,
                    Err(text) => Event::HandleUnavailable(text.to_string()),
                });
            }
            Action::Emit(event) => {
                log.push(Step::Emit(event));
                let report = match script.reject_key {
                    Some((index, text)) if index == keys_sent => {
                        Event::KeyRejected(text.to_string())
                    }
                    _ => Event::KeySent,
                };
                keys_sent += 1;
                machine.advance(report);
            }
            Action::Wait(millis) => {
                log.push(Step::Wait(millis));
                machine.advance(Event::DelayElapsed);
            }
            Action::Finish(result) => {
                return Seen { acquired, log, result, machine };
            }
        }
    }
    panic!("the operation did not come to an end");
}

const ALL_GOOD: Script = Script { handle: Ok(()), reject_key: None };

#[test]
fn macos_all_events_succeed() {
    let seen = drive(PasteMachine::new(Platform::MacOs), &ALL_GOOD);
    assert_eq!(seen.result, Ok(()));
    assert_eq!(seen.acquired, 1);
    assert_eq!(
        seen.log,
        vec![
            emit(Key::Meta, Direction::Press),
            emit(Key::Tab, Direction::Click),
            emit(Key::Meta, Direction::Release),
            Step::Wait(300),
            emit(Key::Meta, Direction::Press),
            emit(Key::Unicode('v'), Direction::Click),
            emit(Key::Meta, Direction::Release),
        ]
    );
    assert_eq!(seen.machine.attempted(), seen.log);
}

#[test]
fn windows_all_events_succeed() {
    let seen = drive(PasteMachine::new(Platform::Windows), &ALL_GOOD);
    assert_eq!(seen.result, Ok(()));
    assert_eq!(seen.acquired, 1);
    assert_eq!(
        seen.log,
        vec![
            emit(Key::Alt, Direction::Press),
            emit(Key::Tab, Direction::Click),
            emit(Key::Alt, Direction::Release),
            Step::Wait(300),
            emit(Key::Control, Direction::Press),
            emit(Key::Unicode('v'), Direction::Click),
            emit(Key::Control, Direction::Release),
        ]
    );
    assert_eq!(seen.machine.attempted(), seen.log);
}

#[test]
fn windows_alt_press_fails() {
    let script = Script { handle: Ok(()), reject_key: Some((0, "simulating input failed: (x)")) };
    let seen = drive(PasteMachine::new(Platform::Windows), &script);
    assert_eq!(
        seen.result,
        Err(PasteError::KeyEventFailed {
            stage: Stage { phase: Phase::Switch, event: key_event(Key::Alt, Direction::Press) },
            message: "simulating input failed: (x)".to_string(),
        })
    );
    assert_eq!(seen.log, vec![emit(Key::Alt, Direction::Press)]);
    assert!(!seen.log.iter().any(|step| matches!(step, Step::Wait(_))));
    assert_eq!(seen.machine.attempted(), seen.log);
}

#[test]
fn unsupported_platform_succeeds_without_any_action() {
    for script in [
        ALL_GOOD,
        Script { handle: Err("no permission"), reject_key: None },
        Script { handle: Ok(()), reject_key: Some((0, "rejected")) },
    ] {
        let seen = drive(PasteMachine::new(Platform::Other), &script);
        assert_eq!(seen.result, Ok(()));
        assert_eq!(seen.acquired, 0);
        assert_eq!(seen.log, Vec::<Step>::new());
        assert_eq!(seen.machine.attempted(), Vec::<Step>::new());
    }
}

#[test]
fn unsupported_platform_ignores_every_report() {
    let mut machine = PasteMachine::new(Platform::Other);
    for event in [
        Event::HandleAcquired,
        Event::HandleUnavailable("no".to_string()),
        Event::KeySent,
        Event::KeyRejected("no".to_string()),
        Event::DelayElapsed,
    ] {
        machine.advance(event);
        assert_eq!(machine.next_action(), Action::Finish(Ok(())));
        assert_eq!(machine.attempted(), Vec::<Step>::new());
    }
}

#[test]
fn handle_unavailable_emits_nothing() {
    for platform in [Platform::MacOs, Platform::Windows] {
        let script = Script {
            handle: Err("the application does not have the permission to simulate input"),
            reject_key: None,
        };
        let seen = drive(PasteMachine::new(platform), &script);
        assert_eq!(
            seen.result,
            Err(PasteError::InputHandleUnavailable {
                message: "the application does not have the permission to simulate input"
                    .to_string(),
            })
        );
        assert_eq!(seen.acquired, 1);
        assert_eq!(seen.log, Vec::<Step>::new());
        assert_eq!(seen.machine.attempted(), Vec::<Step>::new());
    }
}

#[test]
fn first_action_on_a_supported_platform_is_the_handle() {
    assert_eq!(PasteMachine::new(Platform::MacOs).next_action(), Action::Acquire);
    assert_eq!(PasteMachine::new(Platform::Windows).next_action(), Action::Acquire);
}

#[test]
fn any_rejected_key_event_stops_the_sequence() {
    for platform in [Platform::MacOs, Platform::Windows] {
        let steps = plan(platform, SETTLE_DELAY_MS);
        let key_positions = [0usize, 1, 2, 4, 5, 6];
        for (nth, position) in key_positions.iter().enumerate() {
            let script = Script { handle: Ok(()), reject_key: Some((nth, "rejected")) };
            let seen = drive(PasteMachine::new(platform), &script);
            let failed = match steps[*position] {
                Step::Emit(event) => event,
                Step::Wait(_) => unreachable!(),
            };
            let phase = if *position < 3 { Phase::Switch } else { Phase::Paste };
            assert_eq!(
                seen.result,
                Err(PasteError::KeyEventFailed {
                    stage: Stage { phase, event: failed },
                    message: "rejected".to_string(),
                })
            );
            assert_eq!(seen.log, steps[..=*position].to_vec());
            assert_eq!(seen.machine.attempted(), seen.log);
        }
    }
}

#[test]
fn macos_meta_press_names_its_phase() {
    let in_switch = drive(
        PasteMachine::new(Platform::MacOs),
        &Script { handle: Ok(()), reject_key: Some((0, "a")) },
    );
    let in_paste = drive(
        PasteMachine::new(Platform::MacOs),
        &Script { handle: Ok(()), reject_key: Some((3, "b")) },
    );
    assert_eq!(
        in_switch.result,
        Err(PasteError::KeyEventFailed {
            stage: Stage { phase: Phase::Switch, event: key_event(Key::Meta, Direction::Press) },
            message: "a".to_string(),
        })
    );
    assert_eq!(
        in_paste.result,
        Err(PasteError::KeyEventFailed {
            stage: Stage { phase: Phase::Paste, event: key_event(Key::Meta, Direction::Press) },
            message: "b".to_string(),
        })
    );
    assert_eq!(in_switch.log.len(), 1);
    assert_eq!(in_paste.log.len(), 5);
}

#[test]
fn a_failure_before_the_delay_incurs_no_delay() {
    for platform in [Platform::MacOs, Platform::Windows] {
        for nth in 0..3 {
            let script = Script { handle: Ok(()), reject_key: Some((nth, "rejected")) };
            let seen = drive(PasteMachine::new(platform), &script);
            assert!(seen.log.iter().all(|step| matches!(step, Step::Emit(_))));
        }
        for nth in 3..6 {
            let script = Script { handle: Ok(()), reject_key: Some((nth, "rejected")) };
            let seen = drive(PasteMachine::new(platform), &script);
            assert_eq!(seen.log[3], Step::Wait(300));
            assert_eq!(seen.log.iter().filter(|step| matches!(step, Step::Wait(_))).count(), 1);
        }
    }
}

#[test]
fn nothing_changes_once_the_operation_has_failed() {
    let mut machine = PasteMachine::new(Platform::Windows);
    machine.advance(Event::HandleAcquired);
    machine.advance(Event::KeySent);
    machine.advance(Event::KeyRejected("first".to_string()));
    let expected = Action::Finish(Err(PasteError::KeyEventFailed {
        stage: Stage { phase: Phase::Switch, event: key_event(Key::Tab, Direction::Click) },
        message: "first".to_string(),
    }));
    let log = vec![emit(Key::Alt, Direction::Press), emit(Key::Tab, Direction::Click)];
    assert_eq!(machine.next_action(), expected);
    assert_eq!(machine.attempted(), log);
    for event in [
        Event::KeySent,
        Event::KeyRejected("second".to_string()),
        Event::DelayElapsed,
        Event::HandleAcquired,
        Event::HandleUnavailable("third".to_string()),
    ] {
        machine.advance(event);
        assert_eq!(machine.next_action(), expected);
        assert_eq!(machine.attempted(), log);
    }
}

#[test]
fn nothing_changes_once_the_operation_has_succeeded() {
    let mut seen = drive(PasteMachine::new(Platform::MacOs), &ALL_GOOD);
    for event in [Event::KeySent, Event::KeyRejected("late".to_string()), Event::DelayElapsed] {
        seen.machine.advance(event);
        assert_eq!(seen.machine.next_action(), Action::Finish(Ok(())));
        assert_eq!(seen.machine.attempted(), plan(Platform::MacOs, SETTLE_DELAY_MS));
    }
}

#[test]
fn a_report_that_does_not_answer_the_pending_action_is_ignored() {
    let mut machine = PasteMachine::new(Platform::MacOs);
    machine.advance(Event::KeySent);
    machine.advance(Event::DelayElapsed);
    machine.advance(Event::KeyRejected("early".to_string()));
    assert_eq!(machine.next_action(), Action::Acquire);

    machine.advance(Event::HandleAcquired);
    let first = Action::Emit(key_event(Key::Meta, Direction::Press));
    assert_eq!(machine.next_action(), first);
    machine.advance(Event::DelayElapsed);
    machine.advance(Event::HandleAcquired);
    machine.advance(Event::HandleUnavailable("late".to_string()));
    assert_eq!(machine.next_action(), first);
    assert_eq!(machine.attempted(), Vec::<Step>::new());

    machine.advance(Event::KeySent);
    machine.advance(Event::KeySent);
    machine.advance(Event::KeySent);
    assert_eq!(machine.next_action(), Action::Wait(300));
    machine.advance(Event::KeySent);
    machine.advance(Event::KeyRejected("not a key".to_string()));
    assert_eq!(machine.next_action(), Action::Wait(300));
    assert_eq!(machine.attempted().len(), 3);
}

#[test]
fn asking_again_gives_the_same_action() {
    let mut machine = PasteMachine::new(Platform::Windows);
    assert_eq!(machine.next_action(), machine.next_action());
    machine.advance(Event::HandleAcquired);
    assert_eq!(machine.next_action(), machine.next_action());
    assert_eq!(machine.attempted(), Vec::<Step>::new());
}

#[test]
fn the_delay_is_asked_for_after_exactly_the_switch_shortcut() {
    for platform in [Platform::MacOs, Platform::Windows] {
        let mut machine = PasteMachine::new(platform);
        machine.advance(Event::HandleAcquired);
        let mut sent = 0;
        loop {
            match machine.next_action() {
                Action::Emit(_) => {
                    machine.advance(Event::KeySent);
                    sent += 1;
                }
                Action::Wait(millis) => {
                    assert_eq!(millis, 300);
                    assert_eq!(sent, 3);
                    assert_eq!(machine.attempted(), plan(platform, 300)[..3].to_vec());
                    break;
                }
                other => panic!("unexpected action {:?}", other),
            }
        }
    }
}

#[test]
fn a_custom_settle_delay_is_used_as_given() {
    for millis in [0u64, 25, 1_000, u64::MAX] {
        let seen = drive(PasteMachine::with_settle_delay(Platform::Windows, millis), &ALL_GOOD);
        assert_eq!(seen.result, Ok(()));
        assert_eq!(seen.log, plan(Platform::Windows, millis));
        assert_eq!(seen.log[3], Step::Wait(millis));
    }
}

#[test]
fn a_custom_settle_delay_on_an_unsupported_platform_changes_nothing() {
    let seen = drive(PasteMachine::with_settle_delay(Platform::Other, 25), &ALL_GOOD);
    assert_eq!(seen.result, Ok(()));
    assert_eq!(seen.log, Vec::<Step>::new());
}

#[test]
fn error_message_is_the_backend_text() {
    let unavailable = PasteError::InputHandleUnavailable { message: "no display".to_string() };
    assert_eq!(unavailable.message(), "no display");
    let rejected = PasteError::KeyEventFailed {
        stage: Stage { phase: Phase::Paste, event: key_event(Key::Unicode('v'), Direction::Click) },
        message: "simulating input failed: (queue full)".to_string(),
    };
    assert_eq!(rejected.message(), "simulating input failed: (queue full)");
}

#[test]
fn error_clone_is_equal() {
    let unavailable = PasteError::InputHandleUnavailable { message: "no display".to_string() };
    assert_eq!(unavailable.clone(), unavailable);
    let rejected = PasteError::KeyEventFailed {
        stage: Stage { phase: Phase::Switch, event: key_event(Key::Alt, Direction::Release) },
        message: "gone".to_string(),
    };
    assert_eq!(rejected.clone(), rejected);
    assert_ne!(rejected, unavailable);
}
