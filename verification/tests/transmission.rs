use hidapi::HidError;
use kludged::keyboards::rk68::Rk68;
use kludged::keyboards::transmission::{Action, Stage, Transmission};
use kludged::keyboards::{DeviceInfo, KeyboardAnimatable, KeyboardColorable};

fn keyboard() -> Rk68 {
    Rk68::new(DeviceInfo {
        vendor_id: 0x258A,
        product_id: 0x005E,
        interface_number: 1,
        usage: 128,
        usage_page: 1,
        path: b"/dev/hidraw0".to_vec(),
    })
}

fn failure() -> HidError {
    HidError::HidApiError {
        message: "no".to_string(),
    }
}

/// Runs a transmission to its end. `fails` says whether the action with this
/// number fails, counted from zero. What was asked for is written down.
fn run(
    start: (Transmission, Action),
    fails: impl Fn(usize) -> bool,
) -> (Vec<String>, Result<(), HidError>) {
    let (mut transmission, mut action) = start;
    let mut log = Vec::new();
    loop {
        let outcome = match action {
            Action::Open => {
                log.push("open".to_string());
                if fails(log.len() - 1) {
                    Err(failure())
                } else {
                    Ok(())
                }
            }
            Action::Send { step } => {
                log.push(format!("send {step}"));
                if fails(log.len() - 1) {
                    Err(failure())
                } else {
                    Ok(())
                }
            }
            Action::Pause { millis } => {
                log.push(format!("pause {millis}"));
                Ok(())
            }
            Action::Finish { result } => return (log, result),
        };
        let next = transmission.next(outcome);
        transmission = next.0;
        action = next.1;
    }
}

#[test]
fn a_failed_open_sends_nothing() {
    let (transmission, action) = keyboard().apply_color();
    assert!(matches!(action, Action::Open));
    let (transmission, action) = transmission.next(Err(failure()));
    assert!(matches!(
        action,
        Action::Finish {
            result: Err(HidError::HidApiError { .. })
        }
    ));
    assert!(matches!(transmission.stage, Stage::Finished));

    let (log, result) = run(keyboard().apply_color(), |action| action == 0);
    assert_eq!(log, vec!["open"]);
    assert!(result.is_err());
    let (log, result) = run(keyboard().apply_animation(), |action| action == 0);
    assert_eq!(log, vec!["open"]);
    assert!(result.is_err());
}

#[test]
fn a_color_goes_out_in_seven_steps() {
    let (log, result) = run(keyboard().apply_color(), |_| false);
    assert_eq!(
        log,
        vec![
            "open", "send 0", "pause 5", "send 1", "pause 5", "send 2", "pause 5", "send 3",
            "pause 5", "send 4", "pause 5", "send 5", "pause 5", "send 6", "pause 5",
        ]
    );
    assert!(result.is_ok());
}

#[test]
fn an_animation_goes_out_in_one_step() {
    let (log, result) = run(keyboard().apply_animation(), |_| false);
    assert_eq!(log, vec!["open", "send 0"]);
    assert!(result.is_ok());
}

#[test]
fn a_failed_step_ends_the_color_after_its_pause() {
    // Action 5 is the third step.
    let (log, result) = run(keyboard().apply_color(), |action| action == 5);
    assert_eq!(
        log,
        vec!["open", "send 0", "pause 5", "send 1", "pause 5", "send 2", "pause 5"]
    );
    assert!(matches!(result, Err(HidError::HidApiError { .. })));
}

#[test]
fn a_failed_last_step_fails_the_color() {
    let (log, result) = run(keyboard().apply_color(), |action| action == 13);
    assert_eq!(log.len(), 15);
    assert_eq!(log[13], "send 6");
    assert_eq!(log[14], "pause 5");
    assert!(result.is_err());
}

#[test]
fn a_failed_step_ends_the_animation_at_once() {
    let (log, result) = run(keyboard().apply_animation(), |action| action == 1);
    assert_eq!(log, vec!["open", "send 0"]);
    assert!(result.is_err());
}

#[test]
fn the_error_that_ends_a_transmission_is_the_one_that_came() {
    let (transmission, _) = Transmission::start(2, None);
    let (transmission, _) = transmission.next(Ok(()));
    let (_, action) = transmission.next(Err(HidError::IncompleteSendError { sent: 3, all: 65 }));
    assert!(matches!(
        action,
        Action::Finish {
            result: Err(HidError::IncompleteSendError { sent: 3, all: 65 })
        }
    ));
}

#[test]
fn a_packet_without_steps_ends_after_the_open() {
    let (log, result) = run(Transmission::start(0, Some(5)), |_| false);
    assert_eq!(log, vec!["open"]);
    assert!(result.is_ok());
}

#[test]
fn start_sets_the_transmission_up() {
    let (transmission, action) = Transmission::start(7, Some(5));
    assert!(matches!(action, Action::Open));
    assert_eq!(transmission.step_count, 7);
    assert_eq!(transmission.pause, Some(5));
    assert!(matches!(transmission.stage, Stage::Opening));
    let (transmission, _) = keyboard().apply_animation();
    assert_eq!(transmission.step_count, 1);
    assert_eq!(transmission.pause, None);
}

#[test]
fn the_stages_of_a_step_with_a_pause() {
    let (transmission, _) = Transmission::start(2, Some(9));
    let (transmission, action) = transmission.next(Ok(()));
    assert!(matches!(action, Action::Send { step: 0 }));
    assert!(matches!(transmission.stage, Stage::Sending { step: 0 }));
    let (transmission, action) = transmission.next(Ok(()));
    assert!(matches!(action, Action::Pause { millis: 9 }));
    assert!(matches!(
        transmission.stage,
        Stage::Pausing {
            step: 0,
            failure: None
        }
    ));
    let (transmission, action) = transmission.next(Ok(()));
    assert!(matches!(action, Action::Send { step: 1 }));
    let (transmission, _) = transmission.next(Err(failure()));
    assert!(matches!(
        transmission.stage,
        Stage::Pausing {
            step: 1,
            failure: Some(_)
        }
    ));
    let (transmission, action) = transmission.next(Ok(()));
    assert!(matches!(action, Action::Finish { result: Err(_) }));
    assert!(matches!(transmission.stage, Stage::Finished));
}

#[test]
fn a_transmission_knows_its_state() {
    let (transmission, _) = Transmission::start(1, None);
    assert!(transmission.is_wf());
    assert!(!transmission.is_finished());
    let (transmission, _) = transmission.next(Ok(()));
    assert!(transmission.is_wf());
    assert!(!transmission.is_finished());
    let (transmission, _) = transmission.next(Ok(()));
    assert!(transmission.is_wf());
    assert!(transmission.is_finished());
    let astray = Transmission {
        step_count: 2,
        pause: None,
        stage: Stage::Sending { step: 2 },
    };
    assert!(!astray.is_wf());
    let astray = Transmission {
        step_count: 2,
        pause: Some(5),
        stage: Stage::Pausing {
            step: 7,
            failure: None,
        },
    };
    assert!(!astray.is_wf());
}
