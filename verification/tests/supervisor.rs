use screenstub::config::{ConfigQemuDriver, ConfigScreen};
use screenstub::input::{EventKind, EventTime, InputEvent};
use screenstub::route::{RouteClass, RouteError, RouteState, RouteTarget, Router, SendError};
use screenstub::supervisor::{
    exit_code, main_outcome, main_step, screen_config, shutdown_steps, MainEvent, MainStep,
    NoScreenConfig, ShutdownStep,
};

type Step = MainStep<&'static str, RouteError>;

#[test]
fn main_step_decides_each_event() {
    let error = RouteError::Forward(RouteClass::Keyboard);
    assert_eq!(main_step::<&str, RouteError>(MainEvent::XExited), Step::Break(Ok(())));
    assert_eq!(main_step::<&str, RouteError>(MainEvent::Error(Some(error))), Step::Break(Err(error)));
    assert_eq!(main_step::<&str, RouteError>(MainEvent::Error(None)), Step::Continue);
    assert_eq!(main_step::<&str, RouteError>(MainEvent::User(Some("show"))), Step::Spawn("show"));
    assert_eq!(main_step::<&str, RouteError>(MainEvent::User(None)), Step::Continue);
    assert_eq!(main_step::<&str, RouteError>(MainEvent::Qmp), Step::Continue);
}

#[test]
fn shutdown_takes_its_steps_in_order() {
    assert_eq!(
        shutdown_steps(),
        vec![
            ShutdownStep::QuitCapture,
            ShutdownStep::CloseSenders,
            ShutdownStep::AbortEventLoop,
            ShutdownStep::JoinTasks,
        ]
    );
}

#[test]
fn main_outcome_prefers_the_join_error() {
    assert_eq!(main_outcome::<u8>(Ok(()), Ok(())), Ok(0));
    assert_eq!(main_outcome(Err(1u8), Ok(())), Err(1));
    assert_eq!(main_outcome(Ok(()), Err(2u8)), Err(2));
    assert_eq!(main_outcome(Err(1u8), Err(2u8)), Err(2));
}

#[test]
fn exit_code_is_one_for_any_failure() {
    assert_eq!(exit_code::<u8>(&Ok(0)), 0);
    assert_eq!(exit_code::<u8>(&Ok(7)), 7);
    assert_eq!(exit_code(&Err::<i32, u8>(0)), 1);
    assert_eq!(exit_code(&Err::<i32, &str>("route failed")), 1);
}

#[test]
fn screen_config_is_the_first_screen() {
    assert_eq!(screen_config(&vec![]), Err(NoScreenConfig));
    let mut first = ConfigScreen::default();
    first.qemu.driver = ConfigQemuDriver::Virtio;
    let config = vec![first.clone(), ConfigScreen::default()];
    assert_eq!(screen_config(&config), Ok(&first));
}

#[test]
fn route_failure_shuts_the_session_down_with_a_nonzero_code() {
    let mut router = Router::new(ConfigQemuDriver::Virtio, false);
    for class in [RouteClass::Keyboard, RouteClass::Relative, RouteClass::Absolute] {
        router.spawn(class, true).unwrap();
    }
    let key = InputEvent {
        time: EventTime { seconds: 0, microseconds: 0 },
        kind: EventKind::Key,
        code: 30,
        value: 1,
    };
    assert!(router.send(RouteTarget::One(RouteClass::Keyboard), key).complete());
    assert_eq!(router.next(RouteClass::Keyboard), Some(key));

    let mut errors: Vec<RouteError> = Vec::new();
    errors.extend(router.forwarded(RouteClass::Keyboard, false));
    errors.extend(router.forwarded(RouteClass::Keyboard, false));
    errors.extend(router.forwarded(RouteClass::Relative, true));
    assert_eq!(errors, vec![RouteError::Forward(RouteClass::Keyboard)]);

    let ended = match main_step::<(), RouteError>(MainEvent::Error(errors.pop())) {
        MainStep::Break(ended) => ended,
        _ => panic!("an error ends the main loop"),
    };
    assert_eq!(shutdown_steps()[1], ShutdownStep::CloseSenders);
    router.shutdown();
    assert_eq!(router.get(RouteClass::Relative).get_state(), RouteState::Draining);
    assert_eq!(router.get(RouteClass::Absolute).get_state(), RouteState::Draining);
    let refused = router.send(RouteTarget::All, key);
    assert_eq!(refused.keyboard, Some(Err(SendError::Closed)));
    assert_eq!(refused.relative, Some(Err(SendError::Closed)));
    assert_eq!(refused.absolute, Some(Err(SendError::Closed)));
    assert!(router.is_finished());

    let outcome = main_outcome(ended, Ok(()));
    assert_eq!(outcome, Err(RouteError::Forward(RouteClass::Keyboard)));
    assert_ne!(exit_code(&outcome), 0);
    assert_eq!(exit_code(&outcome), 1);
}
