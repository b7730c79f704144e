//! The decisions of the main loop: what each thing that can happen to the
//! running session leads to, how the session is shut down, and with what
//! code the process exits.

use crate::config::{Config, ConfigScreen};
use vstd::prelude::*;

verus! {

/// What the main loop waits for. `A` is a control action ready to be
/// carried out, `E` a fatal error.
#[derive(Debug, PartialEq, Eq)]
pub enum MainEvent<A, E> {
    /// The display-server side has ended its stream of reports.
    XExited,
    /// The shared error channel yielded: an error, or its end.
    Error(Option<E>),
    /// The queue of control actions yielded: an action, or its end.
    User(Option<A>),
    /// The virtual machine sent a notification.
    Qmp,
}

/// What the main loop does about an event.
#[derive(Debug, PartialEq, Eq)]
pub enum MainStep<A, E> {
    /// Leave the loop and shut down, with this result.
    Break(Result<(), E>),
    /// Carry out the action as a task of its own, and go on.
    Spawn(A),
    /// Go on.
    Continue,
}

/// The steps of the shutdown, in the order in which they are taken.
#[derive(Debug, Copy, Clone, PartialEq, Eq, Structural, Hash)]
pub enum ShutdownStep {
    /// Tell the capturing side to quit.
    QuitCapture,
    /// Close every channel into the session, so that no route takes
    /// another event.
    CloseSenders,
    /// Abort the task that classifies events.
    AbortEventLoop,
    /// Wait for the remaining tasks and keep the first error among them.
    JoinTasks,
}

/// What the main loop does about an event: the end of the display-server
/// stream ends the session in good order, an error ends it with that
/// error, an action is carried out apart from the loop, and everything
/// else is passed over.
pub open spec fn spec_main_step<A, E>(event: MainEvent<A, E>) -> MainStep<A, E> {
    match event {
        MainEvent::XExited => MainStep::Break(Ok(())),
        MainEvent::Error(Some(error)) => MainStep::Break(Err(error)),
        MainEvent::Error(None) => MainStep::Continue,
        MainEvent::User(Some(action)) => MainStep::Spawn(action),
        MainEvent::User(None) => MainStep::Continue,
        MainEvent::Qmp => MainStep::Continue,
    }
}

/// Decides what the main loop does about an event.
pub fn main_step<A, E>(event: MainEvent<A, E>) -> (r: MainStep<A, E>)
    ensures
        r == spec_main_step(event),
{
    match event {
        MainEvent::XExited => MainStep::Break(Ok(())),
        MainEvent::Error(Some(error)) => MainStep::Break(Err(error)),
        MainEvent::Error(None) => MainStep::Continue,
        MainEvent::User(Some(action)) => MainStep::Spawn(action),
        MainEvent::User(None) => MainStep::Continue,
        MainEvent::Qmp => MainStep::Continue,
    }
}

/// The steps of the shutdown.
pub open spec fn spec_shutdown_steps() -> Seq<ShutdownStep> {
    seq![
        ShutdownStep::QuitCapture,
        ShutdownStep::CloseSenders,
        ShutdownStep::AbortEventLoop,
        ShutdownStep::JoinTasks,
    ]
}

/// The steps of the shutdown, in order.
pub fn shutdown_steps() -> (r: Vec<ShutdownStep>)
    ensures
        r@ == spec_shutdown_steps(),
{
    let mut steps: Vec<ShutdownStep> = Vec::new();
    steps.push(ShutdownStep::QuitCapture);
    steps.push(ShutdownStep::CloseSenders);
    steps.push(ShutdownStep::AbortEventLoop);
    steps.push(ShutdownStep::JoinTasks);
    assert(steps@ =~= spec_shutdown_steps());
    steps
}

/// The outcome of the session: an error from joining the tasks comes
/// first, then the error that ended the loop; without either the session
/// succeeded.
pub open spec fn spec_main_outcome<E>(ended: Result<(), E>, joined: Result<(), E>) -> Result<
    i32,
    E,
> {
    match joined {
        Err(error) => Err(error),
        Ok(_) => match ended {
            Err(error) => Err(error),
            Ok(_) => Ok(0),
        },
    }
}

/// The outcome of the session, from how the loop ended and how joining
/// the tasks went.
pub fn main_outcome<E>(ended: Result<(), E>, joined: Result<(), E>) -> (r: Result<i32, E>)
    ensures
        r == spec_main_outcome(ended, joined),
{
    match joined {
        Err(error) => Err(error),
        Ok(_) => match ended {
            Err(error) => Err(error),
            Ok(_) => Ok(0),
        },
    }
}

/// The exit code for an outcome: the code of a success, 1 for any failure.
pub open spec fn spec_exit_code<E>(outcome: Result<i32, E>) -> i32 {
    match outcome {
        Ok(code) => code,
        Err(_) => 1,
    }
}

/// The code with which the process exits.
pub fn exit_code<E>(outcome: &Result<i32, E>) -> (r: i32)
    ensures
        r == spec_exit_code(*outcome),
{
    match outcome {
        Ok(code) => *code,
        Err(_) => 1,
    }
}

/// No screen is configured.
#[derive(Debug, Copy, Clone, PartialEq, Eq, Structural, Hash)]
pub struct NoScreenConfig;

/// The screen that the session manages: the first one configured.
pub fn screen_config(config: &Config) -> (r: Result<&ConfigScreen, NoScreenConfig>)
    ensures
        r is Ok <==> config@.len() > 0,
        r is Ok ==> *r->Ok_0 == config@[0],
{
    if config.len() > 0 {
        Ok(&config[0])
    } else {
        Err(NoScreenConfig)
    }
}

/// An error on the shared error channel ends the session, and the process
/// then exits with a code other than zero, however joining the tasks goes.
pub proof fn lemma_error_exits_nonzero<A, E>(error: E, joined: Result<(), E>)
    ensures
        spec_main_step::<A, E>(MainEvent::Error(Some(error))) == MainStep::<A, E>::Break(
            Err(error),
        ),
        spec_main_outcome(Err(error), joined) is Err,
        spec_exit_code(spec_main_outcome(Err(error), joined)) == 1,
{
}

/// The end of the display-server stream ends the session with code zero
/// when joining the tasks brings no error.
pub proof fn lemma_orderly_exit_is_zero<A, E>()
    ensures
        spec_main_step::<A, E>(MainEvent::XExited) == MainStep::<A, E>::Break(Ok(())),
        spec_exit_code(spec_main_outcome::<E>(Ok(()), Ok(()))) == 0,
{
}

} // verus!
