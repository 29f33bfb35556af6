use vstd::prelude::*;

use crate::error::{diagnostic, FatalError, Stage};

verus! {

/// How far the forwarder has come in starting up: connect to the remote
/// host, handshake, authenticate, then bind the local listener.
#[derive(PartialEq, Eq, Structural, Clone, Copy, Debug)]
pub enum StartupState {
    Connecting,
    Handshaking,
    Authenticating,
    Binding,
    Serving,
    Failed,
}

/// What the driver is to do next while starting up.
#[derive(Debug)]
pub enum StartupAction {
    Handshake,
    Authenticate,
    Bind,
    Serve,
    /// Stop the process with this error; nothing is retried.
    Abort(FatalError),
    /// Startup is over; nothing to do.
    Done,
}

/// The state after the pending step succeeded (`ok`) or failed. A failure
/// is final.
pub open spec fn startup_next(s: StartupState, ok: bool) -> StartupState {
    match s {
        StartupState::Connecting => if ok {
            StartupState::Handshaking
        } else {
            StartupState::Failed
        },
        StartupState::Handshaking => if ok {
            StartupState::Authenticating
        } else {
            StartupState::Failed
        },
        StartupState::Authenticating => if ok {
            StartupState::Binding
        } else {
            StartupState::Failed
        },
        StartupState::Binding => if ok {
            StartupState::Serving
        } else {
            StartupState::Failed
        },
        StartupState::Serving => StartupState::Serving,
        StartupState::Failed => StartupState::Failed,
    }
}

/// A startup after a sequence of step outcomes.
pub open spec fn startup_run(s: StartupState, oks: Seq<bool>) -> StartupState
    decreases oks.len(),
{
    if oks.len() == 0 {
        s
    } else {
        startup_run(startup_next(s, oks[0]), oks.drop_first())
    }
}

/// The action that follows the success of the step that `s` waits for.
pub open spec fn action_after(s: StartupState, act: StartupAction) -> bool {
    match s {
        StartupState::Connecting => act is Handshake,
        StartupState::Handshaking => act is Authenticate,
        StartupState::Authenticating => act is Bind,
        StartupState::Binding => act is Serve,
        _ => act is Done,
    }
}

/// The step whose outcome `s` waits for.
pub open spec fn stage_of(s: StartupState) -> Stage {
    match s {
        StartupState::Connecting => Stage::Connect,
        StartupState::Handshaking => Stage::Handshake,
        StartupState::Authenticating => Stage::Authenticate,
        _ => Stage::Bind,
    }
}

/// Session establishment and listener start, as a sequence of decisions:
/// the driver performs each step and reports its outcome.
pub struct Startup {
    pub state: StartupState,
}

impl Startup {
    pub fn new() -> (s: Startup)
        ensures
            s.state == StartupState::Connecting,
    {
        Startup { state: StartupState::Connecting }
    }

    /// Reports the outcome of the pending step: `Ok`, or `Err` with the
    /// provider's diagnostic if it gave one.
    pub fn advance(&mut self, outcome: Result<(), Option<String>>) -> (act: StartupAction)
        ensures
            final(self).state == startup_next(old(self).state, outcome is Ok),
            outcome is Ok ==> action_after(old(self).state, act),
            outcome is Err ==> match old(self).state {
                StartupState::Serving | StartupState::Failed => act is Done,
                _ => act is Abort && act->Abort_0.stage == stage_of(old(self).state)
                    && act->Abort_0.message@ == diagnostic(
                    stage_of(old(self).state),
                    outcome->Err_0,
                ),
            },
    {
        match self.state {
            StartupState::Serving | StartupState::Failed => {
                return StartupAction::Done;
            },
            _ => {},
        }
        match outcome {
            Ok(()) => match self.state {
                StartupState::Connecting => {
                    self.state = StartupState::Handshaking;
                    StartupAction::Handshake
                },
                StartupState::Handshaking => {
                    self.state = StartupState::Authenticating;
                    StartupAction::Authenticate
                },
                StartupState::Authenticating => {
                    self.state = StartupState::Binding;
                    StartupAction::Bind
                },
                _ => {
                    self.state = StartupState::Serving;
                    StartupAction::Serve
                },
            },
            Err(given) => {
                let stage = match self.state {
                    StartupState::Connecting => Stage::Connect,
                    StartupState::Handshaking => Stage::Handshake,
                    StartupState::Authenticating => Stage::Authenticate,
                    _ => Stage::Bind,
                };
                self.state = StartupState::Failed;
                StartupAction::Abort(FatalError::new(stage, given))
            },
        }
    }
}

/// Authentication failure is contained: a denied authentication fails the
/// startup for good, so that no later outcome leads to binding the listener,
/// and binding is asked for only right after a successful authentication.
pub proof fn lemma_auth_failure_contained(oks: Seq<bool>, s: StartupState)
    ensures
        startup_next(StartupState::Authenticating, false) == StartupState::Failed,
        startup_run(StartupState::Failed, oks) == StartupState::Failed,
        startup_next(s, true) == StartupState::Binding <==> s == StartupState::Authenticating,
    decreases oks.len(),
{
    if oks.len() > 0 {
        lemma_auth_failure_contained(oks.drop_first(), s);
    }
}

} // verus!
