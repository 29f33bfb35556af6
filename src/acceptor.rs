use vstd::prelude::*;

use crate::error::{diagnostic, FatalError, Stage};

verus! {

/// The process-wide stop signal: starts unset, is set at most once, and is
/// never reset.
#[derive(Debug)]
pub struct ShutdownFlag {
    requested: bool,
}

impl View for ShutdownFlag {
    type V = bool;

    closed spec fn view(&self) -> bool {
        self.requested
    }
}

impl ShutdownFlag {
    pub fn new() -> (f: ShutdownFlag)
        ensures
            !f@,
    {
        ShutdownFlag { requested: false }
    }

    pub fn is_requested(&self) -> (r: bool)
        ensures
            r == self@,
    {
        self.requested
    }

    /// Sets the flag. Returns true only for the call that set it: that caller
    /// then wakes the accept loop (by a self-connect, where accepting cannot
    /// be cancelled), so that the loop sees the flag.
    pub fn request(&mut self) -> (first: bool)
        ensures
            final(self)@,
            first == !old(self)@,
    {
        let first = !self.requested;
        self.requested = true;
        first
    }
}

/// Where the accept loop stands.
#[derive(PartialEq, Eq, Structural, Clone, Copy, Debug)]
pub enum AcceptorState {
    Accepting,
    /// Stopped on the shutdown signal.
    Stopped,
    /// Stopped because the listener itself failed.
    Broken,
}

/// What one wait for a connection gave.
#[derive(Debug)]
pub enum AcceptOutcome {
    Connection,
    /// The listener failed, with its diagnostic.
    ListenerError(String),
}

/// What the accept loop is to do with the outcome of a wait.
#[derive(PartialEq, Eq, Structural, Clone, Copy, Debug)]
pub enum AcceptAction {
    /// Open a channel for the new connection.
    OpenChannel,
    /// Leave the loop; the listener is dropped.
    Stop,
}

/// What to do with a connection once its channel was or was not opened.
#[derive(PartialEq, Eq, Structural, Clone, Copy, Debug)]
pub enum ChannelAction {
    /// Start an independent relay for it, without waiting for it.
    Spawn,
    /// Drop this connection only; the loop goes on.
    Drop,
}

/// The transition of the accept loop on the outcome of one wait, given
/// whether shutdown was requested (`conn`: a connection came, else the
/// listener failed).
pub open spec fn accept_next(s: AcceptorState, shutdown: bool, conn: bool) -> (
    AcceptorState,
    AcceptAction,
) {
    if s != AcceptorState::Accepting {
        (s, AcceptAction::Stop)
    } else if shutdown {
        (AcceptorState::Stopped, AcceptAction::Stop)
    } else if conn {
        (AcceptorState::Accepting, AcceptAction::OpenChannel)
    } else {
        (AcceptorState::Broken, AcceptAction::Stop)
    }
}

/// The decisions of the accept loop: it checks the shutdown flag on each
/// wake-up, hands each connection on, and tells a failure of one connection
/// from a failure of the listener.
#[derive(Debug)]
pub struct Acceptor {
    pub state: AcceptorState,
    pub error: Option<String>,
}

impl Acceptor {
    pub open spec fn wf(&self) -> bool {
        self.state == AcceptorState::Broken <==> self.error is Some
    }

    pub fn new() -> (a: Acceptor)
        ensures
            a.wf(),
            a.state == AcceptorState::Accepting,
    {
        Acceptor { state: AcceptorState::Accepting, error: None }
    }

    /// Whether the loop should wait for another connection.
    pub fn is_accepting(&self) -> (r: bool)
        ensures
            r == (self.state == AcceptorState::Accepting),
    {
        self.state == AcceptorState::Accepting
    }

    /// One wait on the listener returned `outcome`; the shutdown flag is read
    /// before the outcome is looked at.
    pub fn on_accept(&mut self, flag: &ShutdownFlag, outcome: AcceptOutcome) -> (act: AcceptAction)
        requires
            old(self).wf(),
        ensures
            final(self).wf(),
            (final(self).state, act) == accept_next(
                old(self).state,
                flag@,
                outcome is Connection,
            ),
            old(self).state == AcceptorState::Accepting && !flag@
                && outcome is ListenerError ==> final(self).error == Some(
                outcome->ListenerError_0,
            ),
            final(self).state == old(self).state ==> final(self).error == old(self).error,
    {
        if self.state != AcceptorState::Accepting {
            return AcceptAction::Stop;
        }
        if flag.is_requested() {
            self.state = AcceptorState::Stopped;
            return AcceptAction::Stop;
        }
        match outcome {
            AcceptOutcome::Connection => AcceptAction::OpenChannel,
            AcceptOutcome::ListenerError(e) => {
                self.state = AcceptorState::Broken;
                self.error = Some(e);
                AcceptAction::Stop
            },
        }
    }

    /// Opening the channel for one accepted connection succeeded or failed.
    /// Either way the loop itself goes on.
    pub fn on_channel(&self, opened: bool) -> (act: ChannelAction)
        ensures
            act == (if opened {
                ChannelAction::Spawn
            } else {
                ChannelAction::Drop
            }),
    {
        if opened {
            ChannelAction::Spawn
        } else {
            ChannelAction::Drop
        }
    }

    /// What the loop returns once it has stopped: nothing after a shutdown,
    /// the listener's error after it broke.
    pub fn finish(self) -> (r: Result<(), FatalError>)
        requires
            self.wf(),
            self.state != AcceptorState::Accepting,
        ensures
            self.state == AcceptorState::Stopped ==> r is Ok,
            self.state == AcceptorState::Broken ==> r is Err && r->Err_0.stage == Stage::Accept
                && r->Err_0.message@ == diagnostic(Stage::Accept, self.error),
    {
        match self.state {
            AcceptorState::Broken => Err(FatalError::new(Stage::Accept, self.error)),
            _ => Ok(()),
        }
    }
}

/// Shutdown: once the signal is seen, the loop opens no channel for the
/// connection that woke it and leaves; a stopped loop stays stopped and never
/// opens a channel again, whatever it is told.
pub proof fn lemma_shutdown_stops(s: AcceptorState, conn: bool)
    ensures
        accept_next(s, true, conn).1 == AcceptAction::Stop,
        accept_next(s, true, conn).0 != AcceptorState::Accepting,
        s != AcceptorState::Accepting ==> forall|sd: bool, c: bool| #[trigger]
            accept_next(s, sd, c) == (s, AcceptAction::Stop),
{
}

} // verus!
