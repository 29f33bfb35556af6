use vstd::prelude::*;

verus! {

/// The step of the forwarder at which a fatal error arose.
#[derive(PartialEq, Eq, Structural, Clone, Copy, Debug)]
pub enum Stage {
    /// Opening the transport connection to the remote host.
    Connect,
    /// The transport handshake.
    Handshake,
    /// Public-key authentication.
    Authenticate,
    /// Binding the local listening address.
    Bind,
    /// Accepting on the local listener.
    Accept,
}

/// An error that stops the process: the stage it arose at and a
/// human-readable diagnostic.
#[derive(Debug)]
pub struct FatalError {
    pub stage: Stage,
    pub message: String,
}

/// The diagnostic given when the failing step offered none.
pub open spec fn default_message(stage: Stage) -> Seq<char> {
    match stage {
        Stage::Connect => "connection failed"@,
        Stage::Handshake => "handshake failed"@,
        Stage::Authenticate => "authentication failed"@,
        Stage::Bind => "bind failed"@,
        Stage::Accept => "accept failed"@,
    }
}

/// The diagnostic of an error: the one the failing step gave, else the
/// default of its stage.
pub open spec fn diagnostic(stage: Stage, given: Option<String>) -> Seq<char> {
    match given {
        Some(m) => m@,
        None => default_message(stage),
    }
}

impl FatalError {
    /// The error of `stage`, carrying `given` where the failing step offered
    /// a diagnostic, else the stage's default one.
    pub fn new(stage: Stage, given: Option<String>) -> (e: FatalError)
        ensures
            e.stage == stage,
            e.message@ == diagnostic(stage, given),
    {
        let message = match given {
            Some(m) => m,
            None => match stage {
                Stage::Connect => String::from_str("connection failed"),
                Stage::Handshake => String::from_str("handshake failed"),
                Stage::Authenticate => String::from_str("authentication failed"),
                Stage::Bind => String::from_str("bind failed"),
                Stage::Accept => String::from_str("accept failed"),
            },
        };
        FatalError { stage, message }
    }

    /// The diagnostic line shown to the user.
    pub fn describe(&self) -> (s: String)
        ensures
            s@ == stage_prefix(self.stage) + self.message@,
    {
        let mut s = match self.stage {
            Stage::Connect => String::from_str("connect error: "),
            Stage::Handshake => String::from_str("handshake error: "),
            Stage::Authenticate => String::from_str("authentication error: "),
            Stage::Bind => String::from_str("bind error: "),
            Stage::Accept => String::from_str("accept error: "),
        };
        s.append(self.message.as_str());
        s
    }
}

pub open spec fn stage_prefix(stage: Stage) -> Seq<char> {
    match stage {
        Stage::Connect => "connect error: "@,
        Stage::Handshake => "handshake error: "@,
        Stage::Authenticate => "authentication error: "@,
        Stage::Bind => "bind error: "@,
        Stage::Accept => "accept error: "@,
    }
}

} // verus!
