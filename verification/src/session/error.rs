//! Why a command is refused.
use crate::model::Model;
use vstd::prelude::*;

verus! {

#[derive(Debug, PartialEq, Eq)]
pub enum SessionError {
    SessionNotCreated,
    SessionAlreadyCreated,
    SessionInterrupted,
    SessionStartFailed,
    TurnAlreadyActive { turn_id: String },
    TurnAlreadyCompleted { turn_id: String },
    NoActiveTurn,
    MissingSubject,
    SessionAccessDenied,
    EffectNotFound,
    EffectNotPending,
    EffectAttemptMismatch,
    EffectWrongHandler,
}

/// The value of [`SessionError`].
pub enum SessionErrorV {
    SessionNotCreated,
    SessionAlreadyCreated,
    SessionInterrupted,
    SessionStartFailed,
    TurnAlreadyActive { turn_id: Seq<char> },
    TurnAlreadyCompleted { turn_id: Seq<char> },
    NoActiveTurn,
    MissingSubject,
    SessionAccessDenied,
    EffectNotFound,
    EffectNotPending,
    EffectAttemptMismatch,
    EffectWrongHandler,
}

impl Model for SessionError {
    type V = SessionErrorV;

    open spec fn v(&self) -> SessionErrorV {
        match self {
            SessionError::SessionNotCreated => SessionErrorV::SessionNotCreated,
            SessionError::SessionAlreadyCreated => SessionErrorV::SessionAlreadyCreated,
            SessionError::SessionInterrupted => SessionErrorV::SessionInterrupted,
            SessionError::SessionStartFailed => SessionErrorV::SessionStartFailed,
            SessionError::TurnAlreadyActive { turn_id } => SessionErrorV::TurnAlreadyActive {
                turn_id: turn_id.v(),
            },
            SessionError::TurnAlreadyCompleted { turn_id } => SessionErrorV::TurnAlreadyCompleted {
                turn_id: turn_id.v(),
            },
            SessionError::NoActiveTurn => SessionErrorV::NoActiveTurn,
            SessionError::MissingSubject => SessionErrorV::MissingSubject,
            SessionError::SessionAccessDenied => SessionErrorV::SessionAccessDenied,
            SessionError::EffectNotFound => SessionErrorV::EffectNotFound,
            SessionError::EffectNotPending => SessionErrorV::EffectNotPending,
            SessionError::EffectAttemptMismatch => SessionErrorV::EffectAttemptMismatch,
            SessionError::EffectWrongHandler => SessionErrorV::EffectWrongHandler,
        }
    }

    fn dup(&self) -> (r: SessionError) {
        match self {
            SessionError::SessionNotCreated => SessionError::SessionNotCreated,
            SessionError::SessionAlreadyCreated => SessionError::SessionAlreadyCreated,
            SessionError::SessionInterrupted => SessionError::SessionInterrupted,
            SessionError::SessionStartFailed => SessionError::SessionStartFailed,
            SessionError::TurnAlreadyActive { turn_id } => SessionError::TurnAlreadyActive {
                turn_id: turn_id.dup(),
            },
            SessionError::TurnAlreadyCompleted { turn_id } => SessionError::TurnAlreadyCompleted {
                turn_id: turn_id.dup(),
            },
            SessionError::NoActiveTurn => SessionError::NoActiveTurn,
            SessionError::MissingSubject => SessionError::MissingSubject,
            SessionError::SessionAccessDenied => SessionError::SessionAccessDenied,
            SessionError::EffectNotFound => SessionError::EffectNotFound,
            SessionError::EffectNotPending => SessionError::EffectNotPending,
            SessionError::EffectAttemptMismatch => SessionError::EffectAttemptMismatch,
            SessionError::EffectWrongHandler => SessionError::EffectWrongHandler,
        }
    }
}

impl Clone for SessionError {
    fn clone(&self) -> (r: SessionError)
        ensures
            r.v() == self.v(),
    {
        self.dup()
    }
}

impl SessionErrorV {
    /// The sentence a caller reads.
    pub open spec fn sentence(self) -> Seq<char> {
        match self {
            SessionErrorV::SessionNotCreated => "session has not been created"@,
            SessionErrorV::SessionAlreadyCreated => "session already exists"@,
            SessionErrorV::SessionInterrupted => "session is interrupted"@,
            SessionErrorV::SessionStartFailed => "session start failed"@,
            SessionErrorV::TurnAlreadyActive { turn_id } => "turn already active: "@ + turn_id,
            SessionErrorV::TurnAlreadyCompleted { turn_id } => "turn already completed: "@
                + turn_id,
            SessionErrorV::NoActiveTurn => "session has no active turn"@,
            SessionErrorV::MissingSubject => "client subject is required"@,
            SessionErrorV::SessionAccessDenied => "session access denied"@,
            SessionErrorV::EffectNotFound => "effect not found"@,
            SessionErrorV::EffectNotPending => "effect is not pending"@,
            SessionErrorV::EffectAttemptMismatch => "effect attempt mismatch"@,
            SessionErrorV::EffectWrongHandler => "caller may not settle this effect"@,
        }
    }
}

impl SessionError {
    /// The sentence a caller reads.
    pub fn to_string(&self) -> (r: String)
        ensures
            r@ == self.v().sentence(),
    {
        match self {
            SessionError::SessionNotCreated => "session has not been created".to_owned(),
            SessionError::SessionAlreadyCreated => "session already exists".to_owned(),
            SessionError::SessionInterrupted => "session is interrupted".to_owned(),
            SessionError::SessionStartFailed => "session start failed".to_owned(),
            SessionError::TurnAlreadyActive { turn_id } => "turn already active: ".to_owned().concat(
                turn_id.as_str(),
            ),
            SessionError::TurnAlreadyCompleted {
                turn_id,
            } => "turn already completed: ".to_owned().concat(turn_id.as_str()),
            SessionError::NoActiveTurn => "session has no active turn".to_owned(),
            SessionError::MissingSubject => "client subject is required".to_owned(),
            SessionError::SessionAccessDenied => "session access denied".to_owned(),
            SessionError::EffectNotFound => "effect not found".to_owned(),
            SessionError::EffectNotPending => "effect is not pending".to_owned(),
            SessionError::EffectAttemptMismatch => "effect attempt mismatch".to_owned(),
            SessionError::EffectWrongHandler => "caller may not settle this effect".to_owned(),
        }
    }
}

} // verus!
