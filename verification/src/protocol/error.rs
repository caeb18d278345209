//! Why something failed.
use crate::model::{Model, Same};
use crate::protocol::json::{Json, JsonV};
use vstd::prelude::*;

verus! {

/// What kind of failure, so a consumer can branch on it instead of reading the
/// sentence. A closed set, required on every [`ErrorInfo`].
///
/// `ProviderError`, `RateLimited`, `Refused`, `BudgetExceeded`, and
/// `DeadlineExceeded` mean a call ran and went wrong.
/// `InvalidResponse` means a document did not parse, or parsed into something
/// unusable. `HandlerError` means the worker or client reported its own
/// failure. `WorkerUnreachable` means it was never reached. `Unroutable`
/// means nothing could decide. `Internal` means the engine's own fault.
#[derive(Debug, Clone, Copy, PartialEq, Eq, Hash, Structural)]
pub enum ErrorCode {
    ProviderError,
    RateLimited,
    Refused,
    BudgetExceeded,
    DeadlineExceeded,
    InvalidResponse,
    HandlerError,
    WorkerUnreachable,
    Unroutable,
    Internal,
}

impl Model for ErrorCode {
    type V = ErrorCode;

    open spec fn v(&self) -> ErrorCode {
        *self
    }

    fn dup(&self) -> (r: ErrorCode) {
        *self
    }
}

impl Same for ErrorCode {
    fn same(&self, other: &ErrorCode) -> (r: bool) {
        *self == *other
    }
}

/// Why something failed. One shape on every event and on the wire.
///
/// There is no `retryable` field. Whether to try again is a decision about one
/// attempt, not a fact about the failure. The events that settle an attempt
/// carry it instead.
#[derive(Debug, PartialEq)]
pub struct ErrorInfo {
    /// One sentence the engine wrote, safe to show a human. Never a raw
    /// document. An unbounded body belongs in the log.
    pub message: String,
    pub code: ErrorCode,
    /// The one input to fix, when the failure names one. For example
    /// `agent.llm` or `actions[0].type`.
    pub param: Option<String>,
    /// Small structured details, such as a status or the llm blocks that
    /// exist.
    pub detail: Option<Json>,
}

/// The value of [`ErrorInfo`].
pub struct ErrorInfoV {
    pub message: Seq<char>,
    pub code: ErrorCode,
    pub param: Option<Seq<char>>,
    pub detail: Option<JsonV>,
}

impl Model for ErrorInfo {
    type V = ErrorInfoV;

    open spec fn v(&self) -> ErrorInfoV {
        ErrorInfoV {
            message: self.message.v(),
            code: self.code.v(),
            param: self.param.v(),
            detail: self.detail.v(),
        }
    }

    fn dup(&self) -> (r: ErrorInfo) {
        ErrorInfo {
            message: self.message.dup(),
            code: self.code.dup(),
            param: self.param.dup(),
            detail: self.detail.dup(),
        }
    }
}

impl Clone for ErrorInfo {
    fn clone(&self) -> (r: ErrorInfo)
        ensures
            r.v() == self.v(),
    {
        self.dup()
    }
}

impl ErrorInfoV {
    pub open spec fn new(code: ErrorCode, message: Seq<char>) -> ErrorInfoV {
        ErrorInfoV { message, code, param: None, detail: None }
    }
}

impl ErrorInfo {
    pub fn new(code: ErrorCode, message: String) -> (r: ErrorInfo)
        ensures
            r.v() == ErrorInfoV::new(code, message@),
    {
        ErrorInfo { message, code, param: None, detail: None }
    }

    /// The engine's own fault, or a failure no other code describes.
    pub fn internal(message: String) -> (r: ErrorInfo)
        ensures
            r.v() == ErrorInfoV::new(ErrorCode::Internal, message@),
    {
        ErrorInfo::new(ErrorCode::Internal, message)
    }

    /// Whoever ran the work reported a failure. The default for an error a
    /// worker or client wrote without a code.
    pub fn handler(message: String) -> (r: ErrorInfo)
        ensures
            r.v() == ErrorInfoV::new(ErrorCode::HandlerError, message@),
    {
        ErrorInfo::new(ErrorCode::HandlerError, message)
    }

    pub fn with_param(self, param: String) -> (r: ErrorInfo)
        ensures
            r.v() == (ErrorInfoV { param: Some(param@), ..self.v() }),
    {
        ErrorInfo { param: Some(param), ..self }
    }

    pub fn with_detail(self, detail: Json) -> (r: ErrorInfo)
        ensures
            r.v() == (ErrorInfoV { detail: Some(detail.v()), ..self.v() }),
    {
        ErrorInfo { detail: Some(detail), ..self }
    }

    /// Take what the author supplied and keep the default where they said
    /// nothing. For an error a worker or client wrote.
    pub fn or_code(self, code: Option<ErrorCode>) -> (r: ErrorInfo)
        ensures
            r.v() == (match code {
                Some(code) => ErrorInfoV { code, ..self.v() },
                None => self.v(),
            }),
    {
        match code {
            Some(code) => ErrorInfo { code, ..self },
            None => self,
        }
    }

    pub fn or_detail(self, detail: Option<Json>) -> (r: ErrorInfo)
        ensures
            r.v() == (match detail {
                Some(detail) => ErrorInfoV { detail: Some(detail.v()), ..self.v() },
                None => self.v(),
            }),
    {
        match detail {
            Some(detail) => ErrorInfo { detail: Some(detail), ..self },
            None => self,
        }
    }

    /// What a reader sees: the sentence.
    pub fn to_string(&self) -> (r: String)
        ensures
            r@ == self.v().message,
    {
        self.message.dup()
    }
}

} // verus!
