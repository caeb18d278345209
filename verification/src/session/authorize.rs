//! Who may give which command.
use crate::model::Model;
use crate::protocol::effect::EffectKind;
use crate::protocol::identity::InterruptOrigin;
use crate::session::caller::{Caller, CallerV};
use crate::session::decision::{LlmHandler, ToolHandler};
use crate::session::error::{SessionError, SessionErrorV};
use crate::session::state::{LlmCall, LlmCallV, SessionState, SessionStateV};
use crate::text;
use vstd::prelude::*;

verus! {

/// What a command that is refused to its caller answers.
pub open spec fn allowed(yes: bool) -> Result<(), SessionErrorV> {
    if yes {
        Ok(())
    } else {
        Err(SessionErrorV::SessionAccessDenied)
    }
}

impl CallerV {
    pub open spec fn is_worker_or_system(self) -> bool {
        self is System || self is ApiKey
    }

    pub open spec fn is_operator_or_system(self) -> bool {
        !(self is Frontend)
    }

    /// Who settles a call to a model: the engine its own, a worker one that it
    /// runs.
    pub open spec fn may_answer_llm(self, call: Option<LlmCallV>) -> Result<(), SessionErrorV> {
        match self {
            CallerV::System { .. } => Ok(()),
            CallerV::ApiKey { .. } => match call {
                None => Err(SessionErrorV::EffectNotFound),
                Some(call) => if call.handler == LlmHandler::Worker {
                    Ok(())
                } else {
                    Err(SessionErrorV::EffectWrongHandler)
                },
            },
            _ => Err(SessionErrorV::EffectWrongHandler),
        }
    }
}

impl SessionStateV {
    /// A frontend speaks for its own sessions only.
    pub open spec fn owned_by(self, caller: CallerV) -> bool {
        caller is Frontend ==> match self.owner {
            Some(owner) => caller.owns(owner),
            None => false,
        }
    }

    /// Who settles a tool call: the engine any, a worker any but the engine's
    /// own, a client what it runs itself in its own session.
    pub open spec fn may_answer_tool(self, id: Seq<char>, caller: CallerV) -> Result<
        (),
        SessionErrorV,
    > {
        let call = match self.effect(EffectKind::ToolCall, id) {
            Some(e) => e.tool(),
            None => None,
        };
        match caller {
            CallerV::System { .. } => Ok(()),
            CallerV::ApiKey { .. } => match call {
                None => Err(SessionErrorV::EffectNotFound),
                Some(call) => if call.handler == ToolHandler::Server {
                    Err(SessionErrorV::EffectWrongHandler)
                } else {
                    Ok(())
                },
            },
            CallerV::Frontend { .. } => if !self.owned_by(caller) {
                Err(SessionErrorV::SessionAccessDenied)
            } else {
                match call {
                    None => Err(SessionErrorV::EffectNotFound),
                    Some(call) => if call.handler == ToolHandler::Client {
                        Ok(())
                    } else {
                        Err(SessionErrorV::EffectWrongHandler)
                    },
                }
            },
            CallerV::Operator { .. } => Err(SessionErrorV::EffectWrongHandler),
        }
    }
}

fn allow(yes: bool) -> (r: Result<(), SessionError>)
    ensures
        r.v() == allowed(yes),
{
    if yes {
        Ok(())
    } else {
        Err(SessionError::SessionAccessDenied)
    }
}

impl SessionState {
    /// A caller stays within its tenant.
    pub fn ensure_tenant_matches(caller: &Caller, tenant_id: &str) -> (r: Result<(), SessionError>)
        ensures
            r.v() == allowed(caller.v().tenant() == tenant_id@),
    {
        allow(text::eq(caller.tenant_id().as_str(), tenant_id))
    }

    /// Only the engine.
    pub fn ensure_internal(caller: &Caller) -> (r: Result<(), SessionError>)
        ensures
            r.v() == allowed(caller.v() is System),
    {
        match caller {
            Caller::System { .. } => allow(true),
            _ => allow(false),
        }
    }

    /// Only a worker, or the engine for it.
    pub fn ensure_worker_or_system(caller: &Caller) -> (r: Result<(), SessionError>)
        ensures
            r.v() == allowed(caller.v().is_worker_or_system()),
    {
        match caller {
            Caller::System { .. } => allow(true),
            Caller::ApiKey { .. } => allow(true),
            _ => allow(false),
        }
    }

    /// Anybody but an end user.
    pub fn ensure_operator_or_system(caller: &Caller) -> (r: Result<(), SessionError>)
        ensures
            r.v() == allowed(caller.v().is_operator_or_system()),
    {
        match caller {
            Caller::Frontend { .. } => allow(false),
            _ => allow(true),
        }
    }

    /// A frontend speaks for its own sessions only.
    pub fn ensure_owns_session(&self, caller: &Caller) -> (r: Result<(), SessionError>)
        ensures
            r.v() == allowed(self.v().owned_by(caller.v())),
    {
        match caller {
            Caller::Frontend { .. } => match &self.owner {
                Some(owner) => allow(caller.owns(owner)),
                None => allow(false),
            },
            _ => allow(true),
        }
    }

    pub fn caller_interrupt_origin(caller: &Caller) -> (r: InterruptOrigin)
        ensures
            r == caller.v().origin(),
    {
        caller.origin()
    }

    /// Who settles a call to a model.
    pub fn check_llm_call_caller(&self, call: Option<&LlmCall>, caller: &Caller) -> (r: Result<
        (),
        SessionError,
    >)
        ensures
            r.v() == caller.v().may_answer_llm(
                match call {
                    Some(call) => Some(call.v()),
                    None => None,
                },
            ),
    {
        match caller {
            Caller::System { .. } => Ok(()),
            Caller::ApiKey { .. } => match call {
                None => Err(SessionError::EffectNotFound),
                Some(call) => if call.handler == LlmHandler::Worker {
                    Ok(())
                } else {
                    Err(SessionError::EffectWrongHandler)
                },
            },
            _ => Err(SessionError::EffectWrongHandler),
        }
    }

    /// Who settles a tool call.
    pub fn check_tool_call_caller(&self, id: &str, caller: &Caller) -> (r: Result<(), SessionError>)
        ensures
            r.v() == self.v().may_answer_tool(id@, caller.v()),
    {
        let call = self.tool_call(id);
        match caller {
            Caller::System { .. } => Ok(()),
            Caller::ApiKey { .. } => match call {
                None => Err(SessionError::EffectNotFound),
                Some(call) => if call.handler == ToolHandler::Server {
                    Err(SessionError::EffectWrongHandler)
                } else {
                    Ok(())
                },
            },
            Caller::Frontend { .. } => match self.ensure_owns_session(caller) {
                Err(e) => Err(e),
                Ok(_) => match call {
                    None => Err(SessionError::EffectNotFound),
                    Some(call) => if call.handler == ToolHandler::Client {
                        Ok(())
                    } else {
                        Err(SessionError::EffectWrongHandler)
                    },
                },
            },
            Caller::Operator { .. } => Err(SessionError::EffectWrongHandler),
        }
    }
}

} // verus!
