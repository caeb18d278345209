//! Who gives a command, and what they may do.
use crate::model::{Model, Same};
use crate::protocol::identity::{
    Entry, EntryV, InterruptOrigin, SessionOwner, SessionOwnerV, Subject, SubjectV,
};
use vstd::prelude::*;

verus! {

/// Who gives a command, as authentication found out.
#[derive(Debug, PartialEq)]
pub enum Caller {
    /// The engine itself.
    System { tenant_id: String },
    /// A worker, or another program of the tenant.
    ApiKey { tenant_id: String, key_id: String },
    /// An end user.
    Frontend { tenant_id: String, subject: Subject, attrs: Vec<Entry> },
    /// Whoever runs the deployment.
    Operator { tenant_id: String, subject: Subject },
}

/// The value of [`Caller`].
pub enum CallerV {
    System { tenant_id: Seq<char> },
    ApiKey { tenant_id: Seq<char>, key_id: Seq<char> },
    Frontend { tenant_id: Seq<char>, subject: SubjectV, attrs: Seq<EntryV> },
    Operator { tenant_id: Seq<char>, subject: SubjectV },
}

impl Model for Caller {
    type V = CallerV;

    open spec fn v(&self) -> CallerV {
        match self {
            Caller::System { tenant_id } => CallerV::System {
                tenant_id: tenant_id.v(),
            },
            Caller::ApiKey { tenant_id, key_id } => CallerV::ApiKey {
                tenant_id: tenant_id.v(),
                key_id: key_id.v(),
            },
            Caller::Frontend { tenant_id, subject, attrs } => CallerV::Frontend {
                tenant_id: tenant_id.v(),
                subject: subject.v(),
                attrs: attrs.v(),
            },
            Caller::Operator { tenant_id, subject } => CallerV::Operator {
                tenant_id: tenant_id.v(),
                subject: subject.v(),
            },
        }
    }

    fn dup(&self) -> (r: Caller) {
        match self {
            Caller::System { tenant_id } => Caller::System {
                tenant_id: tenant_id.dup(),
            },
            Caller::ApiKey { tenant_id, key_id } => Caller::ApiKey {
                tenant_id: tenant_id.dup(),
                key_id: key_id.dup(),
            },
            Caller::Frontend { tenant_id, subject, attrs } => Caller::Frontend {
                tenant_id: tenant_id.dup(),
                subject: subject.dup(),
                attrs: attrs.dup(),
            },
            Caller::Operator { tenant_id, subject } => Caller::Operator {
                tenant_id: tenant_id.dup(),
                subject: subject.dup(),
            },
        }
    }
}

impl Clone for Caller {
    fn clone(&self) -> (r: Caller)
        ensures
            r.v() == self.v(),
    {
        self.dup()
    }
}

impl CallerV {
    pub open spec fn tenant(self) -> Seq<char> {
        match self {
            CallerV::System { tenant_id } => tenant_id,
            CallerV::ApiKey { tenant_id, .. } => tenant_id,
            CallerV::Frontend { tenant_id, .. } => tenant_id,
            CallerV::Operator { tenant_id, .. } => tenant_id,
        }
    }

    /// Whether the caller is the person the session runs for.
    pub open spec fn owns(self, owner: SessionOwnerV) -> bool {
        match self {
            CallerV::Frontend { subject, .. } => owner.requester.subject == Some(subject),
            CallerV::Operator { subject, .. } => owner.requester.subject == Some(subject),
            _ => false,
        }
    }

    /// What an interrupt the caller raises can be resumed by.
    pub open spec fn origin(self) -> InterruptOrigin {
        match self {
            CallerV::System { .. } => InterruptOrigin::System,
            CallerV::ApiKey { .. } => InterruptOrigin::Machine,
            CallerV::Frontend { .. } => InterruptOrigin::Frontend,
            CallerV::Operator { .. } => InterruptOrigin::Operator,
        }
    }
}

impl Caller {
    pub fn tenant_id(&self) -> (r: &String)
        ensures
            r@ == self.v().tenant(),
    {
        match self {
            Caller::System { tenant_id } => tenant_id,
            Caller::ApiKey { tenant_id, .. } => tenant_id,
            Caller::Frontend { tenant_id, .. } => tenant_id,
            Caller::Operator { tenant_id, .. } => tenant_id,
        }
    }

    /// Whether the caller is the person the session runs for.
    pub fn owns(&self, owner: &SessionOwner) -> (r: bool)
        ensures
            r == self.v().owns(owner.v()),
    {
        match self {
            Caller::Frontend { subject, .. } => match &owner.requester.subject {
                Some(own) => own.same(subject),
                None => false,
            },
            Caller::Operator { subject, .. } => match &owner.requester.subject {
                Some(own) => own.same(subject),
                None => false,
            },
            _ => false,
        }
    }

    pub fn origin(&self) -> (r: InterruptOrigin)
        ensures
            r == self.v().origin(),
    {
        match self {
            Caller::System { .. } => InterruptOrigin::System,
            Caller::ApiKey { .. } => InterruptOrigin::Machine,
            Caller::Frontend { .. } => InterruptOrigin::Frontend,
            Caller::Operator { .. } => InterruptOrigin::Operator,
        }
    }
}

} // verus!
