//! Who a session runs for.
use crate::model::{Model, Same};
use crate::text;
use vstd::prelude::*;

verus! {

/// Where a person's name comes from: `slack`, `app`, `cli`, or another source
/// a deployment registers. Set by whatever authenticated the request, never
/// read from the request.
#[derive(Debug, PartialEq, Eq, Hash)]
pub struct Issuer(pub String);

/// The value of [`Issuer`].
pub struct IssuerV(pub Seq<char>);

impl Model for Issuer {
    type V = IssuerV;

    open spec fn v(&self) -> IssuerV {
        IssuerV(self.0.v())
    }

    fn dup(&self) -> (r: Issuer) {
        Issuer(self.0.dup())
    }
}

impl Same for Issuer {
    fn same(&self, other: &Issuer) -> (r: bool) {
        self.0.same(&other.0)
    }
}

impl Clone for Issuer {
    fn clone(&self) -> (r: Issuer)
        ensures
            r.v() == self.v(),
    {
        self.dup()
    }
}

impl Issuer {
    pub fn new(name: String) -> (r: Issuer)
        ensures
            r.v() == IssuerV(name@),
    {
        Issuer(name)
    }

    /// The one person at an installation with no authentication.
    pub fn cli() -> (r: Issuer)
        ensures
            r.v() == IssuerV("cli"@),
    {
        Issuer("cli".to_owned())
    }

    pub fn slack() -> (r: Issuer)
        ensures
            r.v() == IssuerV("slack"@),
    {
        Issuer("slack".to_owned())
    }

    /// A login on this deployment: whoever configures it.
    pub fn operator() -> (r: Issuer)
        ensures
            r.v() == IssuerV("operator"@),
    {
        Issuer("operator".to_owned())
    }

    /// An end user of the project's own application, named in a client token.
    pub fn app() -> (r: Issuer)
        ensures
            r.v() == IssuerV("app"@),
    {
        Issuer("app".to_owned())
    }

    pub fn as_str(&self) -> (r: &str)
        ensures
            r@ == self.v().0,
    {
        self.0.as_str()
    }

    pub fn to_string(&self) -> (r: String)
        ensures
            r@ == self.v().0,
    {
        self.0.dup()
    }
}

/// One identity, as the source that authenticated it named it. An id is
/// unique only within its issuer.
#[derive(Debug, PartialEq, Eq, Hash)]
pub struct Subject {
    pub issuer: Issuer,
    pub id: String,
}

/// The value of [`Subject`].
pub struct SubjectV {
    pub issuer: IssuerV,
    pub id: Seq<char>,
}

impl Model for Subject {
    type V = SubjectV;

    open spec fn v(&self) -> SubjectV {
        SubjectV {
            issuer: self.issuer.v(),
            id: self.id.v(),
        }
    }

    fn dup(&self) -> (r: Subject) {
        Subject {
            issuer: self.issuer.dup(),
            id: self.id.dup(),
        }
    }
}

impl Same for Subject {
    fn same(&self, other: &Subject) -> (r: bool) {
        self.issuer.same(&other.issuer)
            && self.id.same(&other.id)
    }
}

impl Clone for Subject {
    fn clone(&self) -> (r: Subject)
        ensures
            r.v() == self.v(),
    {
        self.dup()
    }
}

impl Subject {
    pub fn new(issuer: Issuer, id: String) -> (r: Subject)
        ensures
            r.v() == (SubjectV { issuer: issuer.v(), id: id@ }),
    {
        Subject { issuer, id }
    }

    /// The issuer and the id, with a colon between them.
    pub fn to_string(&self) -> (r: String)
        ensures
            r@ == self.v().issuer.0 + ":"@ + self.v().id,
    {
        self.issuer.to_string().concat(":").concat(self.id.as_str())
    }
}

/// Who can read what a session says. The transport sets it once, when the
/// session starts. Absent or unknown reads as `Shared`. `Shared` never selects
/// a personal credential.
#[derive(Debug, Clone, Copy, PartialEq, Eq, Structural)]
pub enum Visibility {
    /// More than one person can read the answer.
    Shared,
    /// One person only.
    Private,
}

impl Model for Visibility {
    type V = Visibility;

    open spec fn v(&self) -> Visibility {
        *self
    }

    fn dup(&self) -> (r: Visibility) {
        *self
    }
}

impl Same for Visibility {
    fn same(&self, other: &Visibility) -> (r: bool) {
        *self == *other
    }
}

impl Default for Visibility {
    fn default() -> (r: Visibility)
        ensures
            r == Visibility::Shared,
    {
        Visibility::Shared
    }
}

/// Who a session runs for. No subject means a schedule, a key, or the engine.
/// None of them has a credential of its own.
#[derive(Debug, PartialEq, Eq)]
pub struct Requester {
    pub subject: Option<Subject>,
    pub visibility: Visibility,
}

/// The value of [`Requester`].
pub struct RequesterV {
    pub subject: Option<SubjectV>,
    pub visibility: Visibility,
}

impl Model for Requester {
    type V = RequesterV;

    open spec fn v(&self) -> RequesterV {
        RequesterV {
            subject: self.subject.v(),
            visibility: self.visibility.v(),
        }
    }

    fn dup(&self) -> (r: Requester) {
        Requester {
            subject: self.subject.dup(),
            visibility: self.visibility.dup(),
        }
    }
}

impl Same for Requester {
    fn same(&self, other: &Requester) -> (r: bool) {
        self.subject.same(&other.subject)
            && self.visibility.same(&other.visibility)
    }
}

impl Clone for Requester {
    fn clone(&self) -> (r: Requester)
        ensures
            r.v() == self.v(),
    {
        self.dup()
    }
}

impl RequesterV {
    /// Nobody in particular.
    pub open spec fn machine() -> RequesterV {
        RequesterV { subject: None, visibility: Visibility::Shared }
    }
}

impl Default for Requester {
    fn default() -> (r: Requester)
        ensures
            r.v() == RequesterV::machine(),
    {
        Requester { subject: None, visibility: Visibility::Shared }
    }
}

impl Requester {
    /// Nobody in particular.
    pub fn machine() -> (r: Requester)
        ensures
            r.v() == RequesterV::machine(),
    {
        Requester::default()
    }

    /// The requester a session runs for. A session with no owner is nobody's.
    pub fn of_owner(owner: Option<&SessionOwner>) -> (r: Requester)
        ensures
            r.v() == (match owner {
                Some(owner) => owner.v().requester,
                None => RequesterV::machine(),
            }),
    {
        match owner {
            Some(owner) => owner.requester.dup(),
            None => Requester::machine(),
        }
    }

    /// One person, in a conversation only they can read.
    pub fn private(subject: Subject) -> (r: Requester)
        ensures
            r.v() == (RequesterV {
                subject: Some(subject.v()),
                visibility: Visibility::Private,
            }),
    {
        Requester { subject: Some(subject), visibility: Visibility::Private }
    }

    pub fn new(subject: Subject, visibility: Visibility) -> (r: Requester)
        ensures
            r.v() == (RequesterV { subject: Some(subject.v()), visibility }),
    {
        Requester { subject: Some(subject), visibility }
    }
}

/// A kind of channel that opens sessions.
#[derive(Debug, Clone, Copy, PartialEq, Eq, Hash, Structural)]
pub enum ChannelKind {
    Slack,
    AgUi,
    Cli,
}

impl Model for ChannelKind {
    type V = ChannelKind;

    open spec fn v(&self) -> ChannelKind {
        *self
    }

    fn dup(&self) -> (r: ChannelKind) {
        *self
    }
}

impl Same for ChannelKind {
    fn same(&self, other: &ChannelKind) -> (r: bool) {
        *self == *other
    }
}

impl ChannelKind {
    pub const SLACK: ChannelKind = ChannelKind::Slack;

    pub const AG_UI: ChannelKind = ChannelKind::AgUi;

    pub const CLI: ChannelKind = ChannelKind::Cli;

    /// The name of the channel.
    pub open spec fn name(self) -> Seq<char> {
        match self {
            ChannelKind::Slack => "slack"@,
            ChannelKind::AgUi => "ag-ui"@,
            ChannelKind::Cli => "cli"@,
        }
    }

    pub fn as_str(&self) -> (r: &'static str)
        ensures
            r@ == self.name(),
    {
        match self {
            ChannelKind::Slack => "slack",
            ChannelKind::AgUi => "ag-ui",
            ChannelKind::Cli => "cli",
        }
    }

    /// The channel that opened a session: the one its owner's issuer names.
    pub fn owning(owner: &SessionOwner) -> (r: Option<ChannelKind>)
        ensures
            match r {
                Some(kind) => owner.v().requester.subject is Some
                    && kind.name() == owner.v().requester.subject->0.issuer.0,
                None => owner.v().requester.subject is None || forall|kind: ChannelKind|
                    (#[trigger] kind.name()) != owner.v().requester.subject->0.issuer.0,
            },
    {
        match &owner.requester.subject {
            Some(subject) => {
                let issuer = subject.issuer.as_str();
                if text::eq("slack", issuer) {
                    Some(ChannelKind::Slack)
                } else if text::eq("ag-ui", issuer) {
                    Some(ChannelKind::AgUi)
                } else if text::eq("cli", issuer) {
                    Some(ChannelKind::Cli)
                } else {
                    None
                }
            },
            None => None,
        }
    }

    pub fn to_string(&self) -> (r: String)
        ensures
            r@ == self.name(),
    {
        self.as_str().to_owned()
    }
}

/// A name and what stands under it.
#[derive(Debug, PartialEq)]
pub struct Entry {
    pub name: String,
    pub value: String,
}

/// The value of [`Entry`].
pub struct EntryV {
    pub name: Seq<char>,
    pub value: Seq<char>,
}

impl Model for Entry {
    type V = EntryV;

    open spec fn v(&self) -> EntryV {
        EntryV {
            name: self.name.v(),
            value: self.value.v(),
        }
    }

    fn dup(&self) -> (r: Entry) {
        Entry {
            name: self.name.dup(),
            value: self.value.dup(),
        }
    }
}

impl Clone for Entry {
    fn clone(&self) -> (r: Entry)
        ensures
            r.v() == self.v(),
    {
        self.dup()
    }
}

/// Whether no name stands twice.
pub open spec fn named_once(entries: Seq<EntryV>) -> bool {
    forall|i: int, j: int|
        0 <= i < j < entries.len() ==> (#[trigger] entries[i]).name != (
        #[trigger] entries[j]).name
}

/// Whose session it is. No name stands twice in `metadata`.
#[derive(Debug, PartialEq)]
pub struct SessionOwner {
    pub tenant_id: String,
    pub requester: Requester,
    pub metadata: Vec<Entry>,
}

/// The value of [`SessionOwner`].
pub struct SessionOwnerV {
    pub tenant_id: Seq<char>,
    pub requester: RequesterV,
    pub metadata: Seq<EntryV>,
}

impl Model for SessionOwner {
    type V = SessionOwnerV;

    open spec fn v(&self) -> SessionOwnerV {
        SessionOwnerV {
            tenant_id: self.tenant_id.v(),
            requester: self.requester.v(),
            metadata: self.metadata.v(),
        }
    }

    fn dup(&self) -> (r: SessionOwner) {
        SessionOwner {
            tenant_id: self.tenant_id.dup(),
            requester: self.requester.dup(),
            metadata: self.metadata.dup(),
        }
    }
}

impl Clone for SessionOwner {
    fn clone(&self) -> (r: SessionOwner)
        ensures
            r.v() == self.v(),
    {
        self.dup()
    }
}

impl SessionOwnerV {
    pub open spec fn wf(self) -> bool {
        named_once(self.metadata)
    }
}

impl Default for SessionOwner {
    fn default() -> (r: SessionOwner)
        ensures
            r.v() == (SessionOwnerV {
                tenant_id: Seq::empty(),
                requester: RequesterV::machine(),
                metadata: Seq::empty(),
            }),
            r.v().wf(),
    {
        SessionOwner {
            tenant_id: String::new(),
            requester: Requester::default(),
            metadata: crate::model::none(),
        }
    }
}

/// The owner as the worker receives it, without the tenant. Only a subject of
/// the `app` issuer is an end user.
#[derive(Debug, PartialEq)]
pub struct WorkerIdentity {
    pub requester: Requester,
    pub metadata: Vec<Entry>,
}

/// The value of [`WorkerIdentity`].
pub struct WorkerIdentityV {
    pub requester: RequesterV,
    pub metadata: Seq<EntryV>,
}

impl Model for WorkerIdentity {
    type V = WorkerIdentityV;

    open spec fn v(&self) -> WorkerIdentityV {
        WorkerIdentityV {
            requester: self.requester.v(),
            metadata: self.metadata.v(),
        }
    }

    fn dup(&self) -> (r: WorkerIdentity) {
        WorkerIdentity {
            requester: self.requester.dup(),
            metadata: self.metadata.dup(),
        }
    }
}

impl Clone for WorkerIdentity {
    fn clone(&self) -> (r: WorkerIdentity)
        ensures
            r.v() == self.v(),
    {
        self.dup()
    }
}

impl WorkerIdentityV {
    /// No name stands twice in `metadata`.
    pub open spec fn wf(self) -> bool {
        named_once(self.metadata)
    }
}

/// The privilege of the caller that raised an interrupt. Read from the
/// authenticated caller, never from the request. To resume it, a caller needs
/// this privilege or more.
#[derive(Debug, Clone, Copy, PartialEq, Eq, Structural)]
pub enum InterruptOrigin {
    System,
    Operator,
    Machine,
    Frontend,
}

impl Model for InterruptOrigin {
    type V = InterruptOrigin;

    open spec fn v(&self) -> InterruptOrigin {
        *self
    }

    fn dup(&self) -> (r: InterruptOrigin) {
        *self
    }
}

impl Same for InterruptOrigin {
    fn same(&self, other: &InterruptOrigin) -> (r: bool) {
        *self == *other
    }
}

impl InterruptOrigin {
    /// How much a caller may do: the engine most, a frontend least.
    pub open spec fn rank(self) -> u8 {
        match self {
            InterruptOrigin::System => 3,
            InterruptOrigin::Operator => 2,
            InterruptOrigin::Machine => 1,
            InterruptOrigin::Frontend => 0,
        }
    }

    pub fn privilege(self) -> (r: u8)
        ensures
            r == self.rank(),
    {
        match self {
            InterruptOrigin::System => 3,
            InterruptOrigin::Operator => 2,
            InterruptOrigin::Machine => 1,
            InterruptOrigin::Frontend => 0,
        }
    }
}

/// Which worker identity decides for a session, and optionally at what
/// address. `url` fills in when the declared block has none, or overrides it.
#[derive(Debug, PartialEq)]
pub struct WorkerRef {
    pub id: String,
    pub url: Option<String>,
}

/// The value of [`WorkerRef`].
pub struct WorkerRefV {
    pub id: Seq<char>,
    pub url: Option<Seq<char>>,
}

impl Model for WorkerRef {
    type V = WorkerRefV;

    open spec fn v(&self) -> WorkerRefV {
        WorkerRefV {
            id: self.id.v(),
            url: self.url.v(),
        }
    }

    fn dup(&self) -> (r: WorkerRef) {
        WorkerRef {
            id: self.id.dup(),
            url: self.url.dup(),
        }
    }
}

impl Clone for WorkerRef {
    fn clone(&self) -> (r: WorkerRef)
        ensures
            r.v() == self.v(),
    {
        self.dup()
    }
}

} // verus!
