//! What the model is told of servers and plugins.
use crate::model::{append_one, collect, extend, lemma_collect_step, one, Model};
use crate::protocol::config::{
    AgentConfig, AgentConfigV, AgentPlugin, AgentPluginV, BoundServer, BoundServerV, McpAnnounce,
    SkillMetaV,
};
use crate::protocol::effect::{EffectKind, EffectStatus};
use crate::protocol::json::Json;
use crate::protocol::message::{Content, ContentV, DraftMessage, DraftMessageV, Role};
use crate::protocol::result::{StoredContent, StoredContentV};
use crate::session::effects::connector::servers_for;
use crate::session::offers::search::quoted;
use crate::session::state::{EffectEntryV, SessionState, SessionStateV};
use crate::text;
use vstd::prelude::*;

verus! {

/// Something the model is told once: what it is of, and the text.
#[derive(Debug, PartialEq)]
pub struct Notice {
    pub of: String,
    pub text: String,
}

/// The value of [`Notice`].
pub struct NoticeV {
    pub of: Seq<char>,
    pub text: Seq<char>,
}

impl Model for Notice {
    type V = NoticeV;

    open spec fn v(&self) -> NoticeV {
        NoticeV {
            of: self.of.v(),
            text: self.text.v(),
        }
    }

    fn dup(&self) -> (r: Notice) {
        Notice {
            of: self.of.dup(),
            text: self.text.dup(),
        }
    }
}

impl Clone for Notice {
    fn clone(&self) -> (r: Notice)
        ensures
            r.v() == self.v(),
    {
        self.dup()
    }
}

pub open spec fn notice_of() -> spec_fn(NoticeV) -> Seq<char> {
    |n: NoticeV| n.of
}

/// A skill as a catalog lists it, under the name of its plugin.
pub open spec fn skill_entry(plugin: Seq<char>) -> spec_fn(SkillMetaV) -> Seq<char> {
    |s: SkillMetaV|
        "{\"name\":"@ + quoted(plugin + ":"@ + s.name) + ",\"description\":"@ + quoted(
            s.description,
        ) + "}"@
}

/// What the model is told of a plugin: its name first, then its skills.
pub open spec fn catalog(p: AgentPluginV) -> NoticeV {
    NoticeV {
        of: "plugin."@ + p.id,
        text: "{\"plugin\":"@ + quoted(p.id) + ",\"description\":"@ + quoted(p.description)
            + ",\"skills\":["@ + text::joined(p.skills.map_values(skill_entry(p.id)), ","@) + "]}"@,
    }
}

/// What the model is told of a server: its name first, then how many tools it
/// has and what it says of itself.
pub open spec fn announcement(path: Seq<char>, tools: nat, instructions: Option<Seq<char>>) -> NoticeV {
    NoticeV {
        of: path,
        text: "{\"mcp_server\":"@ + quoted(path) + ",\"tools\":"@ + text::decimal(tools)
            + ",\"instructions\":"@ + (match instructions {
            Some(text) => quoted(text),
            None => "null"@,
        }) + "}"@,
    }
}

impl SessionStateV {
    /// Whether a call on the path to the head told the model of it.
    pub open spec fn told_of(self, of: Seq<char>) -> bool {
        exists|i: int|
            0 <= i < self.effects.len() && told_by(self, #[trigger] self.effects[i], of)
    }

    /// Whether a call other than `id` went out on the path to the head.
    pub open spec fn called_before(self, id: Seq<char>) -> bool {
        exists|i: int| 0 <= i < self.effects.len() && went_out(self, #[trigger] self.effects[i], id)
    }

    pub open spec fn plugin_notice(self) -> spec_fn(AgentPluginV) -> Option<NoticeV> {
        |p: AgentPluginV|
            if p.skills.len() > 0 && !self.told_of(catalog(p).of) {
                Some(catalog(p))
            } else {
                None
            }
    }

    pub open spec fn server_notice(self, default: bool) -> spec_fn(BoundServerV) -> Option<NoticeV> {
        |server: BoundServerV|
            match self.effect(EffectKind::ConnectorSync, server.path.written()) {
                Some(e) => if e.tracking.state == EffectStatus::Completed && !self.told_of(
                    server.path.written(),
                ) {
                    Some(
                        announcement(
                            server.path.written(),
                            self.server_tools(server, default).len(),
                            e.connector()->0.instructions,
                        ),
                    )
                } else {
                    None
                },
                None => None,
            }
    }

    /// What a call tells the model: the plugins and the servers that no call on
    /// the path told it of. An agent can do without the servers.
    #[verifier::opaque]
    pub open spec fn notices(self, config: AgentConfigV) -> Seq<NoticeV> {
        let plugins = collect(config.plugins, self.plugin_notice());
        match config.mcp_announce {
            McpAnnounce::Auto => plugins + collect(
                servers_for(config),
                self.server_notice(config.defer_tools is Some),
            ),
            McpAnnounce::Never => plugins,
        }
    }

    /// What a call that goes out now tells the model.
    pub open spec fn head_notices(self) -> Seq<NoticeV> {
        match self.agent_for(self.head_id) {
            Some(config) => self.notices(config),
            None => Seq::empty(),
        }
    }
}

pub open spec fn told_by(s: SessionStateV, e: EffectEntryV, of: Seq<char>) -> bool {
    match e.llm() {
        Some(call) => call.announced.contains(of) && s.on_path(s.head_id, e.anchor),
        None => false,
    }
}

pub open spec fn went_out(s: SessionStateV, e: EffectEntryV, id: Seq<char>) -> bool {
    e.kind() == EffectKind::LlmCall && e.id != id && e.tracking.state != EffectStatus::Queued
        && s.on_path(s.head_id, e.anchor)
}

/// A notice as a message.
pub open spec fn notice_message(role: Role) -> spec_fn(NoticeV) -> DraftMessageV {
    |n: NoticeV|
        DraftMessageV {
            id: None,
            role,
            content: Some(ContentV::Text(n.text)),
            tool_calls: None,
            tool_call_id: None,
            name: None,
            reasoning: None,
        }
}

pub open spec fn notice_part() -> spec_fn(NoticeV) -> StoredContentV {
    |n: NoticeV| StoredContentV::Text { text: n.text }
}

/// What a message says, as parts.
pub open spec fn parts_of(content: ContentV) -> Seq<StoredContentV> {
    match content {
        ContentV::Text(text) => seq![StoredContentV::Text { text }],
        ContentV::Parts(parts) => parts,
    }
}

/// Whether notices can ride on a message.
pub open spec fn carries(messages: Seq<DraftMessageV>) -> bool {
    messages.len() > 0 && messages.last().role == Role::User && messages.last().content is Some
}

/// A prompt with its notices: before it while no call went out, else on its
/// last message where that is a user's, else behind it.
pub open spec fn with_notices(
    messages: Seq<DraftMessageV>,
    notices: Seq<NoticeV>,
    opening: bool,
) -> Seq<DraftMessageV> {
    if notices.len() == 0 {
        messages
    } else if opening {
        notices.map_values(notice_message(Role::System)) + messages
    } else if carries(messages) {
        messages.drop_last().push(
            DraftMessageV {
                content: Some(
                    ContentV::Parts(
                        parts_of(messages.last().content->0) + notices.map_values(notice_part()),
                    ),
                ),
                ..messages.last()
            },
        )
    } else {
        messages + notices.map_values(notice_message(Role::User))
    }
}

fn write_skills(p: &AgentPlugin) -> (r: String)
    ensures
        r@ == text::joined(p.v().skills.map_values(skill_entry(p.v().id)), ","@),
{
    let ghost all = p.v().skills.map_values(skill_entry(p.v().id));
    let mut entries: Vec<String> = crate::model::none();
    let mut i: usize = 0;
    assert(entries.v() =~= all.take(0));
    while i < p.skills.len()
        invariant
            i <= p.skills@.len(),
            all == p.v().skills.map_values(skill_entry(p.v().id)),
            entries.v() == all.take(i as int),
        decreases p.skills@.len() - i,
    {
        let s = &p.skills[i];
        let name = p.id.dup().concat(":").concat(s.name.as_str());
        let entry = "{\"name\":".to_owned().concat(Json::of_text(name.as_str()).text.as_str()).concat(
            ",\"description\":",
        ).concat(Json::of_text(s.description.as_str()).text.as_str()).concat("}");
        append_one(&mut entries, entry);
        i = i + 1;
        assert(entries.v() =~= all.take(i as int));
    }
    assert(all.take(i as int) =~= all);
    text::join(&entries, ",")
}

fn write_catalog(p: &AgentPlugin) -> (r: Notice)
    ensures
        r.v() == catalog(p.v()),
{
    Notice {
        of: "plugin.".to_owned().concat(p.id.as_str()),
        text: "{\"plugin\":".to_owned().concat(Json::of_text(p.id.as_str()).text.as_str()).concat(
            ",\"description\":",
        ).concat(Json::of_text(p.description.as_str()).text.as_str()).concat(",\"skills\":[").concat(
            write_skills(p).as_str(),
        ).concat("]}"),
    }
}

fn write_announcement(path: String, tools: usize, instructions: &Option<String>) -> (r: Notice)
    ensures
        r.v() == announcement(path@, tools as nat, instructions.v()),
{
    let said = match instructions {
        Some(text) => Json::of_text(text.as_str()).text,
        None => "null".to_owned(),
    };
    let text = "{\"mcp_server\":".to_owned().concat(
        Json::of_text(path.as_str()).text.as_str(),
    ).concat(",\"tools\":").concat(text::number(tools as u64).as_str()).concat(
        ",\"instructions\":",
    ).concat(said.as_str()).concat("}");
    Notice { of: path, text }
}

fn holds_text(texts: &Vec<String>, text: &str) -> (r: bool)
    ensures
        r == texts.v().contains(text@),
{
    let mut i: usize = 0;
    while i < texts.len()
        invariant
            i <= texts@.len(),
            forall|j: int| 0 <= j < i ==> #[trigger] texts.v()[j] != text@,
        decreases texts@.len() - i,
    {
        assert(texts.v()[i as int] == texts@[i as int]@);
        if text::eq(texts[i].as_str(), text) {
            return true;
        }
        i = i + 1;
    }
    false
}

impl SessionState {
    fn told_of(&self, of: &str) -> (r: bool)
        ensures
            r == self.v().told_of(of@),
    {
        let mut i: usize = 0;
        while i < self.effects.len()
            invariant
                i <= self.effects@.len(),
                forall|j: int|
                    0 <= j < i ==> !told_by(self.v(), #[trigger] self.v().effects[j], of@),
            decreases self.effects@.len() - i,
        {
            let e = &self.effects[i];
            assert(self.v().effects[i as int] == e.v());
            match e.llm() {
                Some(call) => {
                    if holds_text(&call.announced, of) && self.at_head().anchor_on_path(
                        crate::model::as_text(&e.anchor),
                    ) {
                        return true;
                    }
                },
                None => {},
            }
            i = i + 1;
        }
        false
    }

    fn called_before(&self, id: &str) -> (r: bool)
        ensures
            r == self.v().called_before(id@),
    {
        let mut i: usize = 0;
        while i < self.effects.len()
            invariant
                i <= self.effects@.len(),
                forall|j: int|
                    0 <= j < i ==> !went_out(self.v(), #[trigger] self.v().effects[j], id@),
            decreases self.effects@.len() - i,
        {
            let e = &self.effects[i];
            assert(self.v().effects[i as int] == e.v());
            if e.kind() == EffectKind::LlmCall && !text::eq(e.id.as_str(), id) && e.tracking.state
                != EffectStatus::Queued && self.at_head().anchor_on_path(
                crate::model::as_text(&e.anchor),
            ) {
                return true;
            }
            i = i + 1;
        }
        false
    }

    fn notice_plugins(&self, config: &AgentConfig) -> (r: Vec<Notice>)
        ensures
            r.v() == collect(config.v().plugins, self.v().plugin_notice()),
    {
        let ghost all = config.v().plugins;
        let ghost f = self.v().plugin_notice();
        let mut out: Vec<Notice> = crate::model::none();
        let mut i: usize = 0;
        assert(all.take(0) =~= Seq::empty());
        while i < config.plugins.len()
            invariant
                i <= config.plugins@.len(),
                all == config.v().plugins,
                f == self.v().plugin_notice(),
                out.v() == collect(all.take(i as int), f),
            decreases config.plugins@.len() - i,
        {
            proof {
                lemma_collect_step(all, f, i as int);
            }
            let p = &config.plugins[i];
            assert(all[i as int] == p.v());
            if p.skills.len() > 0 {
                let notice = write_catalog(p);
                if !self.told_of(notice.of.as_str()) {
                    append_one(&mut out, notice);
                }
            }
            i = i + 1;
        }
        assert(all.take(i as int) =~= all);
        out
    }

    fn notice_servers(&self, servers: &Vec<BoundServer>, default: bool) -> (r: Vec<Notice>)
        ensures
            r.v() == collect(servers.v(), self.v().server_notice(default)),
    {
        let ghost all = servers.v();
        let ghost f = self.v().server_notice(default);
        let mut out: Vec<Notice> = crate::model::none();
        let mut i: usize = 0;
        assert(all.take(0) =~= Seq::empty());
        while i < servers.len()
            invariant
                i <= servers@.len(),
                all == servers.v(),
                f == self.v().server_notice(default),
                out.v() == collect(all.take(i as int), f),
            decreases servers@.len() - i,
        {
            proof {
                lemma_collect_step(all, f, i as int);
            }
            let server = &servers[i];
            assert(all[i as int] == server.v());
            let path = server.path.to_string();
            proof {
                crate::model::lemma_position(
                    self.v().effects,
                    crate::session::state::named(EffectKind::ConnectorSync, path@),
                );
            }
            match self.effect(EffectKind::ConnectorSync, &path) {
                Some(e) => {
                    if e.tracking.state == EffectStatus::Completed && !self.told_of(&path) {
                        match e.connector() {
                            Some(sync) => {
                                let tools = self.tools_of_server(server, default).len();
                                append_one(
                                    &mut out,
                                    write_announcement(path, tools, &sync.instructions),
                                );
                            },
                            None => {},
                        }
                    }
                },
                None => {},
            }
            i = i + 1;
        }
        assert(all.take(i as int) =~= all);
        out
    }

    /// What a call that goes out now tells the model.
    pub fn head_notices(&self) -> (r: Vec<Notice>)
        ensures
            r.v() == self.v().head_notices(),
    {
        proof {
            reveal(SessionStateV::notices);
        }
        match self.at_head().agent() {
            Some(config) => {
                let mut out = self.notice_plugins(config);
                if config.mcp_announce == McpAnnounce::Auto {
                    let servers = self.servers_for(config);
                    extend(&mut out, self.notice_servers(&servers, config.defers_tools()));
                }
                out
            },
            None => crate::model::none(),
        }
    }

    /// The prompt of a call with what it tells the model.
    pub fn prompt_with(&self, id: &str, messages: Vec<DraftMessage>, notices: &Vec<Notice>) -> (r:
        Vec<DraftMessage>)
        ensures
            r.v() == with_notices(messages.v(), notices.v(), !self.v().called_before(id@)),
    {
        if notices.len() == 0 {
            return messages;
        }
        if !self.called_before(id) {
            let mut out = as_messages(notices, Role::System);
            extend(&mut out, messages);
            return out;
        }
        let mut out = messages;
        if out.len() > 0 && out[out.len() - 1].role == Role::User && out[out.len()
            - 1].content.is_some() {
            let ghost before = out.v();
            let n = out.len() - 1;
            let last = crate::model::take_out(&mut out, n);
            assert(before.remove(n as int) =~= before.drop_last());
            let mut parts: Vec<StoredContent> = match last.content {
                Some(Content::Text(text)) => one(StoredContent::Text { text }),
                Some(Content::Parts(parts)) => parts,
                None => crate::model::none(),
            };
            extend(&mut parts, as_parts(notices));
            append_one(
                &mut out,
                DraftMessage {
                    id: last.id,
                    role: last.role,
                    content: Some(Content::Parts(parts)),
                    tool_calls: last.tool_calls,
                    tool_call_id: last.tool_call_id,
                    name: last.name,
                    reasoning: last.reasoning,
                },
            );
            return out;
        }
        extend(&mut out, as_messages(notices, Role::User));
        out
    }
}

fn as_messages(notices: &Vec<Notice>, role: Role) -> (r: Vec<DraftMessage>)
    ensures
        r.v() == notices.v().map_values(notice_message(role)),
{
    let ghost all = notices.v().map_values(notice_message(role));
    let mut out: Vec<DraftMessage> = crate::model::none();
    let mut i: usize = 0;
    assert(out.v() =~= all.take(0));
    while i < notices.len()
        invariant
            i <= notices@.len(),
            all == notices.v().map_values(notice_message(role)),
            out.v() == all.take(i as int),
        decreases notices@.len() - i,
    {
        append_one(
            &mut out,
            DraftMessage {
                id: None,
                role,
                content: Some(Content::Text(notices[i].text.dup())),
                tool_calls: None,
                tool_call_id: None,
                name: None,
                reasoning: None,
            },
        );
        i = i + 1;
        assert(out.v() =~= all.take(i as int));
    }
    assert(all.take(i as int) =~= all);
    out
}

fn as_parts(notices: &Vec<Notice>) -> (r: Vec<StoredContent>)
    ensures
        r.v() == notices.v().map_values(notice_part()),
{
    let ghost all = notices.v().map_values(notice_part());
    let mut out: Vec<StoredContent> = crate::model::none();
    let mut i: usize = 0;
    assert(out.v() =~= all.take(0));
    while i < notices.len()
        invariant
            i <= notices@.len(),
            all == notices.v().map_values(notice_part()),
            out.v() == all.take(i as int),
        decreases notices@.len() - i,
    {
        append_one(&mut out, StoredContent::Text { text: notices[i].text.dup() });
        i = i + 1;
        assert(out.v() =~= all.take(i as int));
    }
    assert(all.take(i as int) =~= all);
    out
}

/// What the notices are of.
pub fn subjects(notices: &Vec<Notice>) -> (r: Vec<String>)
    ensures
        r.v() == notices.v().map_values(notice_of()),
{
    let ghost all = notices.v().map_values(notice_of());
    let mut out: Vec<String> = crate::model::none();
    let mut i: usize = 0;
    assert(out.v() =~= all.take(0));
    while i < notices.len()
        invariant
            i <= notices@.len(),
            all == notices.v().map_values(notice_of()),
            out.v() == all.take(i as int),
        decreases notices@.len() - i,
    {
        append_one(&mut out, notices[i].of.dup());
        i = i + 1;
        assert(out.v() =~= all.take(i as int));
    }
    assert(all.take(i as int) =~= all);
    out
}

} // verus!
