//! Finding a tool that is not listed, and what the engine answers itself.
use crate::model::{
    append_one, as_text, collect, extend, first, lemma_collect_step, lemma_position,
    lemma_position_is, text_of, Model,
};
use crate::protocol::config::{AgentConfig, AgentConfigV, AgentToolV, ConnectorTool, ConnectorToolV};
use crate::protocol::effect::EffectKind;
use crate::protocol::json::{
    json_member, json_of_text, json_parsed, json_str, json_text, member, parse, Json, JsonV,
};
use crate::protocol::result::{StoredResult, StoredResultV};
use crate::protocol::schema::{check, schema_fault};
use crate::session::events::{ConnectorTarget, ConnectorTargetV};
use crate::session::offers::routes::{inner_call, read_inner_call, InnerCall, InnerCallV};
use crate::session::state::{named, SessionState, SessionStateV};
use crate::session::tree::At;
use crate::text;
use vstd::prelude::*;

verus! {

/// What a search says of a tool.
#[derive(Debug, PartialEq)]
pub struct Listing {
    pub name: String,
    pub description: String,
    pub input: Option<Json>,
}

/// The value of [`Listing`].
pub struct ListingV {
    pub name: Seq<char>,
    pub description: Seq<char>,
    pub input: Option<JsonV>,
}

impl Model for Listing {
    type V = ListingV;

    open spec fn v(&self) -> ListingV {
        ListingV {
            name: self.name.v(),
            description: self.description.v(),
            input: self.input.v(),
        }
    }

    fn dup(&self) -> (r: Listing) {
        Listing {
            name: self.name.dup(),
            description: self.description.dup(),
            input: self.input.dup(),
        }
    }
}

impl Clone for Listing {
    fn clone(&self) -> (r: Listing)
        ensures
            r.v() == self.v(),
    {
        self.dup()
    }
}

pub open spec fn declared_listing() -> spec_fn(AgentToolV) -> ListingV {
    |t: AgentToolV| ListingV { name: t.name, description: t.description, input: t.input }
}

/// A connection's tool or a subagent. The engine's other tools are always
/// listed.
pub open spec fn offered_listing() -> spec_fn(ConnectorToolV) -> Option<ListingV> {
    |t: ConnectorToolV|
        if t.connector is Some {
            Some(ListingV { name: t.name, description: t.description, input: t.input })
        } else {
            None
        }
}

pub open spec fn listed_under(name: Seq<char>) -> spec_fn(ListingV) -> bool {
    |l: ListingV| l.name == name
}

pub open spec fn speaks_of(l: ListingV, term: Seq<char>) -> bool {
    text::holds(text::lower(l.name), term) || text::holds(text::lower(l.description), term)
}

pub open spec fn hit(l: ListingV) -> spec_fn(Seq<char>) -> Option<()> {
    |term: Seq<char>|
        if speaks_of(l, term) {
            Some(())
        } else {
            None
        }
}

/// How many of the terms a tool's name or description speaks of.
pub open spec fn score(l: ListingV, terms: Seq<Seq<char>>) -> nat {
    collect(terms, hit(l)).len()
}

pub open spec fn scoring(terms: Seq<Seq<char>>, n: nat) -> spec_fn(ListingV) -> Option<ListingV> {
    |l: ListingV|
        if score(l, terms) == n {
            Some(l)
        } else {
            None
        }
}

/// The tools that score at most `n`, but more than nothing: the best first, and
/// in their order where they score the same.
pub open spec fn ranked(all: Seq<ListingV>, terms: Seq<Seq<char>>, n: nat) -> Seq<ListingV>
    decreases n,
{
    if n == 0 {
        Seq::empty()
    } else {
        collect(all, scoring(terms, n)) + ranked(all, terms, (n - 1) as nat)
    }
}

/// The terms of a query.
pub open spec fn terms_of(query: Seq<char>) -> Seq<Seq<char>> {
    text::words(text::lower(query))
}

/// The tools a query finds.
pub open spec fn found(all: Seq<ListingV>, query: Seq<char>) -> Seq<ListingV> {
    ranked(all, terms_of(query), terms_of(query).len())
}

/// A text as a JSON document.
pub open spec fn quoted(text: Seq<char>) -> Seq<char> {
    json_text(json_of_text(text))
}

/// A tool as an answer writes it.
pub open spec fn entry() -> spec_fn(ListingV) -> Seq<char> {
    |l: ListingV|
        "{\"description\":"@ + quoted(l.description) + ",\"input\":"@ + (match l.input {
            Some(schema) => schema.text,
            None => "null"@,
        }) + ",\"name\":"@ + quoted(l.name) + "}"@
}

/// The first of what was found, as many as fit an answer.
pub open spec fn shown(found: Seq<ListingV>, most: nat) -> Seq<ListingV> {
    if found.len() > most {
        found.take(most as int)
    } else {
        found
    }
}

/// What a search answers: how many tools it found among how many, how many of
/// them it leaves out, and the rest of them.
pub open spec fn answer_text(found: Seq<ListingV>, searched: nat, most: nat) -> Seq<char> {
    "{\"matched\":"@ + text::decimal(found.len()) + ",\"searched\":"@ + text::decimal(searched)
        + ",\"omitted\":"@ + text::decimal((found.len() - shown(found, most).len()) as nat)
        + ",\"tools\":["@ + text::joined(shown(found, most).map_values(entry()), ","@) + "]}"@
}

/// What is asked for in the arguments of a search.
pub open spec fn query_of(arguments: Seq<char>) -> Option<Seq<char>> {
    match json_parsed(arguments) {
        Some(document) => match json_member(document, "query"@) {
            Some(query) => json_str(query),
            None => None,
        },
        None => None,
    }
}

pub const NO_QUERY: &'static str = "`tool_search` takes a `query`";

pub const NO_CALL: &'static str = "`call_tool` takes the `name` of a tool and its `arguments`";

pub const NO_LONGER: &'static str = "the tools have changed since the call; call the tool again";

/// What a call to a tool that nobody has is told, with the names that come
/// closest.
pub open spec fn unknown_text(name: Seq<char>, near: Seq<Seq<char>>) -> Seq<char> {
    "no tool is named `"@ + name + "`; `tool_search` finds one and gives its schema; close to it: "@
        + text::joined(near, ", "@)
}

/// What a call with faulty arguments is told.
pub open spec fn fault_text(name: Seq<char>, fault: Seq<char>, schema: JsonV) -> Seq<char> {
    "the arguments of `"@ + name + "` are not valid: "@ + fault + "; its input schema is: "@
        + schema.text
}

pub open spec fn listing_name() -> spec_fn(ListingV) -> Seq<char> {
    |l: ListingV| l.name
}

impl AgentConfigV {
    /// The most matches one search answers with.
    pub open spec fn max_matches(self) -> nat {
        self.defer_settings().max_matches as nat
    }
}

impl SessionStateV {
    /// The tools a search covers: those the agent declares, then those of its
    /// connections and subagents.
    pub open spec fn searchable(self, node: Option<Seq<char>>) -> Seq<ListingV> {
        match self.agent_for(node) {
            Some(config) => config.tools.map_values(declared_listing()) + collect(
                self.offer(config).tools,
                offered_listing(),
            ),
            None => Seq::empty(),
        }
    }

    pub open spec fn most_matches(self, node: Option<Seq<char>>) -> nat {
        match self.agent_for(node) {
            Some(config) => config.max_matches(),
            None => 0,
        }
    }

    /// What is wrong with a call that another call carries. `document` is what
    /// its arguments parse to.
    pub open spec fn inner_fault(
        self,
        node: Option<Seq<char>>,
        call: InnerCallV,
        document: Option<serde_json::Value>,
    ) -> Option<Seq<char>> {
        let all = self.searchable(node);
        match first(all, listed_under(call.name)) {
            None => Some(
                unknown_text(
                    call.name,
                    shown(found(all, call.name), self.most_matches(node)).map_values(
                        listing_name(),
                    ),
                ),
            ),
            Some(l) => match (l.input, document) {
                (Some(schema), Some(document)) => match schema_fault(
                    schema,
                    document,
                    "arguments"@,
                ) {
                    Some(fault) => Some(fault_text(call.name, fault, schema)),
                    None => None,
                },
                _ => None,
            },
        }
    }

    /// What is wrong with the arguments of a `call_tool`.
    pub open spec fn call_tool_fault(self, node: Option<Seq<char>>, arguments: Seq<char>) -> Option<
        Seq<char>,
    > {
        match inner_call(arguments) {
            Some(call) => self.inner_fault(node, call, json_parsed(call.arguments)),
            None => Some(NO_CALL@),
        }
    }

    /// What a search for `query` answers.
    pub open spec fn search_answer(self, node: Option<Seq<char>>, query: Option<Seq<char>>) -> StoredResultV {
        match query {
            Some(query) => {
                let all = self.searchable(node);
                StoredResultV::of_text(
                    answer_text(found(all, query), all.len(), self.most_matches(node)),
                )
            },
            None => StoredResultV { is_error: true, ..StoredResultV::of_text(NO_QUERY@) },
        }
    }

    /// What the engine answers a call that reaches nothing: a search, or a call
    /// that names no tool. It answers from where the call was made.
    pub open spec fn local_connector_answer(self, id: Seq<char>) -> Option<StoredResultV> {
        match self.effect(EffectKind::ToolCall, id) {
            Some(e) => match e.tool()->0.target {
                Some(ConnectorTargetV::Find) => Some(
                    self.search_answer(e.anchor, query_of(e.tool()->0.arguments)),
                ),
                Some(ConnectorTargetV::Call) => {
                    let text = match self.call_tool_fault(e.anchor, e.tool()->0.arguments) {
                        Some(fault) => fault,
                        None => NO_LONGER@,
                    };
                    Some(StoredResultV { is_error: true, ..StoredResultV::of_text(text) })
                },
                _ => None,
            },
            None => None,
        }
    }
}

fn find_query(arguments: &str) -> (r: Option<String>)
    ensures
        r.v() == query_of(arguments@),
{
    match parse(arguments) {
        Some(document) => match member(&document, "query") {
            Some(query) => match query.as_str() {
                Some(query) => Some(query.to_owned()),
                None => None,
            },
            None => None,
        },
        None => None,
    }
}

fn score_of(l: &Listing, terms: &Vec<String>) -> (r: usize)
    ensures
        r == score(l.v(), terms.v()),
        r <= terms@.len(),
{
    let name = text::to_lower(l.name.as_str());
    let description = text::to_lower(l.description.as_str());
    let ghost all = terms.v();
    let mut n: usize = 0;
    let mut i: usize = 0;
    assert(all.take(0) =~= Seq::empty());
    while i < terms.len()
        invariant
            i <= terms@.len(),
            n <= i,
            all == terms.v(),
            name@ == text::lower(l.v().name),
            description@ == text::lower(l.v().description),
            n == collect(all.take(i as int), hit(l.v())).len(),
        decreases terms@.len() - i,
    {
        proof {
            lemma_collect_step(all, hit(l.v()), i as int);
        }
        assert(all[i as int] == terms@[i as int]@);
        if text::has_part(name.as_str(), terms[i].as_str()) || text::has_part(
            description.as_str(),
            terms[i].as_str(),
        ) {
            n = n + 1;
        }
        i = i + 1;
    }
    assert(all.take(i as int) =~= all);
    n
}

fn rank(all: &Vec<Listing>, terms: &Vec<String>, n: usize) -> (r: Vec<Listing>)
    ensures
        r.v() == ranked(all.v(), terms.v(), n as nat),
    decreases n,
{
    if n == 0 {
        return crate::model::none();
    }
    let ghost every = all.v();
    let ghost f = scoring(terms.v(), n as nat);
    let mut out: Vec<Listing> = crate::model::none();
    let mut i: usize = 0;
    assert(every.take(0) =~= Seq::empty());
    while i < all.len()
        invariant
            i <= all@.len(),
            every == all.v(),
            f == scoring(terms.v(), n as nat),
            out.v() == collect(every.take(i as int), f),
        decreases all@.len() - i,
    {
        proof {
            lemma_collect_step(every, f, i as int);
        }
        assert(every[i as int] == all@[i as int].v());
        if score_of(&all[i], terms) == n {
            append_one(&mut out, all[i].dup());
        }
        i = i + 1;
    }
    assert(every.take(i as int) =~= every);
    extend(&mut out, rank(all, terms, n - 1));
    out
}

/// The tools a query finds.
pub fn search(all: &Vec<Listing>, query: &str) -> (r: Vec<Listing>)
    ensures
        r.v() == found(all.v(), query@),
{
    let terms = text::split_words(text::to_lower(query).as_str());
    rank(all, &terms, terms.len())
}

fn write_entry(l: &Listing) -> (r: String)
    ensures
        r@ == entry()(l.v()),
{
    let schema = match &l.input {
        Some(schema) => schema.text.dup(),
        None => "null".to_owned(),
    };
    "{\"description\":".to_owned().concat(Json::of_text(l.description.as_str()).text.as_str()).concat(
        ",\"input\":",
    ).concat(schema.as_str()).concat(",\"name\":").concat(
        Json::of_text(l.name.as_str()).text.as_str(),
    ).concat("}")
}

fn show(found: Vec<Listing>, most: usize) -> (r: Vec<Listing>)
    ensures
        r.v() == shown(found.v(), most as nat),
{
    if found.len() > most {
        crate::model::dup_prefix(&found, most)
    } else {
        found
    }
}

fn write_answer(found: Vec<Listing>, searched: usize, most: usize) -> (r: String)
    ensures
        r@ == answer_text(found.v(), searched as nat, most as nat),
{
    let matched = found.len();
    let some = show(found, most);
    let ghost all = some.v().map_values(entry());
    let mut entries: Vec<String> = crate::model::none();
    let mut i: usize = 0;
    assert(entries.v() =~= all.take(0));
    while i < some.len()
        invariant
            i <= some@.len(),
            all == some.v().map_values(entry()),
            entries.v() == all.take(i as int),
        decreases some@.len() - i,
    {
        append_one(&mut entries, write_entry(&some[i]));
        i = i + 1;
        assert(entries.v() =~= all.take(i as int));
    }
    assert(all.take(i as int) =~= all);
    "{\"matched\":".to_owned().concat(text::number(matched as u64).as_str()).concat(
        ",\"searched\":",
    ).concat(text::number(searched as u64).as_str()).concat(",\"omitted\":").concat(
        text::number((matched - some.len()) as u64).as_str(),
    ).concat(",\"tools\":[").concat(text::join(&entries, ",").as_str()).concat("]}")
}

fn find_listing<'a>(all: &'a Vec<Listing>, name: &str) -> (r: Option<&'a Listing>)
    ensures
        (match r {
            Some(l) => Some(l.v()),
            None => None,
        }) == first(all.v(), listed_under(name@)),
{
    let ghost every = all.v();
    let mut i: usize = 0;
    while i < all.len()
        invariant
            i <= all@.len(),
            every == all.v(),
            forall|j: int| 0 <= j < i ==> !listed_under(name@)(#[trigger] every[j]),
        decreases all@.len() - i,
    {
        assert(every[i as int] == all@[i as int].v());
        if text::eq(all[i].name.as_str(), name) {
            proof {
                lemma_position_is(every, listed_under(name@), i as int);
            }
            return Some(&all[i]);
        }
        i = i + 1;
    }
    proof {
        lemma_position(every, listed_under(name@));
    }
    None
}

fn names_of(all: &Vec<Listing>) -> (r: Vec<String>)
    ensures
        r.v() == all.v().map_values(listing_name()),
{
    let ghost every = all.v().map_values(listing_name());
    let mut out: Vec<String> = crate::model::none();
    let mut i: usize = 0;
    assert(out.v() =~= every.take(0));
    while i < all.len()
        invariant
            i <= all@.len(),
            every == all.v().map_values(listing_name()),
            out.v() == every.take(i as int),
        decreases all@.len() - i,
    {
        append_one(&mut out, all[i].name.dup());
        i = i + 1;
        assert(out.v() =~= every.take(i as int));
    }
    assert(every.take(i as int) =~= every);
    out
}

fn declared_listings(config: &AgentConfig) -> (r: Vec<Listing>)
    ensures
        r.v() == config.v().tools.map_values(declared_listing()),
{
    let ghost every = config.v().tools.map_values(declared_listing());
    let mut out: Vec<Listing> = crate::model::none();
    let mut i: usize = 0;
    assert(out.v() =~= every.take(0));
    while i < config.tools.len()
        invariant
            i <= config.tools@.len(),
            every == config.v().tools.map_values(declared_listing()),
            out.v() == every.take(i as int),
        decreases config.tools@.len() - i,
    {
        let t = &config.tools[i];
        append_one(
            &mut out,
            Listing { name: t.name.dup(), description: t.description.dup(), input: t.input.dup() },
        );
        i = i + 1;
        assert(out.v() =~= every.take(i as int));
    }
    assert(every.take(i as int) =~= every);
    out
}

fn offered_listings(tools: &Vec<ConnectorTool>) -> (r: Vec<Listing>)
    ensures
        r.v() == collect(tools.v(), offered_listing()),
{
    let ghost every = tools.v();
    let mut out: Vec<Listing> = crate::model::none();
    let mut i: usize = 0;
    assert(every.take(0) =~= Seq::empty());
    while i < tools.len()
        invariant
            i <= tools@.len(),
            every == tools.v(),
            out.v() == collect(every.take(i as int), offered_listing()),
        decreases tools@.len() - i,
    {
        proof {
            lemma_collect_step(every, offered_listing(), i as int);
        }
        let t = &tools[i];
        assert(every[i as int] == t.v());
        if t.connector.is_some() {
            append_one(
                &mut out,
                Listing {
                    name: t.name.dup(),
                    description: t.description.dup(),
                    input: t.input.dup(),
                },
            );
        }
        i = i + 1;
    }
    assert(every.take(i as int) =~= every);
    out
}

impl<'a> At<'a> {
    /// The tools a search covers here.
    pub fn searchable_tools(&self) -> (r: Vec<Listing>)
        ensures
            r.v() == self.state.v().searchable(text_of(self.node)),
    {
        match self.agent() {
            Some(config) => {
                let mut out = declared_listings(config);
                let offer = self.state.offer(config);
                extend(&mut out, offered_listings(&offer.tools));
                out
            },
            None => crate::model::none(),
        }
    }

    fn most_matches(&self) -> (r: usize)
        ensures
            r == self.state.v().most_matches(text_of(self.node)),
    {
        match self.agent() {
            Some(config) => config.defer_settings().max_matches,
            None => 0,
        }
    }

    /// What is wrong with a call that another call carries. `document` is what
    /// its arguments parse to.
    pub fn inner_fault(&self, call: &InnerCall, document: &Option<serde_json::Value>) -> (r: Option<
        String,
    >)
        ensures
            r.v() == self.state.v().inner_fault(text_of(self.node), call.v(), *document),
    {
        let all = self.searchable_tools();
        match find_listing(&all, call.name.as_str()) {
            None => {
                let near = show(search(&all, call.name.as_str()), self.most_matches());
                Some(
                    "no tool is named `".to_owned().concat(call.name.as_str()).concat(
                        "`; `tool_search` finds one and gives its schema; close to it: ",
                    ).concat(text::join(&names_of(&near), ", ").as_str()),
                )
            },
            Some(l) => match (&l.input, document) {
                (Some(schema), Some(document)) => match check(schema, document, "arguments") {
                    Some(fault) => Some(
                        "the arguments of `".to_owned().concat(call.name.as_str()).concat(
                            "` are not valid: ",
                        ).concat(fault.as_str()).concat("; its input schema is: ").concat(
                            schema.text.as_str(),
                        ),
                    ),
                    None => None,
                },
                _ => None,
            },
        }
    }

    /// What is wrong with the arguments of a `call_tool`.
    pub fn call_tool_fault(&self, arguments: &str) -> (r: Option<String>)
        ensures
            r.v() == self.state.v().call_tool_fault(text_of(self.node), arguments@),
    {
        match read_inner_call(arguments) {
            Some(call) => {
                let document = parse(call.arguments.as_str());
                self.inner_fault(&call, &document)
            },
            None => Some(NO_CALL.to_owned()),
        }
    }

    /// What a search for `query` answers.
    pub fn search_answer(&self, query: Option<&str>) -> (r: StoredResult)
        ensures
            r.v() == self.state.v().search_answer(text_of(self.node), text_of(query)),
    {
        match query {
            Some(query) => {
                let all = self.searchable_tools();
                let found = search(&all, query);
                StoredResult::text(write_answer(found, all.len(), self.most_matches()))
            },
            None => StoredResult::error(NO_QUERY.to_owned()),
        }
    }
}

impl SessionState {
    /// What the engine answers a call that reaches nothing.
    pub fn local_connector_answer(&self, id: &str) -> (r: Option<StoredResult>)
        ensures
            r.v() == self.v().local_connector_answer(id@),
    {
        proof {
            lemma_position(self.v().effects, named(EffectKind::ToolCall, id@));
        }
        let e = match self.effect(EffectKind::ToolCall, id) {
            Some(e) => e,
            None => {
                return None;
            },
        };
        let tool = match e.tool() {
            Some(tool) => tool,
            None => {
                return None;
            },
        };
        let at = self.at(as_text(&e.anchor));
        match &tool.target {
            Some(ConnectorTarget::Find) => {
                let query = find_query(tool.arguments.as_str());
                Some(at.search_answer(as_text(&query)))
            },
            Some(ConnectorTarget::Call) => {
                let text = match at.call_tool_fault(tool.arguments.as_str()) {
                    Some(fault) => fault,
                    None => NO_LONGER.to_owned(),
                };
                Some(StoredResult::error(text))
            },
            _ => None,
        }
    }
}

} // verus!
