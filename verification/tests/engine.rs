use rust_decimal::Decimal;

use session_engine::protocol::config::{
    AgentConfig, AgentTool, ConnectionPath, DeferTools, McpServer, McpTools, Subagent, WorkerState,
};
use session_engine::protocol::effect::{EffectKind, EffectStatus, RetryPolicy};
use session_engine::protocol::error::ErrorInfo;
use session_engine::protocol::identity::{Issuer, Requester, SessionOwner, Subject};
use session_engine::protocol::json::Json;
use session_engine::protocol::llm::{LlmRequest, LlmResponse, Usage};
use session_engine::protocol::message::{Content, DraftMessage, MessageTree, Role};
use session_engine::protocol::result::StoredContent;
use session_engine::protocol::result::StoredResult;
use session_engine::protocol::schema::{check, find_fault, MAX_DEPTH};
use session_engine::protocol::wire::{
    ClientAction, ClientMessage, ClientPayload, DecisionResponse, ToolInput,
};
use session_engine::session::aggregate::{CommitContext, SessionAggregate};
use session_engine::session::caller::Caller;
use session_engine::session::command::{CommandPayload, TurnTarget};
use session_engine::session::decision::{Action, LlmHandler, Trigger};
use session_engine::session::error::SessionError;
use session_engine::session::events::{EventPayload, RemoteTool, ToolAnnotations};
use session_engine::session::ids::Ids;
use session_engine::session::offers::routes::{read_inner_call, InnerCall};
use session_engine::session::offers::search::{search, Listing};
use session_engine::session::outcome::{Outcome, SettleError};
use session_engine::session::report::wake_at;
use session_engine::session::state::{SessionState, SessionStatus, TurnPhase};
use session_engine::session::working::Working;
use session_engine::text;

const NOW: i128 = 1_700_000_000_000_000_000;

fn json(text: &str) -> Json {
    Json::read(&value(text))
}

fn value(text: &str) -> serde_json::Value {
    serde_json::from_str(text).expect("a document")
}

fn system() -> Caller {
    Caller::System {
        tenant_id: "t1".to_string(),
    }
}

fn machine() -> Caller {
    Caller::ApiKey {
        tenant_id: "t1".to_string(),
        key_id: "k1".to_string(),
    }
}

fn person(id: &str) -> Caller {
    Caller::Frontend {
        tenant_id: "t1".to_string(),
        subject: Subject::new(Issuer::app(), id.to_string()),
        attrs: Vec::new(),
    }
}

fn ids(agg: &SessionAggregate) -> Ids {
    Ids::new(format!("{}.{}", agg.session_id, agg.seq))
}

fn give(agg: &mut SessionAggregate, cmd: CommandPayload, caller: &Caller) -> Vec<EventPayload> {
    let events = agg
        .handle(cmd, caller, NOW, ids(agg))
        .expect("the command is taken");
    agg.commit(events.clone(), &CommitContext { occurred_at: NOW });
    events
}

fn refused(agg: &SessionAggregate, cmd: CommandPayload, caller: &Caller) -> SessionError {
    agg.handle(cmd, caller, NOW, ids(agg))
        .expect_err("the command is refused")
}

fn new_session() -> SessionAggregate {
    SessionAggregate::new(
        "s1".to_string(),
        "t1".to_string(),
        SessionState::new("s1".to_string()),
    )
}

fn creation(agent: Option<AgentConfig>) -> CommandPayload {
    CommandPayload::CreateSession {
        agent_id: "a1".to_string(),
        owner: SessionOwner {
            tenant_id: "t1".to_string(),
            requester: Requester::private(Subject::new(Issuer::app(), "u1".to_string())),
            metadata: Vec::new(),
        },
        ancestry: vec![],
        worker_retry: RetryPolicy::no_retry(),
        agent,
        worker: None,
    }
}

fn config() -> AgentConfig {
    AgentConfig {
        llm: None,
        model: "m".to_string(),
        system: None,
        effort: None,
        retry: None,
        tools: vec![],
        subagents: vec![],
        subagent_tools: None,
        max_subagent_depth: None,
        mcp: vec![],
        plugins: vec![],
        defer_tools: None,
        mcp_announce: Default::default(),
        attachments: None,
    }
}

fn server(id: &str, tools: Option<McpTools>) -> McpServer {
    McpServer {
        id: id.to_string(),
        tools,
        auth_failure: Default::default(),
        tool_sync_failure: Default::default(),
        approve: Default::default(),
    }
}

fn remote(name: &str, annotations: ToolAnnotations) -> RemoteTool {
    RemoteTool {
        name: name.to_string(),
        title: None,
        description: "d".to_string(),
        input: None,
        output: None,
        annotations,
    }
}

fn held(events: &[EventPayload]) -> Option<String> {
    events.iter().find_map(|e| match e {
        EventPayload::DecisionDispatched(p) => Some(p.id.clone()),
        _ => None,
    })
}

fn answer(decision_id: String, actions: Vec<Action>) -> CommandPayload {
    CommandPayload::SubmitWorkerDecision {
        decision_id,
        transcript: vec![],
        actions,
        state: None,
        agent: None,
        channels: vec![],
    }
}

/// A session whose first decision is answered.
fn session(agent: Option<AgentConfig>) -> SessionAggregate {
    let mut agg = new_session();
    let created = give(&mut agg, creation(agent), &system());
    if let Some(start) = held(&created) {
        give(&mut agg, answer(start, vec![]), &machine());
    }
    agg
}

fn user(text: &str) -> DraftMessage {
    DraftMessage {
        id: None,
        role: Role::User,
        content: Some(Content::Text(text.to_string())),
        tool_calls: None,
        tool_call_id: None,
        name: None,
        reasoning: None,
    }
}

fn say(turn: &str, queue: bool) -> CommandPayload {
    CommandPayload::SubmitClientPayload {
        payload: ClientPayload::Message(ClientMessage {
            message: user("hi"),
            stream: false,
        }),
        turn: TurnTarget::Open(turn.to_string()),
        queue,
    }
}

fn llm_call(id: &str, retry: RetryPolicy, messages: Vec<DraftMessage>) -> CommandPayload {
    CommandPayload::RequestLlmCall {
        call_id: id.to_string(),
        llm: "main".to_string(),
        request: LlmRequest {
            model: "m".to_string(),
            messages,
            tools: None,
            temperature: None,
            max_completion_tokens: None,
            reasoning: None,
        },
        stream: false,
        retry,
        handler: LlmHandler::Server,
        format: None,
    }
}

fn response(cost: Option<Decimal>, usage: Option<Usage>) -> Outcome {
    Outcome::Llm(Box::new(LlmResponse {
        model: "m".to_string(),
        content: Some("ok".to_string()),
        reasoning: None,
        tool_calls: vec![],
        finish_reason: None,
        usage,
        cost,
        images: vec![],
    }))
}

fn synced(path: &str, tools: Vec<RemoteTool>) -> CommandPayload {
    CommandPayload::settle(
        EffectKind::ConnectorSync,
        path.to_string(),
        None,
        Outcome::Connector {
            server: None,
            prefix: Some("p".to_string()),
            tools,
            instructions: None,
        },
    )
}

fn tool_call(id: &str, name: &str, arguments: &str) -> CommandPayload {
    CommandPayload::RequestToolCall {
        tool_call_id: id.to_string(),
        name: name.to_string(),
        arguments: arguments.to_string(),
        retry: None,
    }
}

#[test]
fn the_events_of_a_command_say_all_it_did() {
    let mut agg = session(None);
    let mut working = Working::new(agg.state.clone(), agg.seq, NOW, ids(&agg));
    working.run(say("turn-1", false), &person("u1")).expect("taken");
    give(&mut agg, say("turn-1", false), &person("u1"));
    assert_eq!(working.state, agg.state);
    assert_eq!(working.seq, agg.seq);
}

#[test]
fn a_session_takes_nothing_before_it_is_created_and_is_created_once() {
    let mut agg = new_session();
    assert_eq!(
        refused(&agg, CommandPayload::CancelSession, &system()),
        SessionError::SessionNotCreated
    );
    give(&mut agg, creation(None), &system());
    assert_eq!(
        refused(&agg, creation(None), &system()),
        SessionError::SessionAlreadyCreated
    );
}

#[test]
fn a_caller_of_another_tenant_is_refused() {
    let agg = session(None);
    let stranger = Caller::System {
        tenant_id: "t2".to_string(),
    };
    assert_eq!(
        refused(&agg, CommandPayload::CancelSession, &stranger),
        SessionError::SessionAccessDenied
    );
    assert_eq!(
        refused(&agg, say("turn-1", false), &person("u2")),
        SessionError::SessionAccessDenied
    );
}

#[test]
fn what_the_engine_asks_is_refused_to_others() {
    let agg = session(None);
    for cmd in [
        CommandPayload::CompleteTurn,
        CommandPayload::ReconcileDispatch,
        CommandPayload::Wake { now: NOW },
        tool_call("c1", "x", "{}"),
    ] {
        assert_eq!(
            refused(&agg, cmd, &machine()),
            SessionError::SessionAccessDenied
        );
    }
}

#[test]
fn the_worker_holds_one_decision_at_a_time() {
    let mut agg = session(None);
    give(&mut agg, say("turn-1", false), &person("u1"));
    assert_eq!(agg.state.pending_decisions().len(), 1);
    let events = give(
        &mut agg,
        CommandPayload::SubmitClientPayload {
            payload: ClientPayload::Message(ClientMessage {
                message: user("more"),
                stream: false,
            }),
            turn: TurnTarget::Detached,
            queue: false,
        },
        &person("u1"),
    );
    assert!(held(&events).is_none(), "the second question waits");
    assert_eq!(agg.state.pending_decisions().len(), 1);
    assert_eq!(agg.state.queued_decisions().len(), 1);
}

#[test]
fn a_turn_ends_in_two_passes() {
    let mut agg = session(None);
    let asked = give(&mut agg, say("turn-1", false), &person("u1"));
    let d = held(&asked).expect("a question");
    let finishing = give(
        &mut agg,
        answer(d, vec![Action::Done { data: json("7") }]),
        &machine(),
    );
    assert!(matches!(agg.state.phase, TurnPhase::Finalizing(_)));
    assert!(agg.state.completed_turn_ids.is_empty());
    let last = held(&finishing).expect("the worker is asked to finish");
    let events = give(
        &mut agg,
        answer(last, vec![Action::Done { data: json("7") }]),
        &machine(),
    );
    assert!(events.iter().any(
        |e| matches!(e, EventPayload::TurnCompleted(p) if p.turn_id == "turn-1" && p.data == json("7"))
    ));
    assert_eq!(agg.state.completed_turn_ids, vec!["turn-1".to_string()]);
    assert_eq!(
        refused(&agg, say("turn-1", false), &person("u1")),
        SessionError::TurnAlreadyCompleted {
            turn_id: "turn-1".to_string()
        }
    );
}

#[test]
fn turns_do_not_overlap() {
    let mut agg = session(None);
    give(&mut agg, say("turn-1", false), &person("u1"));
    assert_eq!(
        refused(&agg, say("turn-2", false), &person("u1")),
        SessionError::TurnAlreadyActive {
            turn_id: "turn-1".to_string()
        }
    );
    let events = give(&mut agg, say("turn-2", true), &person("u1"));
    assert!(!events
        .iter()
        .any(|e| matches!(e, EventPayload::TurnStarted(_))));
    assert_eq!(agg.state.phase.turn_id(), Some("turn-1"));
}

#[test]
fn a_turn_counts_what_its_calls_cost() {
    let mut agg = session(None);
    give(&mut agg, say("turn-1", false), &person("u1"));
    for id in ["c1", "c2"] {
        give(
            &mut agg,
            llm_call(id, RetryPolicy::no_retry(), vec![]),
            &system(),
        );
    }
    for (id, cents) in [("c1", 125), ("c2", 50)] {
        let outcome = response(
            Some(Decimal::new(cents, 2)),
            Some(Usage::new(10, 0, 0, 5)),
        );
        give(
            &mut agg,
            CommandPayload::settle(EffectKind::LlmCall, id.to_string(), None, outcome),
            &system(),
        );
    }
    assert_eq!(agg.state.turn_cost, Decimal::new(175, 2));
    assert_eq!(agg.state.turn_token_usage, Usage::new(20, 0, 0, 10));
}

#[test]
fn a_call_is_settled_once() {
    let mut agg = session(None);
    give(
        &mut agg,
        llm_call("c1", RetryPolicy::no_retry(), vec![]),
        &system(),
    );
    let settle = || {
        CommandPayload::settle(
            EffectKind::LlmCall,
            "c1".to_string(),
            Some(0),
            response(None, None),
        )
    };
    assert!(!give(&mut agg, settle(), &system()).is_empty());
    assert!(
        !give(&mut agg, settle(), &system())
            .iter()
            .any(|e| matches!(e, EventPayload::LlmCallCompleted(_))),
        "a late answer is dropped"
    );
}

#[test]
fn a_call_that_ran_out_in_the_queue_is_not_sent_out() {
    let mut agg = session(Some(AgentConfig {
        mcp: vec![server("sentry", None)],
        ..config()
    }));
    let retry = RetryPolicy {
        queue_timeout_secs: Some(5),
        ..RetryPolicy::no_retry()
    };
    give(&mut agg, llm_call("c1", retry, vec![]), &system());
    let status = |agg: &SessionAggregate| {
        agg.state
            .tracking(EffectKind::LlmCall, "c1")
            .map(|t| t.status())
    };
    assert_eq!(status(&agg), Some(EffectStatus::Queued));
    assert_eq!(wake_at(&agg.state, NOW), Some(NOW + 5_000_000_000));
    give(
        &mut agg,
        CommandPayload::Wake { now: NOW + 6_000_000_000 },
        &system(),
    );
    assert_eq!(status(&agg), Some(EffectStatus::Failed));
    let events = give(&mut agg, synced("mcp.sentry", vec![]), &system());
    assert!(!events
        .iter()
        .any(|e| matches!(e, EventPayload::LlmCallDispatched(_))));
    assert_eq!(status(&agg), Some(EffectStatus::Failed));
}

#[test]
fn cancelling_is_final() {
    let mut agg = session(None);
    give(&mut agg, say("turn-1", false), &person("u1"));
    give(&mut agg, tool_call("c1", "x", "{}"), &system());
    give(&mut agg, CommandPayload::CancelSession, &system());
    assert_eq!(agg.state.status, SessionStatus::Done);
    assert!(agg.state.schedule_queue.is_empty());
    assert!(agg.state.pending_decisions().is_empty());
    assert_eq!(
        agg.state
            .tracking(EffectKind::ToolCall, "c1")
            .map(|t| t.status()),
        Some(EffectStatus::Failed)
    );
    assert!(give(&mut agg, CommandPayload::CancelSession, &system()).is_empty());
    assert_eq!(
        refused(&agg, CommandPayload::CancelSession, &person("u1")),
        SessionError::SessionAccessDenied
    );
}

#[test]
fn resuming_takes_the_privilege_of_who_stopped() {
    let mut agg = session(None);
    give(
        &mut agg,
        CommandPayload::Interrupt {
            interrupt_id: "i1".to_string(),
            reason: "r".to_string(),
            payload: Json::null(),
        },
        &machine(),
    );
    assert!(agg.state.head_parked());
    let resume = || CommandPayload::ResumeInterrupt {
        interrupt_id: "i1".to_string(),
        payload: Json::null(),
    };
    assert_eq!(
        refused(&agg, resume(), &person("u1")),
        SessionError::SessionAccessDenied
    );
    assert_eq!(
        refused(&agg, say("turn-1", false), &person("u1")),
        SessionError::SessionInterrupted
    );
    give(&mut agg, resume(), &machine());
    assert!(!agg.state.head_parked());
    assert!(
        give(&mut agg, resume(), &machine()).is_empty(),
        "an interrupt is resumed once"
    );
}

#[test]
fn a_failed_answer_is_told_apart_from_a_stale_one() {
    let mut agg = session(None);
    let unknown = CommandPayload::settle(
        EffectKind::ToolCall,
        "nope".to_string(),
        None,
        SettleError::new(ErrorInfo::internal("x".to_string()), false).into(),
    );
    assert_eq!(
        refused(&agg, unknown, &machine()),
        SessionError::EffectNotFound
    );
    give(&mut agg, tool_call("c1", "x", "{}"), &system());
    let answer = |attempt: u32| {
        CommandPayload::settle(
            EffectKind::ToolCall,
            "c1".to_string(),
            Some(attempt),
            Outcome::Tool {
                result: StoredResult::text("ok".to_string()),
            },
        )
    };
    assert_eq!(
        refused(&agg, answer(1), &machine()),
        SessionError::EffectAttemptMismatch
    );
    assert_eq!(
        refused(&agg, answer(0), &person("u1")),
        SessionError::EffectWrongHandler
    );
    give(&mut agg, answer(0), &machine());
    assert_eq!(
        refused(&agg, answer(0), &machine()),
        SessionError::EffectNotPending
    );
}

#[test]
fn a_filter_goes_by_annotations_and_globs() {
    let filter = McpTools {
        only: vec!["get_*".to_string()],
        exclude: vec!["*_secret".to_string()],
        read_only: Some(true),
        ..Default::default()
    };
    let mut agg = session(Some(AgentConfig {
        mcp: vec![server("s", Some(filter))],
        ..config()
    }));
    let reads = ToolAnnotations {
        read_only: Some(true),
        ..Default::default()
    };
    give(
        &mut agg,
        synced(
            "mcp.s",
            vec![
                remote("get_a", reads),
                remote("get_secret", reads),
                remote("put_a", reads),
                remote("get_b", ToolAnnotations::default()),
            ],
        ),
        &system(),
    );
    let offer = agg.state.at_head().connector_tools();
    let names: Vec<&str> = offer.tools.iter().map(|t| t.name.as_str()).collect();
    assert_eq!(names, vec!["p__get_a"]);
    assert_eq!(
        offer.tools[0].connector,
        Some(ConnectionPath::Mcp("s".to_string()))
    );
}

#[test]
fn a_glob_fits_what_its_stars_stand_for() {
    assert!(text::glob("*", ""));
    assert!(text::glob("a*c", "abbc"));
    assert!(!text::glob("a*c", "abb"));
    assert!(text::glob("abc", "abc"));
    assert!(!text::glob("abc", "abcd"));
}

#[test]
fn a_text_splits_into_words() {
    assert_eq!(text::split_words("find-the 2 bugs!"), vec!["find", "the", "2", "bugs"]);
    assert_eq!(text::to_lower("AbC-9"), "abc-9");
    assert!(text::has_part("search_issues", "issue"));
    assert!(!text::has_part("ab", "abc"));
}

#[test]
fn a_search_gives_the_best_first() {
    let listing = |name: &str, description: &str| Listing {
        name: name.to_string(),
        description: description.to_string(),
        input: None,
    };
    let all = vec![
        listing("list", "issues"),
        listing("other", "nothing"),
        listing("search", "find ISSUES"),
    ];
    let names: Vec<String> = search(&all, "search issues")
        .into_iter()
        .map(|l| l.name)
        .collect();
    assert_eq!(names, vec!["search", "list"]);
    assert!(search(&all, "--").is_empty());
}

#[test]
fn a_search_says_what_it_leaves_out_and_quotes_what_it_shows() {
    let tool = |name: &str| AgentTool {
        name: name.to_string(),
        description: "say \"hi\"".to_string(),
        input: None,
        output: None,
        handler: None,
        defer: None,
    };
    let mut agg = session(Some(AgentConfig {
        tools: vec![tool("a"), tool("b"), tool("c")],
        defer_tools: Some(DeferTools {
            max_matches: 2,
            ..Default::default()
        }),
        ..config()
    }));
    give(
        &mut agg,
        tool_call("c1", "tool_search", r#"{"query":"hi"}"#),
        &system(),
    );
    let text = agg
        .state
        .local_connector_answer("c1")
        .expect("an answer")
        .as_text();
    let answer = value(&text);
    assert_eq!(answer["matched"], 3);
    assert_eq!(answer["searched"], 3);
    assert_eq!(answer["omitted"], 1);
    assert_eq!(answer["tools"][0]["description"], "say \"hi\"");
    give(&mut agg, tool_call("c2", "tool_search", "{}"), &system());
    assert!(
        agg.state
            .local_connector_answer("c2")
            .expect("an answer")
            .is_error
    );
}

#[test]
fn a_carried_call_is_read_from_its_arguments() {
    assert_eq!(
        read_inner_call(r#"{"name":"x","arguments":{"b": 1}}"#),
        Some(InnerCall {
            name: "x".to_string(),
            arguments: r#"{"b":1}"#.to_string()
        })
    );
    assert_eq!(
        read_inner_call(r#"{"name":"x"}"#).map(|c| c.arguments),
        Some("{}".to_string())
    );
    assert_eq!(read_inner_call(r#"{"name":7}"#), None);
    assert_eq!(read_inner_call("not json"), None);
}

#[test]
fn a_document_is_held_against_a_schema() {
    let schema = value(
        r#"{"type":"object","required":["n"],"properties":{"n":{"type":"integer"},"o":{"type":"object","properties":{"s":{"type":"string"}}}}}"#,
    );
    let fault = |text: &str| find_fault(&schema, &value(text), "arguments", MAX_DEPTH);
    assert_eq!(fault(r#"{"n":1}"#), None);
    assert_eq!(fault(r#"{"n":-1,"o":{"s":"x"}}"#), None);
    assert_eq!(
        fault("[]"),
        Some("`arguments` is not of type object".to_string())
    );
    assert_eq!(fault("{}"), Some("`n` is missing".to_string()));
    assert_eq!(
        fault(r#"{"n":1.5}"#),
        Some("`n` is not of type integer".to_string())
    );
    assert_eq!(
        fault(r#"{"n":1,"o":{"s":true}}"#),
        Some("`s` is not of type string".to_string())
    );
    for (t, good, bad) in [
        ("null", "null", "0"),
        ("boolean", "true", "null"),
        ("number", "1.5", "\"1\""),
        ("array", "[1]", "{}"),
    ] {
        let schema = json(&format!("{{\"type\":\"{t}\"}}"));
        assert_eq!(check(&schema, &value(good), "x"), None);
        assert!(check(&schema, &value(bad), "x").is_some());
    }
}

#[test]
fn a_schema_is_read_for_what_it_lists_and_combines() {
    let fault = |schema: &str, text: &str| check(&json(schema), &value(text), "x");
    for (schema, good, bad) in [
        (r#"{"enum":["a",0.0]}"#, "-0.0", r#""b""#),
        (r#"{"const":[1]}"#, "[1]", "[2]"),
        (r#"{"type":["string","null"]}"#, "null", "1"),
        (r#"{"type":"integer"}"#, "1.0", "1.5"),
        (r#"{"type":"integer"}"#, "1e20", "1e-20"),
        (r#"{"items":{"type":"string"}}"#, r#"["a"]"#, r#"["a",1]"#),
        (
            r#"{"properties":{"a":{}},"additionalProperties":false}"#,
            r#"{"a":1}"#,
            r#"{"a":1,"b":2}"#,
        ),
        (
            r#"{"additionalProperties":{"type":"string"}}"#,
            r#"{"a":"b"}"#,
            r#"{"a":1}"#,
        ),
        (
            r#"{"allOf":[{"type":"object"},{"required":["a"]}]}"#,
            r#"{"a":1}"#,
            "{}",
        ),
        (
            r#"{"anyOf":[{"type":"string"},{"type":"null"}]}"#,
            "null",
            "true",
        ),
        (
            r#"{"oneOf":[{"type":"integer"},{"type":"number"}]}"#,
            "1.5",
            "1",
        ),
        (r#"{"not":{"type":"string"}}"#, "1", r#""a""#),
        ("true", "1", ""),
        (
            r#"{"patternProperties":{"^b":{}},"additionalProperties":false}"#,
            r#"{"b":1}"#,
            "",
        ),
    ] {
        assert_eq!(fault(schema, good), None, "{schema} {good}");
        if !bad.is_empty() {
            assert!(fault(schema, bad).is_some(), "{schema} {bad}");
        }
    }
    assert_eq!(
        fault("false", "1"),
        Some("`x` is not allowed".to_string())
    );
    assert_eq!(
        fault(r#"{"enum":[1]}"#, "2"),
        Some("`x` is none of the values it may be".to_string())
    );
    let nested = format!(
        "{}{}{}",
        r#"{"items":"#.repeat(60),
        r#"{"type":"null"}"#,
        "}".repeat(60)
    );
    let document = |text: &str| format!("{}{}{}", "[".repeat(60), text, "]".repeat(60));
    assert_eq!(fault(&nested, &document("null")), None);
    assert!(fault(&nested, &document("1")).is_some());
}

#[test]
fn an_answered_decision_is_no_longer_out() {
    let mut agg = session(None);
    let asked = give(&mut agg, say("turn-1", false), &person("u1"));
    let d = held(&asked).expect("a question");
    give(&mut agg, answer(d.clone(), vec![]), &machine());
    assert!(agg.state.tracking(EffectKind::Decision, &d).is_none());
    assert!(
        give(&mut agg, answer(d, vec![]), &machine()).is_empty(),
        "a second answer is late"
    );
}

#[test]
fn arguments_are_valid_invalid_or_malformed() {
    let schema = Some(json(r#"{"required":["q"]}"#));
    assert!(matches!(
        ToolInput::read(r#"{"q":1}"#, &schema),
        ToolInput::Valid { value } if value == json(r#"{"q":1}"#)
    ));
    assert!(matches!(
        ToolInput::read("{}", &schema),
        ToolInput::Invalid { error, .. } if error == "`q` is missing"
    ));
    assert!(matches!(
        ToolInput::read("[1]", &schema),
        ToolInput::Malformed { .. }
    ));
    assert!(matches!(
        ToolInput::read("{", &None),
        ToolInput::Malformed { .. }
    ));
}

#[test]
fn a_later_announcement_rides_on_the_users_message() {
    let mut agg = session(None);
    give(
        &mut agg,
        llm_call("c1", RetryPolicy::no_retry(), vec![]),
        &system(),
    );
    let asked = give(&mut agg, say("turn-1", false), &person("u1"));
    let d = held(&asked).expect("a question");
    give(
        &mut agg,
        CommandPayload::SubmitWorkerDecision {
            decision_id: d,
            transcript: vec![],
            actions: vec![],
            state: None,
            agent: Some(AgentConfig {
                mcp: vec![server("sentry", None)],
                ..config()
            }),
            channels: vec![],
        },
        &machine(),
    );
    give(&mut agg, synced("mcp.sentry", vec![]), &system());
    give(
        &mut agg,
        llm_call("c2", RetryPolicy::no_retry(), vec![user("and?")]),
        &system(),
    );
    let prompt = agg.state.llm_call("c2").expect("the call").request.messages.clone();
    assert_eq!(prompt.len(), 1);
    let parts = match prompt[0].content.as_ref() {
        Some(Content::Parts(parts)) => parts.clone(),
        other => panic!("parts; got {other:?}"),
    };
    assert_eq!(
        parts[0],
        StoredContent::Text {
            text: "and?".to_string()
        }
    );
    assert_eq!(
        parts[1],
        StoredContent::Text {
            text: r#"{"mcp_server":"mcp.sentry","tools":0,"instructions":null}"#.to_string()
        }
    );
}

#[test]
fn a_subagent_tool_takes_a_message() {
    let agg = session(Some(AgentConfig {
        subagents: vec![Subagent {
            id: "helper".to_string(),
            description: "d".to_string(),
            defer: None,
            prefix: None,
            mode: None,
        }],
        ..config()
    }));
    let offer = agg.state.at_head().connector_tools();
    let input = offer.tools[0].input.clone().expect("a schema");
    assert_eq!(value(&input.text)["required"][0], "message");
    for tool in &offer.tools {
        let schema = tool.input.clone().expect("a schema");
        assert_eq!(json(&schema.text), schema, "{}", tool.name);
    }
}

#[test]
fn a_worker_is_told_of_a_tool_that_ran() {
    let mut agg = session(None);
    give(&mut agg, tool_call("c1", "x", r#"{"a":1}"#), &system());
    let shown = agg.state.effects();
    assert_eq!(shown.len(), 1);
    assert_eq!(shown[0].name.as_deref(), Some("x"));
    assert_eq!(shown[0].arguments.as_deref(), Some(r#"{"a":1}"#));
    let events = give(
        &mut agg,
        CommandPayload::settle(
            EffectKind::ToolCall,
            "c1".to_string(),
            Some(0),
            Outcome::Tool {
                result: StoredResult::text("done".to_string()),
            },
        ),
        &machine(),
    );
    assert!(events.iter().any(|e| matches!(
        e,
        EventPayload::DecisionQueued(p)
            if matches!(&p.trigger, Trigger::ToolFinished { id, ok: true, .. } if id == "c1")
    )));
}

#[test]
fn a_state_that_is_the_same_document_is_not_written_again() {
    let mut agg = session(None);
    let asked = give(&mut agg, say("turn-1", false), &person("u1"));
    let d = held(&asked).expect("a question");
    let with = |decision_id: String, state: &str| CommandPayload::SubmitWorkerDecision {
        decision_id,
        transcript: vec![],
        actions: vec![],
        state: Some(WorkerState(json(state))),
        agent: None,
        channels: vec![],
    };
    give(&mut agg, with(d, r#"{"a":0.0,"b":1}"#), &machine());
    let writes = |text: &str| {
        agg.state
            .worker_state_events(Some(WorkerState(json(text))))
            .len()
    };
    assert_eq!(writes(r#"{"b":1,"a":0.0}"#), 0, "the order of keys says nothing");
    assert_eq!(writes(r#"{"a":-0.0,"b":1}"#), 0, "both are zero");
    assert_eq!(writes(r#"{"a":0,"b":1}"#), 1, "an integer is no float");
    assert_eq!(writes(r#"{"a":0.0,"b":1,"c":null}"#), 1, "a key that holds null is there");
    assert_eq!(writes("null"), 1);
    assert!(agg.state.worker_state_events(None).is_empty());
}

#[test]
fn documents_are_equal_by_what_they_hold() {
    assert!(json("0.0").equals(&json("-0.0")));
    assert!(!json("0.5").equals(&json("-0.5")));
    assert!(!json("1").equals(&json("1.0")));
    assert!(json("\"a\"").equals(&json("\"\\u0061\"")));
    assert!(!json("\"null\"").equals(&json("null")));
}

#[test]
fn documents_are_compared_however_deep_they_nest() {
    let deep = |text: &str| {
        let mut document = value(text);
        for _ in 0..300 {
            document = serde_json::Value::Array(vec![document]);
        }
        Json::read(&document)
    };
    assert!(deep("0.0").equals(&deep("-0.0")));
    assert!(!deep("0.0").equals(&deep("1.0")));
}

#[test]
fn a_config_whose_schemas_are_equal_is_not_written_again() {
    let with = |schema: &str| AgentConfig {
        tools: vec![AgentTool {
            name: "x".to_string(),
            description: String::new(),
            input: Some(json(schema)),
            output: None,
            handler: None,
            defer: None,
        }],
        ..config()
    };
    let agg = session(Some(with(r#"{"minimum":0.0}"#)));
    assert!(agg
        .state
        .agent_config_events(Some(with(r#"{"minimum":-0.0}"#)))
        .is_empty());
    assert_eq!(
        agg.state
            .agent_config_events(Some(with(r#"{"minimum":1.0}"#)))
            .len(),
        1
    );
}

#[test]
fn a_config_says_nothing_by_default() {
    assert_eq!(
        AgentConfig {
            model: "m".to_string(),
            ..Default::default()
        },
        config()
    );
    assert_eq!(WorkerState::default(), WorkerState(Json::null()));
    assert!(SessionOwner::default().metadata.is_empty());
    assert!(MessageTree::default().nodes.is_empty());
    assert!(DecisionResponse::default().authors_nothing());
}

#[test]
fn the_actions_of_an_answer_run_in_order_and_a_refused_one_is_dropped() {
    let mut agg = session(None);
    give(
        &mut agg,
        CommandPayload::Interrupt {
            interrupt_id: "i1".to_string(),
            reason: "r".to_string(),
            payload: Json::null(),
        },
        &system(),
    );
    let call = |id: &str| Action::CallTool {
        id: id.to_string(),
        name: "x".to_string(),
        arguments: "{}".to_string(),
        retry: None,
    };
    let acted = give(
        &mut agg,
        CommandPayload::SubmitClientPayload {
            payload: ClientPayload::Action(ClientAction {
                name: "go".to_string(),
                args: None,
            }),
            turn: TurnTarget::Detached,
            queue: false,
        },
        &person("u1"),
    );
    let d = held(&acted).expect("an action goes past an interrupt");
    let events = give(
        &mut agg,
        answer(
            d,
            vec![
                call("c1"),
                Action::ResolveInterrupt {
                    interrupt_id: "i1".to_string(),
                    payload: Json::null(),
                },
                call("c2"),
            ],
        ),
        &machine(),
    );
    let asked: Vec<&str> = events
        .iter()
        .filter_map(|e| match e {
            EventPayload::ToolCallRequested(p) => Some(p.id.as_str()),
            _ => None,
        })
        .collect();
    assert_eq!(asked, vec!["c1", "c2"]);
    assert!(agg.state.open_interrupt("i1").is_some(), "the engine outranks the worker");
}
