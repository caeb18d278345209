use session_engine::protocol::config::{
    AgentPlugin, Approve, ConnectionPath, DeferTools, DeferToolsStrategy, DeferToolsWire,
    McpAuthFailure, McpToolSyncFailure, SkillMeta, SpawnMode, Subagent, SubagentMode,
};
use session_engine::protocol::effect::{EffectKind, RetryConfig, RetryOverride, RetryPolicy};
use session_engine::protocol::error::{ErrorCode, ErrorInfo};
use session_engine::protocol::identity::{
    ChannelKind, InterruptOrigin, Issuer, Requester, SessionOwner, Subject, Visibility,
};
use session_engine::protocol::json::{no_cost, Json, JsonKind};
use session_engine::protocol::llm::{LlmRequest, LlmTool, Usage};
use session_engine::protocol::message::{
    AudioData, Content, ContentPart, FileData, ImageUrl, PromptContent, PromptPart, Reasoning,
    ReasoningProvider, VideoUrl,
};
use session_engine::protocol::mime::{base64, data_uri, essence, parts};
use session_engine::protocol::result::{
    Attachment, ResourceContents, StoredContent, StoredResult, ToolContent, ToolResult,
};
use session_engine::session::error::SessionError;
use session_engine::session::ids::Ids;
use session_engine::session::retry::{after, backoff_secs, RetryTarget};

fn json(text: &str) -> Json {
    Json::read(&serde_json::from_str(text).expect("a document"))
}

fn owned_by(issuer: Issuer) -> SessionOwner {
    SessionOwner {
        tenant_id: "t1".into(),
        requester: Requester::new(
            Subject::new(issuer, "u1".to_string()),
            Visibility::Private,
        ),
        metadata: Default::default(),
    }
}

#[test]
fn a_session_belongs_to_the_channel_that_opened_it() {
    assert_eq!(
        ChannelKind::owning(&owned_by(Issuer::slack())),
        Some(ChannelKind::SLACK)
    );
    assert_eq!(
        ChannelKind::owning(&owned_by(Issuer::cli())),
        Some(ChannelKind::CLI)
    );
}

#[test]
fn a_browser_frontend_names_no_channel() {
    assert_eq!(ChannelKind::owning(&owned_by(Issuer::app())), None);
    assert_ne!(Issuer::app().as_str(), ChannelKind::AG_UI.as_str());
}

#[test]
fn a_session_no_channel_opened_belongs_to_none() {
    assert_eq!(ChannelKind::owning(&owned_by(Issuer::operator())), None);
    assert_eq!(ChannelKind::owning(&owned_by(Issuer::app())), None);

    let anonymous = SessionOwner {
        tenant_id: "t1".into(),
        requester: Requester::machine(),
        metadata: Default::default(),
    };
    assert_eq!(ChannelKind::owning(&anonymous), None);
}

/// An action's result, with what it reads as where it reads as a whole answer.
fn from_result(text: &str, lifted: Option<ToolResult>) -> ToolResult {
    ToolResult::from_action(Some(json(text)), lifted, None, None, false)
        .expect("a readable result")
}

fn answer(text: &str, is_error: bool) -> ToolResult {
    ToolResult {
        content: vec![ToolContent::Text { text: text.into() }],
        structured_content: None,
        is_error,
    }
}

#[test]
fn a_result_written_as_a_tool_result_is_read_as_one() {
    let result = from_result(
        r#"{"content":[{"type":"text","text":"sent"}]}"#,
        Some(answer("sent", false)),
    );
    assert_eq!(result.as_text(), "sent");
    assert_eq!(result.content.len(), 1);
}

#[test]
fn a_lifted_result_keeps_what_it_says_about_itself() {
    let result = from_result(
        r#"{"content":[{"type":"text","text":"nope"}],"isError":true}"#,
        Some(answer("nope", true)),
    );
    assert!(result.is_error);

    let structured = from_result(
        r#"{"structuredContent":{"temp":62}}"#,
        Some(ToolResult {
            content: vec![],
            structured_content: Some(json(r#"{"temp":62}"#)),
            is_error: false,
        }),
    );
    assert_eq!(
        structured.structured_content,
        Some(json(r#"{"temp":62}"#))
    );
}

#[test]
fn the_actions_own_error_flag_is_kept() {
    let result = ToolResult::from_action(
        Some(json(r#"{"content":[{"type":"text","text":"x"}]}"#)),
        Some(answer("x", false)),
        None,
        None,
        true,
    )
    .unwrap();
    assert!(result.is_error);
}

#[test]
fn data_that_is_not_a_tool_result_is_left_alone() {
    assert_eq!(from_result(r#""Lisbon""#, None).as_text(), "Lisbon");
    assert_eq!(
        from_result(r#"{"temp":62}"#, None).as_text(),
        r#"{"temp":62}"#
    );
    assert_eq!(
        from_result(r#"{"content":3}"#, None).as_text(),
        r#"{"content":3}"#
    );
    assert_eq!(from_result("null", None).as_text(), "");
}

#[test]
fn content_and_result_together_are_refused() {
    let both = ToolResult::from_action(
        Some(json(r#""a""#)),
        None,
        Some(vec![ToolContent::Text { text: "b".into() }]),
        None,
        false,
    );
    assert!(both.is_err());
}

#[test]
fn a_result_that_lifts_to_nothing_is_plain_data() {
    let empty = ToolResult {
        content: vec![],
        structured_content: None,
        is_error: true,
    };
    let result = from_result("{}", Some(empty));
    assert_eq!(result.as_text(), "{}");
    assert!(!result.is_error);
}

#[test]
fn an_action_that_names_its_content_is_answered_with_it() {
    let result = ToolResult::from_action(
        None,
        None,
        Some(vec![ToolContent::Text { text: "b".into() }]),
        Some(json("7")),
        true,
    )
    .unwrap();
    assert_eq!(result.as_text(), "b");
    assert_eq!(result.rendered(), "7");
    assert!(result.is_error);
}

#[test]
fn a_document_is_read_by_what_it_is() {
    let null = json("null");
    assert_eq!(null.kind, JsonKind::Null);
    assert_eq!(null.text, "null");
    assert_eq!(null, Json::null());

    let text = json(r#""a\"b""#);
    assert_eq!(text.kind, JsonKind::Text("a\"b".to_string()));
    assert_eq!(text.text, r#""a\"b""#);

    let other = json(r#"{ "a": [1, 2] }"#);
    assert_eq!(other.kind, JsonKind::Other);
    assert_eq!(other.text, r#"{"a":[1,2]}"#);
}

#[test]
fn a_document_as_an_answer_is_one_text() {
    let from = |text: &str| ToolResult::from_value(serde_json::from_str(text).unwrap());
    assert_eq!(from(r#""hi""#).content, vec![ToolContent::Text { text: "hi".into() }]);
    assert_eq!(from("null").as_text(), "");
    assert_eq!(from("[true, 1]").as_text(), "[true,1]");
}

#[test]
fn an_answer_reads_as_its_texts_a_line_each() {
    let result = ToolResult {
        content: vec![
            ToolContent::Text { text: "a".into() },
            ToolContent::Image {
                data: "AA==".into(),
                mime_type: "image/png".into(),
            },
            ToolContent::Text { text: "b".into() },
        ],
        structured_content: None,
        is_error: false,
    };
    assert_eq!(result.as_text(), "a\nb");
    assert_eq!(result.rendered(), "a\nb");
}

#[test]
fn a_stored_answer_reads_as_its_parts() {
    let stored = StoredResult {
        content: vec![
            StoredContent::Text { text: "a".into() },
            StoredContent::Attachment(Attachment {
                name: "x.pdf".into(),
                line: "[x.pdf]".into(),
            }),
        ],
        structured_content: Some(json(r#"{"n": 1}"#)),
        is_error: false,
    };
    assert!(stored.as_text().starts_with("a"));
    assert_eq!(stored.rendered(), r#"{"n":1}"#);
    assert_eq!(StoredResult::text("t".into()).as_text(), "t");
    assert!(StoredResult::error("t".into()).is_error);
    assert!(!StoredResult::text("t".into()).is_error);
}

#[test]
fn inline_content_names_its_bytes_and_its_type() {
    let image = ToolContent::Image {
        data: "AA==".into(),
        mime_type: "image/png".into(),
    };
    assert_eq!(image.inline(), Some(("AA==", "image/png")));
    let blob = ToolContent::Resource {
        resource: ResourceContents {
            uri: "file:///dir/x.bin".into(),
            mime_type: None,
            text: None,
            blob: Some("AAE=".into()),
        },
    };
    assert_eq!(blob.inline(), Some(("AAE=", "application/octet-stream")));
    assert_eq!(blob.name(), Some("x.bin"));
    assert_eq!(ToolContent::Text { text: "a".into() }.inline(), None);
}

#[test]
fn a_path_reads_back_as_it_is_written() {
    let paths = [
        ConnectionPath::Mcp("sentry".into()),
        ConnectionPath::Agent("coder".into()),
        ConnectionPath::PluginServer {
            plugin: "pdf".into(),
            server: "renderer".into(),
        },
    ];
    let written = ["mcp.sentry", "agent.coder", "plugin.pdf.mcp.renderer"];
    for (path, text) in paths.iter().zip(written) {
        assert_eq!(path.to_string(), text);
        assert_eq!(ConnectionPath::parse(text).as_ref(), Some(path));
    }
}

#[test]
fn a_text_that_names_no_connection_is_refused() {
    for text in [
        "",
        "sentry",
        "mcp.",
        "mcp.a.b",
        "agent.",
        "plugin.pdf",
        "plugin.pdf.mcp.",
        "plugin..mcp.x",
        "plugin.pdf.mcp.a.b",
        "plugin.pdf.xyz.renderer",
    ] {
        assert_eq!(ConnectionPath::parse(text), None, "{text}");
    }
}

#[test]
fn a_prefix_holds_only_what_a_provider_accepts() {
    assert_eq!(
        ConnectionPath::Mcp("my-server 2".into()).tool_prefix(),
        "my_server_2"
    );
    assert_eq!(
        ConnectionPath::PluginServer {
            plugin: "pdf".into(),
            server: "ren.der".into()
        }
        .tool_prefix(),
        "pdf_ren_der"
    );
}

#[test]
fn bytes_are_written_in_base_64() {
    assert_eq!(base64(&vec![]), "");
    assert_eq!(base64(&b"f".to_vec()), "Zg==");
    assert_eq!(base64(&b"fo".to_vec()), "Zm8=");
    assert_eq!(base64(&b"foo".to_vec()), "Zm9v");
    assert_eq!(base64(&b"foobar".to_vec()), "Zm9vYmFy");
    assert_eq!(base64(&vec![0xfb, 0xff, 0xbf]), "+/+/");
    assert_eq!(
        data_uri("text/plain", &b"foo".to_vec()),
        "data:text/plain;base64,Zm9v"
    );
}

#[test]
fn a_media_type_splits_into_its_parts() {
    assert_eq!(
        parts("audio/wav;rate=8000"),
        ("audio".to_string(), "wav".to_string())
    );
    assert_eq!(essence("image/png"), "image");
    assert_eq!(parts("text"), ("text".to_string(), "".to_string()));
}

#[test]
fn a_prompt_part_goes_out_as_what_it_shows() {
    let media = |mime: &str, name: Option<&str>| PromptPart::Media {
        mime: mime.into(),
        name: name.map(str::to_string),
        bytes: b"foo".to_vec(),
    };
    assert_eq!(
        ContentPart::from(&media("image/png", None)),
        ContentPart::ImageUrl {
            image_url: ImageUrl {
                url: "data:image/png;base64,Zm9v".into()
            }
        }
    );
    assert_eq!(
        ContentPart::from(&media("audio/wav", None)),
        ContentPart::InputAudio {
            input_audio: AudioData {
                data: "Zm9v".into(),
                format: "wav".into()
            }
        }
    );
    assert_eq!(
        ContentPart::from(&media("video/mp4", None)),
        ContentPart::VideoUrl {
            video_url: VideoUrl {
                url: "data:video/mp4;base64,Zm9v".into()
            }
        }
    );
    assert_eq!(
        ContentPart::from(&media("application/pdf", None)),
        ContentPart::File {
            file: FileData {
                filename: "file".into(),
                file_data: "data:application/pdf;base64,Zm9v".into()
            }
        }
    );
    assert_eq!(
        ContentPart::from(&PromptPart::Link {
            uri: "https://x/y".into(),
            name: Some("y".into()),
            mime_type: Some("text/html".into()),
        }),
        ContentPart::Text {
            text: "y: https://x/y".into()
        }
    );
}

#[test]
fn a_prompt_part_is_stored_as_a_link_to_what_it_shows() {
    let part = ContentPart::InputAudio {
        input_audio: AudioData {
            data: "Zm9v".into(),
            format: "wav".into(),
        },
    };
    assert_eq!(
        part.stored(),
        StoredContent::Link {
            uri: "data:audio/wav;base64,Zm9v".into(),
            name: None,
            mime_type: Some("audio/wav".into()),
        }
    );
}

#[test]
fn content_is_read_as_text() {
    assert_eq!(Content::Text("a".into()).text(), Some("a"));
    assert_eq!(Content::Text("a".into()).text_owned(), "a");
    assert_eq!(PromptContent::Text("b".into()).text_owned(), "b");
}

#[test]
fn a_usage_counts_its_parts() {
    let mut usage = Usage::new(10, 20, 30, 5);
    assert_eq!(usage.input, 60);
    assert_eq!(usage.total, 65);
    let other = Usage::new(1, 2, 3, 4).with_provider(json("1"));
    assert!(usage.can_add(&other));
    usage.add(&other);
    assert_eq!(usage, Usage::new(11, 22, 33, 9));
    assert_eq!(usage.input, usage.uncached_input + usage.cache_read + usage.cache_write);
    assert_eq!(usage.total, usage.input + usage.output);
    assert!(!usage.can_add(&Usage::new(u64::MAX, 0, 0, 0)));
    assert_eq!(no_cost(), rust_decimal::Decimal::new(0, 0));
}

fn tool(name: &str, defer: bool) -> LlmTool {
    LlmTool {
        name: name.into(),
        description: "d".into(),
        input: None,
        output: None,
        defer,
    }
}

#[test]
fn deferred_tools_are_held_back_from_a_request() {
    let request = LlmRequest {
        model: "m".into(),
        messages: vec![],
        tools: Some(vec![tool("a", false), tool("b", true)]),
        temperature: None,
        max_completion_tokens: None,
        reasoning: None,
    };
    let names = |strategy| -> Vec<String> {
        request
            .offered_tools(strategy)
            .unwrap_or_default()
            .into_iter()
            .map(|t| t.name.clone())
            .collect()
    };
    assert_eq!(names(DeferToolsStrategy::Search), vec!["a"]);
}

#[test]
fn reasoning_belongs_to_the_provider_that_wrote_it() {
    assert_eq!(
        Reasoning::new(ReasoningProvider::Openai, None, vec![]),
        None,
        "nothing was written"
    );
    assert_eq!(
        Reasoning::new(ReasoningProvider::Openai, Some("t".into()), vec![]),
        None,
        "a text alone is no reasoning"
    );
    let reasoning =
        Reasoning::new(ReasoningProvider::Openai, None, vec![json("1")]).expect("one block");
    assert_eq!(reasoning.blocks_for(ReasoningProvider::Openai).len(), 1);
    assert!(reasoning.blocks_for(ReasoningProvider::Openrouter).is_empty());
}

#[test]
fn an_error_keeps_the_code_it_has() {
    let error = ErrorInfo::internal("m".into());
    assert_eq!(error.code, ErrorCode::Internal);
    assert_eq!(error.to_string(), "m");
    let narrowed = error.clone().or_code(Some(ErrorCode::RateLimited));
    assert_eq!(narrowed.code, ErrorCode::RateLimited);
    assert_eq!(error.clone().or_code(None).code, ErrorCode::Internal);
    let detailed = error.with_detail(json("1")).or_detail(Some(json("2")));
    assert_eq!(detailed.detail, Some(json("2")));
    assert_eq!(detailed.or_detail(None).detail, Some(json("2")));
    let param = ErrorInfo::new(ErrorCode::RateLimited, "m".into()).with_param("p".into());
    assert_eq!(param.param.as_deref(), Some("p"));
}

#[test]
fn a_subject_is_written_with_its_issuer() {
    let subject = Subject::new(Issuer::slack(), "u1".into());
    assert_eq!(subject.to_string(), "slack:u1");
    assert_eq!(Issuer::new("x".into()).to_string(), "x");
    assert_eq!(Requester::private(subject.clone()).subject, Some(subject));
    assert_eq!(Requester::of_owner(None), Requester::machine());
    assert_eq!(ChannelKind::SLACK.to_string(), "slack");
}

#[test]
fn an_operator_outranks_a_machine_and_a_person() {
    assert!(InterruptOrigin::Operator.privilege() >= InterruptOrigin::Machine.privilege());
    assert!(InterruptOrigin::Machine.privilege() >= InterruptOrigin::Frontend.privilege());
}

fn subagent(prefix: Option<bool>, mode: Option<SubagentMode>) -> Subagent {
    Subagent {
        id: "coder".into(),
        description: "d".into(),
        defer: None,
        prefix,
        mode,
    }
}

#[test]
fn a_subagent_is_offered_under_its_name() {
    assert_eq!(subagent(None, None).offered_name(), "coder");
    assert_eq!(subagent(Some(true), None).offered_name(), "agent__coder");
    assert!(subagent(None, None).defers(true));
    assert!(!subagent(None, None).defers(false));
    assert_eq!(subagent(None, None).resolved_mode(), SubagentMode::Any);
    assert_eq!(
        subagent(None, Some(SubagentMode::Detached)).resolved_mode(),
        SubagentMode::Detached
    );
}

#[test]
fn a_mode_offers_the_ways_to_start() {
    assert!(SubagentMode::Blocking.offered().is_empty());
    assert_eq!(SubagentMode::Detached.offered(), vec![SpawnMode::Detached]);
    assert_eq!(
        SubagentMode::Any.offered(),
        vec![SpawnMode::Blocking, SpawnMode::Detached]
    );
}

#[test]
fn deferral_reads_as_a_switch_or_as_settings() {
    assert_eq!(DeferToolsWire::read(None), None);
    assert_eq!(
        DeferToolsWire::read(Some(DeferToolsWire::Flag(true))),
        Some(DeferTools::default())
    );
    assert_eq!(DeferToolsWire::read(Some(DeferToolsWire::Flag(false))), None);
    assert!(DeferTools::is_default_max_matches(5));
    assert!(!DeferTools::is_default_max_matches(6));
}

#[test]
fn a_plugins_server_is_bound_under_the_plugin() {
    let plugin = AgentPlugin {
        id: "pdf".into(),
        description: "PDF work.".into(),
        skills: vec![SkillMeta {
            name: "form-filling".into(),
            description: "Fill out PDF forms.".into(),
        }],
        servers: vec!["renderer".into()],
        tools: None,
        auth_failure: McpAuthFailure::default(),
        tool_sync_failure: McpToolSyncFailure::default(),
        approve: Approve::default(),
    };
    assert_eq!(
        plugin.server("renderer").path.to_string(),
        "plugin.pdf.mcp.renderer"
    );
}

#[test]
fn a_kind_of_work_has_a_name() {
    assert_eq!(EffectKind::ToolCall.label(), "tool_call");
    assert_eq!(EffectKind::LlmCall.label(), "llm_call");
    assert_eq!(EffectKind::ConnectorSync.label(), "connector_sync");
    assert_eq!(EffectKind::Decision.label(), "decision");
}

fn over(max_attempts: Option<u32>, run_timeout_secs: Option<u32>) -> RetryOverride {
    RetryOverride {
        queue_timeout_secs: None,
        run_timeout_secs,
        total_timeout_secs: None,
        max_attempts,
        backoff_base_secs: None,
        backoff_max_secs: None,
    }
}

#[test]
fn the_narrowest_retry_setting_wins_field_by_field() {
    let config = RetryConfig {
        default: Some(over(Some(7), Some(9))),
        tool: Some(over(Some(8), None)),
        ..Default::default()
    };
    let policy = RetryPolicy::resolve(
        Some(over(Some(2), None)),
        Some(&config),
        RetryTarget::WorkerTool,
    );
    assert_eq!(policy.max_attempts, 2);
    assert_eq!(policy.run_timeout_secs, Some(9));
    let declared = RetryPolicy::resolve(None, Some(&config), RetryTarget::WorkerTool);
    assert_eq!(declared.max_attempts, 8);
    assert_eq!(
        RetryPolicy::resolve(None, None, RetryTarget::WorkerTool),
        RetryPolicy::default_for(RetryTarget::WorkerTool)
    );
}

#[test]
fn a_wait_doubles_up_to_the_longest() {
    let policy = RetryPolicy {
        backoff_base_secs: 3,
        backoff_max_secs: 20,
        ..RetryPolicy::no_retry()
    };
    let waits: Vec<u32> = (0..5).map(|n| backoff_secs(&policy, n)).collect();
    assert_eq!(waits, vec![3, 6, 12, 20, 20]);
    assert_eq!(after(1, 2), 2_000_000_001);
    assert_eq!(after(i128::MAX - 5, 2), i128::MAX);
}

#[test]
fn ids_of_one_source_differ() {
    let mut ids = Ids::new("s".to_string());
    let a = ids.new_call_id();
    let b = ids.new_call_id();
    assert_ne!(a, b);
}

#[test]
fn a_refusal_says_why() {
    let turn = || "t1".to_string();
    let sentences = [
        (SessionError::SessionNotCreated, "session has not been created"),
        (SessionError::SessionAlreadyCreated, "session already exists"),
        (SessionError::SessionInterrupted, "session is interrupted"),
        (SessionError::SessionStartFailed, "session start failed"),
        (
            SessionError::TurnAlreadyActive { turn_id: turn() },
            "turn already active: t1",
        ),
        (
            SessionError::TurnAlreadyCompleted { turn_id: turn() },
            "turn already completed: t1",
        ),
        (SessionError::NoActiveTurn, "session has no active turn"),
        (SessionError::MissingSubject, "client subject is required"),
        (SessionError::SessionAccessDenied, "session access denied"),
        (SessionError::EffectNotFound, "effect not found"),
        (SessionError::EffectNotPending, "effect is not pending"),
        (SessionError::EffectAttemptMismatch, "effect attempt mismatch"),
        (
            SessionError::EffectWrongHandler,
            "caller may not settle this effect",
        ),
    ];
    for (error, sentence) in sentences {
        assert_eq!(error.to_string(), sentence);
    }
}
