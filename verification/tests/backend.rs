use agenttool::backend::{
    build_codex_round_command, conclude_round, extract_error_message, extract_item_text,
    last_nonblank_line, preferred_codex_command, resolve_agent_codex_home,
    sanitize_agent_name_segment, should_use_remote_round_backend, start_app_server_backend,
    start_backend, wait_for_app_server_ready, AppServerStartRequest, BackendFinished,
    BackendLaunch, BackendStartRequest, BackendStream, ParsedCodexRound,
};
use agenttool::json::{JsonObject, JsonValue};
use agenttool::models::{
    AgentBootstrapState, AgentRole, AgentSessionState, AgentSummary, AppServerOwner,
    BridgeConnectionState, SessionMode,
};
use agenttool::time::Timestamp;

fn sample_agent() -> AgentSummary {
    AgentSummary {
        name: "child".to_string(),
        role: AgentRole::Child,
        repo_name: Some("repo".to_string()),
        cwd: "F:\\work\\github\\hackman\\guardpro_factory".to_string(),
        prompt_path: None,
        thread_id: None,
        app_server_url: None,
        app_server_owner: None,
        app_server_registered_at: None,
        visible_pane_pid: None,
        visible_pane_kind: None,
        visible_pane_registered_at: None,
        current_session_id: None,
        state: AgentSessionState::Idle,
        bootstrap_state: AgentBootstrapState::AwaitingInit,
        bootstrap_summary: None,
        bootstrap_completed_at: None,
        current_task_id: None,
        last_output_at: None,
        last_heartbeat_at: None,
        bridge_state: BridgeConnectionState::Disconnected,
        bridge_mode: None,
        bridge_session_id: None,
        bridge_connected_at: None,
        bridge_last_seen_at: None,
        bridge_last_delivery_id: 0,
        bridge_last_ack_delivery_id: 0,
        bridge_pending_delivery_count: 0,
    }
}

#[test]
fn ingests_thread_started_and_completed_item() {
    let mut parsed = ParsedCodexRound::new(None);

    let thread = parsed.ingest_stdout_line(r#"{"type":"thread.started","thread_id":"thr_123"}"#);
    assert_eq!(thread.as_deref(), Some("thr_123"));

    parsed.ingest_stdout_line(
        r#"{"type":"item.completed","item":{"content":[{"text":"final output"}]}}"#,
    );

    assert_eq!(parsed.thread_id.as_deref(), Some("thr_123"));
    assert_eq!(parsed.final_message.as_deref(), Some("final output"));
}

#[test]
fn ingests_error_message_from_nested_payload() {
    let mut parsed = ParsedCodexRound::new(Some("thr_old".to_string()));

    parsed.ingest_stdout_line(r#"{"type":"turn.failed","error":{"message":"upstream usage limit"}}"#);

    assert_eq!(parsed.thread_id.as_deref(), Some("thr_old"));
    assert_eq!(parsed.error_message.as_deref(), Some("upstream usage limit"));
}

#[test]
fn backend_stream_variants_are_stable() {
    assert!(matches!(BackendStream::Stdout, BackendStream::Stdout));
    assert!(matches!(BackendStream::Stderr, BackendStream::Stderr));
}

#[test]
fn round_command_uses_workspace_write_and_stdin_prompt() {
    let agent = sample_agent();

    let args = build_codex_round_command(&agent, Some("schema.json"));

    assert!(args.contains(&"-a".to_string()));
    assert!(args.contains(&"never".to_string()));
    assert!(args.contains(&"-s".to_string()));
    assert!(args.contains(&"workspace-write".to_string()));
    assert!(args.contains(&"-".to_string()));
    assert!(args.contains(&"--output-schema".to_string()));
    assert!(!args.contains(&"resume".to_string()));
}

#[test]
fn resume_is_only_used_for_schema_less_rounds() {
    let mut agent = sample_agent();
    agent.thread_id = Some("thread-123".to_string());

    let schema_args = build_codex_round_command(&agent, Some("schema.json"));
    assert!(!schema_args.contains(&"resume".to_string()));

    let resume_args = build_codex_round_command(&agent, None);
    assert!(resume_args.contains(&"resume".to_string()));
}

#[test]
fn pty_backend_dispatch_is_explicitly_unavailable() {
    let mut agent = sample_agent();
    agent.cwd = ".".to_string();

    let result = start_backend(&BackendStartRequest {
        agent,
        prompt: "noop".to_string(),
        output_schema: None,
        session_mode: SessionMode::Pty,
    });

    assert!(result.is_err());
    assert!(result.err().unwrap().to_string().contains("pty backend not implemented yet"));
}

#[test]
fn app_server_backend_is_not_started_as_a_round() {
    let result = start_backend(&BackendStartRequest {
        agent: sample_agent(),
        prompt: "noop".to_string(),
        output_schema: None,
        session_mode: SessionMode::AppServer,
    });
    assert_eq!(result.unwrap_err().to_string(), "app-server backend must be started explicitly");
}

#[test]
fn round_goes_to_the_app_server_of_a_bound_agent() {
    let mut agent = sample_agent();
    agent.app_server_url = Some("ws://127.0.0.1:1".to_string());
    agent.thread_id = Some("t".to_string());
    assert!(!should_use_remote_round_backend(&agent));
    agent.app_server_owner = Some(AppServerOwner::Daemon);
    assert!(should_use_remote_round_backend(&agent));
    agent.app_server_owner = None;
    agent.bridge_state = BridgeConnectionState::Connected;
    assert!(should_use_remote_round_backend(&agent));
    let launch = start_backend(&BackendStartRequest {
        agent,
        prompt: String::new(),
        output_schema: None,
        session_mode: SessionMode::Round,
    });
    assert_eq!(launch.unwrap(), BackendLaunch::Remote);
}

#[test]
fn lines_that_are_no_json_are_ignored() {
    let mut parsed = ParsedCodexRound::new(None);
    assert_eq!(parsed.ingest_stdout_line("not json"), None);
    assert_eq!(parsed.thread_id, None);
    assert_eq!(parsed.final_message, None);
}

fn finished(
    parsed: ParsedCodexRound,
    stderr: &[&str],
    success: bool,
    stopped: bool,
) -> BackendFinished {
    BackendFinished {
        parsed,
        stderr_lines: stderr.iter().map(|l| l.to_string()).collect(),
        success,
        status_label: "exit code: 1".to_string(),
        stopped,
    }
}

#[test]
fn concluded_round_has_thread_and_message() {
    let mut parsed = ParsedCodexRound::new(None);
    parsed.ingest_stdout_line(r#"{"type":"thread.started","thread_id":"thr_1"}"#);
    parsed.ingest_stdout_line(
        r#"{"type":"item.completed","item":{"type":"agent_message","text":"done"}}"#,
    );
    let now = Timestamp::new(5, 0).unwrap();
    let round = conclude_round(finished(parsed, &[], true, false), "child", now).unwrap();
    assert_eq!(round.agent, "child");
    assert_eq!(round.thread_id, "thr_1");
    assert_eq!(round.final_message, "done");
    assert_eq!(round.completed_at, now);
}

#[test]
fn failed_round_tells_its_last_word() {
    let now = Timestamp::new(5, 0).unwrap();
    let parsed = ParsedCodexRound::new(None);
    let err = conclude_round(finished(parsed, &["one", "two", "  "], false, false), "child", now)
        .unwrap_err();
    assert_eq!(err.to_string(), "codex round failed for agent child: two");
    let err = conclude_round(finished(ParsedCodexRound::new(None), &[], false, false), "child", now)
        .unwrap_err();
    assert_eq!(
        err.to_string(),
        "codex round failed for agent child: backend ended with status exit code: 1"
    );
    let err = conclude_round(finished(ParsedCodexRound::new(None), &[], false, true), "child", now)
        .unwrap_err();
    assert_eq!(err.to_string(), "codex session stop requested for agent child");
    assert_eq!(last_nonblank_line(&vec!["one".to_string(), " ".to_string()]), Some("one".to_string()));
    assert_eq!(last_nonblank_line(&vec![]), None);
}

#[test]
fn item_text_is_found_in_every_place() {
    let direct = JsonObject::new().text("text", "a").done();
    assert_eq!(extract_item_text(&direct).as_deref(), Some("a"));
    let nested = JsonObject::new()
        .value("content", JsonValue::Array(vec![JsonObject::new().text("text", "b").done()]))
        .done();
    assert_eq!(extract_item_text(&nested).as_deref(), Some("b"));
    assert_eq!(extract_item_text(&JsonValue::Null), None);
    let error = JsonObject::new().text("message", "m").done();
    assert_eq!(extract_error_message(&error).as_deref(), Some("m"));
}

#[test]
fn home_directories_have_safe_names() {
    assert_eq!(sanitize_agent_name_segment("a/b c-1_x"), "a_b_c-1_x");
    let home = resolve_agent_codex_home("a/b", Some("R".to_string()), Some("P".to_string()), "T");
    assert_eq!(home[0], "R");
    assert_eq!(home[home.len() - 1], "a_b");
    let home = resolve_agent_codex_home("a", None, None, "T");
    assert_eq!(home[0], "T");
}

#[test]
fn codex_command_falls_back_to_the_plain_name() {
    assert_eq!(preferred_codex_command(false), vec!["codex".to_string()]);
    assert!(preferred_codex_command(true).len() > 1);
}

#[test]
fn app_server_listens_on_the_given_port() {
    let launch = start_app_server_backend(
        &AppServerStartRequest {
            agent: sample_agent(),
            launcher_path: "codex".to_string(),
        },
        4711,
    );
    assert_eq!(launch.listen_url, "ws://127.0.0.1:4711");
    assert_eq!(launch.program, "codex");
    assert_eq!(
        launch.args,
        vec![
            "app-server".to_string(),
            "--listen".to_string(),
            "ws://127.0.0.1:4711".to_string()
        ]
    );
}

#[test]
fn waiting_for_an_app_server_ends_with_the_last_error() {
    assert!(wait_for_app_server_ready("ws://x", None, false).is_ok());
    let err = wait_for_app_server_ready("ws://x", Some("refused".to_string()), true).unwrap_err();
    assert_eq!(err.to_string(), "managed app-server at ws://x did not become ready: refused");
    let err = wait_for_app_server_ready("ws://x", None, true).unwrap_err();
    assert_eq!(
        err.to_string(),
        "managed app-server at ws://x did not become ready before timeout"
    );
}
