use agenttool::agents::{
    default_app_server_owner, parse_agent_role, parse_app_server_owner_label,
    parse_visible_pane_kind_label, trim_to_nonblank,
};
use agenttool::config::{
    dashboard_runtime_script, default_codex_launcher, explicit_client_binds, is_agentd_listed,
    parse_number, recorded_client_binds, AddressText, AppConfig, ConfigEnv, RecordedEndpoint,
    RuntimeEndpointRecord,
};
use agenttool::control::ControlRequest;
use agenttool::host::{at_least_one_second, describe_delivery, LocalState};
use agenttool::json::{parse_json, render_json, JsonObject, JsonValue};
use agenttool::managed::bootstrap_summary;
use agenttool::models::{
    AgentBootstrapState, AgentRole, AgentSessionState, AgentSummary, AppServerOwner,
    BridgeConnectionState, BridgeDelivery, BridgeDeliveryKind, BridgeMode, BridgeServerMessage,
    BridgeSyncSnapshot, CodexSessionStatus, DashboardEvent, DecisionSummary, RuntimeEventRecord,
    RuntimeTraceView, SessionMode, SessionSummary, StreamEventRecord, TaskRoundStatus, TaskState,
    TaskSummary, VisiblePaneKind,
};
use agenttool::panes::{
    check_registered_visible_pane, lookup_registered_visible_pane, matches_registered_visible_pane,
    terminate_registered_visible_pane, WindowsProcessInfo,
};
use agenttool::remote::{
    find_remote_target, load_output_schema_value, remote_read_message, BootstrapRound, FrameStep,
    RemoteAction, RemoteFrame, RemoteLink, RemoteRound,
};
use agenttool::reports::{
    build_main_inbox, check_trace_selection, control_request_timeout, current_session_for_agent,
    overview_transport, parse_task_round_status, render_overview, render_trace,
    resolve_append_runtime_payload, OverviewAgent, PayloadSource,
};
use agenttool::sessions::{is_session_stop_error, VisiblePaneStopOutcome};
use agenttool::failure::Failure;
use agenttool::storage::{
    check_acknowledged_rows, deserialize_string_list, from_agent_row, from_decision_row,
    from_runtime_event_row, from_session_row, from_stream_event_row, from_task_row, oldest_first,
    parse_datetime, parse_required_datetime, parse_task_state, serialize_string_list, to_agent_row,
    to_decision_row, to_runtime_event_row, to_session_row, to_stream_event_row, to_task_row,
};
use agenttool::table::Dup;
use agenttool::time::Timestamp;
use agenttool::watch::{handle_event, looks_like_json, shorten};

fn at(secs: i64) -> Timestamp {
    Timestamp::new(secs, 0).unwrap()
}

fn sample_agent() -> AgentSummary {
    AgentSummary {
        name: "child".to_string(),
        role: AgentRole::Child,
        repo_name: Some("repo".to_string()),
        cwd: ".".to_string(),
        prompt_path: None,
        thread_id: None,
        app_server_url: None,
        app_server_owner: None,
        app_server_registered_at: None,
        visible_pane_pid: None,
        visible_pane_kind: None,
        visible_pane_registered_at: None,
        current_session_id: None,
        state: AgentSessionState::Idle,
        bootstrap_state: AgentBootstrapState::Ready,
        bootstrap_summary: None,
        bootstrap_completed_at: None,
        current_task_id: None,
        last_output_at: None,
        last_heartbeat_at: None,
        bridge_state: BridgeConnectionState::Disconnected,
        bridge_mode: None,
        bridge_session_id: None,
        bridge_connected_at: None,
        bridge_last_seen_at: None,
        bridge_last_delivery_id: 0,
        bridge_last_ack_delivery_id: 0,
        bridge_pending_delivery_count: 0,
    }
}

fn sample_task(state: TaskState) -> TaskSummary {
    TaskSummary {
        task_id: "T-1".to_string(),
        from_agent: "main".to_string(),
        to_agent: "child".to_string(),
        title: "demo".to_string(),
        summary: "demo".to_string(),
        effort: None,
        read_scope: Vec::new(),
        write_scope: Vec::new(),
        acceptance: Vec::new(),
        auto_resolve_by: None,
        auto_resolve_summary: None,
        round_count: 0,
        latest_child_status: None,
        latest_child_summary: None,
        latest_child_blocking: None,
        latest_child_topic: None,
        latest_child_details: None,
        latest_decision_id: None,
        latest_decision_summary: None,
        latest_decision_status: None,
        latest_decision_issued_by: None,
        latest_decision_at: None,
        state,
        created_at: at(1_700_000_000),
        updated_at: at(1_700_000_000),
        closed_at: None,
    }
}

fn sample_session() -> SessionSummary {
    SessionSummary {
        session_id: "S-1".to_string(),
        agent_name: "child".to_string(),
        session_mode: SessionMode::Round,
        pid: Some(7),
        thread_id: None,
        status: CodexSessionStatus::Running,
        started_at: at(10),
        ended_at: None,
        last_output_at: Some(at(11)),
    }
}

#[test]
fn json_is_written_compactly_with_sorted_names() {
    let value = JsonObject::new()
        .number("b", 2)
        .text("a", "x\"y")
        .opt_text("c", &None)
        .flag("d", true)
        .texts("e", &vec!["p".to_string()])
        .done();
    assert_eq!(render_json(&value), r#"{"a":"x\"y","b":2,"c":null,"d":true,"e":["p"]}"#);
}

#[test]
fn later_field_of_one_name_counts() {
    let value = JsonObject::new().number("a", 1).number("a", 2).done();
    assert_eq!(render_json(&value), r#"{"a":2}"#);
    assert_eq!(value.get("a").unwrap().as_number(), Some(2));
    let inner = JsonObject::new().text("k", "old").text("m", "x").text("k", "new").done();
    let value = JsonObject::new().number("a", 1).number("b", 2).value("a", inner).done();
    assert_eq!(render_json(&value), r#"{"a":{"k":"new","m":"x"},"b":2}"#);
    assert_eq!(JsonObject::new().render(), "{}");
}

#[test]
fn json_is_read_with_every_kind_of_value() {
    let value =
        parse_json(r#" {"t":"s","n":3,"m":-1,"f":1.5,"z":null,"l":[true,false,[]],"o":{}} "#).unwrap();
    assert_eq!(value.text_at("t").as_deref(), Some("s"));
    assert_eq!(value.get("n").unwrap().as_number(), Some(3));
    assert_eq!(value.get("m").unwrap().as_number(), None);
    assert_eq!(value.text_at("n"), None);
    assert!(value.get("missing").is_none());
    assert!(matches!(value.get("z"), Some(JsonValue::Null)));
    match value.get("l") {
        Some(JsonValue::Array(items)) => assert_eq!(items.len(), 3),
        other => panic!("{:?}", other),
    }
    assert_eq!(
        render_json(&value),
        r#"{"f":1.5,"l":[true,false,[]],"m":-1,"n":3,"o":{},"t":"s","z":null}"#
    );
}

#[test]
fn text_that_is_no_json_gives_the_error() {
    let err = parse_json("{").unwrap_err();
    assert_eq!(err, "EOF while parsing an object at line 1 column 1");
}

#[test]
fn instants_are_written_as_serde_writes_them() {
    let value = JsonObject::new().time("at", at(1_700_000_000)).opt_time("no", None).render();
    assert_eq!(value, r#"{"at":"2023-11-14T22:13:20Z","no":null}"#);
}

#[test]
fn instants_have_limits() {
    assert!(Timestamp::new(8_210_266_876_799, 999_999_999).is_some());
    assert!(Timestamp::new(8_210_266_876_800, 0).is_none());
    assert!(Timestamp::new(59, 1_500_000_000).is_some());
    assert!(Timestamp::new(58, 1_500_000_000).is_none());
    assert!(at(1).is_before(&at(2)));
    assert!(!at(2).is_before(&at(2)));
    assert_eq!(at(5).seconds(), 5);
    assert_eq!(Timestamp::new(5, 6).unwrap().nanoseconds(), 6);
}

#[test]
fn stored_instants_are_read_back() {
    let row = to_session_row(&sample_session());
    assert_eq!(row.started_at, "1970-01-01T00:00:10+00:00");
    assert_eq!(parse_datetime(&Some(row.started_at.clone())), Some(at(10)));
    assert_eq!(
        parse_required_datetime("2023-11-14T23:13:20.5+01:00").unwrap(),
        Timestamp::new(1_700_000_000, 500_000_000).unwrap()
    );
    assert_eq!(parse_datetime(&Some("yesterday".to_string())), None);
    assert_eq!(parse_datetime(&None), None);
    assert!(parse_required_datetime("yesterday").is_err());
}

#[test]
fn string_lists_are_read_back() {
    let list = vec!["a\"b".to_string(), "".to_string()];
    let stored = serialize_string_list(&list);
    assert_eq!(stored, r#"["a\"b",""]"#);
    assert_eq!(deserialize_string_list(&stored), list);
    assert!(deserialize_string_list("no list").is_empty());
    assert!(deserialize_string_list("[1]").is_empty());
}

#[test]
fn records_are_read_back_from_their_rows() {
    let mut agent = sample_agent();
    agent.visible_pane_pid = Some(17);
    agent.visible_pane_kind = Some(VisiblePaneKind::Shell);
    agent.bridge_mode = Some(BridgeMode::Autorun);
    agent.bridge_last_delivery_id = 9;
    agent.last_heartbeat_at = Some(at(3));
    let same = from_agent_row(to_agent_row(&agent));
    assert_eq!(format!("{:?}", same), format!("{:?}", agent));

    let mut task = sample_task(TaskState::BlockedWaitingDecision);
    task.read_scope = vec!["x".to_string()];
    task.closed_at = Some(at(8));
    let same = from_task_row(to_task_row(&task)).unwrap();
    assert_eq!(format!("{:?}", same), format!("{:?}", task));

    let session = sample_session();
    let same = from_session_row(to_session_row(&session)).unwrap();
    assert_eq!(format!("{:?}", same), format!("{:?}", session));

    let decision = DecisionSummary {
        decision_id: "D-1".to_string(),
        task_id: "T-1".to_string(),
        issued_by: "main".to_string(),
        target_agent: "child".to_string(),
        summary: "s".to_string(),
        status: "sent".to_string(),
        created_at: at(1),
        acknowledged_at: None,
    };
    let same = from_decision_row(to_decision_row(&decision)).unwrap();
    assert_eq!(format!("{:?}", same), format!("{:?}", decision));

    let line = StreamEventRecord {
        session_id: None,
        agent: "child".to_string(),
        stream: "stdout".to_string(),
        content: "hi".to_string(),
        at: at(2),
    };
    let same = from_stream_event_row(to_stream_event_row(&line)).unwrap();
    assert_eq!(format!("{:?}", same), format!("{:?}", line));

    let entry = sample_entry();
    let same = from_runtime_event_row(to_runtime_event_row(&entry)).unwrap();
    assert_eq!(format!("{:?}", same), format!("{:?}", entry));
}

fn sample_entry() -> RuntimeEventRecord {
    RuntimeEventRecord {
        id: 3,
        scope: "task".to_string(),
        scope_id: "T-1".to_string(),
        agent_name: Some("child".to_string()),
        task_id: Some("T-1".to_string()),
        session_id: None,
        actor_name: None,
        event_type: "task_created".to_string(),
        summary: "made".to_string(),
        reason: None,
        payload_json: None,
        created_at: at(4),
    }
}

#[test]
fn row_with_a_broken_time_is_refused() {
    let mut row = to_session_row(&sample_session());
    row.started_at = "never".to_string();
    assert!(from_session_row(row).is_err());
}

#[test]
fn unknown_stored_state_is_read_as_the_default() {
    assert_eq!(parse_task_state("analyzed"), TaskState::Analyzed);
    assert_eq!(parse_task_state("???"), TaskState::Pending);
}

#[test]
fn rows_come_oldest_first() {
    assert_eq!(oldest_first(vec![3, 2, 1]), vec![1, 2, 3]);
    assert!(check_acknowledged_rows(1, "D-1").is_ok());
    assert_eq!(check_acknowledged_rows(0, "D-1").unwrap_err().to_string(), "decision not found: D-1");
}

#[test]
fn labels_are_parsed_or_refused() {
    assert_eq!(parse_agent_role("main").unwrap(), AgentRole::Main);
    assert!(parse_agent_role("chief").is_err());
    assert_eq!(parse_app_server_owner_label("daemon").unwrap(), AppServerOwner::Daemon);
    assert!(parse_app_server_owner_label("x").is_err());
    assert!(parse_visible_pane_kind_label("x").is_err());
    assert_eq!(trim_to_nonblank(Some("  a ".to_string())).as_deref(), Some("a"));
    assert_eq!(trim_to_nonblank(Some("  ".to_string())), None);
    let _ = default_app_server_owner(&sample_agent());
    assert_eq!(parse_task_round_status("report").unwrap(), TaskRoundStatus::Report);
    assert_eq!(
        parse_task_round_status("later").unwrap_err().to_string(),
        "unsupported task round status: later"
    );
}

fn env() -> ConfigEnv {
    ConfigEnv {
        root_dir: "/r".to_string(),
        data_dir: "/r/data".to_string(),
        db_path: "/r/data/db".to_string(),
        runtime_endpoint_path: "/r/e".to_string(),
        dashboard_runtime_script_path: "/r/s".to_string(),
        codex_launcher: None,
        custom_launcher: false,
        app_server_start_timeout: Some("0".to_string()),
        managed_bootstrap_timeout: Some("30".to_string()),
    }
}

#[test]
fn configuration_falls_back_to_its_defaults() {
    let config = AppConfig::load_base(env());
    assert_eq!(config.ws_bind, "127.0.0.1:0");
    assert_eq!(config.codex_launcher, "codex");
    assert_eq!(config.app_server_start_timeout_seconds, 20);
    assert_eq!(config.managed_bootstrap_timeout_seconds, 30);
    let given = parsed("127.0.0.1:7280");
    let config = AppConfig::load_agentd(env(), Some(given), None).unwrap();
    assert_eq!(config.ws_bind, "127.0.0.1:7280");
    assert_eq!(config.control_bind, "127.0.0.1:0");
    let err = AppConfig::load_agentd(env(), Some(unparsed("x")), None).unwrap_err();
    assert_eq!(err.to_string(), "failed to parse AGENTTOOL_WS_BIND");
    let err = AppConfig::load_agentd(env(), None, Some(unparsed("y"))).unwrap_err();
    assert_eq!(err.to_string(), "failed to parse AGENTTOOL_CONTROL_BIND");
    assert_ne!(default_codex_launcher(true), default_codex_launcher(false));
}

fn parsed(address: &str) -> AddressText {
    AddressText { given: address.to_string(), parsed: Some(address.to_string()) }
}

fn unparsed(given: &str) -> AddressText {
    AddressText { given: given.to_string(), parsed: None }
}

fn recorded(live: bool) -> RecordedEndpoint {
    RecordedEndpoint {
        ws: parsed("127.0.0.1:7280"),
        control: parsed("127.0.0.1:7281"),
        pid: 1234,
        live,
    }
}

#[test]
fn addresses_of_a_record_have_to_parse() {
    let config = AppConfig::load_client(env(), None, None, Some(recorded(true))).unwrap();
    assert_eq!(config.control_bind, "127.0.0.1:7281");
    let mut endpoint = recorded(true);
    endpoint.ws = unparsed("nowhere");
    assert_eq!(
        AppConfig::load_client(env(), None, None, Some(endpoint)).unwrap_err().to_string(),
        "failed to parse runtime websocket endpoint nowhere"
    );
    let mut endpoint = recorded(true);
    endpoint.control = unparsed("127.0.0.1");
    assert_eq!(
        AppConfig::load_client(env(), None, None, Some(endpoint)).unwrap_err().to_string(),
        "failed to parse runtime control endpoint 127.0.0.1"
    );
    let path = env().runtime_endpoint_path;
    assert_eq!(
        AppConfig::load_client(env(), None, None, None).unwrap_err().to_string(),
        format!("failed to load AgentTool runtime endpoint from {}", path)
    );
    let told = (Some(unparsed("x")), Some(unparsed("y")));
    assert_eq!(
        AppConfig::load_client(env(), told.0, told.1, Some(recorded(true))).unwrap_err().to_string(),
        "failed to parse AGENTTOOL_WS_BIND"
    );
}

#[test]
fn client_addresses_come_in_pairs() {
    assert!(explicit_client_binds(None, None).unwrap().is_none());
    let err = explicit_client_binds(Some(parsed("127.0.0.1:1")), None).unwrap_err();
    assert!(err.to_string().contains("must be provided together"));
    let err = explicit_client_binds(Some(parsed("127.0.0.1:1")), Some(unparsed("y"))).unwrap_err();
    assert_eq!(err.to_string(), "failed to parse AGENTTOOL_CONTROL_BIND");
    let told = (Some(parsed("127.0.0.1:1")), Some(parsed("127.0.0.1:2")));
    let config = AppConfig::load_client(env(), told.0, told.1, None).unwrap();
    assert_eq!(config.ws_bind, "127.0.0.1:1");
    assert_eq!(config.control_bind, "127.0.0.1:2");
    let endpoint = |pid| RuntimeEndpointRecord {
        ws_addr: "127.0.0.1:7280".to_string(),
        control_addr: "127.0.0.1:7281".to_string(),
        pid,
        started_at: at(1),
    };
    assert_eq!(recorded_client_binds(recorded(true)).unwrap().ws_bind, "127.0.0.1:7280");
    assert_eq!(
        recorded_client_binds(recorded(false)).unwrap_err().to_string(),
        "AgentTool runtime endpoint is stale: pid 1234 is not a live agentd instance"
    );
    assert!(AppConfig::clear_runtime_endpoint_if_matches(&Some(endpoint(5)), 5));
    assert!(!AppConfig::clear_runtime_endpoint_if_matches(&Some(endpoint(5)), 6));
    assert!(!AppConfig::clear_runtime_endpoint_if_matches(&None, 5));
}

#[test]
fn numbers_and_scripts_are_written_plainly() {
    assert_eq!(parse_number("+42"), Some(42));
    assert_eq!(parse_number("18446744073709551615"), Some(u64::MAX));
    assert_eq!(parse_number("18446744073709551616"), None);
    assert_eq!(parse_number("-1"), None);
    assert_eq!(parse_number(""), None);
    assert_eq!(
        dashboard_runtime_script(&Some("{}".to_string())),
        "window.__AGENTTOOL_RUNTIME_ENDPOINT__ = {};\n"
    );
    assert_eq!(
        dashboard_runtime_script(&None),
        "window.__AGENTTOOL_RUNTIME_ENDPOINT__ = null;\n"
    );
}

#[test]
fn task_list_shows_a_daemon() {
    assert!(is_agentd_listed("\"AgentD.exe\",\"12\",\"Console\"\n"));
    assert!(!is_agentd_listed("\"other.exe\",\"12\"\n"));
    assert!(!is_agentd_listed("INFO: No tasks are running"));
    assert!(!is_agentd_listed("  "));
}

fn pane(pid: u32, line: &str) -> WindowsProcessInfo {
    WindowsProcessInfo {
        process_id: pid,
        name: Some("PowerShell.exe".to_string()),
        executable_path: None,
        command_line: Some(line.to_string()),
    }
}

#[test]
fn only_the_registered_window_is_ended() {
    let line = "powershell -File Enter-AgentShell.ps1 -AgentName Child";
    assert!(matches_registered_visible_pane(&pane(5, line), "child", 5));
    assert!(!matches_registered_visible_pane(&pane(6, line), "child", 5));
    assert!(!matches_registered_visible_pane(&pane(5, line), "other", 5));
    assert_eq!(
        check_registered_visible_pane(&pane(5, "cmd"), "child", 5).unwrap_err().to_string(),
        "pid 5 no longer looks like the registered visible pane for agent child"
    );
    assert_eq!(
        lookup_registered_visible_pane(Some(0), " {} ", "", "ok", "child", 5)
            .ok()
            .unwrap()
            .payload
            .as_deref(),
        Some("{}")
    );
    assert!(lookup_registered_visible_pane(Some(3), "", "", "", "child", 5)
        .ok()
        .unwrap()
        .payload
        .is_none());
    assert_eq!(
        lookup_registered_visible_pane(Some(1), "", " bad ", "exit 1", "child", 5)
            .err()
            .unwrap()
            .to_string(),
        "process inspection failed for visible pane child (5): bad"
    );
    assert_eq!(
        lookup_registered_visible_pane(Some(0), " ", "", "", "child", 5).err().unwrap().to_string(),
        "process inspection returned empty payload for visible pane child (5)"
    );
    assert_eq!(
        terminate_registered_visible_pane(false, false, "x").unwrap(),
        VisiblePaneStopOutcome::AlreadyGone
    );
    assert_eq!(
        terminate_registered_visible_pane(false, true, "exit 1").unwrap_err().to_string(),
        "taskkill exited with status exit 1"
    );
}

#[test]
fn inbox_holds_the_tasks_that_wait() {
    let mut waiting = sample_task(TaskState::BlockedWaitingDecision);
    waiting.task_id = "T-2".to_string();
    let tasks = vec![sample_task(TaskState::Running), waiting];
    let inbox = build_main_inbox("main", &tasks, &vec![sample_agent()]);
    assert_eq!(inbox.task_count, 1);
    assert_eq!(inbox.tasks[0].task_id, "T-2");
    assert_eq!(inbox.tasks[0].child_state.as_deref(), Some("idle"));
    assert_eq!(build_main_inbox("child", &tasks, &vec![]).task_count, 0);
}

#[test]
fn requests_have_their_timeouts() {
    let config = AppConfig::load_base(env());
    assert_eq!(control_request_timeout(&ControlRequest::Ping, &config), 4);
    assert_eq!(
        control_request_timeout(
            &ControlRequest::RepairRuntimeState { requested_by: "main".to_string() },
            &config
        ),
        20
    );
}

#[test]
fn payload_comes_from_one_place() {
    assert!(matches!(resolve_append_runtime_payload(None, None), Ok(PayloadSource::Nowhere)));
    assert!(matches!(
        resolve_append_runtime_payload(Some("{}".to_string()), None),
        Ok(PayloadSource::Given { .. })
    ));
    assert_eq!(
        resolve_append_runtime_payload(Some("{}".to_string()), Some("f".to_string()))
            .unwrap_err()
            .to_string(),
        "append-runtime-event accepts only one of --payload-json or --payload-file"
    );
    assert!(check_trace_selection(&Some("a".to_string()), &None, &None).is_ok());
    assert_eq!(
        check_trace_selection(&None, &None, &None).unwrap_err().to_string(),
        "trace requires exactly one of --agent, --task, or --session"
    );
}

#[test]
fn overview_names_every_agent() {
    let agents =
        vec![OverviewAgent { agent: sample_agent(), prompt_is_file: false, has_work: true }];
    let lines = render_overview(&agents, &vec![], &vec![], "12:00");
    assert!(lines.iter().any(|l| l.contains("child")));
    assert!(lines.iter().any(|l| l.contains("12:00")));
    let mut agent = sample_agent();
    agent.current_session_id = Some("S-1".to_string());
    let sessions = vec![sample_session()];
    assert_eq!(current_session_for_agent(&sessions, &agent).unwrap().session_id, "S-1");
    assert_ne!(overview_transport(&agent, &sessions), "");
    let trace = RuntimeTraceView {
        query_kind: "task".to_string(),
        query_value: "T-1".to_string(),
        event_count: 1,
        events: vec![sample_entry()],
    };
    assert!(render_trace(&trace).iter().any(|l| l.contains("task_created")));
}

#[test]
fn watched_lines_are_shortened() {
    assert_eq!(shorten("abcdef", 3), "abc...");
    assert_eq!(shorten("abc", 3), "abc");
    assert!(looks_like_json("  {\"a\":1}"));
    assert!(!looks_like_json("text"));
    let event = DashboardEvent::StreamChunk {
        event: StreamEventRecord {
            session_id: None,
            agent: "child".to_string(),
            stream: "stdout".to_string(),
            content: "hello".to_string(),
            at: at(1),
        },
    };
    assert!(handle_event(&event, "child", 10, false).is_empty());
    assert!(handle_event(&event, "other", 10, true).is_empty());
    let lines = handle_event(&event, "child", 10, true);
    assert_eq!(lines.len(), 1);
    assert!(lines[0].message.contains("hello"));
}

fn delivery(delivery_id: u64, kind: BridgeDeliveryKind) -> BridgeDelivery {
    BridgeDelivery {
        delivery_id,
        agent: "child".to_string(),
        kind,
        task: Some(sample_task(TaskState::Pending)),
        decision: None,
        reason: None,
        created_at: at(1),
    }
}

#[test]
fn host_processes_deliveries_in_order() {
    let mut local = LocalState::new();
    assert!(local.heartbeat().is_none());
    let step = local
        .handle_server_message(
            "child",
            BridgeServerMessage::Welcome {
                session_id: "B-1".to_string(),
                snapshot: BridgeSyncSnapshot {
                    agent: sample_agent(),
                    current_task: None,
                    latest_decision: None,
                },
                pending_deliveries: vec![
                    delivery(2, BridgeDeliveryKind::TaskClosed),
                    delivery(1, BridgeDeliveryKind::TaskDispatch),
                ],
            },
        )
        .ok()
        .unwrap();
    assert_eq!(step.session_id, "B-1");
    let numbers: Vec<u64> = step.deliveries.iter().map(|d| d.delivery_id).collect();
    assert_eq!(numbers, vec![1, 2]);
    let start = local.begin_delivery(&step.deliveries[0], BridgeMode::Autorun);
    assert_eq!(start.run_task.as_deref(), Some("T-1"));
    assert!(describe_delivery(&step.deliveries[0]).contains("T-1"));
    let quiet = local.begin_delivery(&step.deliveries[0], BridgeMode::Passive);
    assert!(quiet.run_task.is_none());
    local.finish_delivery("B-1", &step.deliveries[1], BridgeMode::Passive);
    assert_eq!(local.last_ack_delivery_id, 2);
    local.finish_delivery("B-1", &step.deliveries[0], BridgeMode::Passive);
    assert_eq!(local.last_ack_delivery_id, 2);
    assert!(local.ensure_session_matches("child", "B-1").is_ok());
    assert!(local.ensure_session_matches("child", "B-2").is_err());
    assert!(local
        .handle_server_message(
            "child",
            BridgeServerMessage::Delivery {
                session_id: "B-0".to_string(),
                delivery: delivery(3, BridgeDeliveryKind::TaskDispatch),
            },
        )
        .is_err());
    assert_eq!(at_least_one_second(0), 1);
    assert_eq!(at_least_one_second(9), 9);
}

#[test]
fn frames_are_read_or_refused() {
    match remote_read_message(RemoteFrame::Text { text: "{\"id\":1}".to_string() }) {
        Ok(FrameStep::Message { message }) => {
            assert_eq!(message.get("id").unwrap().as_number(), Some(1))
        },
        _ => panic!("no message"),
    }
    assert!(matches!(remote_read_message(RemoteFrame::Ping), Ok(FrameStep::Pong)));
    assert!(matches!(remote_read_message(RemoteFrame::Other), Ok(FrameStep::Skip)));
    assert!(remote_read_message(RemoteFrame::Ended).is_err());
    assert!(remote_read_message(RemoteFrame::Close { reason: None }).is_err());
    assert!(remote_read_message(RemoteFrame::Text { text: "{".to_string() }).is_err());
    assert!(load_output_schema_value("s.json", "{}").is_ok());
    assert!(load_output_schema_value("s.json", "{").is_err());
}

fn sent(actions: Vec<RemoteAction>) -> Vec<String> {
    let mut out = Vec::new();
    for action in actions {
        if let RemoteAction::Send { text } = action {
            out.push(text);
        }
    }
    out
}

#[test]
fn answers_are_told_from_other_messages() {
    let mut link = RemoteLink::new();
    link.remote_send_request("initialize", JsonValue::Null);
    let texts = sent(link.take_actions());
    assert_eq!(texts, vec![r#"{"id":1,"method":"initialize","params":null}"#.to_string()]);
    assert!(link.remote_wait_response().is_none());
    link.pending.push(parse_json(r#"{"method":"other"}"#).unwrap());
    link.pending.push(parse_json(r#"{"id":1,"result":{"ok":true}}"#).unwrap());
    let answer = link.remote_wait_response().unwrap().unwrap();
    assert!(answer.get("result").is_some());
    assert_eq!(link.pending.len() + link.deferred.len(), 1);
    link.remote_send_request("next", JsonValue::Null);
    link.pending.push(parse_json(r#"{"id":2,"error":{"message":"no"}}"#).unwrap());
    assert!(link.remote_wait_response().unwrap().is_err());
}

#[test]
fn remote_round_runs_to_its_end() {
    let mut agent = sample_agent();
    assert!(find_remote_target(&agent).is_err());
    agent.app_server_url = Some("ws://x".to_string());
    assert_eq!(
        find_remote_target(&agent).err().unwrap().to_string(),
        "agent child has no thread id for remote resume"
    );
    agent.thread_id = Some("thr".to_string());
    let target = find_remote_target(&agent).ok().unwrap();
    let mut round = RemoteRound::begin(target, "do it", None, "1.0");
    assert_eq!(sent(round.link.take_actions()).len(), 1);
    round.feed(parse_json(r#"{"id":1,"result":{}}"#).unwrap());
    let next = sent(round.link.take_actions());
    assert!(next.iter().any(|t| t.contains("thread/resume")));
    round.feed(parse_json(r#"{"id":2,"result":{"thread":{"id":"thr"}}}"#).unwrap());
    let next = sent(round.link.take_actions());
    assert!(next.iter().any(|t| t.contains("turn/start") && t.contains("do it")));
    assert!(round.outcome.is_none());
    round.fail(Failure::new("lost".to_string()));
    assert!(round.outcome.is_some());
}

#[test]
fn bootstrap_round_starts_a_thread() {
    let mut round = BootstrapRound::begin("child", "/repo", None, "hello", None, "1.0");
    assert_eq!(sent(round.link.take_actions()).len(), 1);
    round.feed(parse_json(r#"{"id":1,"result":{}}"#).unwrap(), at(1));
    assert!(sent(round.link.take_actions()).iter().any(|t| t.contains("thread/start")));
    round.fail(Failure::new("lost".to_string()));
    assert!(round.outcome.is_some());
}

#[test]
fn bootstrap_report_needs_a_summary() {
    let ready = parse_json(r#"{"status":"ready","summary":" fine "}"#).unwrap();
    assert!(bootstrap_summary(&ready).is_ok());
    assert!(bootstrap_summary(&JsonValue::Null).is_err());
}

#[test]
fn stop_errors_are_recognised() {
    assert!(is_session_stop_error(&Failure::new(
        "codex session stop requested for agent child".to_string()
    )));
    assert!(!is_session_stop_error(&Failure::new("other".to_string())));
}

#[test]
fn copies_hold_the_same() {
    let task = sample_task(TaskState::Pending);
    assert_eq!(format!("{:?}", task.dup()), format!("{:?}", task));
}
