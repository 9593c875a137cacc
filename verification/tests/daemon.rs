use agenttool::backend::{BackendEvent, BackendFinished, BackendStream, ParsedCodexRound};
use agenttool::bridge::BridgeConnection;
use agenttool::control::{ControlRequest, ControlResponse};
use agenttool::dispatch::{
    plan_trace, to_response, trace_view, ws_step, RequestFacts, Step, TraceKind, WsStep, WS_PONG,
};
use agenttool::failure::Failure;
use agenttool::models::{
    AgentBootstrapState, AgentRole, AgentSessionState, AgentSummary, BridgeClientMessage,
    BridgeConnectionState, BridgeDeliveryKind, BridgeMode, BridgeServerMessage,
    CodexSessionStatus, DecisionSummary, RuntimeEventRecord, SessionMode, SessionSummary,
    TaskRoundPayload, TaskRoundStatus, TaskState, TaskSummary, WsClientMessage,
};
use agenttool::removal::{is_demo_agent_name, DeletedRows};
use agenttool::startup::{
    agent_startup_cwd, default_prompt_file, normalize_prompt_path, PromptFacts,
};
use agenttool::state::{AppShared, Effect};
use agenttool::time::Timestamp;

fn at(secs: i64) -> Timestamp {
    Timestamp::new(secs, 0).unwrap()
}

fn sample_agent() -> AgentSummary {
    AgentSummary {
        name: "child".to_string(),
        role: AgentRole::Child,
        repo_name: Some("repo".to_string()),
        cwd: ".".to_string(),
        prompt_path: None,
        thread_id: None,
        app_server_url: None,
        app_server_owner: None,
        app_server_registered_at: None,
        visible_pane_pid: None,
        visible_pane_kind: None,
        visible_pane_registered_at: None,
        current_session_id: None,
        state: AgentSessionState::Idle,
        bootstrap_state: AgentBootstrapState::Ready,
        bootstrap_summary: None,
        bootstrap_completed_at: None,
        current_task_id: None,
        last_output_at: None,
        last_heartbeat_at: None,
        bridge_state: BridgeConnectionState::Disconnected,
        bridge_mode: None,
        bridge_session_id: None,
        bridge_connected_at: None,
        bridge_last_seen_at: None,
        bridge_last_delivery_id: 0,
        bridge_last_ack_delivery_id: 0,
        bridge_pending_delivery_count: 0,
    }
}

fn sample_task(state: TaskState) -> TaskSummary {
    TaskSummary {
        task_id: "T-1".to_string(),
        from_agent: "main".to_string(),
        to_agent: "child".to_string(),
        title: "demo".to_string(),
        summary: "demo".to_string(),
        effort: None,
        read_scope: Vec::new(),
        write_scope: Vec::new(),
        acceptance: Vec::new(),
        auto_resolve_by: None,
        auto_resolve_summary: None,
        round_count: 0,
        latest_child_status: None,
        latest_child_summary: None,
        latest_child_blocking: None,
        latest_child_topic: None,
        latest_child_details: None,
        latest_decision_id: None,
        latest_decision_summary: None,
        latest_decision_status: None,
        latest_decision_issued_by: None,
        latest_decision_at: None,
        state,
        created_at: at(1_700_000_000),
        updated_at: at(1_700_000_000),
        closed_at: None,
    }
}

fn named(name: &str, role: AgentRole) -> AgentSummary {
    let mut agent = sample_agent();
    agent.name = name.to_string();
    agent.role = role;
    agent.cwd = "/repo".to_string();
    agent
}

fn load(agents: Vec<AgentSummary>, tasks: Vec<TaskSummary>) -> AppShared {
    AppShared::load(agents, tasks, vec![], vec![], vec![], vec![], vec![])
}

fn daemon() -> AppShared {
    load(vec![named("main", AgentRole::Main), named("child", AgentRole::Child)], vec![])
}

fn facts() -> RequestFacts {
    RequestFacts {
        context_sources: vec![],
        rendered_payload: "{}".to_string(),
        prompt: PromptFacts { absolute: false, below_cwd: String::new(), default_file: None },
    }
}

fn step(shared: &mut AppShared, request: ControlRequest, now: i64) -> Result<Step, Failure> {
    shared.dispatch_control_request(request, facts(), "f00d", at(now))
}

fn ask(shared: &mut AppShared, request: ControlRequest, now: i64) -> Result<ControlResponse, String> {
    match step(shared, request, now) {
        Ok(Step::Reply { response }) => Ok(response),
        Ok(_) => panic!("the request is not answered at once"),
        Err(e) => Err(e.to_string()),
    }
}

fn task_of(response: ControlResponse) -> TaskSummary {
    match response {
        ControlResponse::Task { task } => task,
        other => panic!("no task: {:?}", other),
    }
}

fn create(title: &str) -> ControlRequest {
    ControlRequest::CreateTask {
        from_agent: "main".to_string(),
        to_agent: "child".to_string(),
        title: title.to_string(),
        summary: "do it".to_string(),
        effort: None,
        read_scope: vec![],
        write_scope: vec![],
        acceptance: vec![],
        auto_resolve_by: None,
        auto_resolve_summary: None,
    }
}

fn id() -> String {
    "T-f00d".to_string()
}

fn child() -> String {
    "child".to_string()
}

fn main_agent() -> String {
    "main".to_string()
}

fn agent(shared: &AppShared, name: &str) -> AgentSummary {
    shared.state.agents.get(name).unwrap()
}

fn task(shared: &AppShared) -> TaskSummary {
    shared.state.tasks.get("T-f00d").unwrap()
}

/// Brings a new task to the state `Reported`.
fn report(shared: &mut AppShared) {
    ask(shared, create("t"), 1).unwrap();
    for (request, state) in [
        (ControlRequest::AcceptTask { task_id: id(), agent: child() }, TaskState::Accepted),
        (ControlRequest::StartTask { task_id: id(), agent: child() }, TaskState::Running),
        (ControlRequest::CompleteTask { task_id: id(), agent: child() }, TaskState::Completed),
        (
            ControlRequest::ReportTask {
                task_id: id(),
                agent: child(),
                blocking: "P1".to_string(),
                topic: "schema".to_string(),
                details: "d".to_string(),
            },
            TaskState::Reported,
        ),
    ] {
        assert_eq!(task_of(ask(shared, request, 2).unwrap()).state, state);
    }
}

#[test]
fn registered_agent_awaits_its_init_and_is_stored() {
    let mut shared = load(vec![], vec![]);
    let response = ask(
        &mut shared,
        ControlRequest::RegisterAgent {
            name: "worker".to_string(),
            role: "child".to_string(),
            repo_name: None,
            cwd: "/repo".to_string(),
            prompt_path: None,
        },
        7,
    )
    .unwrap();
    assert!(matches!(response, ControlResponse::Agent { .. }));
    let worker = agent(&shared, "worker");
    assert_eq!(worker.bootstrap_state, AgentBootstrapState::AwaitingInit);
    assert_eq!(worker.state, AgentSessionState::Idle);
    assert!(shared
        .outbox
        .iter()
        .any(|e| matches!(e, Effect::SaveAgent { agent } if agent.name == "worker")));
    let err = ask(
        &mut shared,
        ControlRequest::RegisterAgent {
            name: "x".to_string(),
            role: "boss".to_string(),
            repo_name: None,
            cwd: ".".to_string(),
            prompt_path: None,
        },
        8,
    )
    .unwrap_err();
    assert!(err.contains("boss"));
}

#[test]
fn created_task_binds_its_agent() {
    let mut shared = daemon();
    let made = task_of(ask(&mut shared, create(" t "), 1).unwrap());
    assert_eq!(made.task_id, "T-f00d");
    assert_eq!(made.title, "t");
    assert_eq!(made.state, TaskState::Pending);
    assert_eq!(made.write_scope, vec!["/repo".to_string()]);
    let bound = agent(&shared, "child");
    assert_eq!(bound.current_task_id.as_deref(), Some("T-f00d"));
    assert_eq!(bound.state, AgentSessionState::Busy);
    assert!(shared.outbox.iter().any(|e| matches!(e, Effect::InsertTask { .. })));
    assert!(shared.outbox.iter().any(|e| matches!(e, Effect::AppendRuntimeEvent { .. })));
}

#[test]
fn busy_agent_gets_no_second_task() {
    let mut shared = daemon();
    ask(&mut shared, create("one"), 1).unwrap();
    let written = shared.outbox.len();
    let err = ask(&mut shared, create("two"), 2).unwrap_err();
    assert!(err.contains("already has an in-flight task"));
    assert_eq!(shared.outbox.len(), written);
    assert_eq!(shared.state.tasks.len(), 1);
}

#[test]
fn task_for_an_unknown_agent_is_refused() {
    let mut shared = load(vec![named("main", AgentRole::Main)], vec![]);
    let err = ask(&mut shared, create("t"), 1).unwrap_err();
    assert_eq!(err, "target agent not registered: child");
}

#[test]
fn reported_task_waits_for_the_main_agent() {
    let mut shared = daemon();
    report(&mut shared);
    assert_eq!(task(&shared).latest_child_blocking.as_deref(), Some("P1"));
    let waiting = shared.pending_bridge_deliveries("main");
    assert_eq!(waiting.len(), 1);
    assert_eq!(waiting[0].kind, BridgeDeliveryKind::TaskFeedback);
}

#[test]
fn decision_reopens_the_task_for_the_next_round() {
    let mut shared = daemon();
    report(&mut shared);
    let analyzed = ControlRequest::AnalyzeTask { task_id: id(), analyzer: main_agent() };
    assert_eq!(task_of(ask(&mut shared, analyzed, 3).unwrap()).state, TaskState::Analyzed);
    let decided = ask(
        &mut shared,
        ControlRequest::SendDecision {
            task_id: id(),
            issued_by: main_agent(),
            target_agent: child(),
            summary: "go on".to_string(),
            auto_close: false,
        },
        4,
    )
    .unwrap();
    match decided {
        ControlResponse::DecisionTask { decision, task } => {
            assert_eq!(decision.decision_id, "D-f00d");
            assert_eq!(task.state, TaskState::Pending);
            assert_eq!(task.latest_decision_summary.as_deref(), Some("go on"));
        },
        other => panic!("{:?}", other),
    }
    assert_eq!(agent(&shared, "child").current_task_id.as_deref(), Some("T-f00d"));
}

#[test]
fn decision_on_a_task_that_was_not_analyzed_is_refused() {
    let mut shared = daemon();
    report(&mut shared);
    let written = shared.outbox.len();
    let err = ask(
        &mut shared,
        ControlRequest::SendDecision {
            task_id: id(),
            issued_by: main_agent(),
            target_agent: child(),
            summary: "s".to_string(),
            auto_close: true,
        },
        3,
    );
    assert!(err.is_err());
    assert_eq!(shared.outbox.len(), written);
    assert_eq!(task(&shared).state, TaskState::Reported);
}

#[test]
fn closing_decision_frees_the_agent() {
    let mut shared = daemon();
    report(&mut shared);
    ask(&mut shared, ControlRequest::AnalyzeTask { task_id: id(), analyzer: main_agent() }, 3)
        .unwrap();
    ask(
        &mut shared,
        ControlRequest::SendDecision {
            task_id: id(),
            issued_by: main_agent(),
            target_agent: child(),
            summary: "done".to_string(),
            auto_close: true,
        },
        4,
    )
    .unwrap();
    assert_eq!(task(&shared).state, TaskState::Closed);
    assert_eq!(task(&shared).closed_at, Some(at(4)));
    let free = agent(&shared, "child");
    assert_eq!(free.state, AgentSessionState::Idle);
    assert_eq!(free.current_task_id, None);
    assert_eq!(task(&shared).latest_decision_status.as_deref(), Some("acknowledged"));
}

#[test]
fn resolving_analyzes_and_decides_at_once() {
    let mut shared = daemon();
    report(&mut shared);
    let resolved = ask(
        &mut shared,
        ControlRequest::ResolveTask {
            task_id: id(),
            analyzer: main_agent(),
            summary: "next".to_string(),
        },
        5,
    )
    .unwrap();
    assert!(matches!(resolved, ControlResponse::DecisionTask { .. }));
    assert_eq!(task(&shared).state, TaskState::Pending);
}

#[test]
fn cancelled_task_frees_the_agent_and_can_be_retried() {
    let mut shared = daemon();
    ask(&mut shared, create("t"), 1).unwrap();
    let cancel = ControlRequest::CancelTask { task_id: id(), requested_by: main_agent() };
    assert_eq!(task_of(ask(&mut shared, cancel, 2).unwrap()).state, TaskState::Cancelled);
    assert_eq!(task(&shared).closed_at, Some(at(2)));
    assert_eq!(agent(&shared, "child").state, AgentSessionState::Idle);
    let retry = ControlRequest::RetryTask { task_id: id(), requested_by: main_agent() };
    assert_eq!(task_of(ask(&mut shared, retry, 3).unwrap()).state, TaskState::Pending);
    assert_eq!(task(&shared).closed_at, None);
    assert_eq!(agent(&shared, "child").current_task_id.as_deref(), Some("T-f00d"));
}

#[test]
fn visible_round_is_reported_or_completed() {
    let mut shared = daemon();
    ask(&mut shared, create("t"), 1).unwrap();
    let begun = ask(&mut shared, ControlRequest::BeginVisibleTask { agent: child() }, 2).unwrap();
    assert_eq!(task_of(begun).state, TaskState::Running);
    let response = ask(
        &mut shared,
        ControlRequest::SubmitVisibleTaskRound {
            task_id: id(),
            agent: child(),
            payload: TaskRoundPayload {
                status: TaskRoundStatus::WaitDecision,
                summary: "need input".to_string(),
                blocking: Some("P0".to_string()),
                topic: Some("api".to_string()),
                details: None,
                reason: None,
                next_suggestion: None,
                changed_files: vec![],
            },
        },
        3,
    )
    .unwrap();
    assert!(matches!(response, ControlResponse::VisibleTaskRound { decision: None, .. }));
    assert_eq!(task(&shared).round_count, 1);
    assert_eq!(task(&shared).latest_child_summary.as_deref(), Some("need input"));
    assert_eq!(agent(&shared, "child").state, AgentSessionState::Blocked);
}

#[test]
fn standing_decision_resolves_the_report() {
    let mut shared = daemon();
    ask(
        &mut shared,
        ControlRequest::CreateTask {
            from_agent: main_agent(),
            to_agent: child(),
            title: "t".to_string(),
            summary: "s".to_string(),
            effort: None,
            read_scope: vec![],
            write_scope: vec![],
            acceptance: vec![],
            auto_resolve_by: Some(main_agent()),
            auto_resolve_summary: Some("always go on".to_string()),
        },
        1,
    )
    .unwrap();
    ask(&mut shared, ControlRequest::BeginVisibleTask { agent: child() }, 2).unwrap();
    let response = ask(
        &mut shared,
        ControlRequest::SubmitVisibleTaskRound {
            task_id: id(),
            agent: child(),
            payload: TaskRoundPayload {
                status: TaskRoundStatus::WaitDecision,
                summary: "?".to_string(),
                blocking: None,
                topic: None,
                details: None,
                reason: None,
                next_suggestion: None,
                changed_files: vec![],
            },
        },
        3,
    )
    .unwrap();
    match response {
        ControlResponse::VisibleTaskRound { task, decision, .. } => {
            assert_eq!(task.state, TaskState::Pending);
            assert_eq!(decision.unwrap().summary, "always go on");
        },
        other => panic!("{:?}", other),
    }
}

fn finished(success: bool, stopped: bool, lines: &[&str]) -> BackendFinished {
    let mut parsed = ParsedCodexRound::new(None);
    for line in lines {
        parsed.ingest_stdout_line(line);
    }
    BackendFinished {
        parsed,
        stderr_lines: vec!["broken".to_string()],
        success,
        status_label: "exit code: 1".to_string(),
        stopped,
    }
}

fn session(session_id: &str, mode: SessionMode) -> SessionSummary {
    SessionSummary {
        session_id: session_id.to_string(),
        agent_name: child(),
        session_mode: mode,
        pid: Some(42),
        thread_id: None,
        status: CodexSessionStatus::Running,
        started_at: at(1),
        ended_at: None,
        last_output_at: None,
    }
}

#[test]
fn failed_round_blocks_the_agent() {
    let mut shared = daemon();
    ask(&mut shared, create("t"), 1).unwrap();
    let start = match step(&mut shared, ControlRequest::RunTaskRound { task_id: id() }, 2) {
        Ok(Step::RunTaskRound { start }) => start,
        _ => panic!("no round"),
    };
    assert_eq!(start.task.state, TaskState::Pending);
    assert_eq!(task(&shared).state, TaskState::Running);
    let response = shared
        .fail_task_round(&start, &Failure::new("no backend".to_string()), at(3))
        .unwrap();
    match response {
        ControlResponse::TaskRound { task, result, decision, .. } => {
            assert_eq!(task.state, TaskState::Failed);
            assert_eq!(result.final_message, "no backend");
            assert!(decision.is_none());
        },
        other => panic!("{:?}", other),
    }
    assert_eq!(agent(&shared, "child").current_task_id, None);
    assert_eq!(agent(&shared, "child").state, AgentSessionState::Blocked);
}

#[test]
fn round_session_lives_from_start_to_finish() {
    let mut shared = daemon();
    shared.start_round_session(&session("S-1", SessionMode::Round), at(2)).unwrap();
    assert_eq!(agent(&shared, "child").current_session_id.as_deref(), Some("S-1"));
    shared.session_event(
        "S-1",
        "child",
        BackendEvent::ThreadStarted { thread_id: "thr".to_string() },
        at(3),
    );
    shared.session_event(
        "S-1",
        "child",
        BackendEvent::Line { stream: BackendStream::Stderr, line: "warn".to_string() },
        at(3),
    );
    assert_eq!(shared.state.sessions.get("S-1").unwrap().thread_id.as_deref(), Some("thr"));
    assert_eq!(shared.state.recent_streams[0].stream, "stderr");
    let done = finished(
        true,
        false,
        &[
            r#"{"type":"thread.started","thread_id":"thr"}"#,
            r#"{"type":"item.completed","item":{"text":"ok"}}"#,
        ],
    );
    let round = shared.finish_round_session("S-1", "child", done, at(4)).unwrap();
    assert_eq!(round.final_message, "ok");
    let ended = shared.state.sessions.get("S-1").unwrap();
    assert_eq!(ended.status, CodexSessionStatus::Succeeded);
    assert_eq!(ended.ended_at, Some(at(4)));
    assert_eq!(agent(&shared, "child").current_session_id, None);
}

#[test]
fn stopped_round_session_is_marked_so() {
    let mut shared = daemon();
    shared.start_round_session(&session("S-1", SessionMode::Round), at(2)).unwrap();
    let stop = shared.take_session_to_stop("child").unwrap();
    assert_eq!(stop.session_id, "S-1");
    assert!(!stop.managed);
    assert!(shared.take_session_to_stop("child").is_err());
    let err = shared.finish_round_session("S-1", "child", finished(false, true, &[]), at(3));
    assert_eq!(err.unwrap_err().to_string(), "codex session stop requested for agent child");
    assert_eq!(
        shared.state.sessions.get("S-1").unwrap().status,
        CodexSessionStatus::Failed
    );
}

#[test]
fn recovery_frees_a_blocked_agent_without_a_task() {
    let mut blocked = named("child", AgentRole::Child);
    blocked.state = AgentSessionState::Blocked;
    let mut shared = load(vec![blocked], vec![]);
    ask(&mut shared, ControlRequest::RecoverAgent { agent: child() }, 5).unwrap();
    assert_eq!(agent(&shared, "child").state, AgentSessionState::Idle);
    let err = ask(&mut shared, ControlRequest::RecoverAgent { agent: "nobody".to_string() }, 6);
    assert_eq!(err.unwrap_err(), "agent not registered: nobody");
}

#[test]
fn queued_deliveries_are_replayed_until_acknowledged() {
    let mut shared = daemon();
    shared.queue_bridge_delivery(
        "child",
        BridgeDeliveryKind::TaskDispatch,
        None,
        None,
        Some("a".to_string()),
        at(1),
    );
    shared.queue_bridge_delivery(
        "child",
        BridgeDeliveryKind::TaskClosed,
        None,
        None,
        Some("b".to_string()),
        at(2),
    );
    let welcome = shared
        .register_bridge_session("child", BridgeMode::Passive, None, "B-1", at(3))
        .unwrap();
    let numbers: Vec<u64> = welcome.pending_deliveries.iter().map(|d| d.delivery_id).collect();
    assert_eq!(numbers, vec![1, 2]);
    shared.acknowledge_bridge_deliveries("child", Some("B-1"), 1, at(4)).unwrap();
    let welcome = shared
        .register_bridge_session("child", BridgeMode::Passive, None, "B-2", at(5))
        .unwrap();
    let numbers: Vec<u64> = welcome.pending_deliveries.iter().map(|d| d.delivery_id).collect();
    assert_eq!(numbers, vec![2]);
    let all = shared
        .register_bridge_session("child", BridgeMode::Passive, Some(9), "B-3", at(6))
        .unwrap();
    assert!(all.pending_deliveries.is_empty());
    assert_eq!(agent(&shared, "child").bridge_last_ack_delivery_id, 2);
    assert_eq!(shared.bridge_pending_count("main"), 0);
}

#[test]
fn replaced_bridge_session_changes_nothing() {
    let mut shared = daemon();
    let mut old = BridgeConnection { agent: None, session_id: None };
    let hello = || BridgeClientMessage::Hello {
        agent: child(),
        mode: BridgeMode::Autorun,
        last_ack_delivery_id: None,
    };
    let welcome = shared.bridge_message(&mut old, hello(), "B-1", at(1));
    assert!(matches!(welcome, Some(BridgeServerMessage::Welcome { .. })));
    let mut newer = BridgeConnection { agent: None, session_id: None };
    shared.bridge_message(&mut newer, hello(), "B-2", at(2));
    let written = shared.outbox.len();
    let beat = BridgeClientMessage::Heartbeat { session_id: "B-1".to_string() };
    match shared.bridge_message(&mut old, beat, "x", at(3)) {
        Some(BridgeServerMessage::Error { message }) => assert_eq!(
            message,
            "stale bridge session for agent child: expected B-2, got B-1"
        ),
        other => panic!("{:?}", other),
    }
    shared.close_bridge_connection(&old, at(4));
    assert_eq!(shared.outbox.len(), written);
    assert_eq!(agent(&shared, "child").bridge_state, BridgeConnectionState::Connected);
    shared.close_bridge_connection(&newer, at(5));
    assert_eq!(agent(&shared, "child").bridge_state, BridgeConnectionState::Disconnected);
}

#[test]
fn bridge_says_hello_first() {
    let mut shared = daemon();
    let mut connection = BridgeConnection { agent: None, session_id: None };
    let early = BridgeClientMessage::DeliveryAck { session_id: "B".to_string(), delivery_id: 1 };
    match shared.bridge_message(&mut connection, early, "x", at(1)) {
        Some(BridgeServerMessage::Error { message }) => {
            assert_eq!(message, "bridge ack received before hello")
        },
        other => panic!("{:?}", other),
    }
    assert!(matches!(
        shared.bridge_message(&mut connection, BridgeClientMessage::Ping, "x", at(2)),
        Some(BridgeServerMessage::Pong)
    ));
    assert!(shared.outbox.is_empty());
}

#[test]
fn repair_brings_the_records_in_line_once() {
    let mut lost = named("child", AgentRole::Child);
    lost.state = AgentSessionState::Busy;
    lost.current_session_id = Some("S-9".to_string());
    let mut shared = load(vec![named("main", AgentRole::Main), lost], vec![]);
    let summary = shared.repair_runtime_state("main", at(9)).unwrap();
    assert_eq!(summary.repaired_agents, 1);
    assert_eq!(summary.notes.len(), 2);
    assert_eq!(agent(&shared, "child").state, AgentSessionState::Idle);
    assert_eq!(agent(&shared, "child").current_session_id, None);
    let again = shared.repair_runtime_state("main", at(10)).unwrap();
    assert_eq!(again.repaired_agents, 0);
    assert!(again.notes.is_empty());
    assert!(shared.repair_runtime_state("nobody", at(11)).is_err());
}

#[test]
fn repair_rebinds_the_only_open_task() {
    let open = sample_task(TaskState::Running);
    let mut over = sample_task(TaskState::Closed);
    over.task_id = "T-2".to_string();
    let mut shared = load(
        vec![named("main", AgentRole::Main), named("child", AgentRole::Child)],
        vec![open, over],
    );
    let summary = shared.repair_runtime_state("main", at(9)).unwrap();
    assert_eq!(summary.repaired_tasks, 1);
    let over = shared.state.tasks.get("T-2").unwrap();
    assert_eq!(over.closed_at, Some(at(1_700_000_000)));
    assert_eq!(over.state, TaskState::Closed);
    let bound = agent(&shared, "child");
    assert_eq!(bound.current_task_id.as_deref(), Some("T-1"));
    assert_eq!(bound.state, AgentSessionState::Busy);
}

fn rows() -> DeletedRows {
    DeletedRows {
        stream_events: 1,
        runtime_events_by_task: 2,
        runtime_events_by_agent: 3,
        decisions: 0,
        task_events: 4,
        tasks: 1,
        sessions: 0,
        agents: 1,
    }
}

#[test]
fn agent_at_rest_is_removed_with_its_tasks() {
    let mut shared = load(
        vec![named("main", AgentRole::Main), named("child", AgentRole::Child)],
        vec![sample_task(TaskState::Closed)],
    );
    let plan = shared.plan_agent_removal("child").unwrap();
    assert_eq!(plan.task_ids, vec!["T-1".to_string()]);
    let summary = shared.apply_agent_removal("child", &plan, rows()).unwrap();
    assert_eq!(summary.removed_runtime_events, 5);
    assert!(!shared.state.agents.has("child"));
    assert!(!shared.state.tasks.has("T-1"));
    assert!(shared.state.agents.has("main"));
}

#[test]
fn removal_leaves_in_memory_what_the_plan_leaves_in_the_database() {
    let mut other = sample_task(TaskState::Closed);
    other.task_id = "T-2".to_string();
    other.to_agent = "helper".to_string();
    let mut asked = sample_task(TaskState::Closed);
    asked.task_id = "T-3".to_string();
    asked.from_agent = "child".to_string();
    asked.to_agent = "helper".to_string();
    let mut shared = load(
        vec![
            named("main", AgentRole::Main),
            named("child", AgentRole::Child),
            named("helper", AgentRole::Child),
        ],
        vec![sample_task(TaskState::Closed), other, asked],
    );
    let plan = shared.plan_agent_removal("child").unwrap();
    let agents: Vec<String> = shared
        .state
        .agents
        .rows
        .iter()
        .map(|a| a.name.clone())
        .filter(|name| !plan.agents.contains(name))
        .collect();
    let tasks: Vec<String> = shared
        .state
        .tasks
        .rows
        .iter()
        .map(|t| t.task_id.clone())
        .filter(|id| !plan.task_ids.contains(id))
        .collect();
    assert!(shared.apply_agent_removal("child", &plan, rows()).is_ok());
    let left: Vec<String> = shared.state.agents.rows.iter().map(|a| a.name.clone()).collect();
    assert_eq!(left, agents);
    let left: Vec<String> = shared.state.tasks.rows.iter().map(|t| t.task_id.clone()).collect();
    assert_eq!(left, tasks);
    assert_eq!(left, vec!["T-2".to_string()]);
}

#[test]
fn agent_with_open_work_is_not_removed() {
    let shared = load(
        vec![named("main", AgentRole::Main), named("child", AgentRole::Child)],
        vec![sample_task(TaskState::Running)],
    );
    assert_eq!(
        shared.plan_agent_removal("child").err().unwrap().to_string(),
        "refusing to remove agent child because it still has non-terminal tasks: T-1"
    );
    assert_eq!(
        shared.plan_agent_removal("main").err().unwrap().to_string(),
        "refusing to remove built-in main agent"
    );
    assert_eq!(
        shared.plan_agent_removal("nobody").err().unwrap().to_string(),
        "agent not registered: nobody"
    );
    let mut missing = rows();
    missing.agents = 0;
    let mut shared = daemon();
    let plan = shared.plan_agent_removal("child").unwrap();
    assert_eq!(
        shared.apply_agent_removal("child", &plan, missing).err().unwrap().to_string(),
        "agent child was not removed from sqlite"
    );
}

#[test]
fn cleanup_takes_only_demonstration_agents() {
    assert!(is_demo_agent_name("demo_a"));
    assert!(is_demo_agent_name("usage_limit_probe"));
    assert!(!is_demo_agent_name("mydemo_a"));
    let mut shared = load(
        vec![named("main", AgentRole::Main), named("demo_a", AgentRole::Child)],
        vec![],
    );
    let plan = shared.plan_demo_cleanup("main").unwrap();
    let summary = shared.apply_demo_cleanup("main", &plan, rows(), at(3));
    assert_eq!(summary.removed_agent_names, vec!["demo_a".to_string()]);
    assert!(!shared.state.agents.has("demo_a"));
    assert!(shared.state.agents.has("main"));
    let plan = shared.plan_demo_cleanup("main").unwrap();
    let summary = shared.apply_demo_cleanup("main", &plan, rows(), at(4));
    assert_eq!(summary.removed_agents, 0);
}

#[test]
fn snapshot_is_in_order_and_of_this_moment() {
    let mut late = sample_task(TaskState::Pending);
    late.task_id = "T-0".to_string();
    late.created_at = at(1_700_000_009);
    late.updated_at = at(1_700_000_009);
    let shared = load(
        vec![named("zeta", AgentRole::Child), named("alpha", AgentRole::Child)],
        vec![sample_task(TaskState::Pending), late],
    );
    let snapshot = shared.state.snapshot_at(at(5));
    assert_eq!(snapshot.generated_at, at(5));
    assert_eq!(snapshot.agents[0].name, "alpha");
    assert_eq!(snapshot.agents[1].name, "zeta");
    assert_eq!(snapshot.tasks.len(), 2);
    let now = shared.state.snapshot();
    assert!(now.generated_at.seconds() > 1_700_000_000);
}

#[test]
fn recent_lines_are_capped() {
    let mut shared = daemon();
    for n in 0..502 {
        shared.say("child", &format!("line {}", n), at(n));
    }
    assert_eq!(shared.state.recent_streams.len(), 500);
    assert_eq!(shared.state.recent_streams[0].content, "line 2");
    assert_eq!(shared.state.recent_streams[499].content, "line 501");
}

#[test]
fn start_fails_the_sessions_of_an_earlier_run() {
    let mut busy = named("child", AgentRole::Child);
    busy.state = AgentSessionState::Busy;
    busy.current_task_id = Some("T-1".to_string());
    busy.current_session_id = Some("S-1".to_string());
    let mut shared = AppShared::load(
        vec![named("main", AgentRole::Main), busy],
        vec![sample_task(TaskState::Running)],
        vec![DecisionSummary {
            decision_id: "D-1".to_string(),
            task_id: "T-1".to_string(),
            issued_by: main_agent(),
            target_agent: child(),
            summary: "sum".to_string(),
            status: "sent".to_string(),
            created_at: at(1),
            acknowledged_at: None,
        }],
        vec![],
        vec![session("S-1", SessionMode::Round)],
        vec![],
        vec![],
    );
    shared.sync_task_latest_decision_fields_on_startup();
    let mirrored = shared.state.tasks.get("T-1").unwrap();
    assert_eq!(mirrored.latest_decision_id.as_deref(), Some("D-1"));
    shared.recover_stale_sessions_on_startup(at(9)).unwrap();
    let ended = shared.state.sessions.get("S-1").unwrap();
    assert_eq!(ended.status, CodexSessionStatus::Failed);
    assert_eq!(ended.ended_at, Some(at(9)));
    let blocked = agent(&shared, "child");
    assert_eq!(blocked.state, AgentSessionState::Blocked);
    assert_eq!(blocked.current_session_id, None);
    shared.normalize_runtime_state_on_startup(at(10));
    assert_eq!(agent(&shared, "child").state, AgentSessionState::Busy);
}

#[test]
fn main_agent_is_made_at_the_start() {
    let mut shared = load(vec![], vec![]);
    shared.ensure_main_agent("/work", Some("/work/MAIN.md".to_string()), at(1));
    let main = agent(&shared, "main");
    assert_eq!(main.cwd, "/work");
    assert_eq!(main.prompt_path.as_deref(), Some("/work/MAIN.md"));
    assert_eq!(main.repo_name.as_deref(), Some("hackman"));
    let written = shared.outbox.len();
    shared.ensure_main_agent("/other", None, at(2));
    assert_eq!(shared.outbox.len(), written);
    assert_eq!(agent_startup_cwd(&main, "/other"), "/work");
}

#[test]
fn prompt_paths_are_resolved_below_the_working_directory() {
    let facts = PromptFacts {
        absolute: false,
        below_cwd: "/repo/p.md".to_string(),
        default_file: Some("/repo/SUBAGENT_PROMPT.md".to_string()),
    };
    assert_eq!(
        normalize_prompt_path(Some("p.md".to_string()), &facts).as_deref(),
        Some("/repo/p.md")
    );
    assert_eq!(
        normalize_prompt_path(None, &facts).as_deref(),
        Some("/repo/SUBAGENT_PROMPT.md")
    );
    let absolute = PromptFacts { absolute: true, below_cwd: String::new(), default_file: None };
    assert_eq!(
        normalize_prompt_path(Some("/x/p.md".to_string()), &absolute).as_deref(),
        Some("/x/p.md")
    );
    assert_ne!(default_prompt_file(AgentRole::Main), default_prompt_file(AgentRole::Child));
}

#[test]
fn trace_is_by_agent_before_task_before_session() {
    match plan_trace(Some(child()), None, None, 10).unwrap() {
        Step::QueryTrace { kind, value, limit } => {
            assert_eq!(kind, TraceKind::Agent);
            assert_eq!(value, "child");
            assert_eq!(limit, 10);
        },
        _ => panic!("no trace"),
    }
    match plan_trace(None, Some(id()), Some("S".to_string()), 501).unwrap() {
        Step::QueryTrace { kind, limit, .. } => {
            assert_eq!(kind, TraceKind::Task);
            assert_eq!(limit, 500);
        },
        _ => panic!("no trace"),
    }
    assert_eq!(
        plan_trace(None, None, None, 10).err().unwrap().to_string(),
        "trace requires one of agent, task_id, or session_id"
    );
    let trace = trace_view(TraceKind::Session, "S-1", vec![]);
    assert_eq!(trace.query_kind, "session");
    assert_eq!(trace.query_value, "S-1");
}

#[test]
fn ledger_entries_are_remembered() {
    let mut shared = daemon();
    shared.remember_event(RuntimeEventRecord {
        id: 7,
        scope: "agent".to_string(),
        scope_id: child(),
        agent_name: None,
        task_id: None,
        session_id: None,
        actor_name: None,
        event_type: "x".to_string(),
        summary: "y".to_string(),
        reason: None,
        payload_json: None,
        created_at: at(1),
    });
    assert_eq!(shared.state.recent_runtime_events.len(), 1);
    assert_eq!(shared.state.recent_runtime_events[0].id, 7);
}

#[test]
fn new_tasks_get_new_ids() {
    let mut shared = daemon();
    let made = match shared.handle_control_request(create("t"), facts()) {
        Ok(Step::Reply { response }) => task_of(response),
        _ => panic!("no task"),
    };
    assert!(made.task_id.starts_with("T-"));
    assert_eq!(made.task_id.len(), 34);
    assert!(made.task_id[2..].chars().all(|c| c.is_ascii_hexdigit()));
    assert!(made.created_at.seconds() > 1_700_000_000);
    let mut other = daemon();
    let second = match other.handle_control_request(create("t"), facts()) {
        Ok(Step::Reply { response }) => task_of(response),
        _ => panic!("no task"),
    };
    assert_ne!(made.task_id, second.task_id);
}

#[test]
fn failures_become_error_responses() {
    match to_response(Err(Failure::new("bad".to_string()))) {
        ControlResponse::Error { message } => assert_eq!(message, "bad"),
        other => panic!("{:?}", other),
    }
    assert!(matches!(to_response(Ok(ControlResponse::Pong)), ControlResponse::Pong));
}

#[test]
fn dashboard_messages_are_told_apart() {
    assert!(matches!(ws_step(Some(WsClientMessage::RequestSnapshot)), WsStep::SendSnapshot));
    assert!(matches!(ws_step(None), WsStep::Nothing));
    match ws_step(Some(WsClientMessage::Ping)) {
        WsStep::Send { text } => assert_eq!(text, WS_PONG),
        _ => panic!("no pong"),
    }
    match ws_step(Some(WsClientMessage::ControlRequest {
        request_id: "r".to_string(),
        request: ControlRequest::Ping,
    })) {
        WsStep::Control { request_id, .. } => assert_eq!(request_id, "r"),
        _ => panic!("no request"),
    }
}
