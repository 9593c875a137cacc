use agenttool::control::{ControlRequest, ControlResponse};
use agenttool::decision::{latest_decision_for_task, task_latest_decision_is_current};
use agenttool::dispatch::{RequestFacts, Step};
use agenttool::failure::Failure;
use agenttool::host::show_autorun;
use agenttool::json::parse_json;
use agenttool::managed::{BootstrapFailure, ManagedStart};
use agenttool::models::{
    AgentBootstrapState, AgentRole, AgentSessionState, AgentSummary, AppServerOwner,
    BridgeConnectionState, CodexSessionStatus, DecisionSummary, SessionMode, TaskRoundPayload,
    TaskRoundStatus, TaskState, TaskSummary, VisiblePaneKind,
};
use agenttool::backend::{BackendFinished, ParsedCodexRound};
use agenttool::remote::{RemoteRound, RemoteTarget};
use agenttool::sessions::{
    acknowledge_stop, make_session, managed_stop_report, pane_stop_report, StopRequest,
    VisiblePaneStopOutcome,
};
use agenttool::startup::PromptFacts;
use agenttool::state::{AppShared, Effect};
use agenttool::storage::{
    from_agent_row, from_session_row, from_task_row, to_agent_row, to_session_row, to_task_row,
};
use agenttool::table::{Dup, Table};
use agenttool::time::Timestamp;

fn at(secs: i64) -> Timestamp {
    Timestamp::new(secs, 0).unwrap()
}

fn sample_agent() -> AgentSummary {
    AgentSummary {
        name: "child".to_string(),
        role: AgentRole::Child,
        repo_name: Some("repo".to_string()),
        cwd: ".".to_string(),
        prompt_path: None,
        thread_id: None,
        app_server_url: None,
        app_server_owner: None,
        app_server_registered_at: None,
        visible_pane_pid: None,
        visible_pane_kind: None,
        visible_pane_registered_at: None,
        current_session_id: None,
        state: AgentSessionState::Idle,
        bootstrap_state: AgentBootstrapState::Ready,
        bootstrap_summary: None,
        bootstrap_completed_at: None,
        current_task_id: None,
        last_output_at: None,
        last_heartbeat_at: None,
        bridge_state: BridgeConnectionState::Disconnected,
        bridge_mode: None,
        bridge_session_id: None,
        bridge_connected_at: None,
        bridge_last_seen_at: None,
        bridge_last_delivery_id: 0,
        bridge_last_ack_delivery_id: 0,
        bridge_pending_delivery_count: 0,
    }
}

fn sample_task(state: TaskState) -> TaskSummary {
    TaskSummary {
        task_id: "T-1".to_string(),
        from_agent: "main".to_string(),
        to_agent: "child".to_string(),
        title: "demo".to_string(),
        summary: "demo".to_string(),
        effort: None,
        read_scope: Vec::new(),
        write_scope: Vec::new(),
        acceptance: Vec::new(),
        auto_resolve_by: None,
        auto_resolve_summary: None,
        round_count: 0,
        latest_child_status: None,
        latest_child_summary: None,
        latest_child_blocking: None,
        latest_child_topic: None,
        latest_child_details: None,
        latest_decision_id: None,
        latest_decision_summary: None,
        latest_decision_status: None,
        latest_decision_issued_by: None,
        latest_decision_at: None,
        state,
        created_at: at(1_700_000_000),
        updated_at: at(1_700_000_000),
        closed_at: None,
    }
}

fn named(name: &str) -> AgentSummary {
    let mut agent = sample_agent();
    agent.name = name.to_string();
    agent.cwd = "/repo".to_string();
    agent
}

fn load(agents: Vec<AgentSummary>, tasks: Vec<TaskSummary>) -> AppShared {
    AppShared::load(agents, tasks, vec![], vec![], vec![], vec![], vec![])
}

fn facts() -> RequestFacts {
    RequestFacts {
        context_sources: vec![],
        rendered_payload: "{}".to_string(),
        prompt: PromptFacts { absolute: false, below_cwd: String::new(), default_file: None },
    }
}

fn step(shared: &mut AppShared, request: ControlRequest, now: i64) -> Result<Step, Failure> {
    shared.dispatch_control_request(request, facts(), "f00d", at(now))
}

fn agent(shared: &AppShared, name: &str) -> AgentSummary {
    shared.state.agents.get(name).unwrap()
}

fn decision(id: &str, created: i64, status: &str) -> DecisionSummary {
    DecisionSummary {
        decision_id: id.to_string(),
        task_id: "T-1".to_string(),
        issued_by: "main".to_string(),
        target_agent: "child".to_string(),
        summary: id.to_string(),
        status: status.to_string(),
        created_at: at(created),
        acknowledged_at: None,
    }
}

#[test]
fn newest_decision_counts() {
    let decisions = Table::from_rows(vec![
        decision("D-1", 5, "sent"),
        decision("D-3", 9, "sent"),
        decision("D-2", 7, "sent"),
    ]);
    let newest = latest_decision_for_task(&decisions, "T-1").unwrap();
    assert_eq!(newest.decision_id, "D-3");
    assert!(latest_decision_for_task(&decisions, "T-9").is_none());
    let task = sample_task(TaskState::Pending);
    assert!(!task_latest_decision_is_current(&task, Some(&newest)));
    assert!(task_latest_decision_is_current(&task, None));
}

#[test]
fn record_of_one_name_is_filed_once() {
    let mut changed = named("child");
    changed.state = AgentSessionState::Offline;
    let mut shared = load(vec![named("child"), changed], vec![]);
    assert_eq!(shared.state.agents.len(), 1);
    assert_eq!(agent(&shared, "child").state, AgentSessionState::Offline);
    shared.register_agent(&named("child"));
    assert_eq!(shared.state.agents.len(), 1);
    assert_eq!(agent(&shared, "child").state, AgentSessionState::Idle);
}

#[test]
fn what_is_in_memory_was_written_last() {
    let mut shared = load(vec![named("main"), named("child")], vec![]);
    let request = ControlRequest::CreateTask {
        from_agent: "main".to_string(),
        to_agent: "child".to_string(),
        title: "t".to_string(),
        summary: "s".to_string(),
        effort: None,
        read_scope: vec![],
        write_scope: vec![],
        acceptance: vec![],
        auto_resolve_by: None,
        auto_resolve_summary: None,
    };
    assert!(step(&mut shared, request, 1).is_ok());
    let accept =
        ControlRequest::AcceptTask { task_id: "T-f00d".to_string(), agent: "child".to_string() };
    assert!(step(&mut shared, accept, 2).is_ok());
    let mut stored_agent = String::new();
    let mut stored_task = String::new();
    for effect in &shared.outbox {
        match effect {
            Effect::SaveAgent { agent } if agent.name == "child" => {
                stored_agent = format!("{:?}", agent);
            },
            Effect::InsertTask { task } | Effect::UpdateTask { task } => {
                stored_task = format!("{:?}", task);
            },
            _ => {},
        }
    }
    assert_eq!(stored_agent, format!("{:?}", agent(&shared, "child")));
    assert_eq!(stored_task, format!("{:?}", shared.state.tasks.get("T-f00d").unwrap()));
}

#[test]
fn thread_is_reset_at_rest_only() {
    let mut busy = named("child");
    busy.thread_id = Some("thr".to_string());
    busy.state = AgentSessionState::Busy;
    busy.current_task_id = Some("T-1".to_string());
    let mut shared = load(vec![busy], vec![]);
    assert!(shared.reset_agent_thread("child", at(1)).is_err());
    assert_eq!(agent(&shared, "child").thread_id.as_deref(), Some("thr"));
    let mut idle = named("child");
    idle.thread_id = Some("thr".to_string());
    let mut shared = load(vec![idle], vec![]);
    assert!(shared.reset_agent_thread("child", at(1)).is_ok());
    assert_eq!(agent(&shared, "child").thread_id, None);
}

#[test]
fn repair_does_not_choose_between_open_tasks() {
    let mut other = sample_task(TaskState::Pending);
    other.task_id = "T-2".to_string();
    let mut shared = load(
        vec![named("main"), named("child")],
        vec![sample_task(TaskState::Running), other],
    );
    let summary = shared.repair_runtime_state("main", at(9)).unwrap();
    assert_eq!(summary.repaired_agents, 0);
    assert_eq!(
        summary.notes,
        vec!["agent child has 2 open tasks and was not auto-repaired".to_string()]
    );
    assert_eq!(agent(&shared, "child").current_task_id, None);
}

#[test]
fn every_state_is_read_back() {
    for state in [
        TaskState::Pending,
        TaskState::Accepted,
        TaskState::Running,
        TaskState::Completed,
        TaskState::Reported,
        TaskState::Analyzed,
        TaskState::DecisionSent,
        TaskState::Closed,
        TaskState::BlockedWaitingDecision,
        TaskState::Cancelled,
        TaskState::Failed,
    ] {
        let row = to_task_row(&sample_task(state));
        assert_eq!(row.state, state.as_label());
        assert_eq!(from_task_row(row).unwrap().state, state);
    }
    for state in [
        AgentSessionState::Idle,
        AgentSessionState::Busy,
        AgentSessionState::Blocked,
        AgentSessionState::Offline,
    ] {
        let mut agent = sample_agent();
        agent.state = state;
        assert_eq!(from_agent_row(to_agent_row(&agent)).state, state);
    }
    for mode in [SessionMode::Round, SessionMode::Pty, SessionMode::AppServer] {
        let session = make_session("S-1", "child", mode, None, &None, at(1));
        assert_eq!(from_session_row(to_session_row(&session)).unwrap().session_mode, mode);
    }
}

fn round_in_its_turn() -> RemoteRound {
    let target = RemoteTarget { url: "ws://x".to_string(), thread_id: "thr".to_string() };
    let mut round = RemoteRound::begin(target, "go", None, "1.0");
    for message in [
        r#"{"id":1,"result":{}}"#,
        r#"{"id":2,"result":{}}"#,
        r#"{"id":3,"result":{"turn":{"id":"tu"}}}"#,
    ] {
        assert!(round.outcome.is_none());
        round.feed(parse_json(message).unwrap());
    }
    round
}

#[test]
fn completed_turn_ends_the_round_for_good() {
    let mut round = round_in_its_turn();
    round.feed(
        parse_json(r#"{"method":"item/completed","params":{"item":{"text":"ok"}}}"#).unwrap(),
    );
    assert!(round.outcome.is_none());
    let completed =
        r#"{"method":"turn/completed","params":{"turn":{"id":"tu","status":"completed"}}}"#;
    round.feed(parse_json(completed).unwrap());
    match &round.outcome {
        Some(Ok(finished)) => {
            assert!(finished.success);
            assert!(!finished.stopped);
            assert_eq!(finished.status_label, "completed");
            assert_eq!(finished.parsed.final_message.as_deref(), Some("ok"));
        },
        _ => panic!("the round is not over"),
    }
    round.remote_interrupt_turn();
    round.fail(Failure::new("late".to_string()));
    assert!(matches!(&round.outcome, Some(Ok(finished)) if finished.success));
}

#[test]
fn stopped_turn_is_no_success() {
    let mut round = round_in_its_turn();
    round.remote_interrupt_turn();
    round.feed(parse_json(r#"{"id":4,"result":{}}"#).unwrap());
    match &round.outcome {
        Some(Ok(finished)) => {
            assert!(finished.stopped);
            assert!(!finished.success);
            assert_eq!(finished.status_label, "stopped by request");
        },
        _ => panic!("the round is not over"),
    }
}

#[test]
fn turn_of_another_round_is_not_taken_for_this_one() {
    let mut round = round_in_its_turn();
    let other =
        r#"{"method":"turn/completed","params":{"turn":{"id":"no","status":"completed"}}}"#;
    round.feed(parse_json(other).unwrap());
    assert!(round.outcome.is_none());
    let failed = r#"{"method":"turn/completed","params":{"turn":{"id":"tu","status":"failed","error":{"message":"limit"}}}}"#;
    round.feed(parse_json(failed).unwrap());
    match &round.outcome {
        Some(Ok(finished)) => {
            assert!(!finished.success);
            assert_eq!(finished.parsed.error_message.as_deref(), Some("limit"));
            assert_eq!(finished.stderr_lines, vec!["limit".to_string()]);
        },
        _ => panic!("the round is not over"),
    }
}

#[test]
fn managed_session_goes_from_launch_to_ready() {
    let mut shared = load(vec![named("child")], vec![]);
    match shared.begin_managed_session("child", at(1)).ok().unwrap() {
        ManagedStart::Launch { agent } => {
            assert_eq!(agent.bootstrap_state, AgentBootstrapState::AwaitingInit);
        },
        ManagedStart::Running { .. } => panic!("nothing runs yet"),
    }
    let session = make_session("S-1", "child", SessionMode::AppServer, Some(4), &None, at(2));
    shared.managed_session_started(&session);
    let bound = shared.managed_session_listening("child", "ws://127.0.0.1:9", at(3)).unwrap();
    assert_eq!(bound.app_server_owner, Some(AppServerOwner::Daemon));
    let ready = shared
        .managed_session_reported(
            "child",
            "S-1",
            "ws://127.0.0.1:9",
            r#"{"status":"ready","summary":" standing by "}"#,
            "thr".to_string(),
            at(4),
        )
        .unwrap();
    assert_eq!(ready.bootstrap_state, AgentBootstrapState::Ready);
    assert_eq!(ready.bootstrap_summary.as_deref(), Some("standing by"));
    assert_eq!(ready.thread_id.as_deref(), Some("thr"));
    assert!(matches!(
        shared.begin_managed_session("child", at(5)),
        Ok(ManagedStart::Running { .. })
    ));
    let finished = BackendFinished {
        parsed: ParsedCodexRound::new(None),
        stderr_lines: vec!["bye".to_string()],
        success: false,
        status_label: "exit code: 1".to_string(),
        stopped: false,
    };
    shared.managed_session_finished("child", "S-1", &finished, at(6));
    assert_eq!(shared.state.sessions.get("S-1").unwrap().status, CodexSessionStatus::Failed);
    assert_eq!(agent(&shared, "child").app_server_url, None);
    assert_eq!(agent(&shared, "child").bootstrap_state, AgentBootstrapState::AwaitingInit);
}

#[test]
fn failed_bootstrap_hands_back_the_session_to_stop() {
    let mut shared = load(vec![named("child")], vec![]);
    assert!(shared.begin_managed_session("child", at(1)).is_ok());
    let session = make_session("S-1", "child", SessionMode::AppServer, None, &None, at(2));
    shared.managed_session_started(&session);
    let (running, failure) = shared.managed_session_failed(
        "child",
        &BootstrapFailure::TimedOut { seconds: 90 },
        at(3),
    );
    assert_eq!(running.unwrap().session_id, "S-1");
    assert_eq!(failure.to_string(), "managed bootstrap timed out after 90s");
    let err = shared
        .managed_session_reported("child", "S-1", "ws://x", "no json", "t".to_string(), at(4))
        .unwrap_err();
    assert_eq!(
        err.to_string(),
        "failed to parse managed bootstrap payload as json for agent child"
    );
    let err = shared
        .managed_session_reported(
            "child",
            "S-1",
            "ws://x",
            r#"{"status":"later"}"#,
            "t".to_string(),
            at(4),
        )
        .unwrap_err();
    assert_eq!(
        err.to_string(),
        "managed bootstrap payload status must be ready, actual later"
    );
}

#[test]
fn stops_are_reported() {
    let stop =
        StopRequest { session_id: "S-1".to_string(), agent: "child".to_string(), managed: false };
    assert_eq!(
        acknowledge_stop(&stop),
        "stop requested for current session S-1 on agent child"
    );
    let none: Vec<String> = vec![];
    assert_eq!(managed_stop_report(&none, &none), "no live daemon-managed sessions");
    assert_eq!(
        managed_stop_report(&vec!["a".to_string(), "b".to_string()], &vec!["c: x".to_string()]),
        "stop requested for daemon-managed sessions on agents: a, b; failures: c: x"
    );
    assert_eq!(pane_stop_report(&none, &none), "no registered visible panes");
    assert_eq!(
        pane_stop_report(&none, &vec!["c: x".to_string(), "d: y".to_string()]),
        "no visible panes stopped; failures: c: x; d: y"
    );
}

#[test]
fn ended_window_is_forgotten() {
    let mut shown = named("child");
    shown.visible_pane_pid = Some(77);
    shown.visible_pane_kind = Some(VisiblePaneKind::View);
    let mut shared = load(vec![shown.dup(), named("main")], vec![]);
    let panes = shared.panes_to_stop();
    assert_eq!(panes.len(), 1);
    shared
        .pane_stopped(&panes[0], 77, VisiblePaneStopOutcome::AlreadyGone, at(2))
        .unwrap();
    assert_eq!(agent(&shared, "child").visible_pane_pid, None);
    let mut shared = load(vec![shown], vec![]);
    shared.recover_visible_pane("child", 77, at(3)).unwrap();
    assert_eq!(agent(&shared, "child").visible_pane_pid, None);
    assert!(shared.recover_visible_pane("nobody", 77, at(3)).is_err());
}

#[test]
fn main_agent_moves_from_the_dot() {
    let mut main = named("main");
    main.role = AgentRole::Main;
    main.cwd = ".".to_string();
    let mut shared = load(vec![main], vec![]);
    shared.sync_agent_prompt_default("main", "/work", Some("/work/MAIN.md".to_string()));
    assert_eq!(agent(&shared, "main").cwd, "/work");
    assert_eq!(agent(&shared, "main").prompt_path.as_deref(), Some("/work/MAIN.md"));
    let written = shared.outbox.len();
    shared.sync_agent_prompt_default("main", "/work", Some("/work/MAIN.md".to_string()));
    assert_eq!(shared.outbox.len(), written);
}

#[test]
fn draft_request_is_checked_before_the_round() {
    let mut shared = load(vec![named("main"), named("child")], vec![]);
    let ask = |request: &str| ControlRequest::CreateTaskFromPrompt {
        from_agent: "main".to_string(),
        to_agent: "child".to_string(),
        request: request.to_string(),
    };
    let err = step(&mut shared, ask("  "), 1).err().unwrap();
    assert_eq!(err.to_string(), "task request cannot be empty");
    match step(&mut shared, ask(" do it "), 2) {
        Ok(Step::DraftTask { draft }) => assert_eq!(draft.request, "do it"),
        _ => panic!("no draft"),
    }
    assert!(shared.outbox.is_empty());
    assert!(shared.start_ad_hoc_round("main", at(3)).is_ok());
    assert!(shared.start_ad_hoc_round("main", at(4)).is_err());
    assert!(shared
        .fail_ad_hoc_round("main", &Failure::new("broken".to_string()), at(5))
        .is_ok());
    assert_eq!(agent(&shared, "main").state, AgentSessionState::Blocked);
}

#[test]
fn autorun_line_names_task_and_status() {
    let payload = TaskRoundPayload {
        status: TaskRoundStatus::WaitDecision,
        summary: "hm".to_string(),
        blocking: None,
        topic: None,
        details: None,
        reason: None,
        next_suggestion: None,
        changed_files: vec![],
    };
    assert_eq!(
        show_autorun(&sample_task(TaskState::Pending), &payload),
        "[agenthost] autorun complete | task=T-1 | state=WaitDecision | summary=hm"
    );
}

#[test]
fn ping_is_answered_at_once() {
    let mut shared = load(vec![], vec![]);
    assert!(matches!(
        step(&mut shared, ControlRequest::Ping, 1),
        Ok(Step::Reply { response: ControlResponse::Pong })
    ));
}

fn last_saved(shared: &AppShared, name: &str) -> String {
    let mut saved = String::new();
    for effect in &shared.outbox {
        match effect {
            Effect::SaveAgent { agent } if agent.name == name => {
                saved = format!("{:?}", agent);
            },
            _ => {},
        }
    }
    saved
}

#[test]
fn end_of_a_managed_session_was_written_last() {
    let mut shared = load(vec![named("child")], vec![]);
    assert!(shared.begin_managed_session("child", at(1)).is_ok());
    let session = make_session("S-1", "child", SessionMode::AppServer, None, &None, at(2));
    shared.managed_session_started(&session);
    assert!(shared.managed_session_listening("child", "ws://127.0.0.1:9", at(3)).is_ok());
    let finished = BackendFinished {
        parsed: ParsedCodexRound::new(None),
        stderr_lines: vec![],
        success: true,
        status_label: "exit code: 0".to_string(),
        stopped: false,
    };
    shared.managed_session_finished("child", "S-1", &finished, at(4));
    let mut saved = String::new();
    for effect in &shared.outbox {
        match effect {
            Effect::SaveSession { session } => saved = format!("{:?}", session),
            _ => {},
        }
    }
    assert_eq!(saved, format!("{:?}", shared.state.sessions.get("S-1").unwrap()));
    assert_eq!(last_saved(&shared, "child"), format!("{:?}", agent(&shared, "child")));
}

#[test]
fn changes_of_the_start_were_written_last() {
    let mut bound = named("child");
    bound.current_task_id = Some("T-gone".to_string());
    bound.current_session_id = Some("S-gone".to_string());
    let mut task = sample_task(TaskState::Pending);
    task.latest_decision_id = Some("D-gone".to_string());
    let id = task.task_id.clone();
    let mut shared = load(vec![bound], vec![task]);
    shared.ensure_main_agent("/work", None, at(1));
    shared.sync_task_latest_decision_fields_on_startup();
    shared.recover_stale_sessions_on_startup(at(2)).unwrap();
    shared.normalize_runtime_state_on_startup(at(3));
    assert_eq!(last_saved(&shared, "main"), format!("{:?}", agent(&shared, "main")));
    assert_eq!(last_saved(&shared, "child"), format!("{:?}", agent(&shared, "child")));
    assert_eq!(agent(&shared, "child").current_session_id, None);
    let mut saved = String::new();
    for effect in &shared.outbox {
        match effect {
            Effect::UpdateTask { task } => saved = format!("{:?}", task),
            _ => {},
        }
    }
    assert_eq!(saved, format!("{:?}", shared.state.tasks.get(&id).unwrap()));
    assert_eq!(shared.state.tasks.get(&id).unwrap().latest_decision_id, None);
}

#[test]
fn repair_leaves_a_live_app_server_alone() {
    let mut shared = load(vec![named("main"), named("child")], vec![]);
    let session = make_session("S-1", "child", SessionMode::AppServer, Some(4), &None, at(2));
    shared.managed_session_started(&session);
    let orphan = make_session("S-2", "child", SessionMode::AppServer, Some(5), &None, at(2));
    shared.upsert_session_state(&orphan, "session_started");
    let summary = shared.repair_runtime_state("main", at(9)).unwrap();
    assert_eq!(summary.repaired_sessions, 1);
    let live = shared.state.sessions.get("S-1").unwrap();
    assert_eq!(live.status, CodexSessionStatus::Running);
    assert_eq!(live.ended_at, None);
    let lost = shared.state.sessions.get("S-2").unwrap();
    assert_eq!(lost.status, CodexSessionStatus::Failed);
    assert_eq!(lost.ended_at, Some(at(9)));
    assert_eq!(
        summary.notes,
        vec!["session S-2 was marked running without a live handle; normalized to failed"
            .to_string()]
    );
}

fn create_for_child() -> ControlRequest {
    ControlRequest::CreateTask {
        from_agent: "main".to_string(),
        to_agent: "child".to_string(),
        title: "t".to_string(),
        summary: "s".to_string(),
        effort: None,
        read_scope: vec![],
        write_scope: vec![],
        acceptance: vec![],
        auto_resolve_by: None,
        auto_resolve_summary: None,
    }
}

fn still_held(shared: &mut AppShared, now: i64) {
    assert_eq!(agent(shared, "child").current_task_id.as_deref(), Some("T-f00d"));
    let tasks = shared.state.tasks.len();
    let again = shared.dispatch_control_request(create_for_child(), facts(), "beef", at(now));
    assert!(again.is_err());
    assert_eq!(shared.state.tasks.len(), tasks);
}

#[test]
fn agent_keeps_its_task_until_it_is_over() {
    let mut shared = load(vec![named("main"), named("child")], vec![]);
    assert!(step(&mut shared, create_for_child(), 1).is_ok());
    still_held(&mut shared, 2);
    let touch = ControlRequest::TouchAgent { agent: "child".to_string() };
    assert!(step(&mut shared, touch, 3).is_ok());
    still_held(&mut shared, 3);
    let repair = ControlRequest::RepairRuntimeState { requested_by: "main".to_string() };
    assert!(step(&mut shared, repair, 4).is_ok());
    still_held(&mut shared, 4);
    shared.normalize_runtime_state_on_startup(at(5));
    still_held(&mut shared, 5);
    let begin = ControlRequest::BeginAgentBootstrap { agent: "child".to_string() };
    assert!(step(&mut shared, begin, 6).is_ok());
    still_held(&mut shared, 6);
    let ready = ControlRequest::MarkAgentReady {
        agent: "child".to_string(),
        summary: None,
        thread_id: None,
    };
    assert!(step(&mut shared, ready, 7).is_ok());
    still_held(&mut shared, 7);
    let cancel = ControlRequest::CancelTask {
        task_id: "T-f00d".to_string(),
        requested_by: "main".to_string(),
    };
    assert!(step(&mut shared, cancel, 8).is_ok());
    assert_eq!(agent(&shared, "child").current_task_id, None);
    let again = shared.dispatch_control_request(create_for_child(), facts(), "beef", at(9));
    assert!(again.is_ok());
    assert_eq!(agent(&shared, "child").current_task_id.as_deref(), Some("T-beef"));
}

#[test]
fn copy_of_the_records_is_what_is_held() {
    let mut shared = load(vec![named("main"), named("child")], vec![]);
    assert!(step(&mut shared, create_for_child(), 1).is_ok());
    let copy = shared.copy_records();
    assert!(copy.outbox.is_empty());
    assert_eq!(format!("{:?}", agent(&copy, "child")), format!("{:?}", agent(&shared, "child")));
    assert_eq!(copy.state.tasks.len(), 1);
}
