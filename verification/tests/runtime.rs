use agenttool::draft::{
    desired_agent_state_for_task, ensure_agent_ready_for_ad_hoc_round,
    ensure_agent_ready_for_new_task, ensure_agent_ready_for_task_round, is_path_within_root,
    is_task_terminal, normalize_task_draft_payload, sanitize_task_scope_list,
};
use agenttool::models::{
    AgentBootstrapState, AgentContextSourceKind, AgentRole, AgentSessionState, AgentSummary,
    BridgeConnectionState, TaskDraftPayload, TaskState, TaskSummary,
};
use agenttool::prompts::{
    collect_agent_context_source_entries, compose_agent_round_prompt, compose_managed_instructions,
    compose_task_creation_prompt, compose_task_prompt, default_managed_bootstrap_prompt,
    AgentContextFiles, ContextFact, ContextFile, ContractText,
};
use agenttool::time::Timestamp;

fn at(secs: i64) -> Timestamp {
    Timestamp::new(secs, 0).unwrap()
}

fn no_context() -> AgentContextFiles {
    AgentContextFiles { missing_prompt: None, files: Vec::new() }
}

fn sample_agent() -> AgentSummary {
    AgentSummary {
        name: "child".to_string(),
        role: AgentRole::Child,
        repo_name: Some("repo".to_string()),
        cwd: ".".to_string(),
        prompt_path: None,
        thread_id: None,
        app_server_url: None,
        app_server_owner: None,
        app_server_registered_at: None,
        visible_pane_pid: None,
        visible_pane_kind: None,
        visible_pane_registered_at: None,
        current_session_id: None,
        state: AgentSessionState::Idle,
        bootstrap_state: AgentBootstrapState::Ready,
        bootstrap_summary: None,
        bootstrap_completed_at: None,
        current_task_id: None,
        last_output_at: None,
        last_heartbeat_at: None,
        bridge_state: BridgeConnectionState::Disconnected,
        bridge_mode: None,
        bridge_session_id: None,
        bridge_connected_at: None,
        bridge_last_seen_at: None,
        bridge_last_delivery_id: 0,
        bridge_last_ack_delivery_id: 0,
        bridge_pending_delivery_count: 0,
    }
}

fn sample_task(state: TaskState) -> TaskSummary {
    TaskSummary {
        task_id: "T-1".to_string(),
        from_agent: "main".to_string(),
        to_agent: "child".to_string(),
        title: "demo".to_string(),
        summary: "demo".to_string(),
        effort: None,
        read_scope: Vec::new(),
        write_scope: Vec::new(),
        acceptance: Vec::new(),
        auto_resolve_by: None,
        auto_resolve_summary: None,
        round_count: 0,
        latest_child_status: None,
        latest_child_summary: None,
        latest_child_blocking: None,
        latest_child_topic: None,
        latest_child_details: None,
        latest_decision_id: None,
        latest_decision_summary: None,
        latest_decision_status: None,
        latest_decision_issued_by: None,
        latest_decision_at: None,
        state,
        created_at: at(1_700_000_000),
        updated_at: at(1_700_000_000),
        closed_at: None,
    }
}

#[test]
fn idle_agent_is_ready_for_new_task_and_ad_hoc_round() {
    let agent = sample_agent();
    assert!(ensure_agent_ready_for_new_task(&agent).is_ok());
    assert!(ensure_agent_ready_for_ad_hoc_round(&agent).is_ok());
}

#[test]
fn blocked_agent_is_rejected_for_new_task() {
    let mut agent = sample_agent();
    agent.state = AgentSessionState::Blocked;
    let err = ensure_agent_ready_for_new_task(&agent).unwrap_err();
    assert!(err.to_string().contains("must be idle"));
}

#[test]
fn ad_hoc_round_rejects_agent_with_live_session() {
    let mut agent = sample_agent();
    agent.current_session_id = Some("S-1".to_string());
    let err = ensure_agent_ready_for_ad_hoc_round(&agent).unwrap_err();
    assert!(err.to_string().contains("live session"));
}

#[test]
fn task_round_requires_matching_busy_assignment() {
    let mut agent = sample_agent();
    agent.state = AgentSessionState::Busy;
    agent.current_task_id = Some("T-1".to_string());
    assert!(ensure_agent_ready_for_task_round(&agent, "T-1").is_ok());

    let err = ensure_agent_ready_for_task_round(&agent, "T-2").unwrap_err();
    assert!(err.to_string().contains("not currently assigned"));
}

#[test]
fn reported_like_task_states_block_the_agent() {
    for task_state in [
        TaskState::Reported,
        TaskState::Analyzed,
        TaskState::DecisionSent,
        TaskState::BlockedWaitingDecision,
    ] {
        let task = sample_task(task_state);
        assert_eq!(desired_agent_state_for_task(&task), AgentSessionState::Blocked);
    }
}

#[test]
fn task_prompt_includes_latest_round_and_decision_context() {
    let mut task = sample_task(TaskState::Pending);
    task.round_count = 2;
    task.latest_child_status = Some("wait_decision".to_string());
    task.latest_child_summary = Some("Need input".to_string());
    task.latest_child_blocking = Some("P1".to_string());
    task.latest_child_topic = Some("schema".to_string());
    task.latest_child_details = Some("Need the field contract".to_string());
    task.latest_decision_id = Some("D-1".to_string());
    task.latest_decision_summary = Some("Proceed with the new schema".to_string());
    task.latest_decision_status = Some("acknowledged".to_string());
    task.latest_decision_issued_by = Some("main".to_string());
    task.latest_decision_at = Some(at(1_700_000_100));

    let prompt = compose_task_prompt(&sample_agent(), &task, &no_context());
    assert!(prompt.contains("latest_child_round: 2"));
    assert!(prompt.contains("latest_child_summary: Need input"));
    assert!(prompt.contains("latest_main_decision_summary: Proceed with the new schema"));
    assert!(prompt.contains("latest_main_decision_issued_by: main"));
}

#[test]
fn agent_round_prompt_reads_repo_prompt_and_context_files() {
    let mut agent = sample_agent();
    agent.cwd = "/tmp/agenttool_prompt_test_1".to_string();
    agent.prompt_path = Some("/tmp/agenttool_prompt_test_1/SUBAGENT_PROMPT.md".to_string());
    let context = AgentContextFiles {
        missing_prompt: None,
        files: vec![
            ContextFile {
                display: "/tmp/agenttool_prompt_test_1/SUBAGENT_PROMPT.md".to_string(),
                content: "# role".to_string(),
            },
            ContextFile {
                display: "/tmp/agenttool_prompt_test_1/work.md".to_string(),
                content: "current work".to_string(),
            },
        ],
    };

    let prompt = compose_agent_round_prompt(&agent, &context, "Continue the assigned role.");
    assert!(prompt.contains("SUBAGENT_PROMPT.md"));
    assert!(prompt.contains("work.md"));
    assert!(prompt.contains("# role"));
    assert!(prompt.contains("current work"));
    assert!(prompt.contains("Continue the assigned role."));
}

#[test]
fn task_creation_prompt_includes_target_context_and_request() {
    let mut source = sample_agent();
    source.name = "main".to_string();
    source.cwd = "F:\\work\\github\\hackman".to_string();

    let mut target = sample_agent();
    target.name = "guardpro_control".to_string();
    target.cwd = "F:\\work\\github\\hackman\\guardpro_control".to_string();
    target.prompt_path =
        Some("F:\\work\\github\\hackman\\guardpro_control\\SUBAGENT_PROMPT.md".to_string());
    let context = AgentContextFiles {
        missing_prompt: target.prompt_path.clone(),
        files: Vec::new(),
    };

    let prompt = compose_task_creation_prompt(
        &source,
        &target,
        &context,
        "分析当前位置页并整理成一条可执行任务。",
    );

    assert!(prompt.contains("source agent `main`"));
    assert!(prompt.contains("target agent `guardpro_control`"));
    assert!(prompt.contains("F:\\work\\github\\hackman\\guardpro_control"));
    assert!(prompt.contains("分析当前位置页并整理成一条可执行任务。"));
}

#[test]
fn task_draft_normalization_defaults_and_constrains_write_scope() {
    let mut target = sample_agent();
    target.cwd = "F:\\work\\github\\hackman\\guardpro_control".to_string();

    let normalized = normalize_task_draft_payload(
        &target,
        TaskDraftPayload {
            title: "  修复位置页  ".to_string(),
            summary: "  补齐状态与交互  ".to_string(),
            effort: Some("HIGH".to_string()),
            read_scope: vec!["  ".to_string(), target.cwd.clone()],
            write_scope: Vec::new(),
            acceptance: vec!["  页面可打开  ".to_string(), "".to_string()],
        },
    )
    .expect("normalize task draft");

    assert_eq!(normalized.title, "修复位置页");
    assert_eq!(normalized.summary, "补齐状态与交互");
    assert_eq!(normalized.effort.as_deref(), Some("high"));
    assert_eq!(normalized.write_scope, vec![target.cwd.clone()]);
    assert_eq!(normalized.acceptance, vec!["页面可打开".to_string()]);

    let err = normalize_task_draft_payload(
        &target,
        TaskDraftPayload {
            title: "x".to_string(),
            summary: "y".to_string(),
            effort: None,
            read_scope: Vec::new(),
            write_scope: vec!["F:\\work\\github\\hackman\\other_repo".to_string()],
            acceptance: Vec::new(),
        },
    )
    .unwrap_err();
    assert!(err.to_string().contains("outside target repository"));
}

fn draft(title: &str, summary: &str) -> TaskDraftPayload {
    TaskDraftPayload {
        title: title.to_string(),
        summary: summary.to_string(),
        effort: None,
        read_scope: Vec::new(),
        write_scope: Vec::new(),
        acceptance: Vec::new(),
    }
}

#[test]
fn draft_without_title_or_summary_is_refused() {
    let target = sample_agent();
    let err = normalize_task_draft_payload(&target, draft("  ", "s")).unwrap_err();
    assert_eq!(err.to_string(), "generated task title cannot be empty");
    let err = normalize_task_draft_payload(&target, draft("t", "\t")).unwrap_err();
    assert_eq!(err.to_string(), "generated task summary cannot be empty");
}

#[test]
fn draft_in_form_stays_as_it_is() {
    let mut target = sample_agent();
    target.cwd = "/repo".to_string();
    let mut payload = draft(" t ", " s ");
    payload.effort = Some(" XHIGH ".to_string());
    payload.write_scope = vec!["/repo/a".to_string(), " /repo\\A ".to_string()];
    let once = normalize_task_draft_payload(&target, payload).unwrap();
    assert_eq!(once.effort.as_deref(), Some("xhigh"));
    assert_eq!(once.write_scope, vec!["/repo/a".to_string()]);
    let (title, scope) = (once.title.clone(), once.write_scope.clone());
    let twice = normalize_task_draft_payload(&target, once).unwrap();
    assert_eq!(twice.title, title);
    assert_eq!(twice.write_scope, scope);
}

#[test]
fn unknown_effort_is_dropped() {
    let mut payload = draft("t", "s");
    payload.effort = Some("extreme".to_string());
    let normalized = normalize_task_draft_payload(&sample_agent(), payload).unwrap();
    assert_eq!(normalized.effort, None);
}

#[test]
fn scope_lists_keep_the_first_of_a_kind() {
    let cleaned = sanitize_task_scope_list(vec![
        " C:/Repo ".to_string(),
        "".to_string(),
        "c:\\repo".to_string(),
        "D:/x".to_string(),
    ]);
    assert_eq!(cleaned, vec!["C:/Repo".to_string(), "D:/x".to_string()]);
    assert_eq!(sanitize_task_scope_list(cleaned.clone()), cleaned);
}

#[test]
fn paths_are_compared_without_case_and_slash() {
    assert!(is_path_within_root("F:/Work/Repo/src", "f:\\work\\repo"));
    assert!(is_path_within_root("f:\\work\\repo\\", "F:/work/repo"));
    assert!(!is_path_within_root("f:\\work\\repo2", "f:\\work\\repo"));
}

#[test]
fn task_round_refusals_name_the_reason() {
    let mut agent = sample_agent();
    agent.current_task_id = Some("T-1".to_string());
    let err = ensure_agent_ready_for_task_round(&agent, "T-1").unwrap_err();
    assert!(err.to_string().contains("must be busy"));
    agent.state = AgentSessionState::Busy;
    agent.current_session_id = Some("S-9".to_string());
    let err = ensure_agent_ready_for_task_round(&agent, "T-1").unwrap_err();
    assert!(err.to_string().contains("already has a live session attached"));
}

#[test]
fn closed_cancelled_and_failed_tasks_are_over() {
    for state in [TaskState::Closed, TaskState::Cancelled, TaskState::Failed] {
        assert!(is_task_terminal(state));
        assert_eq!(desired_agent_state_for_task(&sample_task(state)), AgentSessionState::Idle);
    }
    for state in [TaskState::Pending, TaskState::Accepted, TaskState::Running, TaskState::Completed]
    {
        assert!(!is_task_terminal(state));
        assert_eq!(desired_agent_state_for_task(&sample_task(state)), AgentSessionState::Busy);
    }
}

#[test]
fn context_sources_are_the_prompt_and_the_work_file() {
    let both = collect_agent_context_source_entries(
        Some(ContextFact { display: "p.md".to_string(), exists: false }),
        ContextFact { display: "work.md".to_string(), exists: true },
    );
    assert_eq!(both.len(), 2);
    assert_eq!(both[0].kind, AgentContextSourceKind::PromptContract);
    assert_eq!(both[0].path, "p.md");
    assert!(!both[0].exists);
    assert_eq!(both[1].kind, AgentContextSourceKind::WorkingNotes);
    assert!(both[1].exists);
    let none = collect_agent_context_source_entries(
        None,
        ContextFact { display: "work.md".to_string(), exists: false },
    );
    assert!(none.is_empty());
    let same = collect_agent_context_source_entries(
        Some(ContextFact { display: "work.md".to_string(), exists: true }),
        ContextFact { display: "work.md".to_string(), exists: true },
    );
    assert_eq!(same.len(), 1);
}

#[test]
fn missing_prompt_is_named_in_the_prompt() {
    let context =
        AgentContextFiles { missing_prompt: Some("gone.md".to_string()), files: Vec::new() };
    let prompt = compose_agent_round_prompt(&sample_agent(), &context, "go");
    assert!(prompt.contains(
        "Configured agent prompt path was not found, so continue with repo discovery only: gone.md"
    ));
    let prompt = compose_agent_round_prompt(&sample_agent(), &no_context(), "go");
    assert!(prompt.contains("No agent-specific prompt file or context file was found"));
}

#[test]
fn managed_prompt_names_the_prompt_file() {
    let prompt = default_managed_bootstrap_prompt(AgentRole::Child, &Some("SUB.md".to_string()));
    assert!(prompt.contains("SUB.md"));
    let main = default_managed_bootstrap_prompt(AgentRole::Main, &None);
    assert_ne!(prompt, main);
}

#[test]
fn managed_instructions_need_a_prompt_path() {
    let mut agent = sample_agent();
    assert_eq!(compose_managed_instructions(&agent, "do it", None), None);
    agent.prompt_path = Some("SUB.md".to_string());
    let text = compose_managed_instructions(
        &agent,
        " do it \n",
        Some(ContractText { path: "ROLE.md".to_string(), content: "flow".to_string() }),
    )
    .unwrap();
    assert!(text.ends_with("SUB.md\n\ndo it"));
    agent.name = "main".to_string();
    let text = compose_managed_instructions(
        &agent,
        "do it",
        Some(ContractText { path: "ROLE.md".to_string(), content: " flow ".to_string() }),
    )
    .unwrap();
    assert!(text.ends_with("ROLE.md\n\nflow"));
}
