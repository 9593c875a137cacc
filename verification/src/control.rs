//! The requests of the control channel and their answers.

use vstd::prelude::*;

use crate::models::{
    AgentContextModel, AgentContextView, AgentModel, AgentRoundResult, AgentSummary, CleanupModel,
    CleanupSummary, DashboardSnapshot, DecisionModel, DecisionSummary, PayloadModel, RemovalModel,
    RemoveAgentSummary, RepairModel, RepairSummary, RoundModel, RuntimeTraceView, SnapshotModel,
    TaskContextModel, TaskContextView, TaskModel, TaskRoundPayload, TaskSummary, TraceModel,
};
use crate::table::view_opt;

verus! {

#[allow(inconsistent_fields)]
#[derive(Debug)]
pub enum ControlRequest {
    Ping,
    Snapshot,
    Trace {
        agent: Option<String>,
        task_id: Option<String>,
        session_id: Option<String>,
        limit: usize,
    },
    RegisterAgent {
        name: String,
        role: String,
        repo_name: Option<String>,
        cwd: String,
        prompt_path: Option<String>,
    },
    RunAgentRound {
        agent: String,
        prompt: String,
    },
    RunTaskRound {
        task_id: String,
    },
    CleanupDemoData {
        requested_by: String,
    },
    RemoveAgent {
        agent: String,
    },
    RepairRuntimeState {
        requested_by: String,
    },
    TouchAgent {
        agent: String,
    },
    BeginAgentBootstrap {
        agent: String,
    },
    MarkAgentReady {
        agent: String,
        summary: Option<String>,
        thread_id: Option<String>,
    },
    SetAgentVisiblePane {
        agent: String,
        pid: Option<u32>,
        kind: Option<String>,
    },
    SetAgentAppServer {
        agent: String,
        app_server_url: Option<String>,
        owner: Option<String>,
    },
    AppendRuntimeEvent {
        scope: String,
        scope_id: String,
        agent: Option<String>,
        task_id: Option<String>,
        session_id: Option<String>,
        actor: Option<String>,
        event_type: String,
        summary: String,
        reason: Option<String>,
        payload_json: Option<String>,
    },
    EnsureManagedSession {
        agent: String,
        bootstrap_prompt: Option<String>,
    },
    AgentContext {
        agent: String,
    },
    TaskContext {
        task_id: String,
    },
    BeginVisibleTask {
        agent: String,
    },
    SubmitVisibleTaskRound {
        task_id: String,
        agent: String,
        payload: TaskRoundPayload,
    },
    CancelTask {
        task_id: String,
        requested_by: String,
    },
    RetryTask {
        task_id: String,
        requested_by: String,
    },
    ResetAgentThread {
        agent: String,
    },
    RecoverAgent {
        agent: String,
    },
    StopAgentSession {
        agent: String,
    },
    StopManagedSessions,
    StopVisiblePanes,
    CreateTask {
        from_agent: String,
        to_agent: String,
        title: String,
        summary: String,
        effort: Option<String>,
        read_scope: Vec<String>,
        write_scope: Vec<String>,
        acceptance: Vec<String>,
        auto_resolve_by: Option<String>,
        auto_resolve_summary: Option<String>,
    },
    CreateTaskFromPrompt {
        from_agent: String,
        to_agent: String,
        request: String,
    },
    AcceptTask {
        task_id: String,
        agent: String,
    },
    StartTask {
        task_id: String,
        agent: String,
    },
    CompleteTask {
        task_id: String,
        agent: String,
    },
    ReportTask {
        task_id: String,
        agent: String,
        blocking: String,
        topic: String,
        details: String,
    },
    AnalyzeTask {
        task_id: String,
        analyzer: String,
    },
    ResolveTask {
        task_id: String,
        analyzer: String,
        summary: String,
    },
    SendDecision {
        task_id: String,
        issued_by: String,
        target_agent: String,
        summary: String,
        auto_close: bool,
    },
    AcknowledgeDecision {
        task_id: String,
        agent: String,
    },
    CloseTask {
        task_id: String,
        agent: String,
    },
}

#[allow(inconsistent_fields)]
#[derive(Debug)]
pub enum ControlResponse {
    Pong,
    Snapshot { snapshot: DashboardSnapshot },
    Trace { trace: RuntimeTraceView },
    Cleanup { summary: CleanupSummary },
    RemoveAgent { summary: RemoveAgentSummary },
    Repair { summary: RepairSummary },
    Ack { message: String },
    Task { task: TaskSummary },
    Agent { agent: AgentSummary },
    AgentContext { context: AgentContextView },
    TaskContext { context: TaskContextView },
    RoundResult { result: AgentRoundResult },
    TaskRound { task: TaskSummary, result: AgentRoundResult, payload: TaskRoundPayload, decision: Option<DecisionSummary> },
    VisibleTaskRound { task: TaskSummary, payload: TaskRoundPayload, decision: Option<DecisionSummary> },
    DecisionTask { decision: DecisionSummary, task: TaskSummary },
    Decision { decision: DecisionSummary },
    Error { message: String },
}

#[allow(inconsistent_fields)]
#[verifier::ext_equal]
pub enum ResponseModel {
    Pong,
    Snapshot { snapshot: SnapshotModel },
    Trace { trace: TraceModel },
    Cleanup { summary: CleanupModel },
    RemoveAgent { summary: RemovalModel },
    Repair { summary: RepairModel },
    Ack { message: Seq<char> },
    Task { task: TaskModel },
    Agent { agent: AgentModel },
    AgentContext { context: AgentContextModel },
    TaskContext { context: TaskContextModel },
    RoundResult { result: RoundModel },
    TaskRound { task: TaskModel, result: RoundModel, payload: PayloadModel, decision: Option<DecisionModel> },
    VisibleTaskRound { task: TaskModel, payload: PayloadModel, decision: Option<DecisionModel> },
    DecisionTask { decision: DecisionModel, task: TaskModel },
    Decision { decision: DecisionModel },
    Error { message: Seq<char> },
}

impl View for ControlResponse {
    type V = ResponseModel;

    open spec fn view(&self) -> ResponseModel {
        match *self {
            ControlResponse::Pong => ResponseModel::Pong,
            ControlResponse::Snapshot { snapshot } => ResponseModel::Snapshot { snapshot: snapshot@ },
            ControlResponse::Trace { trace } => ResponseModel::Trace { trace: trace@ },
            ControlResponse::Cleanup { summary } => ResponseModel::Cleanup { summary: summary@ },
            ControlResponse::RemoveAgent { summary } => ResponseModel::RemoveAgent { summary: summary@ },
            ControlResponse::Repair { summary } => ResponseModel::Repair { summary: summary@ },
            ControlResponse::Ack { message } => ResponseModel::Ack { message: message@ },
            ControlResponse::Task { task } => ResponseModel::Task { task: task@ },
            ControlResponse::Agent { agent } => ResponseModel::Agent { agent: agent@ },
            ControlResponse::AgentContext { context } => ResponseModel::AgentContext { context: context@ },
            ControlResponse::TaskContext { context } => ResponseModel::TaskContext { context: context@ },
            ControlResponse::RoundResult { result } => ResponseModel::RoundResult { result: result@ },
            ControlResponse::TaskRound { task, result, payload, decision } => ResponseModel::TaskRound { task: task@, result: result@, payload: payload@, decision: view_opt(decision) },
            ControlResponse::VisibleTaskRound { task, payload, decision } => ResponseModel::VisibleTaskRound { task: task@, payload: payload@, decision: view_opt(decision) },
            ControlResponse::DecisionTask { decision, task } => ResponseModel::DecisionTask { decision: decision@, task: task@ },
            ControlResponse::Decision { decision } => ResponseModel::Decision { decision: decision@ },
            ControlResponse::Error { message } => ResponseModel::Error { message: message@ },
        }
    }
}

} // verus!
