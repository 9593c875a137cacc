//! The control channel: what each request does, and how far the daemon can
//! answer it before something outside has to be done.

use vstd::prelude::*;

use crate::agents::{
    fresh_agent, make_agent, owner_named, pane_kind_named, parse_agent_role,
    parse_app_server_owner_label, parse_visible_pane_kind_label, role_named,
};
use crate::control::{ControlRequest, ControlResponse, ResponseModel};
use crate::failure::{seen, Failure};
use crate::ids::{fresh_id, is_fresh, tag_id, tagged};
use crate::json::{parse_json, read_json};
use crate::managed::{ManagedStart, ManagedStartModel};
use crate::models::{
    AgentContextSource, AgentModel, AgentSummary, AppServerOwner, DecisionModel, DecisionSummary,
    DraftModel, PayloadModel, RuntimeEventRecord, RuntimeTraceView, TaskDraftPayload, TaskModel,
    TaskRoundPayload, TaskState, TaskSummary, TraceModel, VisiblePaneKind,
    WsClientMessage,
};
use crate::removal::{DeletedRows, PlanModel, RemovalPlan};
use crate::rounds::{DraftRequest, DraftRequestModel, RoundStartModel, TaskRoundStart};
use crate::sessions::{StopModel, StopRequest};
use crate::startup::{normalize_prompt_path, resolved_prompt, PromptFacts};
use crate::state::{
    AppShared, EventDraftModel, ManagedModel, ManagedSession, RuntimeEventDraft, World,
};
use crate::table::views;
use crate::tasks::{DecidedModel, DecidedTask, OutcomeModel, RoundOutcome};
use crate::text::{opt_text, text, texts};
use crate::time::{utc_now, Timestamp};

verus! {

/// What the file system and the encoder say that a request needs.
pub struct RequestFacts {
    /// The context files of the agent that an `AgentContext` or a `TaskContext` asks for.
    pub context_sources: Vec<AgentContextSource>,
    /// The JSON text of the payload of a `SubmitVisibleTaskRound`.
    pub rendered_payload: String,
    /// What becomes of the prompt path of a `RegisterAgent`.
    pub prompt: PromptFacts,
}

/// Which part of the ledger a trace is made of.
#[derive(Clone, Copy, Debug, PartialEq, Eq, Structural)]
pub enum TraceKind {
    Agent,
    Task,
    Session,
}

impl TraceKind {
    pub open spec fn label(self) -> Seq<char> {
        match self {
            TraceKind::Agent => "agent"@,
            TraceKind::Task => "task"@,
            TraceKind::Session => "session"@,
        }
    }

    pub fn as_label(self) -> (r: &'static str)
        ensures
            r@ == self.label(),
    {
        match self {
            TraceKind::Agent => "agent",
            TraceKind::Task => "task",
            TraceKind::Session => "session",
        }
    }
}

/// How a request goes on.
#[allow(inconsistent_fields)]
pub enum Step {
    /// It is answered.
    Reply { response: ControlResponse },
    /// Entries of the ledger are to be read.
    QueryTrace { kind: TraceKind, value: String, limit: usize },
    /// A round outside any task is to be run; the agent is given as it was before.
    RunAgentRound { agent: AgentSummary, prompt: String },
    /// A round of a task is to be run.
    RunTaskRound { start: TaskRoundStart },
    /// Rows are to leave the database, and then the demonstration data is to go.
    Cleanup { requested_by: String, plan: RemovalPlan },
    /// Rows are to leave the database, and then the agent is to go.
    Remove { agent: String, plan: RemovalPlan },
    /// An app server is to be started, unless one runs.
    Manage { start: ManagedStart, bootstrap_prompt: Option<String> },
    /// A session is to be stopped.
    StopSession { stop: StopRequest },
    /// App servers are to be stopped.
    StopManaged { sessions: Vec<ManagedSession> },
    /// Windows are to be stopped.
    StopPanes { agents: Vec<AgentSummary> },
    /// A round in which a task is drafted is to be begun and run.
    DraftTask { draft: DraftRequest },
}

#[allow(inconsistent_fields)]
#[verifier::ext_equal]
pub enum StepModel {
    Reply { response: ResponseModel },
    QueryTrace { kind: TraceKind, value: Seq<char>, limit: usize },
    RunAgentRound { agent: AgentModel, prompt: Seq<char> },
    RunTaskRound { start: RoundStartModel },
    Cleanup { requested_by: Seq<char>, plan: PlanModel },
    Remove { agent: Seq<char>, plan: PlanModel },
    Manage { start: ManagedStartModel, bootstrap_prompt: Option<Seq<char>> },
    StopSession { stop: StopModel },
    StopManaged { sessions: Seq<ManagedModel> },
    StopPanes { agents: Seq<AgentModel> },
    DraftTask { draft: DraftRequestModel },
}

impl View for Step {
    type V = StepModel;

    open spec fn view(&self) -> StepModel {
        match *self {
            Step::Reply { response } => StepModel::Reply { response: response@ },
            Step::QueryTrace { kind, value, limit } => StepModel::QueryTrace {
                kind,
                value: value@,
                limit,
            },
            Step::RunAgentRound { agent, prompt } => StepModel::RunAgentRound {
                agent: agent@,
                prompt: prompt@,
            },
            Step::RunTaskRound { start } => StepModel::RunTaskRound { start: start@ },
            Step::Cleanup { requested_by, plan } => StepModel::Cleanup {
                requested_by: requested_by@,
                plan: plan@,
            },
            Step::Remove { agent, plan } => StepModel::Remove { agent: agent@, plan: plan@ },
            Step::Manage { start, bootstrap_prompt } => StepModel::Manage {
                start: start@,
                bootstrap_prompt: opt_text(bootstrap_prompt),
            },
            Step::StopSession { stop } => StepModel::StopSession { stop: stop@ },
            Step::StopManaged { sessions } => StepModel::StopManaged { sessions: views(sessions@) },
            Step::StopPanes { agents } => StepModel::StopPanes { agents: views(agents@) },
            Step::DraftTask { draft } => StepModel::DraftTask { draft: draft@ },
        }
    }
}

/// What a request is about.
#[derive(Clone, Copy, Debug, PartialEq, Eq, Structural)]
pub enum Matter {
    Agent,
    Task,
    Decision,
    Upkeep,
    Round,
    Look,
}

pub open spec fn matter(request: ControlRequest) -> Matter {
    match request {
        ControlRequest::RegisterAgent { .. }
        | ControlRequest::TouchAgent { .. }
        | ControlRequest::BeginAgentBootstrap { .. }
        | ControlRequest::MarkAgentReady { .. }
        | ControlRequest::SetAgentVisiblePane { .. }
        | ControlRequest::SetAgentAppServer { .. }
        | ControlRequest::ResetAgentThread { .. }
        | ControlRequest::RecoverAgent { .. }
        | ControlRequest::AgentContext { .. }
        | ControlRequest::TaskContext { .. } => Matter::Agent,
        ControlRequest::CreateTask { .. }
        | ControlRequest::BeginVisibleTask { .. }
        | ControlRequest::AcceptTask { .. }
        | ControlRequest::StartTask { .. }
        | ControlRequest::CompleteTask { .. }
        | ControlRequest::CancelTask { .. }
        | ControlRequest::RetryTask { .. }
        | ControlRequest::ReportTask { .. }
        | ControlRequest::AnalyzeTask { .. } => Matter::Task,
        ControlRequest::SubmitVisibleTaskRound { .. }
        | ControlRequest::ResolveTask { .. }
        | ControlRequest::SendDecision { .. }
        | ControlRequest::AcknowledgeDecision { .. }
        | ControlRequest::CloseTask { .. } => Matter::Decision,
        ControlRequest::CleanupDemoData { .. }
        | ControlRequest::RemoveAgent { .. }
        | ControlRequest::RepairRuntimeState { .. }
        | ControlRequest::EnsureManagedSession { .. }
        | ControlRequest::StopAgentSession { .. }
        | ControlRequest::StopManagedSessions
        | ControlRequest::StopVisiblePanes => Matter::Upkeep,
        ControlRequest::RunAgentRound { .. }
        | ControlRequest::RunTaskRound { .. }
        | ControlRequest::CreateTaskFromPrompt { .. } => Matter::Round,
        ControlRequest::Ping
        | ControlRequest::Snapshot
        | ControlRequest::Trace { .. }
        | ControlRequest::AppendRuntimeEvent { .. } => Matter::Look,
    }
}

fn matter_of(request: &ControlRequest) -> (r: Matter)
    ensures
        r == matter(*request),
{
    match request {
        ControlRequest::RegisterAgent { .. }
        | ControlRequest::TouchAgent { .. }
        | ControlRequest::BeginAgentBootstrap { .. }
        | ControlRequest::MarkAgentReady { .. }
        | ControlRequest::SetAgentVisiblePane { .. }
        | ControlRequest::SetAgentAppServer { .. }
        | ControlRequest::ResetAgentThread { .. }
        | ControlRequest::RecoverAgent { .. }
        | ControlRequest::AgentContext { .. }
        | ControlRequest::TaskContext { .. } => Matter::Agent,
        ControlRequest::CreateTask { .. }
        | ControlRequest::BeginVisibleTask { .. }
        | ControlRequest::AcceptTask { .. }
        | ControlRequest::StartTask { .. }
        | ControlRequest::CompleteTask { .. }
        | ControlRequest::CancelTask { .. }
        | ControlRequest::RetryTask { .. }
        | ControlRequest::ReportTask { .. }
        | ControlRequest::AnalyzeTask { .. } => Matter::Task,
        ControlRequest::SubmitVisibleTaskRound { .. }
        | ControlRequest::ResolveTask { .. }
        | ControlRequest::SendDecision { .. }
        | ControlRequest::AcknowledgeDecision { .. }
        | ControlRequest::CloseTask { .. } => Matter::Decision,
        ControlRequest::CleanupDemoData { .. }
        | ControlRequest::RemoveAgent { .. }
        | ControlRequest::RepairRuntimeState { .. }
        | ControlRequest::EnsureManagedSession { .. }
        | ControlRequest::StopAgentSession { .. }
        | ControlRequest::StopManagedSessions
        | ControlRequest::StopVisiblePanes => Matter::Upkeep,
        ControlRequest::RunAgentRound { .. }
        | ControlRequest::RunTaskRound { .. }
        | ControlRequest::CreateTaskFromPrompt { .. } => Matter::Round,
        ControlRequest::Ping
        | ControlRequest::Snapshot
        | ControlRequest::Trace { .. }
        | ControlRequest::AppendRuntimeEvent { .. } => Matter::Look,
    }
}

/// A number of entries that the ledger is asked for.
pub open spec fn trace_limit(limit: usize) -> usize {
    if limit < 1 {
        1
    } else if limit > 500 {
        500
    } else {
        limit
    }
}

/// What a trace asks the ledger for: the first of agent, task and session that is given.
pub open spec fn trace_query(
    agent: Option<Seq<char>>,
    task_id: Option<Seq<char>>,
    session_id: Option<Seq<char>>,
    limit: usize,
) -> Result<StepModel, Seq<char>> {
    match (agent, task_id, session_id) {
        (Some(value), _, _) => Ok(
            StepModel::QueryTrace { kind: TraceKind::Agent, value, limit: trace_limit(limit) },
        ),
        (None, Some(value), _) => Ok(
            StepModel::QueryTrace { kind: TraceKind::Task, value, limit: trace_limit(limit) },
        ),
        (None, None, Some(value)) => Ok(
            StepModel::QueryTrace { kind: TraceKind::Session, value, limit: trace_limit(limit) },
        ),
        (None, None, None) => Err("trace requires one of agent, task_id, or session_id"@),
    }
}

pub fn plan_trace(
    agent: Option<String>,
    task_id: Option<String>,
    session_id: Option<String>,
    limit: usize,
) -> (r: Result<Step, Failure>)
    ensures
        seen(r) == trace_query(opt_text(agent), opt_text(task_id), opt_text(session_id), limit),
{
    let limit: usize = if limit < 1 {
        1
    } else if limit > 500 {
        500
    } else {
        limit
    };
    match agent {
        Some(value) => {
            return Ok(Step::QueryTrace { kind: TraceKind::Agent, value, limit });
        },
        None => {},
    }
    match task_id {
        Some(value) => {
            return Ok(Step::QueryTrace { kind: TraceKind::Task, value, limit });
        },
        None => {},
    }
    match session_id {
        Some(value) => Ok(Step::QueryTrace { kind: TraceKind::Session, value, limit }),
        None => Err(Failure::new(text("trace requires one of agent, task_id, or session_id"))),
    }
}

/// The trace that is made of the entries that were read.
pub fn trace_view(kind: TraceKind, value: &str, events: Vec<RuntimeEventRecord>) -> (r:
    RuntimeTraceView)
    ensures
        r@ == (TraceModel {
            query_kind: kind.label(),
            query_value: value@,
            event_count: views(events@).len() as usize,
            events: views(events@),
        }),
{
    let event_count: usize = events.len();
    RuntimeTraceView {
        query_kind: text(kind.as_label()),
        query_value: text(value),
        event_count,
        events,
    }
}

/// A result as the answer that carries it.
pub open spec fn reply(response: ResponseModel) -> Result<StepModel, Seq<char>> {
    Ok(StepModel::Reply { response })
}

pub open spec fn reply_agent(r: (World, Result<AgentModel, Seq<char>>)) -> (
    World,
    Result<StepModel, Seq<char>>,
) {
    match r.1 {
        Ok(agent) => (r.0, reply(ResponseModel::Agent { agent })),
        Err(e) => (r.0, Err(e)),
    }
}

pub open spec fn reply_task(r: (World, Result<TaskModel, Seq<char>>)) -> (
    World,
    Result<StepModel, Seq<char>>,
) {
    match r.1 {
        Ok(task) => (r.0, reply(ResponseModel::Task { task })),
        Err(e) => (r.0, Err(e)),
    }
}

pub open spec fn reply_decided(r: (World, Result<DecidedModel, Seq<char>>)) -> (
    World,
    Result<StepModel, Seq<char>>,
) {
    match r.1 {
        Ok(d) => (
            r.0,
            reply(ResponseModel::DecisionTask { decision: d.decision, task: d.task }),
        ),
        Err(e) => (r.0, Err(e)),
    }
}

pub open spec fn reply_decision(r: (World, Result<DecisionModel, Seq<char>>)) -> (
    World,
    Result<StepModel, Seq<char>>,
) {
    match r.1 {
        Ok(decision) => (r.0, reply(ResponseModel::Decision { decision })),
        Err(e) => (r.0, Err(e)),
    }
}

pub open spec fn reply_round(
    r: (World, Result<OutcomeModel, Seq<char>>),
    payload: PayloadModel,
) -> (World, Result<StepModel, Seq<char>>) {
    match r.1 {
        Ok(o) => (
            r.0,
            reply(
                ResponseModel::VisibleTaskRound { task: o.task, payload, decision: o.decision },
            ),
        ),
        Err(e) => (r.0, Err(e)),
    }
}

pub open spec fn kind_of(label: Option<Seq<char>>) -> Result<Option<VisiblePaneKind>, Seq<char>> {
    match label {
        Some(s) => match pane_kind_named(s) {
            Ok(k) => Ok(Some(k)),
            Err(e) => Err(e),
        },
        None => Ok(None),
    }
}

pub open spec fn owner_of(label: Option<Seq<char>>) -> Result<Option<AppServerOwner>, Seq<char>> {
    match label {
        Some(s) => match owner_named(s) {
            Ok(o) => Ok(Some(o)),
            Err(e) => Err(e),
        },
        None => Ok(None),
    }
}

pub open spec fn no_rows() -> DeletedRows {
    DeletedRows {
        stream_events: 0,
        runtime_events_by_task: 0,
        runtime_events_by_agent: 0,
        decisions: 0,
        task_events: 0,
        tasks: 0,
        sessions: 0,
        agents: 0,
    }
}

impl World {
    /// A ledger entry that a client wrote; its payload has to be JSON.
    pub open spec fn append_event(self, event: EventDraftModel) -> (
        World,
        Result<StepModel, Seq<char>>,
    ) {
        if event.payload_json matches Some(p) && read_json(p) is Err {
            (self, Err("append-runtime-event payload_json must be valid JSON"@))
        } else {
            (
                self.log(event),
                reply(
                    ResponseModel::Ack { message: "runtime event appended: "@ + event.event_type },
                ),
            )
        }
    }

    /// What a request does, with the time and the fresh identifier that it is given.
    pub open spec fn dispatch(
        self,
        request: ControlRequest,
        facts: RequestFacts,
        fresh: Seq<char>,
        now: Timestamp,
    ) -> (World, Result<StepModel, Seq<char>>) {
        match request {
            ControlRequest::Ping => (self, reply(ResponseModel::Pong)),
            ControlRequest::Snapshot => (
                self,
                reply(ResponseModel::Snapshot { snapshot: self.snapshot(now) }),
            ),
            ControlRequest::Trace { agent, task_id, session_id, limit } => (
                self,
                trace_query(opt_text(agent), opt_text(task_id), opt_text(session_id), limit),
            ),
            ControlRequest::RegisterAgent { name, role, repo_name, cwd, prompt_path } => {
                match role_named(role@) {
                    Err(e) => (self, Err(e)),
                    Ok(r) => {
                        let agent = fresh_agent(
                            name@,
                            r,
                            opt_text(repo_name),
                            cwd@,
                            resolved_prompt(
                                opt_text(prompt_path),
                                facts.prompt.absolute,
                                facts.prompt.below_cwd@,
                                opt_text(facts.prompt.default_file),
                            ),
                            now,
                        );
                        (self.register_agent(agent), reply(ResponseModel::Agent { agent }))
                    },
                }
            },
            ControlRequest::RunAgentRound { agent, prompt } => {
                let begun = self.start_ad_hoc_round(agent@, now);
                match begun.1 {
                    Err(e) => (begun.0, Err(e)),
                    Ok(a) => (
                        begun.0,
                        Ok(StepModel::RunAgentRound { agent: a, prompt: prompt@ }),
                    ),
                }
            },
            ControlRequest::RunTaskRound { task_id } => {
                let begun = self.begin_task_round(task_id@, now);
                match begun.1 {
                    Err(e) => (begun.0, Err(e)),
                    Ok(start) => (begun.0, Ok(StepModel::RunTaskRound { start })),
                }
            },
            ControlRequest::CleanupDemoData { requested_by } => match self.plan_cleanup(
                requested_by@,
            ) {
                Err(e) => (self, Err(e)),
                Ok(plan) => if plan.agents.len() == 0 && plan.task_ids.len() == 0 {
                    let done = self.apply_cleanup(requested_by@, plan, no_rows(), now);
                    (done.0, reply(ResponseModel::Cleanup { summary: done.1 }))
                } else {
                    (self, Ok(StepModel::Cleanup { requested_by: requested_by@, plan }))
                },
            },
            ControlRequest::RemoveAgent { agent } => match self.plan_removal(agent@) {
                Err(e) => (self, Err(e)),
                Ok(plan) => (self, Ok(StepModel::Remove { agent: agent@, plan })),
            },
            ControlRequest::RepairRuntimeState { requested_by } => {
                let done = self.repair(requested_by@, now);
                match done.1 {
                    Err(e) => (done.0, Err(e)),
                    Ok(summary) => (done.0, reply(ResponseModel::Repair { summary })),
                }
            },
            ControlRequest::TouchAgent { agent } => reply_agent(self.touch_agent(agent@, now)),
            ControlRequest::BeginAgentBootstrap { agent } => reply_agent(
                self.begin_bootstrap(agent@, now),
            ),
            ControlRequest::MarkAgentReady { agent, summary, thread_id } => reply_agent(
                self.mark_ready(agent@, opt_text(summary), opt_text(thread_id), now),
            ),
            ControlRequest::SetAgentVisiblePane { agent, pid, kind } => match kind_of(
                opt_text(kind),
            ) {
                Err(e) => (self, Err(e)),
                Ok(k) => reply_agent(self.set_visible_pane(agent@, pid, k, now)),
            },
            ControlRequest::SetAgentAppServer { agent, app_server_url, owner } => match owner_of(
                opt_text(owner),
            ) {
                Err(e) => (self, Err(e)),
                Ok(o) => reply_agent(
                    self.set_app_server(agent@, opt_text(app_server_url), o, now),
                ),
            },
            ControlRequest::AppendRuntimeEvent {
                scope,
                scope_id,
                agent,
                task_id,
                session_id,
                actor,
                event_type,
                summary,
                reason,
                payload_json,
            } => self.append_event(
                EventDraftModel {
                    scope: scope@,
                    scope_id: scope_id@,
                    agent_name: opt_text(agent),
                    task_id: opt_text(task_id),
                    session_id: opt_text(session_id),
                    actor_name: opt_text(actor),
                    event_type: event_type@,
                    summary: summary@,
                    reason: opt_text(reason),
                    payload_json: opt_text(payload_json),
                },
            ),
            ControlRequest::EnsureManagedSession { agent, bootstrap_prompt } => {
                let begun = self.begin_managed(agent@, now);
                match begun.1 {
                    Err(e) => (begun.0, Err(e)),
                    Ok(start) => (
                        begun.0,
                        Ok(
                            StepModel::Manage {
                                start,
                                bootstrap_prompt: opt_text(bootstrap_prompt),
                            },
                        ),
                    ),
                }
            },
            ControlRequest::AgentContext { agent } => match self.agent_context(
                agent@,
                views(facts.context_sources@),
            ) {
                Err(e) => (self, Err(e)),
                Ok(context) => (self, reply(ResponseModel::AgentContext { context })),
            },
            ControlRequest::TaskContext { task_id } => match self.task_context(
                task_id@,
                views(facts.context_sources@),
            ) {
                Err(e) => (self, Err(e)),
                Ok(context) => (self, reply(ResponseModel::TaskContext { context })),
            },
            ControlRequest::BeginVisibleTask { agent } => reply_task(
                self.begin_visible_task(agent@, now),
            ),
            ControlRequest::SubmitVisibleTaskRound { task_id, agent, payload } => reply_round(
                self.submit_visible_round(
                    task_id@,
                    agent@,
                    payload@,
                    facts.rendered_payload@,
                    tagged("D-"@, fresh),
                    now,
                ),
                payload@,
            ),
            ControlRequest::CancelTask { task_id, requested_by } => reply_task(
                self.cancel_task(task_id@, requested_by@, now),
            ),
            ControlRequest::RetryTask { task_id, requested_by } => reply_task(
                self.retry_task(task_id@, requested_by@, now),
            ),
            ControlRequest::ResetAgentThread { agent } => reply_agent(
                self.reset_thread(agent@, now),
            ),
            ControlRequest::RecoverAgent { agent } => reply_agent(self.recover_agent(agent@, now)),
            ControlRequest::StopAgentSession { agent } => {
                let taken = self.take_session_to_stop(agent@);
                match taken.1 {
                    Err(e) => (taken.0, Err(e)),
                    Ok(stop) => (taken.0, Ok(StepModel::StopSession { stop })),
                }
            },
            ControlRequest::StopManagedSessions => {
                let taken = self.take_managed_sessions();
                (taken.0, Ok(StepModel::StopManaged { sessions: taken.1 }))
            },
            ControlRequest::StopVisiblePanes => (
                self,
                Ok(StepModel::StopPanes { agents: self.panes_to_stop() }),
            ),
            ControlRequest::CreateTask {
                from_agent,
                to_agent,
                title,
                summary,
                effort,
                read_scope,
                write_scope,
                acceptance,
                auto_resolve_by,
                auto_resolve_summary,
            } => reply_task(
                self.create_task(
                    from_agent@,
                    to_agent@,
                    DraftModel {
                        title: title@,
                        summary: summary@,
                        effort: opt_text(effort),
                        read_scope: texts(read_scope@),
                        write_scope: texts(write_scope@),
                        acceptance: texts(acceptance@),
                    },
                    opt_text(auto_resolve_by),
                    opt_text(auto_resolve_summary),
                    "control_request"@,
                    tagged("T-"@, fresh),
                    now,
                ),
            ),
            ControlRequest::CreateTaskFromPrompt { from_agent, to_agent, request } => {
                match self.plan_draft(from_agent@, to_agent@, request@) {
                    Err(e) => (self, Err(e)),
                    Ok(draft) => (self, Ok(StepModel::DraftTask { draft })),
                }
            },
            ControlRequest::AcceptTask { task_id, agent } => reply_task(
                self.transition_task(
                    task_id@,
                    agent@,
                    TaskState::Pending,
                    TaskState::Accepted,
                    "task_accepted"@,
                    now,
                ),
            ),
            ControlRequest::StartTask { task_id, agent } => reply_task(
                self.transition_task(
                    task_id@,
                    agent@,
                    TaskState::Accepted,
                    TaskState::Running,
                    "task_running"@,
                    now,
                ),
            ),
            ControlRequest::CompleteTask { task_id, agent } => reply_task(
                self.transition_task(
                    task_id@,
                    agent@,
                    TaskState::Running,
                    TaskState::Completed,
                    "task_completed"@,
                    now,
                ),
            ),
            ControlRequest::ReportTask { task_id, agent, blocking, topic, details } => reply_task(
                self.report_task(task_id@, agent@, blocking@, topic@, details@, now),
            ),
            ControlRequest::AnalyzeTask { task_id, analyzer } => reply_task(
                self.analyze_task(task_id@, analyzer@, now),
            ),
            ControlRequest::ResolveTask { task_id, analyzer, summary } => reply_decided(
                self.resolve_task(
                    task_id@,
                    analyzer@,
                    summary@,
                    tagged("D-"@, fresh),
                    now,
                ),
            ),
            ControlRequest::SendDecision {
                task_id,
                issued_by,
                target_agent,
                summary,
                auto_close,
            } => reply_decided(
                self.decide_task(
                    task_id@,
                    issued_by@,
                    target_agent@,
                    summary@,
                    auto_close,
                    tagged("D-"@, fresh),
                    now,
                ),
            ),
            ControlRequest::AcknowledgeDecision { task_id, agent } => reply_decision(
                self.acknowledge_decision(task_id@, agent@, true, now),
            ),
            ControlRequest::CloseTask { task_id, agent } => reply_task(
                self.close_after_decision(task_id@, agent@, now),
            ),
        }
    }
}

fn answer(response: ControlResponse) -> (r: Result<Step, Failure>)
    ensures
        seen(r) == reply(response@),
{
    Ok(Step::Reply { response })
}

fn answer_agent(r: Result<AgentSummary, Failure>) -> (s: Result<Step, Failure>)
    ensures
        forall|w: World| #[trigger] reply_agent((w, seen(r))) == (w, seen(s)),
{
    match r {
        Ok(agent) => Ok(Step::Reply { response: ControlResponse::Agent { agent } }),
        Err(e) => Err(e),
    }
}

fn answer_task(r: Result<TaskSummary, Failure>) -> (s: Result<Step, Failure>)
    ensures
        forall|w: World| #[trigger] reply_task((w, seen(r))) == (w, seen(s)),
{
    match r {
        Ok(task) => Ok(Step::Reply { response: ControlResponse::Task { task } }),
        Err(e) => Err(e),
    }
}

fn answer_decided(r: Result<DecidedTask, Failure>) -> (s: Result<Step, Failure>)
    ensures
        forall|w: World| #[trigger] reply_decided((w, seen(r))) == (w, seen(s)),
{
    match r {
        Ok(d) => Ok(
            Step::Reply {
                response: ControlResponse::DecisionTask { decision: d.decision, task: d.task },
            },
        ),
        Err(e) => Err(e),
    }
}

fn answer_decision(r: Result<DecisionSummary, Failure>) -> (s: Result<Step, Failure>)
    ensures
        forall|w: World| #[trigger] reply_decision((w, seen(r))) == (w, seen(s)),
{
    match r {
        Ok(decision) => Ok(Step::Reply { response: ControlResponse::Decision { decision } }),
        Err(e) => Err(e),
    }
}

fn answer_round(r: Result<RoundOutcome, Failure>, payload: TaskRoundPayload) -> (s: Result<
    Step,
    Failure,
>)
    ensures
        forall|w: World| #[trigger] reply_round((w, seen(r)), payload@) == (w, seen(s)),
{
    match r {
        Ok(o) => Ok(
            Step::Reply {
                response: ControlResponse::VisibleTaskRound {
                    task: o.task,
                    payload,
                    decision: o.decision,
                },
            },
        ),
        Err(e) => Err(e),
    }
}

impl AppShared {
    fn append_client_event(&mut self, event: RuntimeEventDraft) -> (r: Result<Step, Failure>)
        ensures
            (final(self)@, seen(r)) == old(self)@.append_event(event@),
    {
        match &event.payload_json {
            Some(p) => match parse_json(p.as_str()) {
                Ok(_) => {},
                Err(_) => {
                    return Err(
                        Failure::new(
                            text("append-runtime-event payload_json must be valid JSON"),
                        ),
                    );
                },
            },
            None => {},
        }
        let message = text("runtime event appended: ").concat(event.event_type.as_str());
        self.log(event);
        answer(ControlResponse::Ack { message })
    }

    /// Handles a request about an agent.
    fn handle_agent_request(
        &mut self,
        request: ControlRequest,
        facts: RequestFacts,
        fresh: &str,
        now: Timestamp,
    ) -> (r: Result<Step, Failure>)
        requires
            matter(request) is Agent,
        ensures
            (final(self)@, seen(r)) == old(self)@.dispatch(request, facts, fresh@, now),
    {
        match request {
            ControlRequest::RegisterAgent { name, role, repo_name, cwd, prompt_path } => {
                match parse_agent_role(role.as_str()) {
                    Err(e) => Err(e),
                    Ok(r) => {
                        let prompt = normalize_prompt_path(prompt_path, &facts.prompt);
                        let agent = make_agent(name.as_str(), r, repo_name, cwd, prompt, now);
                        self.register_agent(&agent);
                        answer(ControlResponse::Agent { agent })
                    },
                }
            },
            ControlRequest::TouchAgent { agent } => answer_agent(
                self.touch_agent_heartbeat(agent.as_str(), now),
            ),
            ControlRequest::BeginAgentBootstrap { agent } => answer_agent(
                self.begin_agent_bootstrap(agent.as_str(), now),
            ),
            ControlRequest::MarkAgentReady { agent, summary, thread_id } => answer_agent(
                self.mark_agent_ready(agent.as_str(), summary, thread_id, now),
            ),
            ControlRequest::SetAgentVisiblePane { agent, pid, kind } => {
                let kind = match kind {
                    Some(label) => match parse_visible_pane_kind_label(label.as_str()) {
                        Ok(k) => Some(k),
                        Err(e) => {
                            return Err(e);
                        },
                    },
                    None => None,
                };
                answer_agent(self.set_agent_visible_pane(agent.as_str(), pid, kind, now))
            },
            ControlRequest::SetAgentAppServer { agent, app_server_url, owner } => {
                let owner = match owner {
                    Some(label) => match parse_app_server_owner_label(label.as_str()) {
                        Ok(o) => Some(o),
                        Err(e) => {
                            return Err(e);
                        },
                    },
                    None => None,
                };
                answer_agent(
                    self.set_agent_app_server(agent.as_str(), app_server_url, owner, now),
                )
            },
            ControlRequest::ResetAgentThread { agent } => answer_agent(
                self.reset_agent_thread(agent.as_str(), now),
            ),
            ControlRequest::RecoverAgent { agent } => answer_agent(
                self.recover_agent(agent.as_str(), now),
            ),
            ControlRequest::AgentContext { agent } => {
                match self.agent_context(agent.as_str(), facts.context_sources) {
                    Err(e) => Err(e),
                    Ok(context) => answer(ControlResponse::AgentContext { context }),
                }
            },
            ControlRequest::TaskContext { task_id } => {
                match self.task_context(task_id.as_str(), facts.context_sources) {
                    Err(e) => Err(e),
                    Ok(context) => answer(ControlResponse::TaskContext { context }),
                }
            },
            _ => vstd::pervasive::unreached(),
        }
    }

    /// Handles a request about a task.
    fn handle_task_request(
        &mut self,
        request: ControlRequest,
        facts: RequestFacts,
        fresh: &str,
        now: Timestamp,
    ) -> (r: Result<Step, Failure>)
        requires
            matter(request) is Task,
        ensures
            (final(self)@, seen(r)) == old(self)@.dispatch(request, facts, fresh@, now),
    {
        match request {
            ControlRequest::CreateTask {
                from_agent,
                to_agent,
                title,
                summary,
                effort,
                read_scope,
                write_scope,
                acceptance,
                auto_resolve_by,
                auto_resolve_summary,
            } => answer_task(
                self.create_task_record(
                    from_agent.as_str(),
                    to_agent.as_str(),
                    TaskDraftPayload {
                        title,
                        summary,
                        effort,
                        read_scope,
                        write_scope,
                        acceptance,
                    },
                    auto_resolve_by,
                    auto_resolve_summary,
                    "control_request",
                    tag_id("T-", fresh).as_str(),
                    now,
                ),
            ),
            ControlRequest::BeginVisibleTask { agent } => answer_task(
                self.begin_visible_task(agent.as_str(), now),
            ),
            ControlRequest::AcceptTask { task_id, agent } => answer_task(
                self.transition_task_state(
                    task_id.as_str(),
                    agent.as_str(),
                    TaskState::Pending,
                    TaskState::Accepted,
                    "task_accepted",
                    now,
                ),
            ),
            ControlRequest::StartTask { task_id, agent } => answer_task(
                self.transition_task_state(
                    task_id.as_str(),
                    agent.as_str(),
                    TaskState::Accepted,
                    TaskState::Running,
                    "task_running",
                    now,
                ),
            ),
            ControlRequest::CompleteTask { task_id, agent } => answer_task(
                self.transition_task_state(
                    task_id.as_str(),
                    agent.as_str(),
                    TaskState::Running,
                    TaskState::Completed,
                    "task_completed",
                    now,
                ),
            ),
            ControlRequest::CancelTask { task_id, requested_by } => answer_task(
                self.cancel_task(task_id.as_str(), requested_by.as_str(), now),
            ),
            ControlRequest::RetryTask { task_id, requested_by } => answer_task(
                self.retry_task(task_id.as_str(), requested_by.as_str(), now),
            ),
            ControlRequest::ReportTask { task_id, agent, blocking, topic, details } => answer_task(
                self.report_task(
                    task_id.as_str(),
                    agent.as_str(),
                    blocking.as_str(),
                    topic.as_str(),
                    details.as_str(),
                    now,
                ),
            ),
            ControlRequest::AnalyzeTask { task_id, analyzer } => answer_task(
                self.analyze_task_for_main(task_id.as_str(), analyzer.as_str(), now),
            ),
            _ => vstd::pervasive::unreached(),
        }
    }

    /// Handles a request about a decision.
    fn handle_decision_request(
        &mut self,
        request: ControlRequest,
        facts: RequestFacts,
        fresh: &str,
        now: Timestamp,
    ) -> (r: Result<Step, Failure>)
        requires
            matter(request) is Decision,
        ensures
            (final(self)@, seen(r)) == old(self)@.dispatch(request, facts, fresh@, now),
    {
        match request {
            ControlRequest::SubmitVisibleTaskRound { task_id, agent, payload } => {
                let outcome = self.submit_visible_task_round(
                    task_id.as_str(),
                    agent.as_str(),
                    &payload,
                    facts.rendered_payload.as_str(),
                    tag_id("D-", fresh).as_str(),
                    now,
                );
                answer_round(outcome, payload)
            },
            ControlRequest::ResolveTask { task_id, analyzer, summary } => answer_decided(
                self.resolve_task_for_main(
                    task_id.as_str(),
                    analyzer.as_str(),
                    summary.as_str(),
                    tag_id("D-", fresh).as_str(),
                    now,
                ),
            ),
            ControlRequest::SendDecision {
                task_id,
                issued_by,
                target_agent,
                summary,
                auto_close,
            } => answer_decided(
                self.decide_task(
                    task_id.as_str(),
                    issued_by.as_str(),
                    target_agent.as_str(),
                    summary.as_str(),
                    auto_close,
                    tag_id("D-", fresh).as_str(),
                    now,
                ),
            ),
            ControlRequest::AcknowledgeDecision { task_id, agent } => answer_decision(
                self.acknowledge_latest_decision_for_task_with_stream(
                    task_id.as_str(),
                    agent.as_str(),
                    true,
                    now,
                ),
            ),
            ControlRequest::CloseTask { task_id, agent } => answer_task(
                self.close_task_after_decision(task_id.as_str(), agent.as_str(), now),
            ),
            _ => vstd::pervasive::unreached(),
        }
    }

    /// Handles a request about what runs or is left over.
    fn handle_upkeep_request(
        &mut self,
        request: ControlRequest,
        facts: RequestFacts,
        fresh: &str,
        now: Timestamp,
    ) -> (r: Result<Step, Failure>)
        requires
            matter(request) is Upkeep,
        ensures
            (final(self)@, seen(r)) == old(self)@.dispatch(request, facts, fresh@, now),
    {
        match request {
            ControlRequest::CleanupDemoData { requested_by } => {
                match self.plan_demo_cleanup(requested_by.as_str()) {
                    Err(e) => Err(e),
                    Ok(plan) => {
                        assert(texts(plan.agents@).len() == plan.agents.len());
                        assert(texts(plan.task_ids@).len() == plan.task_ids.len());
                        if plan.agents.len() == 0 && plan.task_ids.len() == 0 {
                            let rows = DeletedRows {
                                stream_events: 0,
                                runtime_events_by_task: 0,
                                runtime_events_by_agent: 0,
                                decisions: 0,
                                task_events: 0,
                                tasks: 0,
                                sessions: 0,
                                agents: 0,
                            };
                            let summary = self.apply_demo_cleanup(
                                requested_by.as_str(),
                                &plan,
                                rows,
                                now,
                            );
                            answer(ControlResponse::Cleanup { summary })
                        } else {
                            Ok(Step::Cleanup { requested_by, plan })
                        }
                    },
                }
            },
            ControlRequest::RemoveAgent { agent } => {
                match self.plan_agent_removal(agent.as_str()) {
                    Err(e) => Err(e),
                    Ok(plan) => Ok(Step::Remove { agent, plan }),
                }
            },
            ControlRequest::RepairRuntimeState { requested_by } => {
                match self.repair_runtime_state(requested_by.as_str(), now) {
                    Err(e) => Err(e),
                    Ok(summary) => answer(ControlResponse::Repair { summary }),
                }
            },
            ControlRequest::EnsureManagedSession { agent, bootstrap_prompt } => {
                match self.begin_managed_session(agent.as_str(), now) {
                    Err(e) => Err(e),
                    Ok(start) => Ok(Step::Manage { start, bootstrap_prompt }),
                }
            },
            ControlRequest::StopAgentSession { agent } => {
                match self.take_session_to_stop(agent.as_str()) {
                    Err(e) => Err(e),
                    Ok(stop) => Ok(Step::StopSession { stop }),
                }
            },
            ControlRequest::StopManagedSessions => {
                let sessions = self.take_managed_sessions();
                Ok(Step::StopManaged { sessions })
            },
            ControlRequest::StopVisiblePanes => Ok(
                Step::StopPanes { agents: self.panes_to_stop() },
            ),
            _ => vstd::pervasive::unreached(),
        }
    }

    /// Handles a request about a round.
    fn handle_round_request(
        &mut self,
        request: ControlRequest,
        facts: RequestFacts,
        fresh: &str,
        now: Timestamp,
    ) -> (r: Result<Step, Failure>)
        requires
            matter(request) is Round,
        ensures
            (final(self)@, seen(r)) == old(self)@.dispatch(request, facts, fresh@, now),
    {
        match request {
            ControlRequest::RunAgentRound { agent, prompt } => {
                match self.start_ad_hoc_round(agent.as_str(), now) {
                    Err(e) => Err(e),
                    Ok(a) => Ok(Step::RunAgentRound { agent: a, prompt }),
                }
            },
            ControlRequest::RunTaskRound { task_id } => {
                match self.begin_task_round(task_id.as_str(), now) {
                    Err(e) => Err(e),
                    Ok(start) => Ok(Step::RunTaskRound { start }),
                }
            },
            ControlRequest::CreateTaskFromPrompt { from_agent, to_agent, request } => {
                match self.plan_task_draft(
                    from_agent.as_str(),
                    to_agent.as_str(),
                    request.as_str(),
                ) {
                    Err(e) => Err(e),
                    Ok(draft) => Ok(Step::DraftTask { draft }),
                }
            },
            _ => vstd::pervasive::unreached(),
        }
    }

    /// Handles a request about the state as it is.
    fn handle_look_request(
        &mut self,
        request: ControlRequest,
        facts: RequestFacts,
        fresh: &str,
        now: Timestamp,
    ) -> (r: Result<Step, Failure>)
        requires
            matter(request) is Look,
        ensures
            (final(self)@, seen(r)) == old(self)@.dispatch(request, facts, fresh@, now),
    {
        match request {
            ControlRequest::Ping => answer(ControlResponse::Pong),
            ControlRequest::Snapshot => answer(
                ControlResponse::Snapshot { snapshot: self.state.snapshot_at(now) },
            ),
            ControlRequest::Trace { agent, task_id, session_id, limit } => plan_trace(
                agent,
                task_id,
                session_id,
                limit,
            ),
            ControlRequest::AppendRuntimeEvent {
                scope,
                scope_id,
                agent,
                task_id,
                session_id,
                actor,
                event_type,
                summary,
                reason,
                payload_json,
            } => self.append_client_event(
                RuntimeEventDraft {
                    scope,
                    scope_id,
                    agent_name: agent,
                    task_id,
                    session_id,
                    actor_name: actor,
                    event_type,
                    summary,
                    reason,
                    payload_json,
                },
            ),
            _ => vstd::pervasive::unreached(),
        }
    }

    /// Handles a request with the given time and fresh identifier.
    pub fn dispatch_control_request(
        &mut self,
        request: ControlRequest,
        facts: RequestFacts,
        fresh: &str,
        now: Timestamp,
    ) -> (r: Result<Step, Failure>)
        ensures
            (final(self)@, seen(r)) == old(self)@.dispatch(request, facts, fresh@, now),
    {
        match matter_of(&request) {
            Matter::Agent => self.handle_agent_request(request, facts, fresh, now),
            Matter::Task => self.handle_task_request(request, facts, fresh, now),
            Matter::Decision => self.handle_decision_request(request, facts, fresh, now),
            Matter::Upkeep => self.handle_upkeep_request(request, facts, fresh, now),
            Matter::Round => self.handle_round_request(request, facts, fresh, now),
            Matter::Look => self.handle_look_request(request, facts, fresh, now),
        }
    }

    /// Handles a request at this moment.
    pub fn handle_control_request(&mut self, request: ControlRequest, facts: RequestFacts) -> (r: Result<
        Step,
        Failure,
    >)
        ensures
            exists|fresh: Seq<char>, now: Timestamp|
                is_fresh(fresh) && (final(self)@, seen(r)) == #[trigger] old(self)@.dispatch(
                    request,
                    facts,
                    fresh,
                    now,
                ),
    {
        let fresh = fresh_id();
        self.dispatch_control_request(request, facts, fresh.as_str(), utc_now())
    }
}

/// The answer that goes out: a failure becomes its message.
pub open spec fn answered(r: Result<ResponseModel, Seq<char>>) -> ResponseModel {
    match r {
        Ok(response) => response,
        Err(message) => ResponseModel::Error { message },
    }
}

pub fn to_response(r: Result<ControlResponse, Failure>) -> (s: ControlResponse)
    ensures
        s@ == answered(seen(r)),
{
    match r {
        Ok(response) => response,
        Err(e) => ControlResponse::Error { message: e.message },
    }
}

/// The answer to a ping on a dashboard's websocket.
pub const WS_PONG: &'static str = "{\"type\":\"pong\"}";

/// What is sent where a snapshot cannot be written down.
pub const WS_SNAPSHOT_ERROR: &'static str = "{\"type\":\"snapshot_error\"}";

/// What a message of a dashboard asks for.
pub enum WsStep {
    SendSnapshot,
    Control { request_id: String, request: ControlRequest },
    Send { text: &'static str },
    Nothing,
}

/// A message that cannot be read, and a subscription, ask for nothing: every
/// event is sent anyway.
pub open spec fn ws_answered(message: Option<WsClientMessage>, step: WsStep) -> bool {
    match message {
        Some(WsClientMessage::RequestSnapshot) => step is SendSnapshot,
        Some(WsClientMessage::ControlRequest { request_id, request }) => step == (WsStep::Control {
            request_id,
            request,
        }),
        Some(WsClientMessage::Ping) => step matches WsStep::Send { text } && text@ == WS_PONG@,
        Some(WsClientMessage::Subscribe { .. }) => step is Nothing,
        None => step is Nothing,
    }
}

/// Decides about a message of a dashboard, where it could be read.
pub fn ws_step(message: Option<WsClientMessage>) -> (r: WsStep)
    ensures
        ws_answered(message, r),
{
    match message {
        Some(WsClientMessage::RequestSnapshot) => WsStep::SendSnapshot,
        Some(WsClientMessage::ControlRequest { request_id, request }) => WsStep::Control {
            request_id,
            request,
        },
        Some(WsClientMessage::Ping) => WsStep::Send { text: WS_PONG },
        Some(WsClientMessage::Subscribe { .. }) => WsStep::Nothing,
        None => WsStep::Nothing,
    }
}

} // verus!
