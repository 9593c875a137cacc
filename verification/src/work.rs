//! Work on tasks: how one is created, begun, reported on, cancelled and tried again.

use vstd::prelude::*;

use crate::draft::{
    agent_state_for, desired_agent_state_for_task, ensure_agent_ready_for_new_task, new_task_check,
    normal_draft, normalize_task_draft_payload,
};
use crate::failure::{seen, Failure};
use crate::json::{
    json_text, no_fields, object_text, render_json, JsonModel, JsonObject, JsonValue,
};
use crate::models::{
    AgentSessionState, DashboardEvent, DashboardModel, DraftModel, PayloadModel, TaskDraftPayload,
    TaskModel, TaskRoundPayload, TaskRoundStatus, TaskState, TaskSummary,
};
use crate::state::{known_agent, known_task, AppShared, Effect, EffectModel, World};
use crate::table::{filed, put, Dup};
use crate::tasks::{cancellable, requested_by_text, OutcomeModel, RoundOutcome};
use crate::text::{copy_text, is_text, opt_text, same_text, text};
use crate::time::Timestamp;

verus! {

/// A new task, as its draft asks for it.
pub open spec fn new_task(
    from: Seq<char>,
    to: Seq<char>,
    draft: DraftModel,
    auto_resolve_by: Option<Seq<char>>,
    auto_resolve_summary: Option<Seq<char>>,
    task_id: Seq<char>,
    now: Timestamp,
) -> TaskModel {
    TaskModel {
        task_id,
        from_agent: from,
        to_agent: to,
        title: draft.title,
        summary: draft.summary,
        effort: draft.effort,
        read_scope: draft.read_scope,
        write_scope: draft.write_scope,
        acceptance: draft.acceptance,
        auto_resolve_by,
        auto_resolve_summary,
        round_count: 0,
        latest_child_status: None,
        latest_child_summary: None,
        latest_child_blocking: None,
        latest_child_topic: None,
        latest_child_details: None,
        latest_decision_id: None,
        latest_decision_summary: None,
        latest_decision_status: None,
        latest_decision_issued_by: None,
        latest_decision_at: None,
        state: TaskState::Pending,
        created_at: now,
        updated_at: now,
        closed_at: None,
    }
}

impl World {
    /// What keeps a task from being resolved on its own, if anything.
    pub open spec fn auto_resolve_check(
        self,
        by: Option<Seq<char>>,
        summary: Option<Seq<char>>,
    ) -> Result<(), Seq<char>> {
        match (by, summary) {
            (Some(analyzer), Some(_)) => if filed(self.agents, analyzer) {
                Ok(())
            } else {
                Err("auto resolve analyzer not registered: "@ + analyzer)
            },
            (None, None) => Ok(()),
            _ => Err("auto_resolve_by and auto_resolve_summary must be set together"@),
        }
    }

    /// What is done once a draft was accepted: the task is stored and kept, its
    /// agent is given it, and both are told.
    pub open spec fn file_task(
        self,
        task: TaskModel,
        runtime_reason: Seq<char>,
        now: Timestamp,
    ) -> World {
        let stored = self.emit(EffectModel::InsertTask { task }).emit(
            EffectModel::InsertTaskEvent {
                task_id: task.task_id,
                event_type: "task_created"@,
                from_state: None,
                to_state: Some(TaskState::Pending),
                payload: "{}"@,
            },
        );
        let kept = World { tasks: put(stored.tasks, task), ..stored };
        kept.claim_task(task.to_agent, task.task_id, now).publish(
            DashboardModel::TaskEvent { task, event_type: "task_created"@ },
        ).log_task(
            task,
            Some(task.from_agent),
            "task_created"@,
            "created task for "@ + task.to_agent,
            Some(runtime_reason),
            object_text(
                no_fields().push(("title"@, JsonModel::Text(task.title))).push(
                    ("summary"@, JsonModel::Text(task.summary)),
                ).push(("state"@, JsonModel::Text(task.state.label()))),
            ),
        ).sync_bridge_for_task(task, "task_created"@, now)
    }

    /// A task is created for an agent that may take one.
    pub open spec fn create_task(
        self,
        from: Seq<char>,
        to: Seq<char>,
        draft: DraftModel,
        auto_resolve_by: Option<Seq<char>>,
        auto_resolve_summary: Option<Seq<char>>,
        runtime_reason: Seq<char>,
        task_id: Seq<char>,
        now: Timestamp,
    ) -> (World, Result<TaskModel, Seq<char>>) {
        match self.agent(to) {
            None => (self, Err("target agent not registered: "@ + to)),
            Some(target) => match new_task_check(target) {
                Err(e) => (self, Err(e)),
                Ok(_) => match self.auto_resolve_check(auto_resolve_by, auto_resolve_summary) {
                    Err(e) => (self, Err(e)),
                    Ok(_) => match normal_draft(target.cwd, draft) {
                        Err(e) => (self, Err(e)),
                        Ok(d) => {
                            let task = new_task(
                                from,
                                to,
                                d,
                                auto_resolve_by,
                                auto_resolve_summary,
                                task_id,
                                now,
                            );
                            (self.file_task(task, runtime_reason, now), Ok(task))
                        },
                    },
                },
            },
        }
    }

    /// The agent begins the task that it was given.
    pub open spec fn begin_visible_task(self, agent: Seq<char>, now: Timestamp) -> (
        World,
        Result<TaskModel, Seq<char>>,
    ) {
        match known_agent(self, agent) {
            Err(e) => (self, Err(e)),
            Ok(a) => match a.current_task_id {
                None => (self, Err("agent "@ + agent + " has no assigned task"@)),
                Some(task_id) => match known_task(self, task_id) {
                    Err(e) => (self, Err(e)),
                    Ok(task) => match task.state {
                        TaskState::Pending => self.accept_and_run(task.task_id, agent, now),
                        TaskState::Accepted => self.transition_task(
                            task.task_id,
                            agent,
                            TaskState::Accepted,
                            TaskState::Running,
                            "task_running"@,
                            now,
                        ),
                        TaskState::Running => (self, Ok(task)),
                        _ => (
                            self,
                            Err(
                                "task "@ + task.task_id + " on agent "@ + agent
                                    + " must be pending, accepted, or running before begin-visible-task, actual "@
                                    + task.state.shown(),
                            ),
                        ),
                    },
                },
            },
        }
    }

    /// A task that waits is accepted and runs.
    pub open spec fn accept_and_run(
        self,
        task_id: Seq<char>,
        agent: Seq<char>,
        now: Timestamp,
    ) -> (World, Result<TaskModel, Seq<char>>) {
        let accepted = self.transition_task(
            task_id,
            agent,
            TaskState::Pending,
            TaskState::Accepted,
            "task_accepted"@,
            now,
        );
        match accepted.1 {
            Err(e) => (accepted.0, Err(e)),
            Ok(task) => accepted.0.transition_task(
                task.task_id,
                agent,
                TaskState::Accepted,
                TaskState::Running,
                "task_running"@,
                now,
            ),
        }
    }

    /// The state that a round's status leads to.
    pub open spec fn end_round(
        self,
        task: TaskModel,
        status: TaskRoundStatus,
        now: Timestamp,
    ) -> (World, Result<TaskModel, Seq<char>>) {
        match status {
            TaskRoundStatus::Result => {
                let completed = self.transition_task(
                    task.task_id,
                    task.to_agent,
                    TaskState::Running,
                    TaskState::Completed,
                    "task_completed"@,
                    now,
                );
                match completed.1 {
                    Err(e) => (completed.0, Err(e)),
                    Ok(t) => completed.0.transition_task(
                        t.task_id,
                        t.to_agent,
                        TaskState::Completed,
                        TaskState::Reported,
                        "result_reported"@,
                        now,
                    ),
                }
            },
            TaskRoundStatus::Report => self.transition_task(
                task.task_id,
                task.to_agent,
                TaskState::Running,
                TaskState::Reported,
                "report_submitted"@,
                now,
            ),
            TaskRoundStatus::WaitDecision => self.transition_task(
                task.task_id,
                task.to_agent,
                TaskState::Running,
                TaskState::BlockedWaitingDecision,
                "task_waiting_decision"@,
                now,
            ),
        }
    }

    /// Where the task names an analyzer and a standing decision, a report or a
    /// wait for a decision is resolved at once.
    pub open spec fn auto_resolve(
        self,
        task: TaskModel,
        status: TaskRoundStatus,
        decision_id: Seq<char>,
        now: Timestamp,
    ) -> (World, Result<OutcomeModel, Seq<char>>) {
        match (status, task.auto_resolve_by, task.auto_resolve_summary) {
            (TaskRoundStatus::Result, _, _) => (
                self,
                Ok(OutcomeModel { task, decision: None }),
            ),
            (_, Some(analyzer), Some(summary)) => {
                let said = self.say(
                    analyzer,
                    "[AUTO_RESOLVE] task="@ + task.task_id + " status="@ + json_text(
                        JsonModel::Text(status.label()),
                    ),
                    now,
                );
                let resolved = said.resolve_task(
                    task.task_id,
                    analyzer,
                    summary,
                    decision_id,
                    now,
                );
                match resolved.1 {
                    Err(e) => (resolved.0, Err(e)),
                    Ok(d) => (
                        resolved.0,
                        Ok(OutcomeModel { task: d.task, decision: Some(d.decision) }),
                    ),
                }
            },
            _ => (self, Ok(OutcomeModel { task, decision: None })),
        }
    }

    /// A round of a running task has ended with this report.
    pub open spec fn finalize_round(
        self,
        task: TaskModel,
        payload: PayloadModel,
        thread_id: Option<Seq<char>>,
        completed_at: Timestamp,
        raw: Seq<char>,
        history_event: Seq<char>,
        stream_label: Seq<char>,
        decision_id: Seq<char>,
        now: Timestamp,
    ) -> (World, Result<OutcomeModel, Seq<char>>) {
        let ended = self.end_round(task, payload.status, now);
        match ended.1 {
            Err(e) => (ended.0, Err(e)),
            Ok(final_task) => {
                let noted = ended.0.note_task(
                    task.task_id,
                    history_event,
                    final_task.state,
                    raw,
                ).say(task.to_agent, "["@ + stream_label + "] "@ + raw, now);
                let next = agent_state_for(final_task.state);
                let settled = match thread_id {
                    Some(id) => noted.agent_after_round(
                        task.to_agent,
                        Some(id),
                        next,
                        completed_at,
                        now,
                    ),
                    None => noted.set_agent_state(task.to_agent, next, now),
                };
                match settled.1 {
                    Err(e) => (settled.0, Err(e)),
                    Ok(_) => {
                        let told = settled.0.child_feedback(
                            final_task,
                            payload.status.label(),
                            Some(payload.summary),
                            payload.blocking,
                            payload.topic,
                            payload.details,
                            "task_feedback_updated"@,
                            now,
                        );
                        told.0.auto_resolve(told.1, payload.status, decision_id, now)
                    },
                }
            },
        }
    }

    /// An agent reports on a task that it works on in its own window.
    pub open spec fn submit_visible_round(
        self,
        task_id: Seq<char>,
        agent: Seq<char>,
        payload: PayloadModel,
        rendered: Seq<char>,
        decision_id: Seq<char>,
        now: Timestamp,
    ) -> (World, Result<OutcomeModel, Seq<char>>) {
        match known_task(self, task_id) {
            Err(e) => (self, Err(e)),
            Ok(task) => if task.to_agent != agent {
                (
                    self,
                    Err("task "@ + task_id + " belongs to "@ + task.to_agent + ", not "@ + agent),
                )
            } else if task.state != TaskState::Running {
                (
                    self,
                    Err(
                        "task "@ + task_id
                            + " must be running before submit-visible-task-round, actual "@
                            + task.state.shown(),
                    ),
                )
            } else {
                self.finalize_round(
                    task,
                    payload,
                    None,
                    now,
                    rendered,
                    "visible_task_round_payload"@,
                    "VISIBLE_TASK_ROUND"@,
                    decision_id,
                    now,
                )
            },
        }
    }

    /// A task is given up. One with a live session has to be stopped first.
    pub open spec fn cancel_task(
        self,
        task_id: Seq<char>,
        requested_by: Seq<char>,
        now: Timestamp,
    ) -> (World, Result<TaskModel, Seq<char>>) {
        match known_agent(self, requested_by) {
            Err(e) => (self, Err(e)),
            Ok(_) => match known_task(self, task_id) {
                Err(e) => (self, Err(e)),
                Ok(task) => {
                    let holder = match self.agent(task.to_agent) {
                        Some(a) => if a.current_task_id == Some(task_id) {
                            Some(a)
                        } else {
                            None
                        },
                        None => None,
                    };
                    if holder matches Some(a) && a.current_session_id is Some {
                        (
                            self,
                            Err(
                                "task "@ + task_id + " has a live session attached on agent "@
                                    + holder->Some_0.name + "; stop-agent-session first"@,
                            ),
                        )
                    } else {
                        let moved = self.transition_any_of(
                            task_id,
                            cancellable(),
                            TaskState::Cancelled,
                            "task_cancelled"@,
                            now,
                        );
                        match moved.1 {
                            Err(e) => (moved.0, Err(e)),
                            Ok(cancelled) => {
                                let freed = match holder {
                                    Some(a) => moved.0.release_agent(
                                        a.name,
                                        AgentSessionState::Idle,
                                        now,
                                    ),
                                    None => (moved.0, Ok(())),
                                };
                                match freed.1 {
                                    Err(e) => (freed.0, Err(e)),
                                    Ok(_) => (
                                        freed.0.note_task(
                                            cancelled.task_id,
                                            "task_cancel_payload"@,
                                            TaskState::Cancelled,
                                            requested_by_text(requested_by),
                                        ).say(requested_by, "[TASK_CANCEL] task="@ + task_id, now),
                                        Ok(cancelled),
                                    ),
                                }
                            },
                        }
                    }
                },
            },
        }
    }

    /// A task that failed or was cancelled waits for its agent again.
    pub open spec fn retry_task(
        self,
        task_id: Seq<char>,
        requested_by: Seq<char>,
        now: Timestamp,
    ) -> (World, Result<TaskModel, Seq<char>>) {
        match known_agent(self, requested_by) {
            Err(e) => (self, Err(e)),
            Ok(_) => match known_task(self, task_id) {
                Err(e) => (self, Err(e)),
                Ok(task) => if task.state != TaskState::Failed && task.state
                    != TaskState::Cancelled {
                    (
                        self,
                        Err(
                            "task "@ + task_id
                                + " must be failed or cancelled before retry, actual "@
                                + task.state.shown(),
                        ),
                    )
                } else {
                    match self.agent(task.to_agent) {
                        None => (self, Err("target agent not registered: "@ + task.to_agent)),
                        Some(agent) => match new_task_check(agent) {
                            Err(e) => (self, Err(e)),
                            Ok(_) => {
                                let retried = TaskModel {
                                    state: TaskState::Pending,
                                    updated_at: now,
                                    closed_at: None,
                                    ..task
                                };
                                (
                                    self.move_task(
                                        retried,
                                        "task_retried"@,
                                        task.state,
                                    ).claim_task(task.to_agent, task.task_id, now).note_task(
                                        retried.task_id,
                                        "task_retry_payload"@,
                                        TaskState::Pending,
                                        requested_by_text(requested_by),
                                    ).say(
                                        requested_by,
                                        "[TASK_RETRY] task="@ + retried.task_id + " target="@
                                            + retried.to_agent,
                                        now,
                                    ),
                                    Ok(retried),
                                )
                            },
                        },
                    }
                },
            },
        }
    }

    /// A child reports an issue on a task that it has completed.
    pub open spec fn report_task(
        self,
        task_id: Seq<char>,
        agent: Seq<char>,
        blocking: Seq<char>,
        topic: Seq<char>,
        details: Seq<char>,
        now: Timestamp,
    ) -> (World, Result<TaskModel, Seq<char>>) {
        let moved = self.transition_task(
            task_id,
            agent,
            TaskState::Completed,
            TaskState::Reported,
            "report_submitted"@,
            now,
        );
        match moved.1 {
            Err(e) => (moved.0, Err(e)),
            Ok(reported) => {
                let payload = object_text(
                    no_fields().push(("blocking"@, JsonModel::Text(blocking))).push(
                        ("topic"@, JsonModel::Text(topic)),
                    ).push(("details"@, JsonModel::Text(details))),
                );
                let told = moved.0.note_task(
                    reported.task_id,
                    "report_payload"@,
                    TaskState::Reported,
                    payload,
                ).say(agent, "[REPORT] "@ + payload, now).child_feedback(
                    reported,
                    "report"@,
                    Some(topic),
                    Some(blocking),
                    Some(topic),
                    Some(details),
                    "report_payload"@,
                    now,
                );
                (told.0, Ok(told.1))
            },
        }
    }
}

impl AppShared {
    fn check_auto_resolve(&self, by: &Option<String>, summary: &Option<String>) -> (r: Result<
        (),
        Failure,
    >)
        ensures
            seen(r) == self@.auto_resolve_check(opt_text(*by), opt_text(*summary)),
    {
        match (by, summary) {
            (Some(analyzer), Some(_)) => if self.state.agents.has(analyzer.as_str()) {
                Ok(())
            } else {
                Err(
                    Failure::new(
                        text("auto resolve analyzer not registered: ").concat(analyzer.as_str()),
                    ),
                )
            },
            (None, None) => Ok(()),
            _ => Err(
                Failure::new(
                    text("auto_resolve_by and auto_resolve_summary must be set together"),
                ),
            ),
        }
    }

    fn file_task(&mut self, task: &TaskSummary, runtime_reason: &str, now: Timestamp)
        ensures
            final(self)@ == old(self)@.file_task(task@, runtime_reason@, now),
    {
        self.emit(Effect::InsertTask { task: task.dup() });
        self.emit(
            Effect::InsertTaskEvent {
                task_id: task.task_id.clone(),
                event_type: text("task_created"),
                from_state: None,
                to_state: Some(TaskState::Pending),
                payload: text("{}"),
            },
        );
        self.state.tasks.put(task.dup());
        self.claim_task_for_agent(task.to_agent.as_str(), task.task_id.as_str(), now);
        self.publish(
            DashboardEvent::TaskEvent { task: task.dup(), event_type: text("task_created") },
        );
        let line = text("created task for ").concat(task.to_agent.as_str());
        let payload = JsonObject::new().text("title", task.title.as_str()).text(
            "summary",
            task.summary.as_str(),
        ).text("state", task.state.as_label()).render();
        self.log_task(
            task,
            Some(task.from_agent.as_str()),
            "task_created",
            line.as_str(),
            Some(runtime_reason),
            payload,
        );
        self.sync_bridge_for_task(task, "task_created", now);
    }

    pub fn create_task_record(
        &mut self,
        from_agent: &str,
        to_agent: &str,
        payload: TaskDraftPayload,
        auto_resolve_by: Option<String>,
        auto_resolve_summary: Option<String>,
        runtime_reason: &str,
        task_id: &str,
        now: Timestamp,
    ) -> (r: Result<TaskSummary, Failure>)
        ensures
            (final(self)@, seen(r)) == old(self)@.create_task(
                from_agent@,
                to_agent@,
                payload@,
                opt_text(auto_resolve_by),
                opt_text(auto_resolve_summary),
                runtime_reason@,
                task_id@,
                now,
            ),
    {
        let target = match self.state.agents.get(to_agent) {
            Some(a) => a,
            None => {
                return Err(
                    Failure::new(text("target agent not registered: ").concat(to_agent)),
                );
            },
        };
        match ensure_agent_ready_for_new_task(&target) {
            Err(e) => {
                return Err(e);
            },
            Ok(_) => {},
        }
        match self.check_auto_resolve(&auto_resolve_by, &auto_resolve_summary) {
            Err(e) => {
                return Err(e);
            },
            Ok(_) => {},
        }
        let draft = match normalize_task_draft_payload(&target, payload) {
            Err(e) => {
                return Err(e);
            },
            Ok(d) => d,
        };
        let task = TaskSummary {
            task_id: text(task_id),
            from_agent: text(from_agent),
            to_agent: text(to_agent),
            title: draft.title,
            summary: draft.summary,
            effort: draft.effort,
            read_scope: draft.read_scope,
            write_scope: draft.write_scope,
            acceptance: draft.acceptance,
            auto_resolve_by,
            auto_resolve_summary,
            round_count: 0,
            latest_child_status: None,
            latest_child_summary: None,
            latest_child_blocking: None,
            latest_child_topic: None,
            latest_child_details: None,
            latest_decision_id: None,
            latest_decision_summary: None,
            latest_decision_status: None,
            latest_decision_issued_by: None,
            latest_decision_at: None,
            state: TaskState::Pending,
            created_at: now,
            updated_at: now,
            closed_at: None,
        };
        self.file_task(&task, runtime_reason, now);
        Ok(task)
    }

    pub fn accept_and_run_task(&mut self, task_id: &str, agent: &str, now: Timestamp) -> (r: Result<
        TaskSummary,
        Failure,
    >)
        ensures
            (final(self)@, seen(r)) == old(self)@.accept_and_run(task_id@, agent@, now),
    {
        match self.transition_task_state(
            task_id,
            agent,
            TaskState::Pending,
            TaskState::Accepted,
            "task_accepted",
            now,
        ) {
            Err(e) => Err(e),
            Ok(task) => self.transition_task_state(
                task.task_id.as_str(),
                agent,
                TaskState::Accepted,
                TaskState::Running,
                "task_running",
                now,
            ),
        }
    }

    pub fn begin_visible_task(&mut self, agent: &str, now: Timestamp) -> (r: Result<
        TaskSummary,
        Failure,
    >)
        ensures
            (final(self)@, seen(r)) == old(self)@.begin_visible_task(agent@, now),
    {
        let a = match self.registered_agent(agent) {
            Err(e) => {
                return Err(e);
            },
            Ok(a) => a,
        };
        let task_id = match a.current_task_id {
            Some(id) => id,
            None => {
                return Err(
                    Failure::new(text("agent ").concat(agent).concat(" has no assigned task")),
                );
            },
        };
        let task = match self.known_task(task_id.as_str()) {
            Err(e) => {
                return Err(e);
            },
            Ok(task) => task,
        };
        match task.state {
            TaskState::Pending => self.accept_and_run_task(task.task_id.as_str(), agent, now),
            TaskState::Accepted => self.transition_task_state(
                task.task_id.as_str(),
                agent,
                TaskState::Accepted,
                TaskState::Running,
                "task_running",
                now,
            ),
            TaskState::Running => Ok(task),
            _ => Err(
                Failure::new(
                    text("task ").concat(task.task_id.as_str()).concat(" on agent ").concat(
                        agent,
                    ).concat(
                        " must be pending, accepted, or running before begin-visible-task, actual ",
                    ).concat(task.state.as_shown()),
                ),
            ),
        }
    }

    fn end_round(&mut self, task: &TaskSummary, status: TaskRoundStatus, now: Timestamp) -> (r: Result<
        TaskSummary,
        Failure,
    >)
        ensures
            (final(self)@, seen(r)) == old(self)@.end_round(task@, status, now),
    {
        match status {
            TaskRoundStatus::Result => match self.transition_task_state(
                task.task_id.as_str(),
                task.to_agent.as_str(),
                TaskState::Running,
                TaskState::Completed,
                "task_completed",
                now,
            ) {
                Err(e) => Err(e),
                Ok(t) => self.transition_task_state(
                    t.task_id.as_str(),
                    t.to_agent.as_str(),
                    TaskState::Completed,
                    TaskState::Reported,
                    "result_reported",
                    now,
                ),
            },
            TaskRoundStatus::Report => self.transition_task_state(
                task.task_id.as_str(),
                task.to_agent.as_str(),
                TaskState::Running,
                TaskState::Reported,
                "report_submitted",
                now,
            ),
            TaskRoundStatus::WaitDecision => self.transition_task_state(
                task.task_id.as_str(),
                task.to_agent.as_str(),
                TaskState::Running,
                TaskState::BlockedWaitingDecision,
                "task_waiting_decision",
                now,
            ),
        }
    }

    pub fn maybe_auto_resolve_task(
        &mut self,
        task: TaskSummary,
        status: TaskRoundStatus,
        decision_id: &str,
        now: Timestamp,
    ) -> (r: Result<RoundOutcome, Failure>)
        ensures
            (final(self)@, seen(r)) == old(self)@.auto_resolve(task@, status, decision_id@, now),
    {
        if status == TaskRoundStatus::Result {
            return Ok(RoundOutcome { task, decision: None });
        }
        let analyzer = match &task.auto_resolve_by {
            Some(s) => s.clone(),
            None => {
                return Ok(RoundOutcome { task, decision: None });
            },
        };
        let summary = match &task.auto_resolve_summary {
            Some(s) => s.clone(),
            None => {
                return Ok(RoundOutcome { task, decision: None });
            },
        };
        let status_text = render_json(&JsonValue::Text(text(status.as_label())));
        let content = text("[AUTO_RESOLVE] task=").concat(task.task_id.as_str()).concat(
            " status=",
        ).concat(status_text.as_str());
        self.say(analyzer.as_str(), content.as_str(), now);
        match self.resolve_task_for_main(
            task.task_id.as_str(),
            analyzer.as_str(),
            summary.as_str(),
            decision_id,
            now,
        ) {
            Err(e) => Err(e),
            Ok(d) => Ok(RoundOutcome { task: d.task, decision: Some(d.decision) }),
        }
    }

    pub fn finalize_task_round_payload(
        &mut self,
        task: &TaskSummary,
        payload: &TaskRoundPayload,
        thread_id: Option<String>,
        completed_at: Timestamp,
        raw_payload: &str,
        db_event_type: &str,
        stream_label: &str,
        decision_id: &str,
        now: Timestamp,
    ) -> (r: Result<RoundOutcome, Failure>)
        ensures
            (final(self)@, seen(r)) == old(self)@.finalize_round(
                task@,
                payload@,
                opt_text(thread_id),
                completed_at,
                raw_payload@,
                db_event_type@,
                stream_label@,
                decision_id@,
                now,
            ),
    {
        let final_task = match self.end_round(task, payload.status, now) {
            Err(e) => {
                return Err(e);
            },
            Ok(t) => t,
        };
        self.note_task(task.task_id.as_str(), db_event_type, final_task.state, raw_payload);
        let content = text("[").concat(stream_label).concat("] ").concat(raw_payload);
        self.say(task.to_agent.as_str(), content.as_str(), now);
        let next = desired_agent_state_for_task(&final_task);
        let settled = if thread_id.is_some() {
            self.update_agent_after_round(
                task.to_agent.as_str(),
                thread_id,
                next,
                completed_at,
                now,
            )
        } else {
            self.set_agent_runtime_state(task.to_agent.as_str(), next, now)
        };
        match settled {
            Err(e) => {
                return Err(e);
            },
            Ok(_) => {},
        }
        let told = self.update_task_latest_child_feedback(
            final_task,
            payload.status.as_label(),
            Some(payload.summary.clone()),
            copy_text(&payload.blocking),
            copy_text(&payload.topic),
            copy_text(&payload.details),
            "task_feedback_updated",
            now,
        );
        self.maybe_auto_resolve_task(told, payload.status, decision_id, now)
    }

    /// `rendered_payload` is the payload's JSON text.
    pub fn submit_visible_task_round(
        &mut self,
        task_id: &str,
        agent: &str,
        payload: &TaskRoundPayload,
        rendered_payload: &str,
        decision_id: &str,
        now: Timestamp,
    ) -> (r: Result<RoundOutcome, Failure>)
        ensures
            (final(self)@, seen(r)) == old(self)@.submit_visible_round(
                task_id@,
                agent@,
                payload@,
                rendered_payload@,
                decision_id@,
                now,
            ),
    {
        let task = match self.known_task(task_id) {
            Err(e) => {
                return Err(e);
            },
            Ok(task) => task,
        };
        if !same_text(task.to_agent.as_str(), agent) {
            return Err(
                Failure::new(
                    text("task ").concat(task_id).concat(" belongs to ").concat(
                        task.to_agent.as_str(),
                    ).concat(", not ").concat(agent),
                ),
            );
        }
        if task.state != TaskState::Running {
            return Err(
                Failure::new(
                    text("task ").concat(task_id).concat(
                        " must be running before submit-visible-task-round, actual ",
                    ).concat(task.state.as_shown()),
                ),
            );
        }
        self.finalize_task_round_payload(
            &task,
            payload,
            None,
            now,
            rendered_payload,
            "visible_task_round_payload",
            "VISIBLE_TASK_ROUND",
            decision_id,
            now,
        )
    }

    pub fn cancel_task(&mut self, task_id: &str, requested_by: &str, now: Timestamp) -> (r: Result<
        TaskSummary,
        Failure,
    >)
        ensures
            (final(self)@, seen(r)) == old(self)@.cancel_task(task_id@, requested_by@, now),
    {
        match self.registered_agent(requested_by) {
            Err(e) => {
                return Err(e);
            },
            Ok(_) => {},
        }
        let task = match self.known_task(task_id) {
            Err(e) => {
                return Err(e);
            },
            Ok(task) => task,
        };
        let holder = match self.state.agents.get(task.to_agent.as_str()) {
            Some(a) => if is_text(&a.current_task_id, task_id) {
                Some(a)
            } else {
                None
            },
            None => None,
        };
        match &holder {
            Some(a) => if a.current_session_id.is_some() {
                return Err(
                    Failure::new(
                        text("task ").concat(task_id).concat(
                            " has a live session attached on agent ",
                        ).concat(a.name.as_str()).concat("; stop-agent-session first"),
                    ),
                );
            },
            None => {},
        }
        let mut expected: Vec<TaskState> = Vec::new();
        expected.push(TaskState::Pending);
        expected.push(TaskState::Accepted);
        expected.push(TaskState::Running);
        expected.push(TaskState::Completed);
        expected.push(TaskState::Reported);
        expected.push(TaskState::Analyzed);
        expected.push(TaskState::BlockedWaitingDecision);
        let cancelled = match self.transition_any_of(
            task_id,
            &expected,
            TaskState::Cancelled,
            "task_cancelled",
            now,
        ) {
            Err(e) => {
                return Err(e);
            },
            Ok(t) => t,
        };
        match &holder {
            Some(a) => match self.release_agent_after_terminal_task(
                a.name.as_str(),
                AgentSessionState::Idle,
                now,
            ) {
                Err(e) => {
                    return Err(e);
                },
                Ok(_) => {},
            },
            None => {},
        }
        let payload = JsonObject::new().text("requested_by", requested_by).render();
        self.note_task(
            cancelled.task_id.as_str(),
            "task_cancel_payload",
            TaskState::Cancelled,
            payload.as_str(),
        );
        self.say(requested_by, text("[TASK_CANCEL] task=").concat(task_id).as_str(), now);
        Ok(cancelled)
    }

    pub fn retry_task(&mut self, task_id: &str, requested_by: &str, now: Timestamp) -> (r: Result<
        TaskSummary,
        Failure,
    >)
        ensures
            (final(self)@, seen(r)) == old(self)@.retry_task(task_id@, requested_by@, now),
    {
        match self.registered_agent(requested_by) {
            Err(e) => {
                return Err(e);
            },
            Ok(_) => {},
        }
        let task = match self.known_task(task_id) {
            Err(e) => {
                return Err(e);
            },
            Ok(task) => task,
        };
        if task.state != TaskState::Failed && task.state != TaskState::Cancelled {
            return Err(
                Failure::new(
                    text("task ").concat(task_id).concat(
                        " must be failed or cancelled before retry, actual ",
                    ).concat(task.state.as_shown()),
                ),
            );
        }
        let agent = match self.state.agents.get(task.to_agent.as_str()) {
            Some(a) => a,
            None => {
                return Err(
                    Failure::new(
                        text("target agent not registered: ").concat(task.to_agent.as_str()),
                    ),
                );
            },
        };
        match ensure_agent_ready_for_new_task(&agent) {
            Err(e) => {
                return Err(e);
            },
            Ok(_) => {},
        }
        let mut retried = task.dup();
        retried.state = TaskState::Pending;
        retried.updated_at = now;
        retried.closed_at = None;
        self.move_task(&retried, "task_retried", task.state);
        self.claim_task_for_agent(task.to_agent.as_str(), task.task_id.as_str(), now);
        let payload = JsonObject::new().text("requested_by", requested_by).render();
        self.note_task(
            retried.task_id.as_str(),
            "task_retry_payload",
            TaskState::Pending,
            payload.as_str(),
        );
        let content = text("[TASK_RETRY] task=").concat(retried.task_id.as_str()).concat(
            " target=",
        ).concat(retried.to_agent.as_str());
        self.say(requested_by, content.as_str(), now);
        Ok(retried)
    }

    pub fn report_task(
        &mut self,
        task_id: &str,
        agent: &str,
        blocking: &str,
        topic: &str,
        details: &str,
        now: Timestamp,
    ) -> (r: Result<TaskSummary, Failure>)
        ensures
            (final(self)@, seen(r)) == old(self)@.report_task(
                task_id@,
                agent@,
                blocking@,
                topic@,
                details@,
                now,
            ),
    {
        let reported = match self.transition_task_state(
            task_id,
            agent,
            TaskState::Completed,
            TaskState::Reported,
            "report_submitted",
            now,
        ) {
            Err(e) => {
                return Err(e);
            },
            Ok(t) => t,
        };
        let payload = JsonObject::new().text("blocking", blocking).text("topic", topic).text(
            "details",
            details,
        ).render();
        self.note_task(
            reported.task_id.as_str(),
            "report_payload",
            TaskState::Reported,
            payload.as_str(),
        );
        self.say(agent, text("[REPORT] ").concat(payload.as_str()).as_str(), now);
        Ok(
            self.update_task_latest_child_feedback(
                reported,
                "report",
                Some(text(topic)),
                Some(text(blocking)),
                Some(text(topic)),
                Some(text(details)),
                "report_payload",
                now,
            ),
        )
    }
}

} // verus!
