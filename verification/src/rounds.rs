//! Rounds that the daemon runs itself: on a task, or at an operator's wish.

use vstd::prelude::*;

use crate::control::{ControlResponse, ResponseModel};
use crate::draft::{
    ad_hoc_check, ensure_agent_ready_for_ad_hoc_round, ensure_agent_ready_for_new_task,
    ensure_agent_ready_for_task_round, new_task_check, task_round_check,
};
use crate::failure::{seen, Failure};
use crate::models::{
    AgentModel, AgentRoundResult, AgentSessionState, AgentSummary, PayloadModel, RoundModel,
    TaskModel, TaskRoundPayload, TaskRoundStatus, TaskState, TaskSummary,
};
use crate::state::{known_task, AppShared, World};
use crate::table::view_opt;
use crate::text::{text, text_or, texts, trim, trimmed};
use crate::time::Timestamp;

verus! {

/// A round of a task that has begun: the agent and the task as they were before.
pub struct TaskRoundStart {
    pub agent: AgentSummary,
    pub task: TaskSummary,
}

#[verifier::ext_equal]
pub struct RoundStartModel {
    pub agent: AgentModel,
    pub task: TaskModel,
}

impl View for TaskRoundStart {
    type V = RoundStartModel;

    open spec fn view(&self) -> RoundStartModel {
        RoundStartModel { agent: self.agent@, task: self.task@ }
    }
}

/// A task that one agent is to draft for another.
pub struct DraftRequest {
    pub source: AgentSummary,
    pub target: AgentSummary,
    pub request: String,
}

#[verifier::ext_equal]
pub struct DraftRequestModel {
    pub source: AgentModel,
    pub target: AgentModel,
    pub request: Seq<char>,
}

impl View for DraftRequest {
    type V = DraftRequestModel;

    open spec fn view(&self) -> DraftRequestModel {
        DraftRequestModel {
            source: self.source@,
            target: self.target@,
            request: self.request@,
        }
    }
}

/// What is reported in place of a child's own report where the round broke down.
pub open spec fn failed_payload(message: Seq<char>) -> PayloadModel {
    PayloadModel {
        status: TaskRoundStatus::Report,
        summary: "Task execution failed"@,
        blocking: Some("P0"@),
        topic: Some("agenttool execution failure"@),
        details: Some(message),
        reason: None,
        next_suggestion: Some(
            "Inspect stream_events and stderr, then retry or repair the session"@,
        ),
        changed_files: Seq::empty(),
    }
}

impl World {
    /// A task that waits is taken up by its agent for one round.
    pub open spec fn begin_task_round(self, task_id: Seq<char>, now: Timestamp) -> (
        World,
        Result<RoundStartModel, Seq<char>>,
    ) {
        match known_task(self, task_id) {
            Err(e) => (self, Err(e)),
            Ok(task) => if task.state != TaskState::Pending {
                (
                    self,
                    Err(
                        "task "@ + task_id + " must be in pending state to run, actual "@
                            + task.state.shown(),
                    ),
                )
            } else {
                match self.agent(task.to_agent) {
                    None => (self, Err("target agent not registered: "@ + task.to_agent)),
                    Some(agent) => match task_round_check(agent, task.task_id) {
                        Err(e) => (self, Err(e)),
                        Ok(_) => {
                            let run = self.accept_and_run(task.task_id, task.to_agent, now);
                            match run.1 {
                                Err(e) => (run.0, Err(e)),
                                Ok(_) => (run.0, Ok(RoundStartModel { agent, task })),
                            }
                        },
                    },
                }
            },
        }
    }

    /// The round broke down: the task has failed and its agent is blocked.
    pub open spec fn fail_task_round(
        self,
        start: RoundStartModel,
        message: Seq<char>,
        now: Timestamp,
    ) -> (World, Result<ResponseModel, Seq<char>>) {
        let moved = self.transition_task(
            start.task.task_id,
            start.task.to_agent,
            TaskState::Running,
            TaskState::Failed,
            "task_failed"@,
            now,
        );
        match moved.1 {
            Err(e) => (moved.0, Err(e)),
            Ok(failed) => {
                let freed = moved.0.release_agent(
                    start.task.to_agent,
                    AgentSessionState::Blocked,
                    now,
                );
                match freed.1 {
                    Err(e) => (freed.0, Err(e)),
                    Ok(_) => (
                        freed.0,
                        Ok(
                            ResponseModel::TaskRound {
                                task: failed,
                                result: RoundModel {
                                    agent: start.agent.name,
                                    thread_id: text_or(start.agent.thread_id, ""@),
                                    final_message: message,
                                    completed_at: now,
                                },
                                payload: failed_payload(message),
                                decision: None,
                            },
                        ),
                    ),
                }
            },
        }
    }

    /// The round has ended; its last message was read as a report, or could not be.
    pub open spec fn finish_task_round(
        self,
        start: RoundStartModel,
        round: RoundModel,
        payload: Option<PayloadModel>,
        decision_id: Seq<char>,
        now: Timestamp,
    ) -> (World, Result<ResponseModel, Seq<char>>) {
        match payload {
            None => (
                self,
                Err(
                    "failed to parse task round payload as json for task "@ + start.task.task_id,
                ),
            ),
            Some(p) => {
                let done = self.finalize_round(
                    start.task,
                    p,
                    Some(round.thread_id),
                    round.completed_at,
                    round.final_message,
                    "task_round_payload"@,
                    "TASK_ROUND_RESULT"@,
                    decision_id,
                    now,
                );
                match done.1 {
                    Err(e) => (done.0, Err(e)),
                    Ok(outcome) => (
                        done.0,
                        Ok(
                            ResponseModel::TaskRound {
                                task: outcome.task,
                                result: round,
                                payload: p,
                                decision: outcome.decision,
                            },
                        ),
                    ),
                }
            },
        }
    }

    /// Whether one agent may draft a task for another.
    pub open spec fn plan_draft(
        self,
        from: Seq<char>,
        to: Seq<char>,
        request: Seq<char>,
    ) -> Result<DraftRequestModel, Seq<char>> {
        if trimmed(request).len() == 0 {
            Err("task request cannot be empty"@)
        } else {
            match self.agent(from) {
                None => Err("source agent not registered: "@ + from),
                Some(source) => match self.agent(to) {
                    None => Err("target agent not registered: "@ + to),
                    Some(target) => match ad_hoc_check(source) {
                        Err(e) => Err(e),
                        Ok(_) => match new_task_check(target) {
                            Err(e) => Err(e),
                            Ok(_) => Ok(
                                DraftRequestModel {
                                    source,
                                    target,
                                    request: trimmed(request),
                                },
                            ),
                        },
                    },
                },
            }
        }
    }
}

impl AppShared {
    pub fn begin_task_round(&mut self, task_id: &str, now: Timestamp) -> (r: Result<
        TaskRoundStart,
        Failure,
    >)
        ensures
            (final(self)@, seen(r)) == old(self)@.begin_task_round(task_id@, now),
    {
        let task = match self.known_task(task_id) {
            Err(e) => {
                return Err(e);
            },
            Ok(task) => task,
        };
        if task.state != TaskState::Pending {
            return Err(
                Failure::new(
                    text("task ").concat(task_id).concat(
                        " must be in pending state to run, actual ",
                    ).concat(task.state.as_shown()),
                ),
            );
        }
        let agent = match self.state.agents.get(task.to_agent.as_str()) {
            Some(a) => a,
            None => {
                return Err(
                    Failure::new(
                        text("target agent not registered: ").concat(task.to_agent.as_str()),
                    ),
                );
            },
        };
        match ensure_agent_ready_for_task_round(&agent, task.task_id.as_str()) {
            Err(e) => {
                return Err(e);
            },
            Ok(_) => {},
        }
        match self.accept_and_run_task(task.task_id.as_str(), task.to_agent.as_str(), now) {
            Err(e) => Err(e),
            Ok(_) => Ok(TaskRoundStart { agent, task }),
        }
    }

    pub fn fail_task_round(&mut self, start: &TaskRoundStart, err: &Failure, now: Timestamp) -> (r:
        Result<ControlResponse, Failure>)
        ensures
            (final(self)@, seen(r)) == old(self)@.fail_task_round(start@, err@, now),
    {
        let failed = match self.transition_task_state(
            start.task.task_id.as_str(),
            start.task.to_agent.as_str(),
            TaskState::Running,
            TaskState::Failed,
            "task_failed",
            now,
        ) {
            Err(e) => {
                return Err(e);
            },
            Ok(t) => t,
        };
        match self.release_agent_after_terminal_task(
            start.task.to_agent.as_str(),
            AgentSessionState::Blocked,
            now,
        ) {
            Err(e) => {
                return Err(e);
            },
            Ok(_) => {},
        }
        let changed_files: Vec<String> = Vec::new();
        assert(texts(changed_files@) =~= Seq::empty());
        Ok(
            ControlResponse::TaskRound {
                task: failed,
                result: AgentRoundResult {
                    agent: start.agent.name.clone(),
                    thread_id: match &start.agent.thread_id {
                        Some(s) => s.clone(),
                        None => text(""),
                    },
                    final_message: err.message.clone(),
                    completed_at: now,
                },
                payload: TaskRoundPayload {
                    status: TaskRoundStatus::Report,
                    summary: text("Task execution failed"),
                    blocking: Some(text("P0")),
                    topic: Some(text("agenttool execution failure")),
                    details: Some(err.message.clone()),
                    reason: None,
                    next_suggestion: Some(
                        text(
                            "Inspect stream_events and stderr, then retry or repair the session",
                        ),
                    ),
                    changed_files,
                },
                decision: None,
            },
        )
    }

    /// `payload` is what the round's last message was read as, or none where it
    /// is no such report.
    pub fn finish_task_round(
        &mut self,
        start: &TaskRoundStart,
        round: AgentRoundResult,
        payload: Option<TaskRoundPayload>,
        decision_id: &str,
        now: Timestamp,
    ) -> (r: Result<ControlResponse, Failure>)
        ensures
            (final(self)@, seen(r)) == old(self)@.finish_task_round(
                start@,
                round@,
                view_opt(payload),
                decision_id@,
                now,
            ),
    {
        let payload = match payload {
            None => {
                return Err(
                    Failure::new(
                        text("failed to parse task round payload as json for task ").concat(
                            start.task.task_id.as_str(),
                        ),
                    ),
                );
            },
            Some(p) => p,
        };
        match self.finalize_task_round_payload(
            &start.task,
            &payload,
            Some(round.thread_id.clone()),
            round.completed_at,
            round.final_message.as_str(),
            "task_round_payload",
            "TASK_ROUND_RESULT",
            decision_id,
            now,
        ) {
            Err(e) => Err(e),
            Ok(outcome) => Ok(
                ControlResponse::TaskRound {
                    task: outcome.task,
                    result: round,
                    payload,
                    decision: outcome.decision,
                },
            ),
        }
    }

    pub fn plan_task_draft(&self, from_agent: &str, to_agent: &str, request: &str) -> (r: Result<
        DraftRequest,
        Failure,
    >)
        ensures
            seen(r) == self@.plan_draft(from_agent@, to_agent@, request@),
    {
        let wish = trim(request);
        if wish.as_str().is_empty() {
            return Err(Failure::new(text("task request cannot be empty")));
        }
        let source = match self.state.agents.get(from_agent) {
            Some(a) => a,
            None => {
                return Err(
                    Failure::new(text("source agent not registered: ").concat(from_agent)),
                );
            },
        };
        let target = match self.state.agents.get(to_agent) {
            Some(a) => a,
            None => {
                return Err(
                    Failure::new(text("target agent not registered: ").concat(to_agent)),
                );
            },
        };
        match ensure_agent_ready_for_ad_hoc_round(&source) {
            Err(e) => {
                return Err(e);
            },
            Ok(_) => {},
        }
        match ensure_agent_ready_for_new_task(&target) {
            Err(e) => {
                return Err(e);
            },
            Ok(_) => {},
        }
        Ok(DraftRequest { source, target, request: wish })
    }
}

} // verus!
