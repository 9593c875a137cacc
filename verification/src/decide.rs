//! Decisions of the main agent: how one is sent, acknowledged, and how it
//! continues or closes the task.

use vstd::prelude::*;

use crate::decision::{find_newest_decision, newest_decision};
use crate::failure::{seen, Failure};
use crate::json::{json_opt_time, no_fields, object_text, JsonModel, JsonObject};
use crate::models::{
    AgentModel, AgentSessionState, DashboardEvent, DashboardModel, DecisionModel, DecisionSummary,
    TaskModel, TaskState, TaskSummary,
};
use crate::state::{known_task, AppShared, Effect, EffectModel, World};
use crate::table::{put, Dup};
use crate::tasks::{analyzable, DecidedModel, DecidedTask};
use crate::text::{same_text, text};
use crate::time::Timestamp;

verus! {

impl World {
    /// A decision on a task that was analyzed goes out to the task's agent.
    pub open spec fn send_decision(
        self,
        task_id: Seq<char>,
        issued_by: Seq<char>,
        target: Seq<char>,
        summary: Seq<char>,
        decision_id: Seq<char>,
        now: Timestamp,
    ) -> (World, Result<DecisionModel, Seq<char>>) {
        match known_task(self, task_id) {
            Err(e) => (self, Err(e)),
            Ok(assigned) => if assigned.to_agent != target {
                (
                    self,
                    Err(
                        "task "@ + task_id + " is assigned to "@ + assigned.to_agent + ", not "@
                            + target,
                    ),
                )
            } else if assigned.state != TaskState::Analyzed {
                (
                    self,
                    Err(
                        "task "@ + task_id + " must be in analyzed state, actual "@
                            + assigned.state.shown(),
                    ),
                )
            } else {
                let moved = self.transition_task(
                    assigned.task_id,
                    assigned.to_agent,
                    TaskState::Analyzed,
                    TaskState::DecisionSent,
                    "decision_sent"@,
                    now,
                );
                match moved.1 {
                    Err(e) => (moved.0, Err(e)),
                    Ok(task) => {
                        let decision = DecisionModel {
                            decision_id,
                            task_id: task.task_id,
                            issued_by,
                            target_agent: target,
                            summary,
                            status: "sent"@,
                            created_at: now,
                            acknowledged_at: None,
                        };
                        let stored = moved.0.emit(EffectModel::InsertDecision { decision });
                        let kept = World {
                            decisions: put(stored.decisions, decision),
                            ..stored
                        };
                        let logged = kept.mirror_decision(
                            task,
                            decision,
                            "task_latest_decision_updated"@,
                            now,
                        ).publish(
                            DashboardModel::DecisionEvent {
                                decision,
                                event_type: "decision_sent"@,
                            },
                        ).log_task(
                            task,
                            Some(issued_by),
                            "decision_sent"@,
                            "sent decision "@ + decision_id,
                            Some("main_decision"@),
                            object_text(
                                no_fields().push(
                                    ("decision_id"@, JsonModel::Text(decision_id)),
                                ).push(("summary"@, JsonModel::Text(summary))).push(
                                    ("target_agent"@, JsonModel::Text(target)),
                                ),
                            ),
                        );
                        (logged, Ok(decision))
                    },
                }
            },
        }
    }

    /// The agent acknowledges the newest open decision on its task. Where all are
    /// acknowledged, nothing changes and the newest is given back.
    pub open spec fn acknowledge_decision(
        self,
        task_id: Seq<char>,
        agent: Seq<char>,
        emit_stream: bool,
        now: Timestamp,
    ) -> (World, Result<DecisionModel, Seq<char>>) {
        match known_task(self, task_id) {
            Err(e) => (self, Err(e)),
            Ok(task) => if task.to_agent != agent {
                (
                    self,
                    Err(
                        "task "@ + task_id + " is assigned to "@ + task.to_agent + ", not "@
                            + agent,
                    ),
                )
            } else if task.state != TaskState::DecisionSent && task.state != TaskState::Closed {
                (
                    self,
                    Err(
                        "task "@ + task_id
                            + " must be in decision_sent or closed state to acknowledge a decision, actual "@
                            + task.state.shown(),
                    ),
                )
            } else {
                match newest_decision(self.decisions, task_id, Some(agent), true) {
                    None => match newest_decision(self.decisions, task_id, Some(agent), false) {
                        None => (
                            self,
                            Err("no decision found for task "@ + task_id + " and agent "@ + agent),
                        ),
                        Some(d) => (self, Ok(d)),
                    },
                    Some(d) => {
                        let updated = DecisionModel {
                            status: "acknowledged"@,
                            acknowledged_at: Some(now),
                            ..d
                        };
                        let stored = self.emit(
                            EffectModel::AcknowledgeDecision { decision: updated },
                        );
                        let kept = World {
                            decisions: put(stored.decisions, updated),
                            ..stored
                        };
                        let logged = kept.mirror_decision(
                            task,
                            updated,
                            "task_latest_decision_updated"@,
                            now,
                        ).publish(
                            DashboardModel::DecisionEvent {
                                decision: updated,
                                event_type: "decision_acknowledged"@,
                            },
                        ).log_task(
                            task,
                            Some(agent),
                            "decision_acknowledged"@,
                            "acknowledged decision "@ + updated.decision_id,
                            Some("child_acknowledged"@),
                            object_text(
                                no_fields().push(
                                    ("decision_id"@, JsonModel::Text(updated.decision_id)),
                                ).push(("status"@, JsonModel::Text(updated.status))).push(
                                    ("acknowledged_at"@, json_opt_time(updated.acknowledged_at)),
                                ),
                            ),
                        );
                        if emit_stream {
                            (
                                logged.say(
                                    agent,
                                    "[DECISION_ACK] task="@ + task.task_id + " decision="@
                                        + updated.decision_id,
                                    now,
                                ),
                                Ok(updated),
                            )
                        } else {
                            (logged, Ok(updated))
                        }
                    },
                }
            },
        }
    }

    /// The decision is taken as acknowledged and the task waits for its next round.
    pub open spec fn reopen_for_next_round(
        self,
        task_id: Seq<char>,
        agent: Seq<char>,
        now: Timestamp,
    ) -> (World, Result<TaskModel, Seq<char>>) {
        let acked = self.acknowledge_decision(task_id, agent, false, now);
        match acked.1 {
            Err(e) => (acked.0, Err(e)),
            Ok(_) => {
                let moved = acked.0.transition_task(
                    task_id,
                    agent,
                    TaskState::DecisionSent,
                    TaskState::Pending,
                    "task_reopened"@,
                    now,
                );
                match moved.1 {
                    Err(e) => (moved.0, Err(e)),
                    Ok(task) => (moved.0.claim_task(agent, task.task_id, now), Ok(task)),
                }
            },
        }
    }

    /// The decision is acknowledged, the task is closed and its agent is free.
    pub open spec fn close_after_decision(
        self,
        task_id: Seq<char>,
        agent: Seq<char>,
        now: Timestamp,
    ) -> (World, Result<TaskModel, Seq<char>>) {
        let acked = self.acknowledge_decision(task_id, agent, true, now);
        match acked.1 {
            Err(e) => (acked.0, Err(e)),
            Ok(_) => {
                let moved = acked.0.transition_task(
                    task_id,
                    agent,
                    TaskState::DecisionSent,
                    TaskState::Closed,
                    "task_closed"@,
                    now,
                );
                match moved.1 {
                    Err(e) => (moved.0, Err(e)),
                    Ok(task) => match moved.0.agent(agent) {
                        Some(a) => (
                            moved.0.persist_agent(
                                AgentModel {
                                    current_task_id: None,
                                    state: AgentSessionState::Idle,
                                    last_output_at: Some(now),
                                    ..a
                                },
                            ),
                            Ok(task),
                        ),
                        None => (moved.0, Ok(task)),
                    },
                }
            },
        }
    }

    /// The main agent has looked at a report.
    pub open spec fn analyze_task(
        self,
        task_id: Seq<char>,
        analyzer: Seq<char>,
        now: Timestamp,
    ) -> (World, Result<TaskModel, Seq<char>>) {
        let moved = self.transition_any_of(
            task_id,
            analyzable(),
            TaskState::Analyzed,
            "main_analyzed"@,
            now,
        );
        match moved.1 {
            Err(e) => (moved.0, Err(e)),
            Ok(task) => (moved.0.say(analyzer, "[ANALYZE] task="@ + task_id, now), Ok(task)),
        }
    }

    /// A report is analyzed, decided on, and the task is opened again.
    pub open spec fn resolve_task(
        self,
        task_id: Seq<char>,
        analyzer: Seq<char>,
        summary: Seq<char>,
        decision_id: Seq<char>,
        now: Timestamp,
    ) -> (World, Result<DecidedModel, Seq<char>>) {
        match known_task(self, task_id) {
            Err(e) => (self, Err(e)),
            Ok(task) => if task.state != TaskState::Reported && task.state
                != TaskState::BlockedWaitingDecision && task.state != TaskState::Analyzed {
                (
                    self,
                    Err(
                        "task "@ + task_id
                            + " must be in reported, blocked_waiting_decision, or analyzed state to resolve, actual "@
                            + task.state.shown(),
                    ),
                )
            } else {
                let looked = if task.state == TaskState::Analyzed {
                    (self, Ok(task))
                } else {
                    self.analyze_task(task_id, analyzer, now)
                };
                match looked.1 {
                    Err(e) => (looked.0, Err(e)),
                    Ok(_) => {
                        let sent = looked.0.send_decision(
                            task_id,
                            analyzer,
                            task.to_agent,
                            summary,
                            decision_id,
                            now,
                        );
                        match sent.1 {
                            Err(e) => (sent.0, Err(e)),
                            Ok(decision) => {
                                let open = sent.0.reopen_for_next_round(
                                    task_id,
                                    task.to_agent,
                                    now,
                                );
                                match open.1 {
                                    Err(e) => (open.0, Err(e)),
                                    Ok(t) => (open.0, Ok(DecidedModel { decision, task: t })),
                                }
                            },
                        }
                    },
                }
            },
        }
    }

    /// A decision is sent, and the task is closed or opened again.
    pub open spec fn decide_task(
        self,
        task_id: Seq<char>,
        issued_by: Seq<char>,
        target: Seq<char>,
        summary: Seq<char>,
        auto_close: bool,
        decision_id: Seq<char>,
        now: Timestamp,
    ) -> (World, Result<DecidedModel, Seq<char>>) {
        let sent = self.send_decision(task_id, issued_by, target, summary, decision_id, now);
        match sent.1 {
            Err(e) => (sent.0, Err(e)),
            Ok(decision) => {
                let done = if auto_close {
                    sent.0.close_after_decision(task_id, target, now)
                } else {
                    sent.0.reopen_for_next_round(task_id, target, now)
                };
                match done.1 {
                    Err(e) => (done.0, Err(e)),
                    Ok(task) => (done.0, Ok(DecidedModel { decision, task })),
                }
            },
        }
    }
}

impl AppShared {
    pub fn send_decision_to_task(
        &mut self,
        task_id: &str,
        issued_by: &str,
        target: &str,
        summary: &str,
        decision_id: &str,
        now: Timestamp,
    ) -> (r: Result<DecisionSummary, Failure>)
        ensures
            (final(self)@, seen(r)) == old(self)@.send_decision(
                task_id@,
                issued_by@,
                target@,
                summary@,
                decision_id@,
                now,
            ),
    {
        let assigned = match self.known_task(task_id) {
            Err(e) => {
                return Err(e);
            },
            Ok(task) => task,
        };
        if !same_text(assigned.to_agent.as_str(), target) {
            return Err(
                Failure::new(
                    text("task ").concat(task_id).concat(" is assigned to ").concat(
                        assigned.to_agent.as_str(),
                    ).concat(", not ").concat(target),
                ),
            );
        }
        if assigned.state != TaskState::Analyzed {
            return Err(
                Failure::new(
                    text("task ").concat(task_id).concat(
                        " must be in analyzed state, actual ",
                    ).concat(assigned.state.as_shown()),
                ),
            );
        }
        let task = match self.transition_task_state(
            assigned.task_id.as_str(),
            assigned.to_agent.as_str(),
            TaskState::Analyzed,
            TaskState::DecisionSent,
            "decision_sent",
            now,
        ) {
            Err(e) => {
                return Err(e);
            },
            Ok(task) => task,
        };
        let decision = DecisionSummary {
            decision_id: text(decision_id),
            task_id: task.task_id.clone(),
            issued_by: text(issued_by),
            target_agent: text(target),
            summary: text(summary),
            status: text("sent"),
            created_at: now,
            acknowledged_at: None,
        };
        self.emit(Effect::InsertDecision { decision: decision.dup() });
        self.state.decisions.put(decision.dup());
        self.update_task_latest_main_decision(
            task.dup(),
            &decision,
            "task_latest_decision_updated",
            now,
        );
        self.publish(
            DashboardEvent::DecisionEvent {
                decision: decision.dup(),
                event_type: text("decision_sent"),
            },
        );
        let line = text("sent decision ").concat(decision_id);
        let payload = JsonObject::new().text("decision_id", decision_id).text(
            "summary",
            summary,
        ).text("target_agent", target).render();
        self.log_task(
            &task,
            Some(issued_by),
            "decision_sent",
            line.as_str(),
            Some("main_decision"),
            payload,
        );
        Ok(decision)
    }

    pub fn acknowledge_latest_decision_for_task_with_stream(
        &mut self,
        task_id: &str,
        agent: &str,
        emit_stream_event: bool,
        now: Timestamp,
    ) -> (r: Result<DecisionSummary, Failure>)
        ensures
            (final(self)@, seen(r)) == old(self)@.acknowledge_decision(
                task_id@,
                agent@,
                emit_stream_event,
                now,
            ),
    {
        let task = match self.known_task(task_id) {
            Err(e) => {
                return Err(e);
            },
            Ok(task) => task,
        };
        if !same_text(task.to_agent.as_str(), agent) {
            return Err(
                Failure::new(
                    text("task ").concat(task_id).concat(" is assigned to ").concat(
                        task.to_agent.as_str(),
                    ).concat(", not ").concat(agent),
                ),
            );
        }
        if task.state != TaskState::DecisionSent && task.state != TaskState::Closed {
            return Err(
                Failure::new(
                    text("task ").concat(task_id).concat(
                        " must be in decision_sent or closed state to acknowledge a decision, actual ",
                    ).concat(task.state.as_shown()),
                ),
            );
        }
        let mut updated = match find_newest_decision(
            &self.state.decisions,
            task_id,
            Some(agent),
            true,
        ) {
            Some(d) => d,
            None => {
                return match find_newest_decision(
                    &self.state.decisions,
                    task_id,
                    Some(agent),
                    false,
                ) {
                    Some(d) => Ok(d),
                    None => Err(
                        Failure::new(
                            text("no decision found for task ").concat(task_id).concat(
                                " and agent ",
                            ).concat(agent),
                        ),
                    ),
                };
            },
        };
        updated.status = text("acknowledged");
        updated.acknowledged_at = Some(now);
        self.emit(Effect::AcknowledgeDecision { decision: updated.dup() });
        self.state.decisions.put(updated.dup());
        self.update_task_latest_main_decision(
            task.dup(),
            &updated,
            "task_latest_decision_updated",
            now,
        );
        self.publish(
            DashboardEvent::DecisionEvent {
                decision: updated.dup(),
                event_type: text("decision_acknowledged"),
            },
        );
        let line = text("acknowledged decision ").concat(updated.decision_id.as_str());
        let payload = JsonObject::new().text(
            "decision_id",
            updated.decision_id.as_str(),
        ).text("status", updated.status.as_str()).opt_time(
            "acknowledged_at",
            updated.acknowledged_at,
        ).render();
        self.log_task(
            &task,
            Some(agent),
            "decision_acknowledged",
            line.as_str(),
            Some("child_acknowledged"),
            payload,
        );
        if emit_stream_event {
            let content = text("[DECISION_ACK] task=").concat(task.task_id.as_str()).concat(
                " decision=",
            ).concat(updated.decision_id.as_str());
            self.say(agent, content.as_str(), now);
        }
        Ok(updated)
    }

    pub fn reopen_task_for_next_round(&mut self, task_id: &str, agent: &str, now: Timestamp) -> (r:
        Result<TaskSummary, Failure>)
        ensures
            (final(self)@, seen(r)) == old(self)@.reopen_for_next_round(task_id@, agent@, now),
    {
        match self.acknowledge_latest_decision_for_task_with_stream(task_id, agent, false, now) {
            Err(e) => {
                return Err(e);
            },
            Ok(_) => {},
        }
        match self.transition_task_state(
            task_id,
            agent,
            TaskState::DecisionSent,
            TaskState::Pending,
            "task_reopened",
            now,
        ) {
            Err(e) => Err(e),
            Ok(task) => {
                self.claim_task_for_agent(agent, task.task_id.as_str(), now);
                Ok(task)
            },
        }
    }

    pub fn close_task_after_decision(&mut self, task_id: &str, agent: &str, now: Timestamp) -> (r:
        Result<TaskSummary, Failure>)
        ensures
            (final(self)@, seen(r)) == old(self)@.close_after_decision(task_id@, agent@, now),
    {
        match self.acknowledge_latest_decision_for_task_with_stream(task_id, agent, true, now) {
            Err(e) => {
                return Err(e);
            },
            Ok(_) => {},
        }
        match self.transition_task_state(
            task_id,
            agent,
            TaskState::DecisionSent,
            TaskState::Closed,
            "task_closed",
            now,
        ) {
            Err(e) => Err(e),
            Ok(task) => {
                match self.state.agents.get(agent) {
                    Some(a) => {
                        let mut updated = a;
                        updated.current_task_id = None;
                        updated.state = AgentSessionState::Idle;
                        updated.last_output_at = Some(now);
                        self.persist_agent(&updated);
                    },
                    None => {},
                }
                Ok(task)
            },
        }
    }

    pub fn analyze_task_for_main(&mut self, task_id: &str, analyzer: &str, now: Timestamp) -> (r:
        Result<TaskSummary, Failure>)
        ensures
            (final(self)@, seen(r)) == old(self)@.analyze_task(task_id@, analyzer@, now),
    {
        let mut expected: Vec<TaskState> = Vec::new();
        expected.push(TaskState::Reported);
        expected.push(TaskState::BlockedWaitingDecision);
        match self.transition_any_of(
            task_id,
            &expected,
            TaskState::Analyzed,
            "main_analyzed",
            now,
        ) {
            Err(e) => Err(e),
            Ok(task) => {
                self.say(analyzer, text("[ANALYZE] task=").concat(task_id).as_str(), now);
                Ok(task)
            },
        }
    }

    pub fn resolve_task_for_main(
        &mut self,
        task_id: &str,
        analyzer: &str,
        summary: &str,
        decision_id: &str,
        now: Timestamp,
    ) -> (r: Result<DecidedTask, Failure>)
        ensures
            (final(self)@, seen(r)) == old(self)@.resolve_task(
                task_id@,
                analyzer@,
                summary@,
                decision_id@,
                now,
            ),
    {
        let task = match self.known_task(task_id) {
            Err(e) => {
                return Err(e);
            },
            Ok(task) => task,
        };
        if task.state != TaskState::Reported && task.state != TaskState::BlockedWaitingDecision
            && task.state != TaskState::Analyzed {
            return Err(
                Failure::new(
                    text("task ").concat(task_id).concat(
                        " must be in reported, blocked_waiting_decision, or analyzed state to resolve, actual ",
                    ).concat(task.state.as_shown()),
                ),
            );
        }
        if task.state != TaskState::Analyzed {
            match self.analyze_task_for_main(task_id, analyzer, now) {
                Err(e) => {
                    return Err(e);
                },
                Ok(_) => {},
            }
        }
        let decision = match self.send_decision_to_task(
            task_id,
            analyzer,
            task.to_agent.as_str(),
            summary,
            decision_id,
            now,
        ) {
            Err(e) => {
                return Err(e);
            },
            Ok(decision) => decision,
        };
        match self.reopen_task_for_next_round(task_id, task.to_agent.as_str(), now) {
            Err(e) => Err(e),
            Ok(task) => Ok(DecidedTask { decision, task }),
        }
    }

    pub fn decide_task(
        &mut self,
        task_id: &str,
        issued_by: &str,
        target: &str,
        summary: &str,
        auto_close: bool,
        decision_id: &str,
        now: Timestamp,
    ) -> (r: Result<DecidedTask, Failure>)
        ensures
            (final(self)@, seen(r)) == old(self)@.decide_task(
                task_id@,
                issued_by@,
                target@,
                summary@,
                auto_close,
                decision_id@,
                now,
            ),
    {
        let decision = match self.send_decision_to_task(
            task_id,
            issued_by,
            target,
            summary,
            decision_id,
            now,
        ) {
            Err(e) => {
                return Err(e);
            },
            Ok(decision) => decision,
        };
        let done = if auto_close {
            self.close_task_after_decision(task_id, target, now)
        } else {
            self.reopen_task_for_next_round(task_id, target, now)
        };
        match done {
            Err(e) => Err(e),
            Ok(task) => Ok(DecidedTask { decision, task }),
        }
    }
}

} // verus!
