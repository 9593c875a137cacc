//! The life of a task: transitions, rounds, decisions, and what they do to the
//! agent that holds the task.

use vstd::prelude::*;

use crate::decision::{
    apply_latest_decision_fields, mirrors_decision, task_latest_decision_is_current,
    with_decision,
};
use crate::draft::{is_task_terminal, terminal};
use crate::failure::{seen, Failure};
use crate::json::{json_opt, json_opt_time, no_fields, object_text, JsonModel, JsonObject};
use crate::models::{
    AgentModel, AgentSessionState, DashboardEvent, DashboardModel, DecisionModel,
    DecisionSummary, TaskModel, TaskState, TaskSummary,
};
use crate::state::{known_agent, known_task, AppShared, Effect, EffectModel, World};
use crate::table::{put, view_opt, Dup};
use crate::text::{copy_text, opt_str, opt_text, same_text, text, text_or};
use crate::time::Timestamp;

verus! {

/// The states, as a message lists them.
pub open spec fn shown_states(states: Seq<TaskState>) -> Seq<char> {
    "["@ + shown_items(states) + "]"@
}

pub open spec fn shown_items(states: Seq<TaskState>) -> Seq<char>
    decreases states.len(),
{
    if states.len() == 0 {
        Seq::empty()
    } else if states.len() == 1 {
        states[0].shown()
    } else {
        shown_items(states.drop_last()) + ", "@ + states.last().shown()
    }
}

fn show_states(states: &Vec<TaskState>) -> (r: String)
    ensures
        r@ == shown_states(states@),
{
    let mut out = String::new();
    let mut i: usize = 0;
    while i < states.len()
        invariant
            i <= states.len(),
            out@ == shown_items(states@.take(i as int)),
        decreases states.len() - i,
    {
        if i > 0 {
            out.append(", ");
        }
        out.append(states[i].as_shown());
        i += 1;
        proof {
            let head = states@.take(i as int);
            assert(head.drop_last() =~= states@.take(i - 1));
            if i == 1 {
                assert(out@ =~= head[0].shown());
            }
        }
    }
    assert(states@.take(i as int) =~= states@);
    text("[").concat(out.as_str()).concat("]")
}

fn has_state(states: &Vec<TaskState>, state: TaskState) -> (r: bool)
    ensures
        r == states@.contains(state),
{
    let mut i: usize = 0;
    while i < states.len()
        invariant
            i <= states.len(),
            forall|j: int| 0 <= j < i ==> states@[j] != state,
        decreases states.len() - i,
    {
        if states[i] == state {
            return true;
        }
        i += 1;
    }
    false
}

/// The outcome of a round of a task.
pub struct RoundOutcome {
    pub task: TaskSummary,
    pub decision: Option<DecisionSummary>,
}

#[verifier::ext_equal]
pub struct OutcomeModel {
    pub task: TaskModel,
    pub decision: Option<DecisionModel>,
}

impl View for RoundOutcome {
    type V = OutcomeModel;

    open spec fn view(&self) -> OutcomeModel {
        OutcomeModel { task: self.task@, decision: view_opt(self.decision) }
    }
}

/// A decision and the task that it continues or closes.
pub struct DecidedTask {
    pub decision: DecisionSummary,
    pub task: TaskSummary,
}

#[verifier::ext_equal]
pub struct DecidedModel {
    pub decision: DecisionModel,
    pub task: TaskModel,
}

impl View for DecidedTask {
    type V = DecidedModel;

    open spec fn view(&self) -> DecidedModel {
        DecidedModel { decision: self.decision@, task: self.task@ }
    }
}

/// The task after it entered a state.
pub open spec fn entered(task: TaskModel, next: TaskState, now: Timestamp) -> TaskModel {
    TaskModel {
        state: next,
        updated_at: now,
        closed_at: if terminal(next) {
            Some(now)
        } else {
            task.closed_at
        },
        ..task
    }
}

/// The agent after it was given a task.
pub open spec fn claimed(agent: AgentModel, task_id: Seq<char>, now: Timestamp) -> AgentModel {
    AgentModel {
        current_task_id: Some(task_id),
        state: AgentSessionState::Busy,
        last_output_at: Some(now),
        last_heartbeat_at: Some(now),
        ..agent
    }
}

pub open spec fn cancellable() -> Seq<TaskState> {
    Seq::<TaskState>::empty().push(TaskState::Pending).push(TaskState::Accepted).push(
        TaskState::Running,
    ).push(TaskState::Completed).push(TaskState::Reported).push(TaskState::Analyzed).push(
        TaskState::BlockedWaitingDecision,
    )
}

pub open spec fn analyzable() -> Seq<TaskState> {
    Seq::<TaskState>::empty().push(TaskState::Reported).push(TaskState::BlockedWaitingDecision)
}

pub open spec fn requested_by_text(requested_by: Seq<char>) -> Seq<char> {
    object_text(no_fields().push(("requested_by"@, JsonModel::Text(requested_by))))
}

impl World {
    /// The task's record is stored with an entry in its history, kept and published.
    pub open spec fn move_task(
        self,
        task: TaskModel,
        event_type: Seq<char>,
        from: TaskState,
    ) -> World {
        let stored = self.emit(EffectModel::UpdateTask { task }).emit(
            EffectModel::InsertTaskEvent {
                task_id: task.task_id,
                event_type,
                from_state: Some(from),
                to_state: Some(task.state),
                payload: "{}"@,
            },
        );
        let kept = World { tasks: put(stored.tasks, task), ..stored };
        kept.publish(DashboardModel::TaskEvent { task, event_type })
    }

    /// A remark in the history of a task that stays in its state.
    pub open spec fn note_task(
        self,
        task_id: Seq<char>,
        event_type: Seq<char>,
        state: TaskState,
        payload: Seq<char>,
    ) -> World {
        self.emit(
            EffectModel::InsertTaskEvent {
                task_id,
                event_type,
                from_state: Some(state),
                to_state: Some(state),
                payload,
            },
        )
    }

    pub open spec fn transition(
        self,
        task: TaskModel,
        next: TaskState,
        event_type: Seq<char>,
        actor: Option<Seq<char>>,
        now: Timestamp,
    ) -> (World, TaskModel) {
        let updated = entered(task, next, now);
        let logged = self.move_task(updated, event_type, task.state).log_task(
            updated,
            actor,
            event_type,
            "task state "@ + task.state.shown() + " -> "@ + next.shown(),
            Some("task_state_transition"@),
            object_text(
                no_fields().push(("from_state"@, JsonModel::Text(task.state.label()))).push(
                    ("to_state"@, JsonModel::Text(next.label())),
                ).push(("from_agent"@, JsonModel::Text(task.from_agent))).push(
                    ("to_agent"@, JsonModel::Text(task.to_agent)),
                ),
            ),
        );
        if next == TaskState::Pending || next == TaskState::Cancelled || next == TaskState::Closed {
            (logged.sync_bridge_for_task(updated, event_type, now), updated)
        } else {
            (logged, updated)
        }
    }

    /// The task moves to the next state, if it is the agent's and in the state expected.
    pub open spec fn transition_task(
        self,
        task_id: Seq<char>,
        agent: Seq<char>,
        expected: TaskState,
        next: TaskState,
        event_type: Seq<char>,
        now: Timestamp,
    ) -> (World, Result<TaskModel, Seq<char>>) {
        match known_task(self, task_id) {
            Err(e) => (self, Err(e)),
            Ok(task) => if task.to_agent != agent {
                (
                    self,
                    Err(
                        "task "@ + task_id + " is assigned to "@ + task.to_agent + ", not "@
                            + agent,
                    ),
                )
            } else if task.state != expected {
                (
                    self,
                    Err(
                        "task "@ + task_id + " must be in state "@ + expected.shown()
                            + ", actual "@ + task.state.shown(),
                    ),
                )
            } else {
                let moved = self.transition(task, next, event_type, Some(agent), now);
                (moved.0, Ok(moved.1))
            },
        }
    }

    /// The task moves to the next state, if it is in one of those expected.
    pub open spec fn transition_any_of(
        self,
        task_id: Seq<char>,
        expected: Seq<TaskState>,
        next: TaskState,
        event_type: Seq<char>,
        now: Timestamp,
    ) -> (World, Result<TaskModel, Seq<char>>) {
        match known_task(self, task_id) {
            Err(e) => (self, Err(e)),
            Ok(task) => if !expected.contains(task.state) {
                (
                    self,
                    Err(
                        "task "@ + task_id + " must be in one of "@ + shown_states(expected)
                            + ", actual "@ + task.state.shown(),
                    ),
                )
            } else {
                let moved = self.transition(task, next, event_type, None, now);
                (moved.0, Ok(moved.1))
            },
        }
    }

    /// The agent is put into a state.
    pub open spec fn set_agent_state(
        self,
        agent: Seq<char>,
        state: AgentSessionState,
        now: Timestamp,
    ) -> (World, Result<(), Seq<char>>) {
        match known_agent(self, agent) {
            Err(e) => (self, Err(e)),
            Ok(a) => (
                self.persist_agent(AgentModel { state, last_heartbeat_at: Some(now), ..a }),
                Ok(()),
            ),
        }
    }

    /// The agent has finished a round on a thread.
    pub open spec fn agent_after_round(
        self,
        agent: Seq<char>,
        thread_id: Option<Seq<char>>,
        state: AgentSessionState,
        completed_at: Timestamp,
        now: Timestamp,
    ) -> (World, Result<(), Seq<char>>) {
        match known_agent(self, agent) {
            Err(e) => (self, Err(e)),
            Ok(a) => (
                self.persist_agent(
                    AgentModel {
                        thread_id,
                        state,
                        last_output_at: Some(completed_at),
                        last_heartbeat_at: Some(now),
                        ..a
                    },
                ),
                Ok(()),
            ),
        }
    }

    /// The agent gives up its task.
    pub open spec fn release_agent(
        self,
        agent: Seq<char>,
        state: AgentSessionState,
        now: Timestamp,
    ) -> (World, Result<(), Seq<char>>) {
        match known_agent(self, agent) {
            Err(e) => (self, Err(e)),
            Ok(a) => (
                self.persist_agent(
                    AgentModel {
                        current_task_id: None,
                        state,
                        last_heartbeat_at: Some(now),
                        ..a
                    },
                ),
                Ok(()),
            ),
        }
    }

    /// The agent, where there is one, is given the task.
    pub open spec fn claim_task(self, agent: Seq<char>, task_id: Seq<char>, now: Timestamp) -> World {
        match self.agent(agent) {
            Some(a) => self.persist_agent(claimed(a, task_id, now)),
            None => self,
        }
    }

    /// The child's report is put into the task's record.
    pub open spec fn child_feedback(
        self,
        task: TaskModel,
        status: Seq<char>,
        summary: Option<Seq<char>>,
        blocking: Option<Seq<char>>,
        topic: Option<Seq<char>>,
        details: Option<Seq<char>>,
        event_type: Seq<char>,
        now: Timestamp,
    ) -> (World, TaskModel) {
        let updated = TaskModel {
            round_count: if task.round_count == u32::MAX {
                u32::MAX
            } else {
                (task.round_count + 1) as u32
            },
            latest_child_status: Some(status),
            latest_child_summary: summary,
            latest_child_blocking: blocking,
            latest_child_topic: topic,
            latest_child_details: details,
            updated_at: now,
            ..task
        };
        let logged = self.persist_task(updated, event_type).log_task(
            updated,
            Some(updated.to_agent),
            event_type,
            "child feedback status="@ + status + " summary="@ + text_or(summary, ""@),
            blocking,
            object_text(
                no_fields().push(
                    ("round_count"@, JsonModel::Number(updated.round_count as u64)),
                ).push(("latest_child_status"@, JsonModel::Text(status))).push(
                    ("latest_child_summary"@, json_opt(summary)),
                ).push(("latest_child_topic"@, json_opt(topic))).push(
                    ("latest_child_details"@, json_opt(details)),
                ),
            ),
        );
        (logged.sync_bridge_for_task(updated, event_type, now), updated)
    }

    /// The task's record mirrors a decision.
    pub open spec fn mirror_decision(
        self,
        task: TaskModel,
        decision: DecisionModel,
        event_type: Seq<char>,
        now: Timestamp,
    ) -> World {
        if mirrors_decision(task, Some(decision)) {
            self
        } else {
            let updated = TaskModel { updated_at: now, ..with_decision(task, Some(decision)) };
            self.persist_task(updated, event_type).log_task(
                updated,
                Some(decision.issued_by),
                event_type,
                decision.summary,
                Some("task_latest_decision_synced"@),
                object_text(
                    no_fields().push(
                        ("latest_decision_id"@, JsonModel::Text(decision.decision_id)),
                    ).push(("latest_decision_status"@, JsonModel::Text(decision.status))).push(
                        ("latest_decision_issued_by"@, JsonModel::Text(decision.issued_by)),
                    ).push(
                        ("latest_decision_at"@, json_opt_time(Some(decision.created_at))),
                    ),
                ),
            )
        }
    }
}

impl AppShared {
    pub fn move_task(&mut self, task: &TaskSummary, event_type: &str, from: TaskState)
        ensures
            final(self)@ == old(self)@.move_task(task@, event_type@, from),
    {
        self.emit(Effect::UpdateTask { task: task.dup() });
        self.emit(
            Effect::InsertTaskEvent {
                task_id: task.task_id.clone(),
                event_type: text(event_type),
                from_state: Some(from),
                to_state: Some(task.state),
                payload: text("{}"),
            },
        );
        self.state.tasks.put(task.dup());
        self.publish(DashboardEvent::TaskEvent { task: task.dup(), event_type: text(event_type) });
    }

    pub fn note_task(&mut self, task_id: &str, event_type: &str, state: TaskState, payload: &str)
        ensures
            final(self)@ == old(self)@.note_task(task_id@, event_type@, state, payload@),
    {
        self.emit(
            Effect::InsertTaskEvent {
                task_id: text(task_id),
                event_type: text(event_type),
                from_state: Some(state),
                to_state: Some(state),
                payload: text(payload),
            },
        );
    }

    fn transition_impl(
        &mut self,
        task: TaskSummary,
        next: TaskState,
        event_type: &str,
        actor: Option<&str>,
        now: Timestamp,
    ) -> (r: TaskSummary)
        ensures
            (final(self)@, r@) == old(self)@.transition(
                task@,
                next,
                event_type@,
                opt_str(actor),
                now,
            ),
    {
        let from = task.state;
        let mut updated = task;
        updated.state = next;
        updated.updated_at = now;
        if is_task_terminal(next) {
            updated.closed_at = Some(now);
        }
        self.move_task(&updated, event_type, from);
        let summary = text("task state ").concat(from.as_shown()).concat(" -> ").concat(
            next.as_shown(),
        );
        let payload = JsonObject::new().text("from_state", from.as_label()).text(
            "to_state",
            next.as_label(),
        ).text("from_agent", updated.from_agent.as_str()).text(
            "to_agent",
            updated.to_agent.as_str(),
        ).render();
        self.log_task(
            &updated,
            actor,
            event_type,
            summary.as_str(),
            Some("task_state_transition"),
            payload,
        );
        if next == TaskState::Pending || next == TaskState::Cancelled || next == TaskState::Closed {
            self.sync_bridge_for_task(&updated, event_type, now);
        }
        updated
    }

    pub fn transition_task_state(
        &mut self,
        task_id: &str,
        agent: &str,
        expected: TaskState,
        next: TaskState,
        event_type: &str,
        now: Timestamp,
    ) -> (r: Result<TaskSummary, Failure>)
        ensures
            (final(self)@, seen(r)) == old(self)@.transition_task(
                task_id@,
                agent@,
                expected,
                next,
                event_type@,
                now,
            ),
    {
        let task = match self.known_task(task_id) {
            Err(e) => {
                return Err(e);
            },
            Ok(task) => task,
        };
        if !same_text(task.to_agent.as_str(), agent) {
            return Err(
                Failure::new(
                    text("task ").concat(task_id).concat(" is assigned to ").concat(
                        task.to_agent.as_str(),
                    ).concat(", not ").concat(agent),
                ),
            );
        }
        if task.state != expected {
            return Err(
                Failure::new(
                    text("task ").concat(task_id).concat(" must be in state ").concat(
                        expected.as_shown(),
                    ).concat(", actual ").concat(task.state.as_shown()),
                ),
            );
        }
        Ok(self.transition_impl(task, next, event_type, Some(agent), now))
    }

    pub fn transition_any_of(
        &mut self,
        task_id: &str,
        expected: &Vec<TaskState>,
        next: TaskState,
        event_type: &str,
        now: Timestamp,
    ) -> (r: Result<TaskSummary, Failure>)
        ensures
            (final(self)@, seen(r)) == old(self)@.transition_any_of(
                task_id@,
                expected@,
                next,
                event_type@,
                now,
            ),
    {
        let task = match self.known_task(task_id) {
            Err(e) => {
                return Err(e);
            },
            Ok(task) => task,
        };
        if !has_state(expected, task.state) {
            return Err(
                Failure::new(
                    text("task ").concat(task_id).concat(" must be in one of ").concat(
                        show_states(expected).as_str(),
                    ).concat(", actual ").concat(task.state.as_shown()),
                ),
            );
        }
        Ok(self.transition_impl(task, next, event_type, None, now))
    }

    pub fn set_agent_runtime_state(
        &mut self,
        agent: &str,
        state: AgentSessionState,
        now: Timestamp,
    ) -> (r: Result<(), Failure>)
        ensures
            (final(self)@, seen(r)) == old(self)@.set_agent_state(agent@, state, now),
    {
        let mut updated = match self.registered_agent(agent) {
            Err(e) => {
                return Err(e);
            },
            Ok(a) => a,
        };
        updated.state = state;
        updated.last_heartbeat_at = Some(now);
        self.persist_agent(&updated);
        Ok(())
    }

    pub fn update_agent_after_round(
        &mut self,
        agent: &str,
        thread_id: Option<String>,
        state: AgentSessionState,
        completed_at: Timestamp,
        now: Timestamp,
    ) -> (r: Result<(), Failure>)
        ensures
            (final(self)@, seen(r)) == old(self)@.agent_after_round(
                agent@,
                opt_text(thread_id),
                state,
                completed_at,
                now,
            ),
    {
        let mut updated = match self.registered_agent(agent) {
            Err(e) => {
                return Err(e);
            },
            Ok(a) => a,
        };
        updated.thread_id = thread_id;
        updated.state = state;
        updated.last_output_at = Some(completed_at);
        updated.last_heartbeat_at = Some(now);
        self.persist_agent(&updated);
        Ok(())
    }

    pub fn release_agent_after_terminal_task(
        &mut self,
        agent: &str,
        state: AgentSessionState,
        now: Timestamp,
    ) -> (r: Result<(), Failure>)
        ensures
            (final(self)@, seen(r)) == old(self)@.release_agent(agent@, state, now),
    {
        let mut updated = match self.registered_agent(agent) {
            Err(e) => {
                return Err(e);
            },
            Ok(a) => a,
        };
        updated.current_task_id = None;
        updated.state = state;
        updated.last_heartbeat_at = Some(now);
        self.persist_agent(&updated);
        Ok(())
    }

    pub fn claim_task_for_agent(&mut self, agent: &str, task_id: &str, now: Timestamp)
        ensures
            final(self)@ == old(self)@.claim_task(agent@, task_id@, now),
    {
        match self.state.agents.get(agent) {
            Some(a) => {
                let mut updated = a;
                updated.current_task_id = Some(text(task_id));
                updated.state = AgentSessionState::Busy;
                updated.last_output_at = Some(now);
                updated.last_heartbeat_at = Some(now);
                self.persist_agent(&updated);
            },
            None => {},
        }
    }

    pub fn update_task_latest_child_feedback(
        &mut self,
        task: TaskSummary,
        status: &str,
        summary: Option<String>,
        blocking: Option<String>,
        topic: Option<String>,
        details: Option<String>,
        event_type: &str,
        now: Timestamp,
    ) -> (r: TaskSummary)
        ensures
            (final(self)@, r@) == old(self)@.child_feedback(
                task@,
                status@,
                opt_text(summary),
                opt_text(blocking),
                opt_text(topic),
                opt_text(details),
                event_type@,
                now,
            ),
    {
        let mut updated = task;
        updated.round_count = updated.round_count.saturating_add(1);
        updated.latest_child_status = Some(text(status));
        updated.latest_child_summary = summary;
        updated.latest_child_blocking = blocking;
        updated.latest_child_topic = topic;
        updated.latest_child_details = details;
        updated.updated_at = now;
        self.persist_task(&updated, event_type);
        let said = match &updated.latest_child_summary {
            Some(s) => s.clone(),
            None => text(""),
        };
        let line = text("child feedback status=").concat(status).concat(" summary=").concat(
            said.as_str(),
        );
        let payload = JsonObject::new().number("round_count", updated.round_count as u64).text(
            "latest_child_status",
            status,
        ).opt_text("latest_child_summary", &updated.latest_child_summary).opt_text(
            "latest_child_topic",
            &updated.latest_child_topic,
        ).opt_text("latest_child_details", &updated.latest_child_details).render();
        let actor = updated.to_agent.clone();
        let blocked = copy_text(&updated.latest_child_blocking);
        let reason = match &blocked {
            Some(s) => Some(s.as_str()),
            None => None,
        };
        self.log_task(
            &updated,
            Some(actor.as_str()),
            event_type,
            line.as_str(),
            reason,
            payload,
        );
        self.sync_bridge_for_task(&updated, event_type, now);
        updated
    }

    pub fn update_task_latest_main_decision(
        &mut self,
        task: TaskSummary,
        decision: &DecisionSummary,
        event_type: &str,
        now: Timestamp,
    )
        ensures
            final(self)@ == old(self)@.mirror_decision(task@, decision@, event_type@, now),
    {
        if task_latest_decision_is_current(&task, Some(decision)) {
            return;
        }
        let mut updated = task;
        apply_latest_decision_fields(&mut updated, Some(decision));
        updated.updated_at = now;
        self.persist_task(&updated, event_type);
        let payload = JsonObject::new().text(
            "latest_decision_id",
            decision.decision_id.as_str(),
        ).text("latest_decision_status", decision.status.as_str()).text(
            "latest_decision_issued_by",
            decision.issued_by.as_str(),
        ).opt_time("latest_decision_at", Some(decision.created_at)).render();
        self.log_task(
            &updated,
            Some(decision.issued_by.as_str()),
            event_type,
            decision.summary.as_str(),
            Some("task_latest_decision_synced"),
            payload,
        );
    }
}

} // verus!
