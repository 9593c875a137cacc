//! Sessions: the runs of backend processes, how they begin, speak, end and are stopped.

use vstd::prelude::*;

use crate::agents::{json_opt_kind, pane_kind_value};
use crate::backend::{conclude_round, round_outcome, BackendEvent, BackendFinished};
use crate::draft::{ad_hoc_check, ensure_agent_ready_for_ad_hoc_round};
use crate::failure::{seen, Failure};
use crate::json::{
    json_opt, json_opt_number, json_opt_time, no_fields, object_text, JsonModel, JsonObject,
};
use crate::models::{
    AgentModel, AgentRoundResult, AgentSessionState, AgentSummary, AppServerOwner,
    CodexSessionStatus, DashboardEvent, DashboardModel, RoundModel, SessionMode, SessionModel,
    SessionSummary,
};
use crate::order::{rank_all, ranked};
use crate::state::{
    known_agent, AppShared, Effect, EffectModel, EventDraftModel, LiveModel, LiveSession,
    ManagedModel, ManagedSession, RuntimeEventDraft, World,
};
use crate::table::{found, put, views, without, Dup, Table};
use crate::text::{
    contains, copy_text, decimal, holds_part, join, joined, opt_text, same_text, text, texts,
    to_decimal,
};
use crate::time::Timestamp;

verus! {

/// A session that is asked to stop.
pub struct StopRequest {
    pub session_id: String,
    pub agent: String,
    pub managed: bool,
}

#[verifier::ext_equal]
pub struct StopModel {
    pub session_id: Seq<char>,
    pub agent: Seq<char>,
    pub managed: bool,
}

impl View for StopRequest {
    type V = StopModel;

    open spec fn view(&self) -> StopModel {
        StopModel {
            session_id: self.session_id@,
            agent: self.agent@,
            managed: self.managed,
        }
    }
}

/// What is answered when a session was asked to stop.
pub fn acknowledge_stop(stop: &StopRequest) -> (r: String)
    ensures
        r@ == "stop requested for current session "@ + stop@.session_id + " on agent "@
            + stop@.agent,
{
    text("stop requested for current session ").concat(stop.session_id.as_str()).concat(
        " on agent ",
    ).concat(stop.agent.as_str())
}

/// The session of a round, as it begins.
pub open spec fn new_session(
    session_id: Seq<char>,
    agent: Seq<char>,
    mode: SessionMode,
    pid: Option<u32>,
    thread_id: Option<Seq<char>>,
    now: Timestamp,
) -> SessionModel {
    SessionModel {
        session_id,
        agent_name: agent,
        session_mode: mode,
        pid,
        thread_id,
        status: CodexSessionStatus::Running,
        started_at: now,
        ended_at: None,
        last_output_at: None,
    }
}

pub fn make_session(
    session_id: &str,
    agent: &str,
    mode: SessionMode,
    pid: Option<u32>,
    thread_id: &Option<String>,
    now: Timestamp,
) -> (r: SessionSummary)
    ensures
        r@ == new_session(session_id@, agent@, mode, pid, opt_text(*thread_id), now),
{
    SessionSummary {
        session_id: text(session_id),
        agent_name: text(agent),
        session_mode: mode,
        pid,
        thread_id: copy_text(thread_id),
        status: CodexSessionStatus::Running,
        started_at: now,
        ended_at: None,
        last_output_at: None,
    }
}

pub open spec fn ended_event(status: CodexSessionStatus) -> Seq<char> {
    match status {
        CodexSessionStatus::Succeeded => "session_succeeded"@,
        CodexSessionStatus::Failed => "session_failed"@,
        CodexSessionStatus::Running => "session_running"@,
    }
}

pub open spec fn ended_session(
    session: SessionModel,
    status: CodexSessionStatus,
    ended_at: Timestamp,
) -> SessionModel {
    SessionModel {
        status,
        ended_at: Some(ended_at),
        last_output_at: match session.last_output_at {
            Some(t) => Some(t),
            None => Some(ended_at),
        },
        ..session
    }
}

/// Whether the message is that of a round that was stopped by request.
pub open spec fn is_stop_message(message: Seq<char>) -> bool {
    holds_part(message, "codex session stop requested for agent"@)
}

pub fn is_session_stop_error(err: &Failure) -> (r: bool)
    ensures
        r == is_stop_message(err@),
{
    contains(err.message.as_str(), "codex session stop requested for agent")
}

/// What is answered when several things were asked to stop.
pub open spec fn stop_report(
    none: Seq<char>,
    some: Seq<char>,
    failed: Seq<char>,
    stopped: Seq<Seq<char>>,
    failures: Seq<Seq<char>>,
) -> Seq<char> {
    if stopped.len() == 0 && failures.len() == 0 {
        none
    } else if failures.len() == 0 {
        some + joined(stopped, ", "@)
    } else if stopped.len() == 0 {
        failed + joined(failures, "; "@)
    } else {
        some + joined(stopped, ", "@) + "; failures: "@ + joined(failures, "; "@)
    }
}

fn report_stops(
    none: &str,
    some: &str,
    failed: &str,
    stopped: &Vec<String>,
    failures: &Vec<String>,
) -> (r: String)
    ensures
        r@ == stop_report(none@, some@, failed@, texts(stopped@), texts(failures@)),
{
    if stopped.len() == 0 && failures.len() == 0 {
        text(none)
    } else if failures.len() == 0 {
        text(some).concat(join(stopped, ", ").as_str())
    } else if stopped.len() == 0 {
        text(failed).concat(join(failures, "; ").as_str())
    } else {
        text(some).concat(join(stopped, ", ").as_str()).concat("; failures: ").concat(
            join(failures, "; ").as_str(),
        )
    }
}

pub fn managed_stop_report(stopped: &Vec<String>, failures: &Vec<String>) -> (r: String)
    ensures
        r@ == stop_report(
            "no live daemon-managed sessions"@,
            "stop requested for daemon-managed sessions on agents: "@,
            "no live daemon-managed sessions stopped; failures: "@,
            texts(stopped@),
            texts(failures@),
        ),
{
    report_stops(
        "no live daemon-managed sessions",
        "stop requested for daemon-managed sessions on agents: ",
        "no live daemon-managed sessions stopped; failures: ",
        stopped,
        failures,
    )
}

pub fn pane_stop_report(stopped: &Vec<String>, failures: &Vec<String>) -> (r: String)
    ensures
        r@ == stop_report(
            "no registered visible panes"@,
            "stop requested for visible panes on agents: "@,
            "no visible panes stopped; failures: "@,
            texts(stopped@),
            texts(failures@),
        ),
{
    report_stops(
        "no registered visible panes",
        "stop requested for visible panes on agents: ",
        "no visible panes stopped; failures: ",
        stopped,
        failures,
    )
}

/// How the attempt to stop a window came out.
#[derive(Clone, Copy, Debug, PartialEq, Eq, Structural)]
pub enum VisiblePaneStopOutcome {
    StopRequested,
    AlreadyGone,
}

/// The agents that have a window.
pub open spec fn with_panes(agents: Seq<AgentModel>) -> Seq<AgentModel>
    decreases agents.len(),
{
    if agents.len() == 0 {
        agents
    } else {
        let rest = with_panes(agents.drop_last());
        if agents.last().visible_pane_pid is Some {
            rest.push(agents.last())
        } else {
            rest
        }
    }
}

impl World {
    /// The session's record is stored, kept, published and logged.
    pub open spec fn upsert_session(self, session: SessionModel, event_type: Seq<char>) -> World {
        let stored = self.emit(EffectModel::SaveSession { session });
        let kept = World { sessions: put(stored.sessions, session), ..stored };
        kept.publish(DashboardModel::SessionEvent { session, event_type }).log(
            EventDraftModel {
                scope: "session"@,
                scope_id: session.session_id,
                agent_name: Some(session.agent_name),
                task_id: None,
                session_id: Some(session.session_id),
                actor_name: Some(session.agent_name),
                event_type,
                summary: "session "@ + session.session_mode.shown() + " status "@
                    + session.status.shown(),
                reason: Some("session_state_changed"@),
                payload_json: Some(
                    object_text(
                        no_fields().push(("thread_id"@, json_opt(session.thread_id))).push(
                            ("pid"@, json_opt_number(session.pid)),
                        ).push(("status"@, JsonModel::Text(session.status.label()))).push(
                            ("started_at"@, json_opt_time(Some(session.started_at))),
                        ).push(("ended_at"@, json_opt_time(session.ended_at))).push(
                            ("last_output_at"@, json_opt_time(session.last_output_at)),
                        ),
                    ),
                ),
            },
        )
    }

    pub open spec fn set_current_session(
        self,
        agent: Seq<char>,
        session_id: Option<Seq<char>>,
        now: Timestamp,
    ) -> (World, Result<(), Seq<char>>) {
        match known_agent(self, agent) {
            Err(e) => (self, Err(e)),
            Ok(a) => (
                self.persist_agent(
                    AgentModel {
                        current_session_id: session_id,
                        last_heartbeat_at: Some(now),
                        ..a
                    },
                ),
                Ok(()),
            ),
        }
    }

    /// The session has a thread now; one that is not known changes nothing.
    pub open spec fn attach_thread(self, session_id: Seq<char>, thread_id: Seq<char>) -> World {
        match self.session(session_id) {
            None => self,
            Some(session) => self.upsert_session(
                SessionModel { thread_id: Some(thread_id), ..session },
                "session_thread_attached"@,
            ),
        }
    }

    /// The session has ended; its agent may lose it as its current one.
    pub open spec fn finalize_session(
        self,
        session_id: Seq<char>,
        status: CodexSessionStatus,
        ended_at: Timestamp,
        clear_current: bool,
        now: Timestamp,
    ) -> (World, Result<(), Seq<char>>) {
        match self.session(session_id) {
            None => (self, Err("session not found: "@ + session_id)),
            Some(session) => {
                let done = self.upsert_session(
                    ended_session(session, status, ended_at),
                    ended_event(status),
                );
                if clear_current {
                    done.set_current_session(session.agent_name, None, now)
                } else {
                    (done, Ok(()))
                }
            },
        }
    }

    /// A round begins: its session is kept and becomes the agent's current one.
    pub open spec fn start_round_session(self, session: SessionModel, now: Timestamp) -> (
        World,
        Result<(), Seq<char>>,
    ) {
        let attached = self.upsert_session(session, "session_started"@).set_current_session(
            session.agent_name,
            Some(session.session_id),
            now,
        );
        match attached.1 {
            Err(e) => (attached.0, Err(e)),
            Ok(_) => (
                World {
                    active_sessions: put(
                        attached.0.active_sessions,
                        LiveModel {
                            session_id: session.session_id,
                            agent_name: session.agent_name,
                        },
                    ),
                    ..attached.0
                },
                Ok(()),
            ),
        }
    }

    /// Something that a running session says.
    pub open spec fn session_event(
        self,
        session_id: Seq<char>,
        agent: Seq<char>,
        event: BackendEvent,
        now: Timestamp,
    ) -> World {
        match event {
            BackendEvent::Line { stream, line } => self.record_stream(
                Some(session_id),
                agent,
                stream.label(),
                line@,
                now,
            ),
            BackendEvent::ThreadStarted { thread_id } => self.attach_thread(
                session_id,
                thread_id@,
            ),
        }
    }

    /// A round has finished: its session ends, and the round is answered.
    pub open spec fn finish_round_session(
        self,
        session_id: Seq<char>,
        agent: Seq<char>,
        finished: BackendFinished,
        now: Timestamp,
    ) -> (World, Result<RoundModel, Seq<char>>) {
        let left = World {
            active_sessions: without(self.active_sessions, session_id),
            ..self
        };
        let ended = left.finalize_session(
            session_id,
            if finished.success {
                CodexSessionStatus::Succeeded
            } else {
                CodexSessionStatus::Failed
            },
            now,
            true,
            now,
        );
        match ended.1 {
            Err(e) => (ended.0, Err(e)),
            Ok(_) => (
                ended.0,
                round_outcome(
                    finished.parsed@,
                    texts(finished.stderr_lines@),
                    finished.success,
                    finished.status_label@,
                    finished.stopped,
                    agent,
                    now,
                ),
            ),
        }
    }

    /// Which session of an agent is to be stopped; it is taken off the list of
    /// those that can be.
    pub open spec fn take_session_to_stop(self, agent: Seq<char>) -> (
        World,
        Result<StopModel, Seq<char>>,
    ) {
        match known_agent(self, agent) {
            Err(e) => (self, Err(e)),
            Ok(a) => match a.current_session_id {
                None => if a.app_server_owner == Some(AppServerOwner::Daemon) {
                    match found(self.active_managed_sessions, agent) {
                        None => (
                            self,
                            Err("agent "@ + agent + " has no live managed session"@),
                        ),
                        Some(m) => (
                            World {
                                active_managed_sessions: without(
                                    self.active_managed_sessions,
                                    agent,
                                ),
                                ..self
                            },
                            Ok(
                                StopModel {
                                    session_id: m.session_id,
                                    agent,
                                    managed: true,
                                },
                            ),
                        ),
                    }
                } else {
                    (self, Err("agent "@ + agent + " has no running session"@))
                },
                Some(session_id) => match found(self.active_sessions, session_id) {
                    None => match self.session(session_id) {
                        None => (self, Err("session not found: "@ + session_id)),
                        Some(session) => if session.status == CodexSessionStatus::Running {
                            (
                                self,
                                Err(
                                    "session "@ + session_id
                                        + " is marked running but has no live stop handle; restart cleanup may have detached it"@,
                                ),
                            )
                        } else {
                            (self, Err("session "@ + session_id + " is no longer running"@))
                        },
                    },
                    Some(live) => {
                        let taken = World {
                            active_sessions: without(self.active_sessions, session_id),
                            ..self
                        };
                        if live.agent_name != agent {
                            (
                                taken,
                                Err(
                                    "session "@ + session_id + " belongs to "@ + live.agent_name
                                        + ", not "@ + agent,
                                ),
                            )
                        } else {
                            (taken, Ok(StopModel { session_id, agent, managed: false }))
                        }
                    },
                },
            },
        }
    }

    /// The stop was asked for.
    pub open spec fn note_stop(self, stop: StopModel, now: Timestamp) -> World {
        self.record_stream(
            Some(stop.session_id),
            stop.agent,
            "stdout"@,
            if stop.managed {
                "[MANAGED_SESSION_STOP_REQUESTED]"@
            } else {
                "[SESSION_STOP_REQUESTED]"@
            },
            now,
        )
    }

    /// All app servers that the daemon runs, in the order of their agents' names.
    pub open spec fn take_managed_sessions(self) -> (World, Seq<ManagedModel>) {
        (
            World { active_managed_sessions: Seq::empty(), ..self },
            ranked(self.active_managed_sessions),
        )
    }

    /// The agents whose windows are to be stopped, in the order of their names.
    pub open spec fn panes_to_stop(self) -> Seq<AgentModel> {
        ranked(with_panes(self.agents))
    }

    /// A window was stopped or was gone already.
    pub open spec fn pane_stopped(
        self,
        agent: AgentModel,
        pid: u32,
        outcome: VisiblePaneStopOutcome,
        now: Timestamp,
    ) -> (World, Result<(), Seq<char>>) {
        let cleared = self.set_visible_pane(agent.name, None, None, now);
        match cleared.1 {
            Err(e) => (cleared.0, Err(e)),
            Ok(updated) => (
                cleared.0.log_agent(
                    agent.name,
                    updated.current_task_id,
                    None,
                    match outcome {
                        VisiblePaneStopOutcome::StopRequested => "visible_pane_stop_requested"@,
                        VisiblePaneStopOutcome::AlreadyGone => "visible_pane_missing"@,
                    },
                    match outcome {
                        VisiblePaneStopOutcome::StopRequested => "stop requested for visible pane "@
                            + decimal(pid as nat),
                        VisiblePaneStopOutcome::AlreadyGone => "visible pane "@ + decimal(
                            pid as nat,
                        ) + " was already gone; cleared registration"@,
                    },
                    "visible_pane"@,
                    Some(
                        object_text(
                            no_fields().push(
                                ("visible_pane_pid"@, JsonModel::Number(pid as u64)),
                            ).push(
                                ("visible_pane_kind"@, json_opt_kind(agent.visible_pane_kind)),
                            ),
                        ),
                    ),
                ),
                Ok(()),
            ),
        }
    }

    /// An agent begins a round outside any task.
    pub open spec fn start_ad_hoc_round(self, agent: Seq<char>, now: Timestamp) -> (
        World,
        Result<AgentModel, Seq<char>>,
    ) {
        match known_agent(self, agent) {
            Err(e) => (self, Err(e)),
            Ok(a) => match ad_hoc_check(a) {
                Err(e) => (self, Err(e)),
                Ok(_) => {
                    let busy = self.set_agent_state(agent, AgentSessionState::Busy, now);
                    (busy.0, Ok(a))
                },
            },
        }
    }

    /// A round outside any task has succeeded. The thread that is kept, if one
    /// is given, outweighs the round's own.
    pub open spec fn finish_ad_hoc_round(
        self,
        agent: Seq<char>,
        round: RoundModel,
        kept_thread: Option<Seq<char>>,
        missing: Seq<char>,
        now: Timestamp,
    ) -> (World, Result<(), Seq<char>>) {
        match self.agent(agent) {
            None => (self, Err(missing + agent)),
            Some(a) => {
                let updated = AgentModel {
                    thread_id: match kept_thread {
                        Some(id) => Some(id),
                        None => Some(round.thread_id),
                    },
                    state: AgentSessionState::Idle,
                    last_output_at: Some(round.completed_at),
                    last_heartbeat_at: Some(now),
                    ..a
                };
                (
                    self.persist_agent(updated).say(
                        agent,
                        "[RESULT] "@ + round.final_message,
                        now,
                    ),
                    Ok(()),
                )
            },
        }
    }

    /// A round outside any task has failed: unless it was stopped by request,
    /// its agent is blocked.
    pub open spec fn fail_ad_hoc_round(
        self,
        agent: Seq<char>,
        message: Seq<char>,
        now: Timestamp,
    ) -> (World, Result<(), Seq<char>>) {
        self.set_agent_state(
            agent,
            if is_stop_message(message) {
                AgentSessionState::Idle
            } else {
                AgentSessionState::Blocked
            },
            now,
        )
    }
}

impl AppShared {
    pub fn upsert_session_state(&mut self, session: &SessionSummary, event_type: &str)
        ensures
            final(self)@ == old(self)@.upsert_session(session@, event_type@),
    {
        self.emit(Effect::SaveSession { session: session.dup() });
        self.state.sessions.put(session.dup());
        self.publish(
            DashboardEvent::SessionEvent { session: session.dup(), event_type: text(event_type) },
        );
        let summary = text("session ").concat(session.session_mode.as_shown()).concat(
            " status ",
        ).concat(session.status.as_shown());
        let payload = JsonObject::new().opt_text("thread_id", &session.thread_id).opt_number(
            "pid",
            session.pid,
        ).text("status", session.status.as_label()).opt_time(
            "started_at",
            Some(session.started_at),
        ).opt_time("ended_at", session.ended_at).opt_time(
            "last_output_at",
            session.last_output_at,
        ).render();
        self.log(
            RuntimeEventDraft {
                scope: text("session"),
                scope_id: session.session_id.clone(),
                agent_name: Some(session.agent_name.clone()),
                task_id: None,
                session_id: Some(session.session_id.clone()),
                actor_name: Some(session.agent_name.clone()),
                event_type: text(event_type),
                summary,
                reason: Some(text("session_state_changed")),
                payload_json: Some(payload),
            },
        );
    }

    pub fn set_agent_current_session(
        &mut self,
        agent: &str,
        session_id: Option<String>,
        now: Timestamp,
    ) -> (r: Result<(), Failure>)
        ensures
            (final(self)@, seen(r)) == old(self)@.set_current_session(
                agent@,
                opt_text(session_id),
                now,
            ),
    {
        let mut updated = match self.registered_agent(agent) {
            Err(e) => {
                return Err(e);
            },
            Ok(a) => a,
        };
        updated.current_session_id = session_id;
        updated.last_heartbeat_at = Some(now);
        self.persist_agent(&updated);
        Ok(())
    }

    pub fn update_session_thread_id(&mut self, session_id: &str, thread_id: &str)
        ensures
            final(self)@ == old(self)@.attach_thread(session_id@, thread_id@),
    {
        match self.state.sessions.get(session_id) {
            None => {},
            Some(session) => {
                let mut updated = session;
                updated.thread_id = Some(text(thread_id));
                self.upsert_session_state(&updated, "session_thread_attached");
            },
        }
    }

    pub fn finalize_session_state_inner(
        &mut self,
        session_id: &str,
        status: CodexSessionStatus,
        ended_at: Timestamp,
        clear_current_session: bool,
        now: Timestamp,
    ) -> (r: Result<(), Failure>)
        ensures
            (final(self)@, seen(r)) == old(self)@.finalize_session(
                session_id@,
                status,
                ended_at,
                clear_current_session,
                now,
            ),
    {
        let mut updated = match self.state.sessions.get(session_id) {
            None => {
                return Err(Failure::new(text("session not found: ").concat(session_id)));
            },
            Some(session) => session,
        };
        updated.status = status;
        updated.ended_at = Some(ended_at);
        if updated.last_output_at.is_none() {
            updated.last_output_at = Some(ended_at);
        }
        let event_type = match status {
            CodexSessionStatus::Succeeded => "session_succeeded",
            CodexSessionStatus::Failed => "session_failed",
            CodexSessionStatus::Running => "session_running",
        };
        self.upsert_session_state(&updated, event_type);
        if clear_current_session {
            self.set_agent_current_session(updated.agent_name.as_str(), None, now)
        } else {
            Ok(())
        }
    }

    pub fn start_round_session(&mut self, session: &SessionSummary, now: Timestamp) -> (r: Result<
        (),
        Failure,
    >)
        ensures
            (final(self)@, seen(r)) == old(self)@.start_round_session(session@, now),
    {
        self.upsert_session_state(session, "session_started");
        match self.set_agent_current_session(
            session.agent_name.as_str(),
            Some(session.session_id.clone()),
            now,
        ) {
            Err(e) => {
                return Err(e);
            },
            Ok(_) => {},
        }
        self.active_sessions.put(
            LiveSession {
                session_id: session.session_id.clone(),
                agent_name: session.agent_name.clone(),
            },
        );
        Ok(())
    }

    pub fn session_event(
        &mut self,
        session_id: &str,
        agent: &str,
        event: BackendEvent,
        now: Timestamp,
    )
        ensures
            final(self)@ == old(self)@.session_event(session_id@, agent@, event, now),
    {
        match event {
            BackendEvent::Line { stream, line } => {
                self.record_stream(Some(session_id), agent, stream.as_label(), line.as_str(), now);
            },
            BackendEvent::ThreadStarted { thread_id } => {
                self.update_session_thread_id(session_id, thread_id.as_str());
            },
        }
    }

    pub fn finish_round_session(
        &mut self,
        session_id: &str,
        agent: &str,
        finished: BackendFinished,
        now: Timestamp,
    ) -> (r: Result<AgentRoundResult, Failure>)
        ensures
            (final(self)@, seen(r)) == old(self)@.finish_round_session(
                session_id@,
                agent@,
                finished,
                now,
            ),
    {
        let _ = self.active_sessions.take(session_id);
        let status = if finished.success {
            CodexSessionStatus::Succeeded
        } else {
            CodexSessionStatus::Failed
        };
        match self.finalize_session_state_inner(session_id, status, now, true, now) {
            Err(e) => {
                return Err(e);
            },
            Ok(_) => {},
        }
        conclude_round(finished, agent, now)
    }

    pub fn take_session_to_stop(&mut self, agent: &str) -> (r: Result<StopRequest, Failure>)
        ensures
            (final(self)@, seen(r)) == old(self)@.take_session_to_stop(agent@),
    {
        let a = match self.registered_agent(agent) {
            Err(e) => {
                return Err(e);
            },
            Ok(a) => a,
        };
        let session_id = match a.current_session_id {
            Some(id) => id,
            None => {
                let daemon_owned = match a.app_server_owner {
                    Some(owner) => owner == AppServerOwner::Daemon,
                    None => false,
                };
                if !daemon_owned {
                    return Err(
                        Failure::new(
                            text("agent ").concat(agent).concat(" has no running session"),
                        ),
                    );
                }
                proof {
                    crate::table::lemma_place(self@.active_managed_sessions, agent@);
                }
                return match self.active_managed_sessions.take(agent) {
                    None => Err(
                        Failure::new(
                            text("agent ").concat(agent).concat(" has no live managed session"),
                        ),
                    ),
                    Some(m) => Ok(
                        StopRequest {
                            session_id: m.session_id,
                            agent: text(agent),
                            managed: true,
                        },
                    ),
                };
            },
        };
        match self.active_sessions.take(session_id.as_str()) {
            None => match self.state.sessions.get(session_id.as_str()) {
                None => Err(
                    Failure::new(text("session not found: ").concat(session_id.as_str())),
                ),
                Some(session) => if session.status == CodexSessionStatus::Running {
                    Err(
                        Failure::new(
                            text("session ").concat(session_id.as_str()).concat(
                                " is marked running but has no live stop handle; restart cleanup may have detached it",
                            ),
                        ),
                    )
                } else {
                    Err(
                        Failure::new(
                            text("session ").concat(session_id.as_str()).concat(
                                " is no longer running",
                            ),
                        ),
                    )
                },
            },
            Some(live) => if !same_text(live.agent_name.as_str(), agent) {
                Err(
                    Failure::new(
                        text("session ").concat(session_id.as_str()).concat(
                            " belongs to ",
                        ).concat(live.agent_name.as_str()).concat(", not ").concat(agent),
                    ),
                )
            } else {
                Ok(StopRequest { session_id, agent: text(agent), managed: false })
            },
        }
    }

    pub fn note_stop(&mut self, stop: &StopRequest, now: Timestamp)
        ensures
            final(self)@ == old(self)@.note_stop(stop@, now),
    {
        let content = if stop.managed {
            "[MANAGED_SESSION_STOP_REQUESTED]"
        } else {
            "[SESSION_STOP_REQUESTED]"
        };
        self.record_stream(
            Some(stop.session_id.as_str()),
            stop.agent.as_str(),
            "stdout",
            content,
            now,
        );
    }

    pub fn take_managed_sessions(&mut self) -> (r: Vec<ManagedSession>)
        ensures
            (final(self)@, views(r@)) == old(self)@.take_managed_sessions(),
    {
        let sorted = rank_all(&self.active_managed_sessions.rows);
        self.active_managed_sessions = Table::new();
        sorted
    }

    pub fn panes_to_stop(&self) -> (r: Vec<AgentSummary>)
        ensures
            views(r@) == self@.panes_to_stop(),
    {
        let mut out: Vec<AgentSummary> = Vec::new();
        let mut i: usize = 0;
        let ghost all = self@.agents;
        assert(views(out@) =~= all.take(0));
        while i < self.state.agents.len()
            invariant
                i <= all.len(),
                all == self.state.agents@,
                views(out@) == with_panes(all.take(i as int)),
            decreases all.len() - i,
        {
            let a = self.state.agents.at(i);
            let ghost before = out@;
            proof {
                assert(all.take(i + 1).drop_last() =~= all.take(i as int));
                assert(all.take(i + 1).last() == a@);
            }
            if a.visible_pane_pid.is_some() {
                out.push(a.dup());
                assert(views(out@) =~= views(before).push(a@));
            }
            i += 1;
        }
        assert(all.take(i as int) =~= all);
        rank_all(&out)
    }

    pub fn pane_stopped(
        &mut self,
        agent: &AgentSummary,
        pid: u32,
        outcome: VisiblePaneStopOutcome,
        now: Timestamp,
    ) -> (r: Result<(), Failure>)
        ensures
            (final(self)@, seen(r)) == old(self)@.pane_stopped(agent@, pid, outcome, now),
    {
        let updated = match self.set_agent_visible_pane(agent.name.as_str(), None, None, now) {
            Err(e) => {
                return Err(e);
            },
            Ok(a) => a,
        };
        let number = to_decimal(pid as u64);
        let event_type = match outcome {
            VisiblePaneStopOutcome::StopRequested => "visible_pane_stop_requested",
            VisiblePaneStopOutcome::AlreadyGone => "visible_pane_missing",
        };
        let summary = match outcome {
            VisiblePaneStopOutcome::StopRequested => text(
                "stop requested for visible pane ",
            ).concat(number.as_str()),
            VisiblePaneStopOutcome::AlreadyGone => text("visible pane ").concat(
                number.as_str(),
            ).concat(" was already gone; cleared registration"),
        };
        let payload = JsonObject::new().number("visible_pane_pid", pid as u64).value(
            "visible_pane_kind",
            pane_kind_value(agent.visible_pane_kind),
        ).render();
        self.log_agent(
            agent.name.as_str(),
            &updated.current_task_id,
            None,
            event_type,
            summary.as_str(),
            "visible_pane",
            Some(payload),
        );
        Ok(())
    }

    pub fn start_ad_hoc_round(&mut self, agent: &str, now: Timestamp) -> (r: Result<
        AgentSummary,
        Failure,
    >)
        ensures
            (final(self)@, seen(r)) == old(self)@.start_ad_hoc_round(agent@, now),
    {
        let a = match self.registered_agent(agent) {
            Err(e) => {
                return Err(e);
            },
            Ok(a) => a,
        };
        match ensure_agent_ready_for_ad_hoc_round(&a) {
            Err(e) => {
                return Err(e);
            },
            Ok(_) => {},
        }
        let _ = self.set_agent_runtime_state(agent, AgentSessionState::Busy, now);
        Ok(a)
    }

    /// `missing` is how the failure begins where the agent has been removed meanwhile.
    pub fn finish_ad_hoc_round(
        &mut self,
        agent: &str,
        round: &AgentRoundResult,
        kept_thread: Option<String>,
        missing: &str,
        now: Timestamp,
    ) -> (r: Result<(), Failure>)
        ensures
            (final(self)@, seen(r)) == old(self)@.finish_ad_hoc_round(
                agent@,
                round@,
                opt_text(kept_thread),
                missing@,
                now,
            ),
    {
        let mut updated = match self.state.agents.get(agent) {
            None => {
                return Err(Failure::new(text(missing).concat(agent)));
            },
            Some(a) => a,
        };
        updated.thread_id = match kept_thread {
            Some(id) => Some(id),
            None => Some(round.thread_id.clone()),
        };
        updated.state = AgentSessionState::Idle;
        updated.last_output_at = Some(round.completed_at);
        updated.last_heartbeat_at = Some(now);
        self.persist_agent(&updated);
        self.say(agent, text("[RESULT] ").concat(round.final_message.as_str()).as_str(), now);
        Ok(())
    }

    pub fn fail_ad_hoc_round(&mut self, agent: &str, err: &Failure, now: Timestamp) -> (r: Result<
        (),
        Failure,
    >)
        ensures
            (final(self)@, seen(r)) == old(self)@.fail_ad_hoc_round(agent@, err@, now),
    {
        let next = if is_session_stop_error(err) {
            AgentSessionState::Idle
        } else {
            AgentSessionState::Blocked
        };
        self.set_agent_runtime_state(agent, next, now)
    }
}

} // verus!
