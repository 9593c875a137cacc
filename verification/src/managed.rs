//! App servers that the daemon runs for agents: how one is started, bootstrapped,
//! watched and given up.

use vstd::prelude::*;

use crate::agents::nonblank;
use crate::backend::BackendFinished;
use crate::failure::{seen, Failure};
use crate::json::{
    json_texts, no_fields, object_text, parse_json, read_json, JsonModel, JsonObject, JsonValue,
};
use crate::models::{
    AgentModel, AgentSummary, AppServerOwner, CodexSessionStatus, SessionModel, SessionSummary,
};
use crate::state::{newest, AppShared, ManagedModel, ManagedSession, World};
use crate::table::{filed, found, put, view_opt, without};
use crate::text::{decimal, same_text, text, text_or, texts, to_decimal};
use crate::time::Timestamp;

verus! {

/// Whether an app server has to be started for the agent.
pub enum ManagedStart {
    Running { agent: AgentSummary },
    Launch { agent: AgentSummary },
}

pub enum ManagedStartModel {
    Running { agent: AgentModel },
    Launch { agent: AgentModel },
}

impl View for ManagedStart {
    type V = ManagedStartModel;

    open spec fn view(&self) -> ManagedStartModel {
        match *self {
            ManagedStart::Running { agent } => ManagedStartModel::Running { agent: agent@ },
            ManagedStart::Launch { agent } => ManagedStartModel::Launch { agent: agent@ },
        }
    }
}

/// How a bootstrap came to nothing.
pub enum BootstrapFailure {
    Failed { message: String },
    TimedOut { seconds: u64 },
}

/// What the agent's record says of the failure.
pub open spec fn failure_reason(f: BootstrapFailure) -> Seq<char> {
    match f {
        BootstrapFailure::Failed { message } => "managed bootstrap failed: "@ + message@,
        BootstrapFailure::TimedOut { seconds } => "managed bootstrap timed out after "@ + decimal(
            seconds as nat,
        ) + "s"@,
    }
}

/// What the requester is told of the failure.
pub open spec fn failure_answer(f: BootstrapFailure) -> Seq<char> {
    match f {
        BootstrapFailure::Failed { message } => message@,
        BootstrapFailure::TimedOut { .. } => failure_reason(f),
    }
}

/// The summary that a bootstrap has to report, or what is wrong with its report.
pub open spec fn reported_summary(payload: JsonModel) -> Result<Seq<char>, Seq<char>> {
    let status = text_or(payload.text_at("status"@), ""@);
    if status != "ready"@ {
        Err("managed bootstrap payload status must be ready, actual "@ + status)
    } else {
        match nonblank(payload.text_at("summary"@)) {
            Some(s) => Ok(s),
            None => Err("managed bootstrap payload summary must not be empty"@),
        }
    }
}

pub fn bootstrap_summary(payload: &JsonValue) -> (r: Result<String, Failure>)
    ensures
        seen(r) == reported_summary(payload@),
{
    let status = match payload.text_at("status") {
        Some(s) => s,
        None => text(""),
    };
    if !same_text(status.as_str(), "ready") {
        return Err(
            Failure::new(
                text("managed bootstrap payload status must be ready, actual ").concat(
                    status.as_str(),
                ),
            ),
        );
    }
    match crate::agents::trim_to_nonblank(payload.text_at("summary")) {
        Some(s) => Ok(s),
        None => Err(Failure::new(text("managed bootstrap payload summary must not be empty"))),
    }
}

/// How a finished process is described.
pub open spec fn process_state(success: bool, stopped: bool) -> Seq<char> {
    if stopped {
        "stopped"@
    } else if success {
        "exited"@
    } else {
        "failed"@
    }
}

pub open spec fn process_remark(success: bool, stopped: bool) -> Seq<char> {
    if stopped {
        "daemon 管理的 app-server 已按请求停止。"@
    } else if success {
        "daemon 管理的 app-server 已退出。"@
    } else {
        "daemon 管理的 app-server 异常退出。"@
    }
}

pub open spec fn process_reason(
    success: bool,
    stopped: bool,
    lines: Seq<Seq<char>>,
    status_label: Seq<char>,
) -> Seq<char> {
    if stopped {
        "managed session stopped by request"@
    } else if success {
        "managed session exited"@
    } else {
        "managed session exited unexpectedly: "@ + (if lines.len() > 0 {
            lines.last()
        } else {
            status_label
        })
    }
}

impl World {
    /// An app server that runs already is kept; else the agent is made ready for a new one.
    pub open spec fn begin_managed(self, agent: Seq<char>, now: Timestamp) -> (
        World,
        Result<ManagedStartModel, Seq<char>>,
    ) {
        match self.agent(agent) {
            Some(a) => if filed(self.active_managed_sessions, agent) {
                (self, Ok(ManagedStartModel::Running { agent: a }))
            } else {
                let begun = self.begin_bootstrap(agent, now);
                match begun.1 {
                    Err(e) => (begun.0, Err(e)),
                    Ok(b) => (begun.0, Ok(ManagedStartModel::Launch { agent: b })),
                }
            },
            None => {
                let begun = self.begin_bootstrap(agent, now);
                match begun.1 {
                    Err(e) => (begun.0, Err(e)),
                    Ok(b) => (begun.0, Ok(ManagedStartModel::Launch { agent: b })),
                }
            },
        }
    }

    /// The process of an app server has been started.
    pub open spec fn managed_started(self, session: SessionModel) -> World {
        let kept = self.upsert_session(session, "session_started"@);
        World {
            active_managed_sessions: put(
                kept.active_managed_sessions,
                ManagedModel {
                    agent_name: session.agent_name,
                    session_id: session.session_id,
                },
            ),
            ..kept
        }
    }

    /// The bootstrap has failed: the app server is given up.
    pub open spec fn managed_failed(
        self,
        agent: Seq<char>,
        reason: Seq<char>,
        now: Timestamp,
    ) -> (World, Option<ManagedModel>) {
        (
            World {
                active_managed_sessions: without(self.active_managed_sessions, agent),
                ..self
            }.reset_app_server(agent, reason, now).0,
            found(self.active_managed_sessions, agent),
        )
    }

    /// The bootstrap has reported: the agent is ready.
    pub open spec fn managed_ready(
        self,
        agent: Seq<char>,
        session_id: Seq<char>,
        url: Seq<char>,
        summary: Seq<char>,
        thread_id: Seq<char>,
        now: Timestamp,
    ) -> (World, Result<AgentModel, Seq<char>>) {
        let ready = self.mark_ready(agent, Some(summary), Some(thread_id), now);
        match ready.1 {
            Err(e) => (ready.0, Err(e)),
            Ok(a) => (
                ready.0.log_agent(
                    agent,
                    None,
                    Some(session_id),
                    "managed_session_ready"@,
                    "daemon-managed app-server ready at "@ + url,
                    "managed_session"@,
                    Some(
                        object_text(
                            no_fields().push(("app_server_url"@, JsonModel::Text(url))).push(
                                ("session_id"@, JsonModel::Text(session_id)),
                            ),
                        ),
                    ),
                ),
                Ok(a),
            ),
        }
    }

    /// What the bootstrap round said last is taken as its report.
    pub open spec fn managed_reported(
        self,
        agent: Seq<char>,
        session_id: Seq<char>,
        url: Seq<char>,
        final_message: Seq<char>,
        thread_id: Seq<char>,
        now: Timestamp,
    ) -> (World, Result<AgentModel, Seq<char>>) {
        match read_json(final_message) {
            Err(_) => (
                self,
                Err("failed to parse managed bootstrap payload as json for agent "@ + agent),
            ),
            Ok(payload) => match reported_summary(payload) {
                Err(e) => (self, Err(e)),
                Ok(summary) => self.managed_ready(agent, session_id, url, summary, thread_id, now),
            },
        }
    }

    /// The process of an app server has ended.
    pub open spec fn managed_finished(
        self,
        agent: Seq<char>,
        session_id: Seq<char>,
        lines: Seq<Seq<char>>,
        success: bool,
        stopped: bool,
        status_label: Seq<char>,
        now: Timestamp,
    ) -> World {
        World {
            active_managed_sessions: without(self.active_managed_sessions, agent),
            ..self
        }.finalize_session(
            session_id,
            if success || stopped {
                CodexSessionStatus::Succeeded
            } else {
                CodexSessionStatus::Failed
            },
            now,
            false,
            now,
        ).0.log_agent(
            agent,
            None,
            Some(session_id),
            "managed_app_server_finished"@,
            process_remark(success, stopped),
            "managed_session_monitor"@,
            Some(
                object_text(
                    no_fields().push(("session_id"@, JsonModel::Text(session_id))).push(
                        ("process_state"@, JsonModel::Text(process_state(success, stopped))),
                    ).push(("status_label"@, JsonModel::Text(status_label))).push(
                        ("success"@, JsonModel::Bool(success)),
                    ).push(("stopped"@, JsonModel::Bool(stopped))).push(
                        ("stderr_tail"@, json_texts(newest(lines, 8))),
                    ),
                ),
            ),
        ).reset_app_server(
            agent,
            process_reason(success, stopped, lines, status_label),
            now,
        ).0
    }
}

fn last_lines(lines: &Vec<String>) -> (r: Vec<String>)
    ensures
        texts(r@) == newest(texts(lines@), 8),
{
    let mut out: Vec<String> = Vec::new();
    let n: usize = lines.len();
    let from: usize = if n > 8 {
        n - 8
    } else {
        0
    };
    let mut i: usize = from;
    while i < n
        invariant
            from <= i <= n,
            n == lines.len(),
            texts(out@) =~= texts(lines@).subrange(from as int, i as int),
        decreases n - i,
    {
        let ghost before = out@;
        out.push(lines[i].clone());
        assert(texts(out@) =~= texts(before).push(lines@[i as int]@));
        i += 1;
    }
    assert(texts(out@) =~= newest(texts(lines@), 8));
    out
}

impl AppShared {
    pub fn begin_managed_session(&mut self, agent: &str, now: Timestamp) -> (r: Result<
        ManagedStart,
        Failure,
    >)
        ensures
            (final(self)@, seen(r)) == old(self)@.begin_managed(agent@, now),
    {
        if self.active_managed_sessions.has(agent) {
            match self.state.agents.get(agent) {
                Some(a) => {
                    return Ok(ManagedStart::Running { agent: a });
                },
                None => {},
            }
        }
        match self.begin_agent_bootstrap(agent, now) {
            Err(e) => Err(e),
            Ok(a) => Ok(ManagedStart::Launch { agent: a }),
        }
    }

    pub fn managed_session_started(&mut self, session: &SessionSummary)
        ensures
            final(self)@ == old(self)@.managed_started(session@),
    {
        self.upsert_session_state(session, "session_started");
        self.active_managed_sessions.put(
            ManagedSession {
                agent_name: session.agent_name.clone(),
                session_id: session.session_id.clone(),
            },
        );
    }

    /// The app server accepts connections.
    pub fn managed_session_listening(&mut self, agent: &str, url: &str, now: Timestamp) -> (r: Result<
        AgentSummary,
        Failure,
    >)
        ensures
            (final(self)@, seen(r)) == old(self)@.set_app_server(
                agent@,
                Some(url@),
                Some(AppServerOwner::Daemon),
                now,
            ),
    {
        self.set_agent_app_server(agent, Some(text(url)), Some(AppServerOwner::Daemon), now)
    }

    /// Gives up the app server; the session that is returned is still to be stopped.
    pub fn managed_session_failed(
        &mut self,
        agent: &str,
        failure: &BootstrapFailure,
        now: Timestamp,
    ) -> (r: (Option<ManagedSession>, Failure))
        ensures
            (final(self)@, view_opt(r.0)) == old(self)@.managed_failed(
                agent@,
                failure_reason(*failure),
                now,
            ),
            r.1@ == failure_answer(*failure),
    {
        let taken = self.active_managed_sessions.take(agent);
        let reason = match failure {
            BootstrapFailure::Failed { message } => text("managed bootstrap failed: ").concat(
                message.as_str(),
            ),
            BootstrapFailure::TimedOut { seconds } => text(
                "managed bootstrap timed out after ",
            ).concat(to_decimal(*seconds).as_str()).concat("s"),
        };
        let _ = self.reset_daemon_app_server_binding(agent, reason.as_str(), now);
        let answer = match failure {
            BootstrapFailure::Failed { message } => message.clone(),
            BootstrapFailure::TimedOut { .. } => reason,
        };
        (taken, Failure::new(answer))
    }

    pub fn managed_session_ready(
        &mut self,
        agent: &str,
        session_id: &str,
        url: &str,
        summary: String,
        thread_id: String,
        now: Timestamp,
    ) -> (r: Result<AgentSummary, Failure>)
        ensures
            (final(self)@, seen(r)) == old(self)@.managed_ready(
                agent@,
                session_id@,
                url@,
                summary@,
                thread_id@,
                now,
            ),
    {
        match self.mark_agent_ready(agent, Some(summary), Some(thread_id), now) {
            Err(e) => Err(e),
            Ok(a) => {
                let line = text("daemon-managed app-server ready at ").concat(url);
                let payload = JsonObject::new().text("app_server_url", url).text(
                    "session_id",
                    session_id,
                ).render();
                self.log_agent(
                    agent,
                    &None,
                    Some(session_id),
                    "managed_session_ready",
                    line.as_str(),
                    "managed_session",
                    Some(payload),
                );
                Ok(a)
            },
        }
    }

    pub fn managed_session_reported(
        &mut self,
        agent: &str,
        session_id: &str,
        url: &str,
        final_message: &str,
        thread_id: String,
        now: Timestamp,
    ) -> (r: Result<AgentSummary, Failure>)
        ensures
            (final(self)@, seen(r)) == old(self)@.managed_reported(
                agent@,
                session_id@,
                url@,
                final_message@,
                thread_id@,
                now,
            ),
    {
        let payload = match parse_json(final_message) {
            Ok(v) => v,
            Err(_) => {
                return Err(
                    Failure::new(
                        text(
                            "failed to parse managed bootstrap payload as json for agent ",
                        ).concat(agent),
                    ),
                );
            },
        };
        match bootstrap_summary(&payload) {
            Err(e) => Err(e),
            Ok(summary) => self.managed_session_ready(
                agent,
                session_id,
                url,
                summary,
                thread_id,
                now,
            ),
        }
    }

    pub fn managed_session_finished(
        &mut self,
        agent: &str,
        session_id: &str,
        finished: &BackendFinished,
        now: Timestamp,
    )
        ensures
            final(self)@ == old(self)@.managed_finished(
                agent@,
                session_id@,
                texts(finished.stderr_lines@),
                finished.success,
                finished.stopped,
                finished.status_label@,
                now,
            ),
    {
        let _ = self.active_managed_sessions.take(agent);
        let status = if finished.success || finished.stopped {
            CodexSessionStatus::Succeeded
        } else {
            CodexSessionStatus::Failed
        };
        let _ = self.finalize_session_state_inner(session_id, status, now, false, now);
        let state = if finished.stopped {
            "stopped"
        } else if finished.success {
            "exited"
        } else {
            "failed"
        };
        let remark = if finished.stopped {
            "daemon 管理的 app-server 已按请求停止。"
        } else if finished.success {
            "daemon 管理的 app-server 已退出。"
        } else {
            "daemon 管理的 app-server 异常退出。"
        };
        let payload = JsonObject::new().text("session_id", session_id).text(
            "process_state",
            state,
        ).text("status_label", finished.status_label.as_str()).flag(
            "success",
            finished.success,
        ).flag("stopped", finished.stopped).texts(
            "stderr_tail",
            &last_lines(&finished.stderr_lines),
        ).render();
        self.log_agent(
            agent,
            &None,
            Some(session_id),
            "managed_app_server_finished",
            remark,
            "managed_session_monitor",
            Some(payload),
        );
        let n: usize = finished.stderr_lines.len();
        assert(texts(finished.stderr_lines@).len() == n);
        let reason = if finished.stopped {
            text("managed session stopped by request")
        } else if finished.success {
            text("managed session exited")
        } else if n > 0 {
            assert(texts(finished.stderr_lines@).last() == finished.stderr_lines@[n - 1]@);
            text("managed session exited unexpectedly: ").concat(
                finished.stderr_lines[n - 1].as_str(),
            )
        } else {
            text("managed session exited unexpectedly: ").concat(finished.status_label.as_str())
        };
        let _ = self.reset_daemon_app_server_binding(agent, reason.as_str(), now);
    }
}

} // verus!
