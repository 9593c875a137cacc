//! Agents: registration, bootstrap, presence, and the manual controls on one agent.

use vstd::prelude::*;

use crate::decision::{latest_decision, latest_decision_for_task};
use crate::draft::{agent_state_for, desired_agent_state_for_task};
use crate::failure::{seen, Failure};
use crate::json::{
    json_opt, json_opt_number, json_opt_time, no_fields, object_text, JsonModel, JsonObject,
    JsonValue,
};
use crate::models::{
    AgentBootstrapState, AgentContextModel, AgentContextSource, AgentContextView, AgentModel,
    AgentRole, AgentSessionState, AgentSummary, AppServerOwner, BridgeConnectionState, SourceModel,
    TaskContextModel, TaskContextView, VisiblePaneKind,
};
use crate::state::{known_agent, known_task, AppShared, World};
use crate::table::{views, Dup};
use crate::text::{
    copy_text, decimal, lower, opt_text, same_text, text, text_or, to_decimal, to_lower, trim,
    trimmed,
};
use crate::time::Timestamp;

verus! {

/// An agent as it is when it is registered.
pub open spec fn fresh_agent(
    name: Seq<char>,
    role: AgentRole,
    repo_name: Option<Seq<char>>,
    cwd: Seq<char>,
    prompt_path: Option<Seq<char>>,
    now: Timestamp,
) -> AgentModel {
    AgentModel {
        name,
        role,
        repo_name,
        cwd,
        prompt_path,
        thread_id: None,
        app_server_url: None,
        app_server_owner: None,
        app_server_registered_at: None,
        visible_pane_pid: None,
        visible_pane_kind: None,
        visible_pane_registered_at: None,
        current_session_id: None,
        state: AgentSessionState::Idle,
        bootstrap_state: AgentBootstrapState::AwaitingInit,
        bootstrap_summary: None,
        bootstrap_completed_at: None,
        current_task_id: None,
        last_output_at: None,
        last_heartbeat_at: Some(now),
        bridge_state: BridgeConnectionState::Disconnected,
        bridge_mode: None,
        bridge_session_id: None,
        bridge_connected_at: None,
        bridge_last_seen_at: None,
        bridge_last_delivery_id: 0,
        bridge_last_ack_delivery_id: 0,
        bridge_pending_delivery_count: 0,
    }
}

pub fn make_agent(
    name: &str,
    role: AgentRole,
    repo_name: Option<String>,
    cwd: String,
    prompt_path: Option<String>,
    now: Timestamp,
) -> (r: AgentSummary)
    ensures
        r@ == fresh_agent(name@, role, opt_text(repo_name), cwd@, opt_text(prompt_path), now),
{
    AgentSummary {
        name: text(name),
        role,
        repo_name,
        cwd,
        prompt_path,
        thread_id: None,
        app_server_url: None,
        app_server_owner: None,
        app_server_registered_at: None,
        visible_pane_pid: None,
        visible_pane_kind: None,
        visible_pane_registered_at: None,
        current_session_id: None,
        state: AgentSessionState::Idle,
        bootstrap_state: AgentBootstrapState::AwaitingInit,
        bootstrap_summary: None,
        bootstrap_completed_at: None,
        current_task_id: None,
        last_output_at: None,
        last_heartbeat_at: Some(now),
        bridge_state: BridgeConnectionState::Disconnected,
        bridge_mode: None,
        bridge_session_id: None,
        bridge_connected_at: None,
        bridge_last_seen_at: None,
        bridge_last_delivery_id: 0,
        bridge_last_ack_delivery_id: 0,
        bridge_pending_delivery_count: 0,
    }
}

/// The agent without a bootstrap and without an app server.
pub open spec fn unbound(a: AgentModel) -> AgentModel {
    AgentModel {
        bootstrap_state: AgentBootstrapState::AwaitingInit,
        bootstrap_summary: None,
        bootstrap_completed_at: None,
        app_server_url: None,
        app_server_owner: None,
        app_server_registered_at: None,
        thread_id: None,
        ..a
    }
}

pub fn unbind(a: &mut AgentSummary)
    ensures
        final(a)@ == unbound(old(a)@),
{
    a.bootstrap_state = AgentBootstrapState::AwaitingInit;
    a.bootstrap_summary = None;
    a.bootstrap_completed_at = None;
    a.app_server_url = None;
    a.app_server_owner = None;
    a.app_server_registered_at = None;
    a.thread_id = None;
}

/// The text, trimmed, where anything is left of it.
pub open spec fn nonblank(o: Option<Seq<char>>) -> Option<Seq<char>> {
    match o {
        Some(s) => if trimmed(s).len() == 0 {
            None
        } else {
            Some(trimmed(s))
        },
        None => None,
    }
}

pub fn trim_to_nonblank(o: Option<String>) -> (r: Option<String>)
    ensures
        opt_text(r) == nonblank(opt_text(o)),
{
    match o {
        Some(s) => {
            let t = trim(s.as_str());
            if t.as_str().is_empty() {
                None
            } else {
                Some(t)
            }
        },
        None => None,
    }
}

pub open spec fn role_named(s: Seq<char>) -> Result<AgentRole, Seq<char>> {
    if s == "main"@ {
        Ok(AgentRole::Main)
    } else if s == "child"@ {
        Ok(AgentRole::Child)
    } else {
        Err("unsupported agent role: "@ + s)
    }
}

impl View for AgentRole {
    type V = AgentRole;

    open spec fn view(&self) -> AgentRole {
        *self
    }
}

pub fn parse_agent_role(s: &str) -> (r: Result<AgentRole, Failure>)
    ensures
        seen(r) == role_named(s@),
{
    if same_text(s, "main") {
        Ok(AgentRole::Main)
    } else if same_text(s, "child") {
        Ok(AgentRole::Child)
    } else {
        Err(Failure::new(text("unsupported agent role: ").concat(s)))
    }
}

pub open spec fn owner_named(s: Seq<char>) -> Result<AppServerOwner, Seq<char>> {
    let name = lower(trimmed(s));
    if name == "bridge"@ {
        Ok(AppServerOwner::Bridge)
    } else if name == "daemon"@ {
        Ok(AppServerOwner::Daemon)
    } else {
        Err("unsupported app-server owner: "@ + name)
    }
}

impl View for AppServerOwner {
    type V = AppServerOwner;

    open spec fn view(&self) -> AppServerOwner {
        *self
    }
}

pub fn parse_app_server_owner_label(value: &str) -> (r: Result<AppServerOwner, Failure>)
    ensures
        seen(r) == owner_named(value@),
{
    let name = to_lower(trim(value).as_str());
    if same_text(name.as_str(), "bridge") {
        Ok(AppServerOwner::Bridge)
    } else if same_text(name.as_str(), "daemon") {
        Ok(AppServerOwner::Daemon)
    } else {
        Err(Failure::new(text("unsupported app-server owner: ").concat(name.as_str())))
    }
}

pub open spec fn pane_kind_named(s: Seq<char>) -> Result<VisiblePaneKind, Seq<char>> {
    let name = lower(trimmed(s));
    if name == "shell"@ {
        Ok(VisiblePaneKind::Shell)
    } else if name == "view"@ {
        Ok(VisiblePaneKind::View)
    } else {
        Err("unsupported visible pane kind: "@ + name)
    }
}

impl View for VisiblePaneKind {
    type V = VisiblePaneKind;

    open spec fn view(&self) -> VisiblePaneKind {
        *self
    }
}

pub fn parse_visible_pane_kind_label(value: &str) -> (r: Result<VisiblePaneKind, Failure>)
    ensures
        seen(r) == pane_kind_named(value@),
{
    let name = to_lower(trim(value).as_str());
    if same_text(name.as_str(), "shell") {
        Ok(VisiblePaneKind::Shell)
    } else if same_text(name.as_str(), "view") {
        Ok(VisiblePaneKind::View)
    } else {
        Err(Failure::new(text("unsupported visible pane kind: ").concat(name.as_str())))
    }
}

/// Who owns an app server that was registered without an owner.
pub open spec fn default_owner(a: AgentModel) -> AppServerOwner {
    if a.bridge_state == BridgeConnectionState::Connected {
        AppServerOwner::Bridge
    } else {
        AppServerOwner::Daemon
    }
}

pub fn default_app_server_owner(agent: &AgentSummary) -> (r: AppServerOwner)
    ensures
        r == default_owner(agent@),
{
    if agent.bridge_state == BridgeConnectionState::Connected {
        AppServerOwner::Bridge
    } else {
        AppServerOwner::Daemon
    }
}

pub open spec fn json_opt_owner(o: Option<AppServerOwner>) -> JsonModel {
    match o {
        Some(x) => JsonModel::Text(x.label()),
        None => JsonModel::Null,
    }
}

pub open spec fn json_opt_kind(o: Option<VisiblePaneKind>) -> JsonModel {
    match o {
        Some(x) => JsonModel::Text(x.label()),
        None => JsonModel::Null,
    }
}

fn owner_value(o: Option<AppServerOwner>) -> (r: JsonValue)
    ensures
        r@ == json_opt_owner(o),
{
    match o {
        Some(x) => JsonValue::Text(text(x.as_label())),
        None => JsonValue::Null,
    }
}

pub fn pane_kind_value(o: Option<VisiblePaneKind>) -> (r: JsonValue)
    ensures
        r@ == json_opt_kind(o),
{
    match o {
        Some(x) => JsonValue::Text(text(x.as_label())),
        None => JsonValue::Null,
    }
}

impl World {
    /// The state that an agent's session and task call for.
    pub open spec fn desired_state(self, a: AgentModel) -> AgentSessionState {
        if a.current_session_id is Some {
            AgentSessionState::Busy
        } else {
            match a.current_task_id {
                Some(id) => match self.task(id) {
                    Some(task) => agent_state_for(task.state),
                    None => AgentSessionState::Idle,
                },
                None => AgentSessionState::Idle,
            }
        }
    }

    /// An agent is registered; a record under the same name is replaced.
    pub open spec fn register_agent(self, agent: AgentModel) -> World {
        let stored = self.emit(crate::state::EffectModel::SaveAgent { agent });
        let kept = World {
            agents: crate::table::put(stored.agents, agent),
            ..stored
        }.ensure_bridge_queue(agent);
        kept.publish(crate::models::DashboardModel::AgentStateChanged { agent }).log_agent(
            agent.name,
            None,
            None,
            "agent_registered"@,
            "registered "@ + agent.role.shown() + " agent"@,
            "control_request"@,
            Some(
                object_text(
                    no_fields().push(("role"@, JsonModel::Text(agent.role.label()))).push(
                        ("cwd"@, JsonModel::Text(agent.cwd)),
                    ).push(("prompt_path"@, json_opt(agent.prompt_path))),
                ),
            ),
        )
    }

    /// A sign of life: an agent that was offline goes to the state it should have.
    pub open spec fn touch_agent(self, agent: Seq<char>, now: Timestamp) -> (
        World,
        Result<AgentModel, Seq<char>>,
    ) {
        match known_agent(self, agent) {
            Err(e) => (self, Err(e)),
            Ok(a) => {
                let updated = AgentModel {
                    last_heartbeat_at: Some(now),
                    state: if a.state == AgentSessionState::Offline {
                        self.desired_state(a)
                    } else {
                        a.state
                    },
                    ..a
                };
                (self.persist_agent(updated), Ok(updated))
            },
        }
    }

    pub open spec fn begin_bootstrap(self, agent: Seq<char>, now: Timestamp) -> (
        World,
        Result<AgentModel, Seq<char>>,
    ) {
        match known_agent(self, agent) {
            Err(e) => (self, Err(e)),
            Ok(a) => {
                let updated = AgentModel { last_heartbeat_at: Some(now), ..unbound(a) };
                (
                    self.persist_agent(updated).say(
                        agent,
                        "[AGENT_BOOTSTRAP_PENDING]"@,
                        now,
                    ).log_agent(
                        agent,
                        None,
                        None,
                        "agent_bootstrap_started"@,
                        "bootstrap reset and awaiting init"@,
                        "bootstrap_contract"@,
                        None,
                    ),
                    Ok(updated),
                )
            },
        }
    }

    pub open spec fn mark_ready(
        self,
        agent: Seq<char>,
        summary: Option<Seq<char>>,
        thread_id: Option<Seq<char>>,
        now: Timestamp,
    ) -> (World, Result<AgentModel, Seq<char>>) {
        match known_agent(self, agent) {
            Err(e) => (self, Err(e)),
            Ok(a) => {
                let updated = AgentModel {
                    bootstrap_state: AgentBootstrapState::Ready,
                    bootstrap_summary: nonblank(summary),
                    bootstrap_completed_at: Some(now),
                    last_heartbeat_at: Some(now),
                    thread_id: match nonblank(thread_id) {
                        Some(id) => Some(id),
                        None => a.thread_id,
                    },
                    ..a
                };
                let content = match updated.bootstrap_summary {
                    Some(s) => "[AGENT_READY] "@ + s,
                    None => "[AGENT_READY]"@,
                };
                (
                    self.persist_agent(updated).say(agent, content, now).log_agent(
                        agent,
                        None,
                        None,
                        "agent_ready"@,
                        text_or(updated.bootstrap_summary, "agent ready"@),
                        "bootstrap_contract"@,
                        Some(
                            object_text(
                                no_fields().push(
                                    ("thread_id"@, json_opt(updated.thread_id)),
                                ).push(
                                    (
                                        "bootstrap_completed_at"@,
                                        json_opt_time(updated.bootstrap_completed_at),
                                    ),
                                ),
                            ),
                        ),
                    ),
                    Ok(updated),
                )
            },
        }
    }

    /// The window of an agent is registered, or its registration is cleared.
    pub open spec fn set_visible_pane(
        self,
        agent: Seq<char>,
        pid: Option<u32>,
        kind: Option<VisiblePaneKind>,
        now: Timestamp,
    ) -> (World, Result<AgentModel, Seq<char>>) {
        match known_agent(self, agent) {
            Err(e) => (self, Err(e)),
            Ok(a) => match (pid, kind) {
                (Some(_), None) => (
                    self,
                    Err("visible pane kind is required when pid is set"@),
                ),
                (Some(p), Some(k)) => {
                    let updated = AgentModel {
                        visible_pane_pid: pid,
                        visible_pane_kind: kind,
                        visible_pane_registered_at: Some(now),
                        last_heartbeat_at: Some(now),
                        ..a
                    };
                    (
                        self.persist_agent(updated).log_agent(
                            agent,
                            updated.current_task_id,
                            None,
                            "visible_pane_registered"@,
                            "registered "@ + k.shown() + " pane "@ + decimal(p as nat),
                            "visible_pane"@,
                            Some(
                                object_text(
                                    no_fields().push(
                                        ("visible_pane_pid"@, json_opt_number(pid)),
                                    ).push(("visible_pane_kind"@, json_opt_kind(kind))).push(
                                        ("visible_pane_registered_at"@, json_opt_time(Some(now))),
                                    ),
                                ),
                            ),
                        ),
                        Ok(updated),
                    )
                },
                (None, _) => {
                    let updated = AgentModel {
                        visible_pane_pid: None,
                        visible_pane_kind: None,
                        visible_pane_registered_at: None,
                        last_heartbeat_at: Some(now),
                        ..a
                    };
                    let saved = self.persist_agent(updated);
                    if a.visible_pane_pid is Some || a.visible_pane_kind is Some
                        || a.visible_pane_registered_at is Some {
                        (
                            saved.log_agent(
                                agent,
                                updated.current_task_id,
                                None,
                                "visible_pane_cleared"@,
                                "visible pane registration cleared"@,
                                "visible_pane"@,
                                None,
                            ),
                            Ok(updated),
                        )
                    } else {
                        (saved, Ok(updated))
                    }
                },
            },
        }
    }

    /// The app server of an agent is registered, or its registration is cleared.
    pub open spec fn set_app_server(
        self,
        agent: Seq<char>,
        url: Option<Seq<char>>,
        owner: Option<AppServerOwner>,
        now: Timestamp,
    ) -> (World, Result<AgentModel, Seq<char>>) {
        match known_agent(self, agent) {
            Err(e) => (self, Err(e)),
            Ok(a) => {
                let normal = nonblank(url);
                let updated = AgentModel {
                    app_server_url: normal,
                    app_server_owner: match (normal, owner) {
                        (None, _) => None,
                        (Some(_), Some(o)) => Some(o),
                        (Some(_), None) => Some(default_owner(a)),
                    },
                    app_server_registered_at: match normal {
                        Some(_) => Some(now),
                        None => None,
                    },
                    last_heartbeat_at: Some(now),
                    ..a
                };
                (
                    self.persist_agent(updated).log_agent(
                        agent,
                        None,
                        None,
                        if normal is Some {
                            "app_server_registered"@
                        } else {
                            "app_server_cleared"@
                        },
                        text_or(normal, "app server cleared"@),
                        "app_server_registration"@,
                        Some(
                            object_text(
                                no_fields().push(("app_server_url"@, json_opt(normal))).push(
                                    ("app_server_owner"@, json_opt_owner(updated.app_server_owner)),
                                ).push(
                                    (
                                        "registered_at"@,
                                        json_opt_time(updated.app_server_registered_at),
                                    ),
                                ),
                            ),
                        ),
                    ),
                    Ok(updated),
                )
            },
        }
    }

    /// A blocked agent is set free by hand.
    pub open spec fn recover_agent(self, agent: Seq<char>, now: Timestamp) -> (
        World,
        Result<AgentModel, Seq<char>>,
    ) {
        match known_agent(self, agent) {
            Err(e) => (self, Err(e)),
            Ok(a) => if a.current_task_id is Some {
                (
                    self,
                    Err(
                        "agent "@ + agent
                            + " still has an in-flight task and cannot be recovered"@,
                    ),
                )
            } else if a.current_session_id is Some {
                (
                    self,
                    Err("agent "@ + agent + " still has a live session and cannot be recovered"@),
                )
            } else if a.state != AgentSessionState::Blocked {
                (
                    self,
                    Err(
                        "agent "@ + agent + " must be blocked before recovery, actual "@
                            + a.state.shown(),
                    ),
                )
            } else {
                let updated = AgentModel {
                    state: AgentSessionState::Idle,
                    last_heartbeat_at: Some(now),
                    ..a
                };
                (
                    self.persist_agent(updated).say(agent, "[AGENT_RECOVERED]"@, now).log_agent(
                        agent,
                        None,
                        None,
                        "agent_recovered"@,
                        "manually recovered blocked agent to idle"@,
                        "control_request"@,
                        None,
                    ),
                    Ok(updated),
                )
            },
        }
    }

    /// The thread of an agent is forgotten.
    pub open spec fn reset_thread(self, agent: Seq<char>, now: Timestamp) -> (
        World,
        Result<AgentModel, Seq<char>>,
    ) {
        match known_agent(self, agent) {
            Err(e) => (self, Err(e)),
            Ok(a) => if a.current_session_id is Some {
                (
                    self,
                    Err("agent "@ + agent + " still has a live session and cannot reset thread"@),
                )
            } else if a.current_task_id is Some {
                (
                    self,
                    Err(
                        "agent "@ + agent + " still has an in-flight task and cannot reset thread"@,
                    ),
                )
            } else {
                let updated = AgentModel { thread_id: None, last_heartbeat_at: Some(now), ..a };
                (
                    self.persist_agent(updated).say(agent, "[THREAD_RESET]"@, now).log_agent(
                        agent,
                        None,
                        None,
                        "thread_reset"@,
                        "cleared cached thread id"@,
                        "control_request"@,
                        None,
                    ),
                    Ok(updated),
                )
            },
        }
    }

    /// The app server that the daemon ran for an agent is gone.
    pub open spec fn reset_app_server(
        self,
        agent: Seq<char>,
        reason: Seq<char>,
        now: Timestamp,
    ) -> (World, Result<AgentModel, Seq<char>>) {
        match known_agent(self, agent) {
            Err(e) => (self, Err(e)),
            Ok(a) => {
                let updated = AgentModel {
                    last_heartbeat_at: Some(now),
                    state: if a.current_task_id is Some {
                        AgentSessionState::Blocked
                    } else if a.current_session_id is None {
                        AgentSessionState::Idle
                    } else {
                        a.state
                    },
                    ..unbound(a)
                };
                (
                    self.persist_agent(updated).log_agent(
                        agent,
                        updated.current_task_id,
                        None,
                        "daemon_app_server_reset"@,
                        reason,
                        "managed_session"@,
                        Some(
                            object_text(
                                no_fields().push(
                                    (
                                        "bootstrap_state"@,
                                        JsonModel::Text(updated.bootstrap_state.label()),
                                    ),
                                ).push(("state"@, JsonModel::Text(updated.state.label()))),
                            ),
                        ),
                    ),
                    Ok(updated),
                )
            },
        }
    }

    pub open spec fn agent_context(self, agent: Seq<char>, sources: Seq<SourceModel>) -> Result<
        AgentContextModel,
        Seq<char>,
    > {
        match known_agent(self, agent) {
            Err(e) => Err(e),
            Ok(a) => {
                let current_task = match a.current_task_id {
                    Some(id) => self.task(id),
                    None => None,
                };
                Ok(
                    AgentContextModel {
                        agent: a,
                        current_task,
                        latest_decision: match current_task {
                            Some(t) => latest_decision(self.decisions, t.task_id),
                            None => None,
                        },
                        current_session: match a.current_session_id {
                            Some(id) => self.session(id),
                            None => None,
                        },
                        context_sources: sources,
                    },
                )
            },
        }
    }

    pub open spec fn task_context(self, task_id: Seq<char>, sources: Seq<SourceModel>) -> Result<
        TaskContextModel,
        Seq<char>,
    > {
        match known_task(self, task_id) {
            Err(e) => Err(e),
            Ok(task) => {
                let agent = self.agent(task.to_agent);
                Ok(
                    TaskContextModel {
                        task,
                        agent,
                        latest_decision: latest_decision(self.decisions, task_id),
                        current_session: match agent {
                            Some(a) => match a.current_session_id {
                                Some(id) => self.session(id),
                                None => None,
                            },
                            None => None,
                        },
                        context_sources: if agent is Some {
                            sources
                        } else {
                            Seq::empty()
                        },
                    },
                )
            },
        }
    }
}

impl AppShared {
    pub fn desired_agent_runtime_state(&self, agent: &AgentSummary) -> (r: AgentSessionState)
        ensures
            r == self@.desired_state(agent@),
    {
        if agent.current_session_id.is_some() {
            return AgentSessionState::Busy;
        }
        match &agent.current_task_id {
            Some(id) => match self.state.tasks.get(id.as_str()) {
                Some(task) => desired_agent_state_for_task(&task),
                None => AgentSessionState::Idle,
            },
            None => AgentSessionState::Idle,
        }
    }

    pub fn register_agent(&mut self, agent: &AgentSummary)
        ensures
            final(self)@ == old(self)@.register_agent(agent@),
    {
        self.emit(crate::state::Effect::SaveAgent { agent: agent.dup() });
        self.state.agents.put(agent.dup());
        self.ensure_bridge_queue_exists(agent);
        self.publish(crate::models::DashboardEvent::AgentStateChanged { agent: agent.dup() });
        let line = text("registered ").concat(agent.role.as_shown()).concat(" agent");
        let payload = JsonObject::new().text("role", agent.role.as_label()).text(
            "cwd",
            agent.cwd.as_str(),
        ).opt_text("prompt_path", &agent.prompt_path).render();
        self.log_agent(
            agent.name.as_str(),
            &None,
            None,
            "agent_registered",
            line.as_str(),
            "control_request",
            Some(payload),
        );
    }

    pub fn touch_agent_heartbeat(&mut self, agent: &str, now: Timestamp) -> (r: Result<
        AgentSummary,
        Failure,
    >)
        ensures
            (final(self)@, seen(r)) == old(self)@.touch_agent(agent@, now),
    {
        let a = match self.registered_agent(agent) {
            Err(e) => {
                return Err(e);
            },
            Ok(a) => a,
        };
        let mut updated = a;
        updated.last_heartbeat_at = Some(now);
        if updated.state == AgentSessionState::Offline {
            updated.state = self.desired_agent_runtime_state(&updated);
        }
        self.persist_agent(&updated);
        Ok(updated)
    }

    pub fn begin_agent_bootstrap(&mut self, agent: &str, now: Timestamp) -> (r: Result<
        AgentSummary,
        Failure,
    >)
        ensures
            (final(self)@, seen(r)) == old(self)@.begin_bootstrap(agent@, now),
    {
        let mut updated = match self.registered_agent(agent) {
            Err(e) => {
                return Err(e);
            },
            Ok(a) => a,
        };
        unbind(&mut updated);
        updated.last_heartbeat_at = Some(now);
        self.persist_agent(&updated);
        self.say(agent, "[AGENT_BOOTSTRAP_PENDING]", now);
        self.log_agent(
            agent,
            &None,
            None,
            "agent_bootstrap_started",
            "bootstrap reset and awaiting init",
            "bootstrap_contract",
            None,
        );
        Ok(updated)
    }

    pub fn mark_agent_ready(
        &mut self,
        agent: &str,
        summary: Option<String>,
        thread_id: Option<String>,
        now: Timestamp,
    ) -> (r: Result<AgentSummary, Failure>)
        ensures
            (final(self)@, seen(r)) == old(self)@.mark_ready(
                agent@,
                opt_text(summary),
                opt_text(thread_id),
                now,
            ),
    {
        let mut updated = match self.registered_agent(agent) {
            Err(e) => {
                return Err(e);
            },
            Ok(a) => a,
        };
        updated.bootstrap_state = AgentBootstrapState::Ready;
        updated.bootstrap_summary = trim_to_nonblank(summary);
        updated.bootstrap_completed_at = Some(now);
        updated.last_heartbeat_at = Some(now);
        let thread = trim_to_nonblank(thread_id);
        if thread.is_some() {
            updated.thread_id = thread;
        }
        self.persist_agent(&updated);
        let content = match &updated.bootstrap_summary {
            Some(s) => text("[AGENT_READY] ").concat(s.as_str()),
            None => text("[AGENT_READY]"),
        };
        self.say(agent, content.as_str(), now);
        let line = match &updated.bootstrap_summary {
            Some(s) => s.clone(),
            None => text("agent ready"),
        };
        let payload = JsonObject::new().opt_text("thread_id", &updated.thread_id).opt_time(
            "bootstrap_completed_at",
            updated.bootstrap_completed_at,
        ).render();
        self.log_agent(
            agent,
            &None,
            None,
            "agent_ready",
            line.as_str(),
            "bootstrap_contract",
            Some(payload),
        );
        Ok(updated)
    }

    pub fn set_agent_visible_pane(
        &mut self,
        agent: &str,
        pid: Option<u32>,
        kind: Option<VisiblePaneKind>,
        now: Timestamp,
    ) -> (r: Result<AgentSummary, Failure>)
        ensures
            (final(self)@, seen(r)) == old(self)@.set_visible_pane(agent@, pid, kind, now),
    {
        let mut updated = match self.registered_agent(agent) {
            Err(e) => {
                return Err(e);
            },
            Ok(a) => a,
        };
        match pid {
            Some(p) => {
                let k = match kind {
                    Some(k) => k,
                    None => {
                        return Err(
                            Failure::new(text("visible pane kind is required when pid is set")),
                        );
                    },
                };
                updated.visible_pane_pid = Some(p);
                updated.visible_pane_kind = Some(k);
                updated.visible_pane_registered_at = Some(now);
                updated.last_heartbeat_at = Some(now);
                self.persist_agent(&updated);
                let line = text("registered ").concat(k.as_shown()).concat(" pane ").concat(
                    to_decimal(p as u64).as_str(),
                );
                let payload = JsonObject::new().opt_number("visible_pane_pid", pid).value(
                    "visible_pane_kind",
                    pane_kind_value(kind),
                ).opt_time("visible_pane_registered_at", Some(now)).render();
                self.log_agent(
                    agent,
                    &updated.current_task_id,
                    None,
                    "visible_pane_registered",
                    line.as_str(),
                    "visible_pane",
                    Some(payload),
                );
                Ok(updated)
            },
            None => {
                let had = updated.visible_pane_pid.is_some() || updated.visible_pane_kind.is_some()
                    || updated.visible_pane_registered_at.is_some();
                updated.visible_pane_pid = None;
                updated.visible_pane_kind = None;
                updated.visible_pane_registered_at = None;
                updated.last_heartbeat_at = Some(now);
                self.persist_agent(&updated);
                if had {
                    self.log_agent(
                        agent,
                        &updated.current_task_id,
                        None,
                        "visible_pane_cleared",
                        "visible pane registration cleared",
                        "visible_pane",
                        None,
                    );
                }
                Ok(updated)
            },
        }
    }

    pub fn set_agent_app_server(
        &mut self,
        agent: &str,
        app_server_url: Option<String>,
        owner: Option<AppServerOwner>,
        now: Timestamp,
    ) -> (r: Result<AgentSummary, Failure>)
        ensures
            (final(self)@, seen(r)) == old(self)@.set_app_server(
                agent@,
                opt_text(app_server_url),
                owner,
                now,
            ),
    {
        let mut updated = match self.registered_agent(agent) {
            Err(e) => {
                return Err(e);
            },
            Ok(a) => a,
        };
        let normal = trim_to_nonblank(app_server_url);
        let fallback = default_app_server_owner(&updated);
        updated.app_server_url = copy_text(&normal);
        if normal.is_some() {
            updated.app_server_owner = match owner {
                Some(o) => Some(o),
                None => Some(fallback),
            };
            updated.app_server_registered_at = Some(now);
        } else {
            updated.app_server_owner = None;
            updated.app_server_registered_at = None;
        }
        updated.last_heartbeat_at = Some(now);
        self.persist_agent(&updated);
        let event_type = if normal.is_some() {
            "app_server_registered"
        } else {
            "app_server_cleared"
        };
        let line = match &normal {
            Some(s) => s.clone(),
            None => text("app server cleared"),
        };
        let payload = JsonObject::new().opt_text("app_server_url", &normal).value(
            "app_server_owner",
            owner_value(updated.app_server_owner),
        ).opt_time("registered_at", updated.app_server_registered_at).render();
        self.log_agent(
            agent,
            &None,
            None,
            event_type,
            line.as_str(),
            "app_server_registration",
            Some(payload),
        );
        Ok(updated)
    }

    pub fn recover_agent(&mut self, agent: &str, now: Timestamp) -> (r: Result<
        AgentSummary,
        Failure,
    >)
        ensures
            (final(self)@, seen(r)) == old(self)@.recover_agent(agent@, now),
    {
        let mut updated = match self.registered_agent(agent) {
            Err(e) => {
                return Err(e);
            },
            Ok(a) => a,
        };
        if updated.current_task_id.is_some() {
            return Err(
                Failure::new(
                    text("agent ").concat(agent).concat(
                        " still has an in-flight task and cannot be recovered",
                    ),
                ),
            );
        }
        if updated.current_session_id.is_some() {
            return Err(
                Failure::new(
                    text("agent ").concat(agent).concat(
                        " still has a live session and cannot be recovered",
                    ),
                ),
            );
        }
        if updated.state != AgentSessionState::Blocked {
            return Err(
                Failure::new(
                    text("agent ").concat(agent).concat(
                        " must be blocked before recovery, actual ",
                    ).concat(updated.state.as_shown()),
                ),
            );
        }
        updated.state = AgentSessionState::Idle;
        updated.last_heartbeat_at = Some(now);
        self.persist_agent(&updated);
        self.say(agent, "[AGENT_RECOVERED]", now);
        self.log_agent(
            agent,
            &None,
            None,
            "agent_recovered",
            "manually recovered blocked agent to idle",
            "control_request",
            None,
        );
        Ok(updated)
    }

    pub fn reset_agent_thread(&mut self, agent: &str, now: Timestamp) -> (r: Result<
        AgentSummary,
        Failure,
    >)
        ensures
            (final(self)@, seen(r)) == old(self)@.reset_thread(agent@, now),
    {
        let mut updated = match self.registered_agent(agent) {
            Err(e) => {
                return Err(e);
            },
            Ok(a) => a,
        };
        if updated.current_session_id.is_some() {
            return Err(
                Failure::new(
                    text("agent ").concat(agent).concat(
                        " still has a live session and cannot reset thread",
                    ),
                ),
            );
        }
        if updated.current_task_id.is_some() {
            return Err(
                Failure::new(
                    text("agent ").concat(agent).concat(
                        " still has an in-flight task and cannot reset thread",
                    ),
                ),
            );
        }
        updated.thread_id = None;
        updated.last_heartbeat_at = Some(now);
        self.persist_agent(&updated);
        self.say(agent, "[THREAD_RESET]", now);
        self.log_agent(
            agent,
            &None,
            None,
            "thread_reset",
            "cleared cached thread id",
            "control_request",
            None,
        );
        Ok(updated)
    }

    pub fn reset_daemon_app_server_binding(&mut self, agent: &str, reason: &str, now: Timestamp) -> (r:
        Result<AgentSummary, Failure>)
        ensures
            (final(self)@, seen(r)) == old(self)@.reset_app_server(agent@, reason@, now),
    {
        let mut updated = match self.registered_agent(agent) {
            Err(e) => {
                return Err(e);
            },
            Ok(a) => a,
        };
        unbind(&mut updated);
        updated.last_heartbeat_at = Some(now);
        if updated.current_task_id.is_some() {
            updated.state = AgentSessionState::Blocked;
        } else if updated.current_session_id.is_none() {
            updated.state = AgentSessionState::Idle;
        }
        self.persist_agent(&updated);
        let payload = JsonObject::new().text(
            "bootstrap_state",
            updated.bootstrap_state.as_label(),
        ).text("state", updated.state.as_label()).render();
        self.log_agent(
            agent,
            &updated.current_task_id,
            None,
            "daemon_app_server_reset",
            reason,
            "managed_session",
            Some(payload),
        );
        Ok(updated)
    }

    pub fn agent_context(&self, agent: &str, context_sources: Vec<AgentContextSource>) -> (r: Result<
        AgentContextView,
        Failure,
    >)
        ensures
            seen(r) == self@.agent_context(agent@, views(context_sources@)),
    {
        let a = match self.registered_agent(agent) {
            Err(e) => {
                return Err(e);
            },
            Ok(a) => a,
        };
        let current_task = match &a.current_task_id {
            Some(id) => self.state.tasks.get(id.as_str()),
            None => None,
        };
        let latest = match &current_task {
            Some(t) => latest_decision_for_task(&self.state.decisions, t.task_id.as_str()),
            None => None,
        };
        let current_session = match &a.current_session_id {
            Some(id) => self.state.sessions.get(id.as_str()),
            None => None,
        };
        Ok(
            AgentContextView {
                agent: a,
                current_task,
                latest_decision: latest,
                current_session,
                context_sources,
            },
        )
    }

    pub fn task_context(&self, task_id: &str, context_sources: Vec<AgentContextSource>) -> (r: Result<
        TaskContextView,
        Failure,
    >)
        ensures
            seen(r) == self@.task_context(task_id@, views(context_sources@)),
    {
        let task = match self.known_task(task_id) {
            Err(e) => {
                return Err(e);
            },
            Ok(task) => task,
        };
        let agent = self.state.agents.get(task.to_agent.as_str());
        let latest = latest_decision_for_task(&self.state.decisions, task_id);
        let current_session = match &agent {
            Some(a) => match &a.current_session_id {
                Some(id) => self.state.sessions.get(id.as_str()),
                None => None,
            },
            None => None,
        };
        let sources: Vec<AgentContextSource> = if agent.is_some() {
            context_sources
        } else {
            Vec::new()
        };
        assert(agent is None ==> views(sources@) =~= Seq::empty());
        Ok(
            TaskContextView {
                task,
                agent,
                latest_decision: latest,
                current_session,
                context_sources: sources,
            },
        )
    }
}

} // verus!
