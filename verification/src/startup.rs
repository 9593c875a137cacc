//! What the daemon does with the stored records when it starts.

use vstd::prelude::*;

use crate::agents::{fresh_agent, make_agent, unbound};
use crate::decision::{
    apply_latest_decision_fields, latest_decision, latest_decision_for_task, mirrors_decision,
    task_latest_decision_is_current, with_decision,
};
use crate::failure::{seen, Failure};
use crate::models::{
    AgentBootstrapState, AgentModel, AgentRole, AgentSessionState, AgentSummary, AppServerOwner,
    CodexSessionStatus, DashboardEvent, DashboardModel, DecisionModel, DecisionSummary,
    RuntimeEventRecord, SessionMode, SessionModel, SessionSummary, StreamEventRecord, TaskModel,
    TaskSummary,
};
use crate::repair::{
    find_open_tasks, is_open, open_tasks, runs, session_runs, task_is_open,
};
use crate::state::{
    AppShared, BridgeDeliveryQueue, Effect, EffectModel, QueueModel, RuntimeState, World,
};
use crate::table::{filed_all, put, view_opt, views, Dup, Table};
use crate::text::{copy_text, decimal, opt_text, same_opt_text, same_text, text, texts, to_decimal};
use crate::time::Timestamp;

verus! {

/// The file that holds an agent's contract, by its role.
pub open spec fn prompt_file(role: AgentRole) -> Seq<char> {
    match role {
        AgentRole::Main => "MAIN_AGENT_PROMPT.md"@,
        AgentRole::Child => "SUBAGENT_PROMPT.md"@,
    }
}

pub fn default_prompt_file(role: AgentRole) -> (r: &'static str)
    ensures
        r@ == prompt_file(role),
{
    match role {
        AgentRole::Main => "MAIN_AGENT_PROMPT.md",
        AgentRole::Child => "SUBAGENT_PROMPT.md",
    }
}

/// What the file system says of an agent's prompt path.
pub struct PromptFacts {
    /// Whether the path that was given is absolute.
    pub absolute: bool,
    /// The path that was given, below the working directory.
    pub below_cwd: String,
    /// The default file in the working directory, if it is there.
    pub default_file: Option<String>,
}

/// The prompt path that an agent gets: its own, made absolute, or the default file.
pub open spec fn resolved_prompt(
    given: Option<Seq<char>>,
    absolute: bool,
    below_cwd: Seq<char>,
    default_file: Option<Seq<char>>,
) -> Option<Seq<char>> {
    match given {
        Some(path) => if absolute {
            Some(path)
        } else {
            Some(below_cwd)
        },
        None => default_file,
    }
}

pub fn normalize_prompt_path(prompt_path: Option<String>, facts: &PromptFacts) -> (r: Option<String>)
    ensures
        opt_text(r) == resolved_prompt(
            opt_text(prompt_path),
            facts.absolute,
            facts.below_cwd@,
            opt_text(facts.default_file),
        ),
{
    match prompt_path {
        Some(path) => if facts.absolute {
            Some(path)
        } else {
            Some(facts.below_cwd.clone())
        },
        None => copy_text(&facts.default_file),
    }
}

/// The working directory of an agent, once the main agent's placeholder is filled in.
pub open spec fn startup_cwd(a: AgentModel, main_cwd: Seq<char>) -> Seq<char> {
    if a.name == "main"@ && a.cwd == "."@ {
        main_cwd
    } else {
        a.cwd
    }
}

pub fn agent_startup_cwd(agent: &AgentSummary, main_cwd: &str) -> (r: String)
    ensures
        r@ == startup_cwd(agent@, main_cwd@),
{
    if same_text(agent.name.as_str(), "main") && same_text(agent.cwd.as_str(), ".") {
        text(main_cwd)
    } else {
        agent.cwd.clone()
    }
}

/// Mailboxes for the agents that were loaded.
pub open spec fn queues_for(agents: Seq<AgentModel>) -> Seq<QueueModel> {
    agents.map_values(
        |a: AgentModel|
            QueueModel {
                agent_name: a.name,
                next_delivery_id: a.bridge_last_delivery_id,
                pending: Seq::empty(),
            },
    )
}

/// The daemon as it is made from the stored records.
pub open spec fn loaded(
    agents: Seq<AgentModel>,
    tasks: Seq<TaskModel>,
    decisions: Seq<DecisionModel>,
    recent_sessions: Seq<SessionModel>,
    running_sessions: Seq<SessionModel>,
    streams: Seq<crate::models::StreamModel>,
    events: Seq<crate::models::RuntimeEventModel>,
) -> World {
    World {
        agents: filed_all(Seq::empty(), agents),
        tasks: filed_all(Seq::empty(), tasks),
        decisions: filed_all(Seq::empty(), decisions),
        sessions: filed_all(Seq::empty(), recent_sessions + running_sessions),
        recent_streams: streams,
        recent_runtime_events: events,
        active_sessions: Seq::empty(),
        active_managed_sessions: Seq::empty(),
        active_bridges: Seq::empty(),
        bridge_queues: filed_all(Seq::empty(), queues_for(agents)),
        outbox: Seq::empty(),
    }
}

fn make_queues(agents: &Vec<AgentSummary>) -> (r: Vec<BridgeDeliveryQueue>)
    ensures
        views(r@) == queues_for(views(agents@)),
{
    let mut out: Vec<BridgeDeliveryQueue> = Vec::new();
    let mut i: usize = 0;
    while i < agents.len()
        invariant
            i <= agents.len(),
            views(out@) =~= queues_for(views(agents@)).take(i as int),
        decreases agents.len() - i,
    {
        let q = BridgeDeliveryQueue {
            agent_name: agents[i].name.clone(),
            next_delivery_id: agents[i].bridge_last_delivery_id,
            pending: Vec::new(),
        };
        assert(q@.pending =~= Seq::empty());
        let ghost before = out@;
        out.push(q);
        assert(views(out@) =~= views(before).push(q@));
        i += 1;
    }
    out
}

impl AppShared {
    /// Running sessions outweigh recent ones of the same number.
    pub fn load(
        agents: Vec<AgentSummary>,
        tasks: Vec<TaskSummary>,
        decisions: Vec<DecisionSummary>,
        recent_sessions: Vec<SessionSummary>,
        running_sessions: Vec<SessionSummary>,
        streams: Vec<StreamEventRecord>,
        events: Vec<RuntimeEventRecord>,
    ) -> (r: AppShared)
        ensures
            r@ == loaded(
                views(agents@),
                views(tasks@),
                views(decisions@),
                views(recent_sessions@),
                views(running_sessions@),
                views(streams@),
                views(events@),
            ),
    {
        let queues = make_queues(&agents);
        let mut sessions = recent_sessions;
        let mut running = running_sessions;
        sessions.append(&mut running);
        assert(views(sessions@) =~= views(recent_sessions@) + views(running_sessions@));
        let outbox: Vec<Effect> = Vec::new();
        assert(views(outbox@) =~= Seq::empty());
        AppShared {
            state: RuntimeState {
                agents: Table::from_rows(agents),
                tasks: Table::from_rows(tasks),
                decisions: Table::from_rows(decisions),
                sessions: Table::from_rows(sessions),
                recent_streams: streams,
                recent_runtime_events: events,
            },
            active_sessions: Table::new(),
            active_managed_sessions: Table::new(),
            active_bridges: Table::new(),
            bridge_queues: Table::from_rows(queues),
            outbox,
        }
    }
}

/// The agent as the records that were loaded call for it, where it is not so yet.
pub open spec fn normal_agent(w: World, a: AgentModel, now: Timestamp) -> Option<AgentModel> {
    let unseat = a.current_session_id matches Some(id) && !runs(w.sessions, id);
    let seated = if unseat {
        AgentModel { current_session_id: None, ..a }
    } else {
        a
    };
    let unserve = a.app_server_owner == Some(AppServerOwner::Daemon) && !daemon_serves(
        w.sessions,
        a.name,
    ) && (a.app_server_url is Some || a.thread_id is Some || a.bootstrap_state
        == AgentBootstrapState::Ready);
    let served = if unserve {
        unbound(seated)
    } else {
        seated
    };
    let untask = a.current_task_id matches Some(id) && !is_open(w.tasks, id);
    let tasked = if untask {
        AgentModel { current_task_id: None, ..served }
    } else {
        served
    };
    let open = open_tasks(w.tasks, a.name);
    let bind = tasked.current_task_id is None && tasked.current_session_id is None && open.len()
        == 1;
    let bound = if bind {
        AgentModel { current_task_id: Some(open[0]), ..tasked }
    } else {
        tasked
    };
    let desired = w.desired_state(bound);
    if unseat || unserve || untask || bind || bound.state != desired {
        Some(AgentModel { state: desired, last_heartbeat_at: Some(now), ..bound })
    } else {
        None
    }
}

/// The agent after the start.
pub open spec fn normalized(w: World, a: AgentModel, now: Timestamp) -> AgentModel {
    match normal_agent(w, a, now) {
        Some(n) => n,
        None => a,
    }
}

/// Whether an app server that the daemon started for the agent is marked as running.
pub open spec fn daemon_serves(sessions: Seq<SessionModel>, agent: Seq<char>) -> bool {
    exists|i: int|
        0 <= i < sessions.len() && (#[trigger] sessions[i]).agent_name == agent
            && sessions[i].session_mode == SessionMode::AppServer && sessions[i].status
            == CodexSessionStatus::Running
}

/// The agents, brought into line one after another.
pub open spec fn normal_agents(w: World, agents: Seq<AgentModel>, now: Timestamp) -> Seq<
    AgentModel,
> {
    agents.map_values(|a: AgentModel| normalized(w, a, now))
}

/// The effects that store the agents that changed.
pub open spec fn normal_effects(w: World, agents: Seq<AgentModel>, now: Timestamp) -> Seq<
    EffectModel,
>
    decreases agents.len(),
{
    if agents.len() == 0 {
        Seq::empty()
    } else {
        let rest = normal_effects(w, agents.drop_last(), now);
        match normal_agent(w, agents.last(), now) {
            Some(n) => rest.push(EffectModel::SaveAgent { agent: n }),
            None => rest,
        }
    }
}

/// The tasks with their mirrors of decisions renewed.
pub open spec fn mirrored_tasks(tasks: Seq<TaskModel>, decisions: Seq<DecisionModel>) -> Seq<
    TaskModel,
> {
    tasks.map_values(
        |t: TaskModel| with_decision(t, latest_decision(decisions, t.task_id)),
    )
}

/// The effects that store the tasks whose mirrors were not current.
pub open spec fn mirror_effects(tasks: Seq<TaskModel>, decisions: Seq<DecisionModel>) -> Seq<
    EffectModel,
>
    decreases tasks.len(),
{
    if tasks.len() == 0 {
        Seq::empty()
    } else {
        let rest = mirror_effects(tasks.drop_last(), decisions);
        let t = tasks.last();
        let latest = latest_decision(decisions, t.task_id);
        if mirrors_decision(t, latest) {
            rest
        } else {
            rest.push(EffectModel::UpdateTask { task: with_decision(t, latest) })
        }
    }
}

/// The sessions that are marked as running, in the order of the table.
pub open spec fn running_sessions(sessions: Seq<SessionModel>) -> Seq<SessionModel>
    decreases sessions.len(),
{
    if sessions.len() == 0 {
        sessions
    } else {
        let rest = running_sessions(sessions.drop_last());
        if sessions.last().status == CodexSessionStatus::Running {
            rest.push(sessions.last())
        } else {
            rest
        }
    }
}

impl World {
    /// The main agent exists and knows where it works.
    pub open spec fn ensure_main_agent(
        self,
        main_cwd: Seq<char>,
        main_prompt: Option<Seq<char>>,
        now: Timestamp,
    ) -> World {
        let existing = self.agent("main"@);
        let base = match existing {
            Some(a) => a,
            None => fresh_agent(
                "main"@,
                AgentRole::Main,
                Some("hackman"@),
                main_cwd,
                main_prompt,
                now,
            ),
        };
        let placed = if base.cwd == "."@ {
            AgentModel { cwd: main_cwd, ..base }
        } else {
            base
        };
        let prompted = if placed.prompt_path is None && main_prompt is Some {
            AgentModel { prompt_path: main_prompt, ..placed }
        } else {
            placed
        };
        if existing is Some && base.cwd != "."@ && (base.prompt_path is Some || main_prompt is None) {
            self
        } else {
            let stored = self.emit(EffectModel::SaveAgent { agent: prompted });
            World { agents: put(stored.agents, prompted), ..stored }.ensure_bridge_queue(
                prompted,
            ).publish(DashboardModel::AgentStateChanged { agent: prompted })
        }
    }

    /// One agent gets the working directory and the prompt path found at the start.
    pub open spec fn sync_prompt(
        self,
        name: Seq<char>,
        main_cwd: Seq<char>,
        prompt: Option<Seq<char>>,
    ) -> World {
        match self.agent(name) {
            None => self,
            Some(a) => {
                let updated = AgentModel {
                    cwd: startup_cwd(a, main_cwd),
                    prompt_path: prompt,
                    ..a
                };
                if a.prompt_path == prompt && !(a.name == "main"@ && a.cwd == "."@) {
                    self
                } else {
                    let stored = self.emit(EffectModel::SaveAgent { agent: updated });
                    World { agents: put(stored.agents, updated), ..stored }
                }
            },
        }
    }

    /// Every task mirrors the latest decision on it.
    pub open spec fn sync_task_decisions(self) -> World {
        World {
            tasks: mirrored_tasks(self.tasks, self.decisions),
            outbox: self.outbox + mirror_effects(self.tasks, self.decisions),
            ..self
        }
    }

    /// A session of an earlier run of the daemon has failed; its agent, if it
    /// holds a task, is blocked.
    pub open spec fn recover_session(self, session: SessionModel, now: Timestamp) -> (
        World,
        Result<(), Seq<char>>,
    ) {
        let managed = session.session_mode == SessionMode::AppServer;
        let ended = self.finalize_session(
            session.session_id,
            CodexSessionStatus::Failed,
            now,
            !managed,
            now,
        );
        match ended.1 {
            Err(e) => (ended.0, Err(e)),
            Ok(_) => {
                let reset = if managed {
                    ended.0.reset_app_server(
                        session.agent_name,
                        "daemon-managed session was still marked running on startup"@,
                        now,
                    ).0
                } else {
                    ended.0
                };
                match reset.agent(session.agent_name) {
                    Some(a) => if a.current_session_id is None && a.current_task_id is Some {
                        (
                            reset.persist_agent(
                                AgentModel {
                                    state: AgentSessionState::Blocked,
                                    last_heartbeat_at: Some(now),
                                    ..a
                                },
                            ),
                            Ok(()),
                        )
                    } else {
                        (reset, Ok(()))
                    },
                    None => (reset, Ok(())),
                }
            },
        }
    }

    pub open spec fn recover_all(self, stale: Seq<SessionModel>, now: Timestamp) -> (
        World,
        Result<(), Seq<char>>,
    )
        decreases stale.len(),
    {
        if stale.len() == 0 {
            (self, Ok(()))
        } else {
            let first = self.recover_session(stale[0], now);
            match first.1 {
                Err(e) => (first.0, Err(e)),
                Ok(_) => first.0.recover_all(stale.skip(1), now),
            }
        }
    }

    /// The sessions that were running when the daemon last stopped have failed.
    pub open spec fn recover_stale_sessions(self, now: Timestamp) -> (
        World,
        Result<(), Seq<char>>,
    ) {
        self.recover_all(running_sessions(self.sessions), now)
    }

    /// Every agent is in line with the sessions and tasks that were loaded.
    pub open spec fn normalize_agents(self, now: Timestamp) -> World {
        World {
            agents: normal_agents(self, self.agents, now),
            outbox: self.outbox + normal_effects(self, self.agents, now),
            ..self
        }
    }

    /// A window that is no longer there is forgotten.
    pub open spec fn recover_pane(self, agent: Seq<char>, pid: u32, now: Timestamp) -> (
        World,
        Result<(), Seq<char>>,
    ) {
        let cleared = self.set_visible_pane(agent, None, None, now);
        match cleared.1 {
            Err(e) => (cleared.0, Err(e)),
            Ok(updated) => (
                cleared.0.log_agent(
                    agent,
                    updated.current_task_id,
                    None,
                    "visible_pane_recovered"@,
                    "cleared stale visible pane registration "@ + decimal(pid as nat),
                    "startup_recovery"@,
                    None,
                ),
                Ok(()),
            ),
        }
    }
}

fn find_daemon_serves(sessions: &Table<SessionSummary>, agent: &str) -> (r: bool)
    ensures
        r == daemon_serves(sessions@, agent@),
{
    let mut i: usize = 0;
    while i < sessions.len()
        invariant
            i <= sessions@.len(),
            forall|j: int|
                0 <= j < i ==> !((#[trigger] sessions@[j]).agent_name == agent@
                    && sessions@[j].session_mode == SessionMode::AppServer && sessions@[j].status
                    == CodexSessionStatus::Running),
        decreases sessions@.len() - i,
    {
        let s = sessions.at(i);
        if same_text(s.agent_name.as_str(), agent) && s.session_mode == SessionMode::AppServer
            && s.status == CodexSessionStatus::Running {
            assert(sessions@[i as int].agent_name == agent@);
            return true;
        }
        i += 1;
    }
    false
}

fn find_running_sessions(sessions: &Table<SessionSummary>) -> (r: Vec<SessionSummary>)
    ensures
        views(r@) == running_sessions(sessions@),
{
    let mut out: Vec<SessionSummary> = Vec::new();
    let mut i: usize = 0;
    assert(views(out@) =~= sessions@.take(0));
    while i < sessions.len()
        invariant
            i <= sessions@.len(),
            views(out@) == running_sessions(sessions@.take(i as int)),
        decreases sessions@.len() - i,
    {
        let s = sessions.at(i);
        proof {
            assert(sessions@.take(i + 1).drop_last() =~= sessions@.take(i as int));
            assert(sessions@.take(i + 1).last() == s@);
        }
        if s.status == CodexSessionStatus::Running {
            let ghost before = out@;
            out.push(s.dup());
            assert(views(out@) =~= views(before).push(s@));
        }
        i += 1;
    }
    assert(sessions@.take(i as int) =~= sessions@);
    out
}

impl AppShared {
    pub fn ensure_main_agent(&mut self, main_cwd: &str, main_prompt_path: Option<String>, now: Timestamp)
        ensures
            final(self)@ == old(self)@.ensure_main_agent(
                main_cwd@,
                opt_text(main_prompt_path),
                now,
            ),
    {
        let existing = self.state.agents.get("main");
        let mut changed = existing.is_none();
        let mut agent = match existing {
            Some(a) => a,
            None => make_agent(
                "main",
                AgentRole::Main,
                Some(text("hackman")),
                text(main_cwd),
                copy_text(&main_prompt_path),
                now,
            ),
        };
        if same_text(agent.cwd.as_str(), ".") {
            agent.cwd = text(main_cwd);
            changed = true;
        }
        if agent.prompt_path.is_none() && main_prompt_path.is_some() {
            agent.prompt_path = main_prompt_path;
            changed = true;
        }
        if !changed {
            return;
        }
        self.emit(Effect::SaveAgent { agent: agent.dup() });
        self.state.agents.put(agent.dup());
        self.ensure_bridge_queue_exists(&agent);
        self.publish(DashboardEvent::AgentStateChanged { agent });
    }

    pub fn sync_agent_prompt_default(
        &mut self,
        name: &str,
        main_cwd: &str,
        normalized_prompt_path: Option<String>,
    )
        ensures
            final(self)@ == old(self)@.sync_prompt(
                name@,
                main_cwd@,
                opt_text(normalized_prompt_path),
            ),
    {
        let mut updated = match self.state.agents.get(name) {
            None => {
                return;
            },
            Some(a) => a,
        };
        let mut changed = false;
        if same_text(updated.name.as_str(), "main") && same_text(updated.cwd.as_str(), ".") {
            updated.cwd = text(main_cwd);
            changed = true;
        }
        if !same_opt_text(&updated.prompt_path, &normalized_prompt_path) {
            updated.prompt_path = normalized_prompt_path;
            changed = true;
        }
        if changed {
            self.emit(Effect::SaveAgent { agent: updated.dup() });
            self.state.agents.put(updated);
        }
    }

    pub fn sync_task_latest_decision_fields_on_startup(&mut self)
        ensures
            final(self)@ == old(self)@.sync_task_decisions(),
    {
        let ghost start = self@;
        let ghost done = mirrored_tasks(start.tasks, start.decisions);
        let mut out: Vec<TaskSummary> = Vec::new();
        let mut i: usize = 0;
        assert(start.outbox + mirror_effects(start.tasks.take(0), start.decisions)
            =~= start.outbox);
        while i < self.state.tasks.len()
            invariant
                i <= start.tasks.len(),
                done == mirrored_tasks(start.tasks, start.decisions),
                self@ == (World {
                    outbox: start.outbox + mirror_effects(
                        start.tasks.take(i as int),
                        start.decisions,
                    ),
                    ..start
                }),
                views(out@) =~= done.take(i as int),
            decreases start.tasks.len() - i,
        {
            let mut task = self.state.tasks.at(i).dup();
            let ghost before = task@;
            let latest = latest_decision_for_task(&self.state.decisions, task.task_id.as_str());
            let latest_ref = match &latest {
                Some(d) => Some(d),
                None => None,
            };
            if !task_latest_decision_is_current(&task, latest_ref) {
                apply_latest_decision_fields(&mut task, latest_ref);
                self.emit(Effect::UpdateTask { task: task.dup() });
            }
            let ghost rows = out@;
            out.push(task);
            i += 1;
            proof {
                let head = start.tasks.take(i as int);
                assert(head.drop_last() =~= start.tasks.take(i - 1));
                assert(head.last() == before);
                assert(views(out@) =~= views(rows).push(task@));
                assert(self@.outbox =~= start.outbox + mirror_effects(head, start.decisions));
            }
        }
        assert(start.tasks.take(i as int) =~= start.tasks);
        assert(views(out@) =~= done);
        self.state.tasks = Table { rows: out };
    }

    fn recover_session(&mut self, session: &SessionSummary, now: Timestamp) -> (r: Result<
        (),
        Failure,
    >)
        ensures
            (final(self)@, seen(r)) == old(self)@.recover_session(session@, now),
    {
        let managed = session.session_mode == SessionMode::AppServer;
        match self.finalize_session_state_inner(
            session.session_id.as_str(),
            CodexSessionStatus::Failed,
            now,
            !managed,
            now,
        ) {
            Err(e) => {
                return Err(e);
            },
            Ok(_) => {},
        }
        if managed {
            let _ = self.reset_daemon_app_server_binding(
                session.agent_name.as_str(),
                "daemon-managed session was still marked running on startup",
                now,
            );
        }
        match self.state.agents.get(session.agent_name.as_str()) {
            Some(a) => if a.current_session_id.is_none() && a.current_task_id.is_some() {
                let mut updated = a;
                updated.state = AgentSessionState::Blocked;
                updated.last_heartbeat_at = Some(now);
                self.persist_agent(&updated);
            },
            None => {},
        }
        Ok(())
    }

    pub fn recover_stale_sessions_on_startup(&mut self, now: Timestamp) -> (r: Result<(), Failure>)
        ensures
            (final(self)@, seen(r)) == old(self)@.recover_stale_sessions(now),
    {
        let stale = find_running_sessions(&self.state.sessions);
        let ghost all = views(stale@);
        let ghost start = self@;
        let mut i: usize = 0;
        assert(all.skip(0) =~= all);
        while i < stale.len()
            invariant
                i <= stale.len(),
                all == views(stale@),
                self@.recover_all(all.skip(i as int), now) == start.recover_all(all, now),
                start.recover_all(all, now) == old(self)@.recover_stale_sessions(now),
            decreases stale.len() - i,
        {
            assert(all.skip(i as int)[0] == stale@[i as int]@);
            assert(all.skip(i as int).skip(1) =~= all.skip(i + 1));
            match self.recover_session(&stale[i], now) {
                Err(e) => {
                    return Err(e);
                },
                Ok(_) => {},
            }
            i += 1;
        }
        Ok(())
    }

    fn normal_agent(&self, agent: &AgentSummary, now: Timestamp) -> (r: Option<AgentSummary>)
        ensures
            view_opt(r) == normal_agent(self@, agent@, now),
    {
        let mut updated = agent.dup();
        let mut changed = false;
        match copy_text(&updated.current_session_id) {
            Some(id) => if !session_runs(&self.state.sessions, id.as_str()) {
                updated.current_session_id = None;
                changed = true;
            },
            None => {},
        }
        let daemon_owned = match updated.app_server_owner {
            Some(owner) => owner == AppServerOwner::Daemon,
            None => false,
        };
        if daemon_owned {
            let serves = find_daemon_serves(&self.state.sessions, updated.name.as_str());
            if !serves && (updated.app_server_url.is_some() || updated.thread_id.is_some()
                || updated.bootstrap_state == AgentBootstrapState::Ready) {
                crate::agents::unbind(&mut updated);
                changed = true;
            }
        }
        match copy_text(&updated.current_task_id) {
            Some(id) => if !task_is_open(&self.state.tasks, id.as_str()) {
                updated.current_task_id = None;
                changed = true;
            },
            None => {},
        }
        if updated.current_task_id.is_none() && updated.current_session_id.is_none() {
            let open = find_open_tasks(&self.state.tasks, updated.name.as_str());
            assert(texts(open@).len() == open.len());
            if open.len() == 1 {
                assert(texts(open@)[0] == open@[0]@);
                updated.current_task_id = Some(open[0].clone());
                changed = true;
            }
        }
        let desired = self.desired_agent_runtime_state(&updated);
        if updated.state != desired {
            updated.state = desired;
            changed = true;
        }
        if changed {
            updated.last_heartbeat_at = Some(now);
            Some(updated)
        } else {
            None
        }
    }

    pub fn normalize_runtime_state_on_startup(&mut self, now: Timestamp)
        ensures
            final(self)@ == old(self)@.normalize_agents(now),
    {
        let ghost start = self@;
        let ghost done = normal_agents(start, start.agents, now);
        let mut updates: Vec<AgentSummary> = Vec::new();
        let mut out: Vec<AgentSummary> = Vec::new();
        let mut i: usize = 0;
        assert(views(updates@) =~= Seq::empty());
        while i < self.state.agents.len()
            invariant
                i <= start.agents.len(),
                done == normal_agents(start, start.agents, now),
                self@ == start,
                saves(views(updates@)) == normal_effects(start, start.agents.take(i as int), now),
                views(out@) =~= done.take(i as int),
            decreases start.agents.len() - i,
        {
            let agent = self.state.agents.at(i).dup();
            let ghost before = agent@;
            let ghost rows = out@;
            let ghost ups = updates@;
            match self.normal_agent(&agent, now) {
                Some(n) => {
                    updates.push(n.dup());
                    assert(saves(views(updates@)) =~= saves(views(ups)).push(
                        EffectModel::SaveAgent { agent: n@ },
                    ));
                    out.push(n);
                },
                None => {
                    out.push(agent);
                },
            }
            i += 1;
            proof {
                let head = start.agents.take(i as int);
                assert(head.drop_last() =~= start.agents.take(i - 1));
                assert(head.last() == before);
                assert(views(out@) =~= views(rows).push(normalized(start, before, now)));
            }
        }
        assert(start.agents.take(i as int) =~= start.agents);
        assert(views(out@) =~= done);
        let ghost effects = saves(views(updates@));
        let mut k: usize = 0;
        assert(start.outbox + effects.take(0) =~= start.outbox);
        while k < updates.len()
            invariant
                k <= updates.len(),
                effects == saves(views(updates@)),
                self@ == (World { outbox: start.outbox + effects.take(k as int), ..start }),
            decreases updates.len() - k,
        {
            self.emit(Effect::SaveAgent { agent: updates[k].dup() });
            k += 1;
            assert(self@.outbox =~= start.outbox + effects.take(k as int));
        }
        assert(effects.take(k as int) =~= effects);
        self.state.agents = Table { rows: out };
    }

    pub fn recover_visible_pane(&mut self, agent: &str, pid: u32, now: Timestamp) -> (r: Result<
        (),
        Failure,
    >)
        ensures
            (final(self)@, seen(r)) == old(self)@.recover_pane(agent@, pid, now),
    {
        let updated = match self.set_agent_visible_pane(agent, None, None, now) {
            Err(e) => {
                return Err(e);
            },
            Ok(a) => a,
        };
        let line = text("cleared stale visible pane registration ").concat(
            to_decimal(pid as u64).as_str(),
        );
        self.log_agent(
            agent,
            &updated.current_task_id,
            None,
            "visible_pane_recovered",
            line.as_str(),
            "startup_recovery",
            None,
        );
        Ok(())
    }
}

/// The effects that store the agents.
pub open spec fn saves(agents: Seq<AgentModel>) -> Seq<EffectModel> {
    agents.map_values(|a: AgentModel| EffectModel::SaveAgent { agent: a })
}

} // verus!
