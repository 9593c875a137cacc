//! Removal of agents with everything that belongs to them.
//!
//! A removal is planned, the rows leave the database, and then the removal is
//! applied to the state in memory.

use vstd::prelude::*;

use crate::draft::{is_task_terminal, terminal};
use crate::failure::{seen, Failure};
use crate::models::{
    AgentModel, AgentSummary, BridgeConnectionState, CleanupModel, CleanupSummary,
    CodexSessionStatus, DecisionModel, DecisionSummary, RemovalModel, RemoveAgentSummary,
    RuntimeEventModel, RuntimeEventRecord, SessionModel, SessionSummary, StreamEventRecord,
    StreamModel, TaskModel, TaskSummary,
};
use crate::state::{known_agent, AppShared, Effect, EffectModel, LiveModel, LiveSession, World};
use crate::table::{filed, views, without, Dup, Table};
use crate::text::{
    begins_with, copy_texts, decimal, has_text, join, joined, same_text, starts_with, text, texts,
    to_decimal,
};
use crate::time::Timestamp;

verus! {

/// Whether the agent is one of those made for demonstrations.
pub open spec fn is_demo(name: Seq<char>) -> bool {
    begins_with(name, "demo_"@) || name == "usage_limit_probe"@
}

pub fn is_demo_agent_name(agent_name: &str) -> (r: bool)
    ensures
        r == is_demo(agent_name@),
{
    starts_with(agent_name, "demo_") || same_text(agent_name, "usage_limit_probe")
}

/// A record that may have to go with some agents and some tasks.
pub trait Removable: Sized {
    spec fn stays(self, agents: Seq<Seq<char>>, task_ids: Seq<Seq<char>>) -> bool;
}

pub trait RemovableRecord: Dup where Self::V: Removable {
    fn does_stay(&self, agents: &Vec<String>, task_ids: &Vec<String>) -> (r: bool)
        ensures
            r == self@.stays(texts(agents@), texts(task_ids@)),
    ;
}

/// The records that stay, in order.
pub open spec fn kept<R: Removable>(
    s: Seq<R>,
    agents: Seq<Seq<char>>,
    task_ids: Seq<Seq<char>>,
) -> Seq<R> {
    s.filter(|r: R| r.stays(agents, task_ids))
}

fn keep<T: RemovableRecord>(rows: &Vec<T>, agents: &Vec<String>, task_ids: &Vec<String>) -> (r: Vec<
    T,
>) where T::V: Removable
    ensures
        views(r@) == kept(views(rows@), texts(agents@), texts(task_ids@)),
{
    let mut out: Vec<T> = Vec::new();
    let mut i: usize = 0;
    let ghost all = views(rows@);
    let ghost names = texts(agents@);
    let ghost ids = texts(task_ids@);
    proof {
        reveal(Seq::filter);
        assert(views(out@) =~= kept(all.take(0), names, ids));
    }
    while i < rows.len()
        invariant
            i <= rows.len(),
            all == views(rows@),
            names == texts(agents@),
            ids == texts(task_ids@),
            views(out@) == kept(all.take(i as int), names, ids),
        decreases rows.len() - i,
    {
        let ghost before = out@;
        let stays = rows[i].does_stay(agents, task_ids);
        if stays {
            out.push(rows[i].dup());
            assert(views(out@) =~= views(before).push(rows@[i as int]@));
        }
        proof {
            reveal(Seq::filter);
            let head = all.take(i + 1);
            assert(head.drop_last() =~= all.take(i as int));
            assert(head.last() == rows@[i as int]@);
        }
        i += 1;
    }
    assert(all.take(i as int) =~= all);
    out
}

impl Removable for AgentModel {
    open spec fn stays(self, agents: Seq<Seq<char>>, task_ids: Seq<Seq<char>>) -> bool {
        !agents.contains(self.name)
    }
}

impl RemovableRecord for AgentSummary {
    fn does_stay(&self, agents: &Vec<String>, task_ids: &Vec<String>) -> bool {
        !has_text(agents, self.name.as_str())
    }
}

impl Removable for TaskModel {
    open spec fn stays(self, agents: Seq<Seq<char>>, task_ids: Seq<Seq<char>>) -> bool {
        !task_ids.contains(self.task_id) && !agents.contains(self.from_agent) && !agents.contains(
            self.to_agent,
        )
    }
}

impl RemovableRecord for TaskSummary {
    fn does_stay(&self, agents: &Vec<String>, task_ids: &Vec<String>) -> bool {
        !has_text(task_ids, self.task_id.as_str()) && !has_text(agents, self.from_agent.as_str())
            && !has_text(agents, self.to_agent.as_str())
    }
}

impl Removable for DecisionModel {
    open spec fn stays(self, agents: Seq<Seq<char>>, task_ids: Seq<Seq<char>>) -> bool {
        !task_ids.contains(self.task_id)
    }
}

impl RemovableRecord for DecisionSummary {
    fn does_stay(&self, agents: &Vec<String>, task_ids: &Vec<String>) -> bool {
        !has_text(task_ids, self.task_id.as_str())
    }
}

impl Removable for SessionModel {
    open spec fn stays(self, agents: Seq<Seq<char>>, task_ids: Seq<Seq<char>>) -> bool {
        !agents.contains(self.agent_name)
    }
}

impl RemovableRecord for SessionSummary {
    fn does_stay(&self, agents: &Vec<String>, task_ids: &Vec<String>) -> bool {
        !has_text(agents, self.agent_name.as_str())
    }
}

impl Removable for StreamModel {
    open spec fn stays(self, agents: Seq<Seq<char>>, task_ids: Seq<Seq<char>>) -> bool {
        !agents.contains(self.agent)
    }
}

impl RemovableRecord for StreamEventRecord {
    fn does_stay(&self, agents: &Vec<String>, task_ids: &Vec<String>) -> bool {
        !has_text(agents, self.agent.as_str())
    }
}

impl Removable for LiveModel {
    open spec fn stays(self, agents: Seq<Seq<char>>, task_ids: Seq<Seq<char>>) -> bool {
        !agents.contains(self.agent_name)
    }
}

impl RemovableRecord for LiveSession {
    fn does_stay(&self, agents: &Vec<String>, task_ids: &Vec<String>) -> bool {
        !has_text(agents, self.agent_name.as_str())
    }
}

pub open spec fn names_one(o: Option<Seq<char>>, list: Seq<Seq<char>>) -> bool {
    o matches Some(s) && list.contains(s)
}

fn does_name_one(o: &Option<String>, list: &Vec<String>) -> (r: bool)
    ensures
        r == names_one(crate::text::opt_text(*o), texts(list@)),
{
    match o {
        Some(s) => has_text(list, s.as_str()),
        None => false,
    }
}

impl Removable for RuntimeEventModel {
    open spec fn stays(self, agents: Seq<Seq<char>>, task_ids: Seq<Seq<char>>) -> bool {
        !names_one(self.agent_name, agents) && !names_one(self.actor_name, agents) && !names_one(
            self.task_id,
            task_ids,
        )
    }
}

impl RemovableRecord for RuntimeEventRecord {
    fn does_stay(&self, agents: &Vec<String>, task_ids: &Vec<String>) -> bool {
        !does_name_one(&self.agent_name, agents) && !does_name_one(&self.actor_name, agents)
            && !does_name_one(&self.task_id, task_ids)
    }
}

/// The tasks that one of the agents gave or was given, in the order of the table.
pub open spec fn tasks_of(tasks: Seq<TaskModel>, agents: Seq<Seq<char>>, live_only: bool) -> Seq<
    Seq<char>,
>
    decreases tasks.len(),
{
    if tasks.len() == 0 {
        Seq::empty()
    } else {
        let rest = tasks_of(tasks.drop_last(), agents, live_only);
        let t = tasks.last();
        if (agents.contains(t.from_agent) || agents.contains(t.to_agent)) && (!live_only
            || !terminal(t.state)) {
            rest.push(t.task_id)
        } else {
            rest
        }
    }
}

fn find_tasks_of(tasks: &Table<TaskSummary>, agents: &Vec<String>, live_only: bool) -> (r: Vec<
    String,
>)
    ensures
        texts(r@) == tasks_of(tasks@, texts(agents@), live_only),
{
    let mut out: Vec<String> = Vec::new();
    let mut i: usize = 0;
    assert(texts(out@) =~= tasks_of(tasks@.take(0), texts(agents@), live_only));
    while i < tasks.len()
        invariant
            i <= tasks@.len(),
            texts(out@) == tasks_of(tasks@.take(i as int), texts(agents@), live_only),
        decreases tasks@.len() - i,
    {
        let t = tasks.at(i);
        proof {
            assert(tasks@.take(i + 1).drop_last() =~= tasks@.take(i as int));
            assert(tasks@.take(i + 1).last() == t@);
        }
        if (has_text(agents, t.from_agent.as_str()) || has_text(agents, t.to_agent.as_str())) && (
        !live_only || !is_task_terminal(t.state)) {
            let ghost before = out@;
            out.push(t.task_id.clone());
            assert(texts(out@) =~= texts(before).push(t@.task_id));
        }
        i += 1;
    }
    assert(tasks@.take(i as int) =~= tasks@);
    out
}

/// The sessions of an agent that are marked as running, in the order of the table.
pub open spec fn running_of(sessions: Seq<SessionModel>, agent: Seq<char>) -> Seq<Seq<char>>
    decreases sessions.len(),
{
    if sessions.len() == 0 {
        Seq::empty()
    } else {
        let rest = running_of(sessions.drop_last(), agent);
        let s = sessions.last();
        if s.agent_name == agent && s.status == CodexSessionStatus::Running {
            rest.push(s.session_id)
        } else {
            rest
        }
    }
}

fn find_running_of(sessions: &Table<SessionSummary>, agent: &str) -> (r: Vec<String>)
    ensures
        texts(r@) == running_of(sessions@, agent@),
{
    let mut out: Vec<String> = Vec::new();
    let mut i: usize = 0;
    assert(texts(out@) =~= running_of(sessions@.take(0), agent@));
    while i < sessions.len()
        invariant
            i <= sessions@.len(),
            texts(out@) == running_of(sessions@.take(i as int), agent@),
        decreases sessions@.len() - i,
    {
        let s = sessions.at(i);
        proof {
            assert(sessions@.take(i + 1).drop_last() =~= sessions@.take(i as int));
            assert(sessions@.take(i + 1).last() == s@);
        }
        if same_text(s.agent_name.as_str(), agent) && s.status == CodexSessionStatus::Running {
            let ghost before = out@;
            out.push(s.session_id.clone());
            assert(texts(out@) =~= texts(before).push(s@.session_id));
        }
        i += 1;
    }
    assert(sessions@.take(i as int) =~= sessions@);
    out
}

/// Whether a round of the agent can still be stopped.
pub open spec fn has_live(live: Seq<LiveModel>, agent: Seq<char>) -> bool {
    exists|i: int| 0 <= i < live.len() && (#[trigger] live[i]).agent_name == agent
}

fn find_live(live: &Table<LiveSession>, agent: &str) -> (r: bool)
    ensures
        r == has_live(live@, agent@),
{
    let mut i: usize = 0;
    while i < live.len()
        invariant
            i <= live@.len(),
            forall|j: int| 0 <= j < i ==> (#[trigger] live@[j]).agent_name != agent@,
        decreases live@.len() - i,
    {
        let l = live.at(i);
        if same_text(l.agent_name.as_str(), agent) {
            assert(live@[i as int].agent_name == agent@);
            return true;
        }
        i += 1;
    }
    false
}

/// The demonstration agents, or only those with a session, in the order of the table.
pub open spec fn demo_names(agents: Seq<AgentModel>, live_only: bool) -> Seq<Seq<char>>
    decreases agents.len(),
{
    if agents.len() == 0 {
        Seq::empty()
    } else {
        let rest = demo_names(agents.drop_last(), live_only);
        let a = agents.last();
        if is_demo(a.name) && (!live_only || a.current_session_id is Some) {
            rest.push(a.name)
        } else {
            rest
        }
    }
}

fn find_demo_names(agents: &Table<AgentSummary>, live_only: bool) -> (r: Vec<String>)
    ensures
        texts(r@) == demo_names(agents@, live_only),
{
    let mut out: Vec<String> = Vec::new();
    let mut i: usize = 0;
    assert(texts(out@) =~= demo_names(agents@.take(0), live_only));
    while i < agents.len()
        invariant
            i <= agents@.len(),
            texts(out@) == demo_names(agents@.take(i as int), live_only),
        decreases agents@.len() - i,
    {
        let a = agents.at(i);
        proof {
            assert(agents@.take(i + 1).drop_last() =~= agents@.take(i as int));
            assert(agents@.take(i + 1).last() == a@);
        }
        if is_demo_agent_name(a.name.as_str()) && (!live_only || a.current_session_id.is_some()) {
            let ghost before = out@;
            out.push(a.name.clone());
            assert(texts(out@) =~= texts(before).push(a@.name));
        }
        i += 1;
    }
    assert(agents@.take(i as int) =~= agents@);
    out
}

/// Which agents are to go, and which tasks with them.
pub struct RemovalPlan {
    pub agents: Vec<String>,
    pub task_ids: Vec<String>,
}

#[verifier::ext_equal]
pub struct PlanModel {
    pub agents: Seq<Seq<char>>,
    pub task_ids: Seq<Seq<char>>,
}

impl View for RemovalPlan {
    type V = PlanModel;

    open spec fn view(&self) -> PlanModel {
        PlanModel { agents: texts(self.agents@), task_ids: texts(self.task_ids@) }
    }
}

/// How many rows of each kind left the database.
#[derive(Clone, Copy, Debug)]
pub struct DeletedRows {
    pub stream_events: usize,
    pub runtime_events_by_task: usize,
    pub runtime_events_by_agent: usize,
    pub decisions: usize,
    pub task_events: usize,
    pub tasks: usize,
    pub sessions: usize,
    pub agents: usize,
}

impl World {
    /// The agents go, and with them their tasks, the decisions on those, their
    /// sessions, their lines and what the ledger says of any of these.
    pub open spec fn purge(self, plan: PlanModel) -> World {
        World {
            agents: kept(self.agents, plan.agents, plan.task_ids),
            tasks: kept(self.tasks, plan.agents, plan.task_ids),
            decisions: kept(self.decisions, plan.agents, plan.task_ids),
            sessions: kept(self.sessions, plan.agents, plan.task_ids),
            recent_streams: kept(self.recent_streams, plan.agents, plan.task_ids),
            recent_runtime_events: kept(
                self.recent_runtime_events,
                plan.agents,
                plan.task_ids,
            ),
            active_sessions: kept(self.active_sessions, plan.agents, plan.task_ids),
            ..self
        }
    }

    /// What is to go with an agent, or why it cannot go.
    pub open spec fn plan_removal(self, agent: Seq<char>) -> Result<PlanModel, Seq<char>> {
        let agents = seq![agent];
        let refusing = "refusing to remove agent "@ + agent;
        if agent == "main"@ {
            Err("refusing to remove built-in main agent"@)
        } else {
            match known_agent(self, agent) {
                Err(e) => Err(e),
                Ok(a) => {
                    let open = tasks_of(self.tasks, agents, true);
                    let running = running_of(self.sessions, agent);
                    if open.len() > 0 {
                        Err(
                            refusing + " because it still has non-terminal tasks: "@ + joined(
                                open,
                                ", "@,
                            ),
                        )
                    } else if has_live(self.active_sessions, agent) || running.len() > 0 {
                        Err(
                            refusing + " because it still has a live session: "@ + joined(
                                if running.len() == 0 {
                                    seq!["<active_handle>"@]
                                } else {
                                    running
                                },
                                ", "@,
                            ),
                        )
                    } else if a.bridge_state == BridgeConnectionState::Connected || filed(
                        self.active_bridges,
                        agent,
                    ) {
                        Err(refusing + " because its bridge is still connected"@)
                    } else if a.bridge_pending_delivery_count > 0 {
                        Err(
                            refusing + " because it still has "@ + decimal(
                                a.bridge_pending_delivery_count as nat,
                            ) + " pending bridge deliveries"@,
                        )
                    } else {
                        Ok(
                            PlanModel {
                                agents,
                                task_ids: tasks_of(self.tasks, agents, false),
                            },
                        )
                    }
                },
            }
        }
    }

    /// The rows are gone from the database; now the agent is gone.
    pub open spec fn apply_removal(
        self,
        agent: Seq<char>,
        plan: PlanModel,
        rows: DeletedRows,
    ) -> (World, Result<RemovalModel, Seq<char>>) {
        if rows.agents == 0 {
            (self, Err("agent "@ + agent + " was not removed from sqlite"@))
        } else {
            let purged = self.purge(plan);
            (
                World {
                    active_bridges: without(purged.active_bridges, agent),
                    bridge_queues: without(purged.bridge_queues, agent),
                    ..purged
                }.emit(EffectModel::PublishSnapshot),
                Ok(
                    RemovalModel {
                        agent,
                        removed_tasks: rows.tasks,
                        removed_task_events: rows.task_events,
                        removed_runtime_events: (rows.runtime_events_by_task
                            + rows.runtime_events_by_agent) as usize,
                        removed_decisions: rows.decisions,
                        removed_sessions: rows.sessions,
                        removed_stream_events: rows.stream_events,
                    },
                ),
            )
        }
    }

    /// What is to go with the demonstration agents; nothing goes while one of
    /// them has a session.
    pub open spec fn plan_cleanup(self, requested_by: Seq<char>) -> Result<PlanModel, Seq<char>> {
        match known_agent(self, requested_by) {
            Err(e) => Err(e),
            Ok(_) => {
                let agents = demo_names(self.agents, false);
                let live = demo_names(self.agents, true);
                if live.len() > 0 {
                    Err(
                        "cleanup refused because demo agents still have live sessions: "@ + joined(
                            live,
                            ", "@,
                        ),
                    )
                } else {
                    Ok(PlanModel { agents, task_ids: tasks_of(self.tasks, agents, false) })
                }
            },
        }
    }

    /// The rows are gone from the database; now the demonstration data is gone.
    /// Where there was none, nothing is done.
    pub open spec fn apply_cleanup(
        self,
        requested_by: Seq<char>,
        plan: PlanModel,
        rows: DeletedRows,
        now: Timestamp,
    ) -> (World, CleanupModel) {
        if plan.agents.len() == 0 && plan.task_ids.len() == 0 {
            (
                self,
                CleanupModel {
                    requested_by,
                    removed_agents: 0,
                    removed_tasks: 0,
                    removed_task_events: 0,
                    removed_runtime_events: 0,
                    removed_decisions: 0,
                    removed_sessions: 0,
                    removed_stream_events: 0,
                    removed_agent_names: Seq::empty(),
                },
            )
        } else {
            (
                self.purge(plan).say(
                    requested_by,
                    "[CLEANUP_DEMO_DATA] agents="@ + decimal(rows.agents as nat) + " tasks="@
                        + decimal(rows.tasks as nat),
                    now,
                ).emit(EffectModel::PublishSnapshot),
                CleanupModel {
                    requested_by,
                    removed_agents: rows.agents,
                    removed_tasks: rows.tasks,
                    removed_task_events: rows.task_events,
                    removed_runtime_events: (rows.runtime_events_by_task
                        + rows.runtime_events_by_agent) as usize,
                    removed_decisions: rows.decisions,
                    removed_sessions: rows.sessions,
                    removed_stream_events: rows.stream_events,
                    removed_agent_names: plan.agents,
                },
            )
        }
    }
}

impl AppShared {
    fn purge(&mut self, plan: &RemovalPlan)
        ensures
            final(self)@ == old(self)@.purge(plan@),
    {
        let agents = &plan.agents;
        let ids = &plan.task_ids;
        self.active_sessions = Table { rows: keep(&self.active_sessions.rows, agents, ids) };
        self.state.agents = Table { rows: keep(&self.state.agents.rows, agents, ids) };
        self.state.tasks = Table { rows: keep(&self.state.tasks.rows, agents, ids) };
        self.state.decisions = Table { rows: keep(&self.state.decisions.rows, agents, ids) };
        self.state.sessions = Table { rows: keep(&self.state.sessions.rows, agents, ids) };
        self.state.recent_streams = keep(&self.state.recent_streams, agents, ids);
        self.state.recent_runtime_events = keep(&self.state.recent_runtime_events, agents, ids);
    }

    pub fn plan_agent_removal(&self, agent: &str) -> (r: Result<RemovalPlan, Failure>)
        ensures
            seen(r) == self@.plan_removal(agent@),
    {
        if same_text(agent, "main") {
            return Err(Failure::new(text("refusing to remove built-in main agent")));
        }
        let a = match self.registered_agent(agent) {
            Err(e) => {
                return Err(e);
            },
            Ok(a) => a,
        };
        let mut agents: Vec<String> = Vec::new();
        agents.push(text(agent));
        assert(texts(agents@) =~= seq![agent@]);
        let refusing = text("refusing to remove agent ").concat(agent);
        let open = find_tasks_of(&self.state.tasks, &agents, true);
        if open.len() > 0 {
            assert(texts(open@).len() > 0);
            return Err(
                Failure::new(
                    refusing.concat(" because it still has non-terminal tasks: ").concat(
                        join(&open, ", ").as_str(),
                    ),
                ),
            );
        }
        assert(texts(open@).len() == 0);
        let mut running = find_running_of(&self.state.sessions, agent);
        let ghost found_running = texts(running@);
        if find_live(&self.active_sessions, agent) || running.len() > 0 {
            if running.len() == 0 {
                running.push(text("<active_handle>"));
                assert(texts(running@) =~= seq!["<active_handle>"@]);
            }
            return Err(
                Failure::new(
                    refusing.concat(" because it still has a live session: ").concat(
                        join(&running, ", ").as_str(),
                    ),
                ),
            );
        }
        if a.bridge_state == BridgeConnectionState::Connected || self.active_bridges.has(agent) {
            return Err(
                Failure::new(refusing.concat(" because its bridge is still connected")),
            );
        }
        if a.bridge_pending_delivery_count > 0 {
            return Err(
                Failure::new(
                    refusing.concat(" because it still has ").concat(
                        to_decimal(a.bridge_pending_delivery_count as u64).as_str(),
                    ).concat(" pending bridge deliveries"),
                ),
            );
        }
        let task_ids = find_tasks_of(&self.state.tasks, &agents, false);
        Ok(RemovalPlan { agents, task_ids })
    }

    pub fn apply_agent_removal(&mut self, agent: &str, plan: &RemovalPlan, rows: DeletedRows) -> (r:
        Result<RemoveAgentSummary, Failure>)
        requires
            rows.runtime_events_by_task + rows.runtime_events_by_agent <= usize::MAX,
        ensures
            (final(self)@, seen(r)) == old(self)@.apply_removal(agent@, plan@, rows),
    {
        if rows.agents == 0 {
            return Err(
                Failure::new(text("agent ").concat(agent).concat(" was not removed from sqlite")),
            );
        }
        self.purge(plan);
        let _ = self.active_bridges.take(agent);
        let _ = self.bridge_queues.take(agent);
        self.emit(Effect::PublishSnapshot);
        Ok(
            RemoveAgentSummary {
                agent: text(agent),
                removed_tasks: rows.tasks,
                removed_task_events: rows.task_events,
                removed_runtime_events: rows.runtime_events_by_task + rows.runtime_events_by_agent,
                removed_decisions: rows.decisions,
                removed_sessions: rows.sessions,
                removed_stream_events: rows.stream_events,
            },
        )
    }

    pub fn plan_demo_cleanup(&self, requested_by: &str) -> (r: Result<RemovalPlan, Failure>)
        ensures
            seen(r) == self@.plan_cleanup(requested_by@),
    {
        match self.registered_agent(requested_by) {
            Err(e) => {
                return Err(e);
            },
            Ok(_) => {},
        }
        let live = find_demo_names(&self.state.agents, true);
        assert(texts(live@).len() == live.len());
        if live.len() > 0 {
            return Err(
                Failure::new(
                    text(
                        "cleanup refused because demo agents still have live sessions: ",
                    ).concat(join(&live, ", ").as_str()),
                ),
            );
        }
        let agents = find_demo_names(&self.state.agents, false);
        let task_ids = find_tasks_of(&self.state.tasks, &agents, false);
        Ok(RemovalPlan { agents, task_ids })
    }

    pub fn apply_demo_cleanup(
        &mut self,
        requested_by: &str,
        plan: &RemovalPlan,
        rows: DeletedRows,
        now: Timestamp,
    ) -> (r: CleanupSummary)
        requires
            rows.runtime_events_by_task + rows.runtime_events_by_agent <= usize::MAX,
        ensures
            (final(self)@, r@) == old(self)@.apply_cleanup(requested_by@, plan@, rows, now),
    {
        assert(texts(plan.agents@).len() == plan.agents.len());
        assert(texts(plan.task_ids@).len() == plan.task_ids.len());
        if plan.agents.len() == 0 && plan.task_ids.len() == 0 {
            let none: Vec<String> = Vec::new();
            assert(texts(none@) =~= Seq::empty());
            return CleanupSummary {
                requested_by: text(requested_by),
                removed_agents: 0,
                removed_tasks: 0,
                removed_task_events: 0,
                removed_runtime_events: 0,
                removed_decisions: 0,
                removed_sessions: 0,
                removed_stream_events: 0,
                removed_agent_names: none,
            };
        }
        self.purge(plan);
        let content = text("[CLEANUP_DEMO_DATA] agents=").concat(
            to_decimal(rows.agents as u64).as_str(),
        ).concat(" tasks=").concat(to_decimal(rows.tasks as u64).as_str());
        self.say(requested_by, content.as_str(), now);
        self.emit(Effect::PublishSnapshot);
        CleanupSummary {
            requested_by: text(requested_by),
            removed_agents: rows.agents,
            removed_tasks: rows.tasks,
            removed_task_events: rows.task_events,
            removed_runtime_events: rows.runtime_events_by_task + rows.runtime_events_by_agent,
            removed_decisions: rows.decisions,
            removed_sessions: rows.sessions,
            removed_stream_events: rows.stream_events,
            removed_agent_names: copy_texts(&plan.agents),
        }
    }
}

} // verus!
