//! What a repair, a removal and a start leave behind.

use vstd::prelude::*;

use crate::decision::{latest_decision, mirrors_decision};
use crate::draft::{agent_state_for, terminal};
use crate::keeping::{
    lemma_repair_agents, lemma_repair_sessions, lemma_repair_tasks, repair_keeps,
    startup_keeps_order,
};
use crate::models::{
    AgentModel, AgentSessionState, BridgeConnectionState, CodexSessionStatus, DecisionModel,
    SessionModel, TaskModel,
};
use crate::removal::{
    demo_names, is_demo, kept, names_one, running_of, tasks_of, DeletedRows, PlanModel, Removable,
};
use crate::repair::{
    fix_agent, fix_session, fix_task, is_open, open_tasks, repair_agents, repair_sessions,
    repair_tasks, runs, Handles,
};
use crate::sessions::ended_session;
use crate::startup::running_sessions;
use crate::state::World;
use crate::table::{distinct, filed, found, lemma_found_at, lemma_place, place, put, without, Keyed};
use crate::time::Timestamp;

verus! {

/// A task has a time of closing exactly when it is over, and it mirrors the newest
/// decision on it.
pub open spec fn task_in_line(t: TaskModel, decisions: Seq<DecisionModel>) -> bool {
    &&& t.closed_at is Some <==> terminal(t.state)
    &&& mirrors_decision(t, latest_decision(decisions, t.task_id))
}

/// A session that runs can be stopped and has no end; any other has one.
pub open spec fn session_in_line(s: SessionModel, live: Handles) -> bool {
    if s.status == CodexSessionStatus::Running {
        live.hold(s.session_id) && s.ended_at is None
    } else {
        s.ended_at is Some
    }
}

/// An agent with a session is busy with one that runs, an agent with a task is in
/// the state of a task that is not over, and an agent with neither rests, unless it
/// has several open tasks to choose from.
pub open spec fn agent_in_line(
    a: AgentModel,
    tasks: Seq<TaskModel>,
    sessions: Seq<SessionModel>,
) -> bool {
    &&& a.current_session_id matches Some(id) ==> runs(sessions, id)
    &&& a.current_task_id matches Some(id) ==> is_open(tasks, id)
    &&& if a.current_session_id is Some {
        a.state == AgentSessionState::Busy
    } else if a.current_task_id is Some {
        found(tasks, a.current_task_id->Some_0) matches Some(t) && a.state == agent_state_for(
            t.state,
        )
    } else {
        &&& open_tasks(tasks, a.name).len() != 1
        &&& open_tasks(tasks, a.name).len() == 0 ==> a.state == AgentSessionState::Idle
    }
}

impl World {
    /// The records agree with each other and with what the daemon can stop.
    pub open spec fn in_line(self) -> bool {
        &&& forall|i: int|
            0 <= i < self.tasks.len() ==> task_in_line(#[trigger] self.tasks[i], self.decisions)
        &&& forall|i: int|
            0 <= i < self.sessions.len() ==> session_in_line(
                #[trigger] self.sessions[i],
                self.handles(),
            )
        &&& forall|i: int|
            0 <= i < self.agents.len() ==> agent_in_line(
                #[trigger] self.agents[i],
                self.tasks,
                self.sessions,
            )
    }
}

proof fn lemma_open_tasks(tasks: Seq<TaskModel>, agent: Seq<char>, k: int)
    requires
        distinct(tasks),
        0 <= k < open_tasks(tasks, agent).len(),
    ensures
        is_open(tasks, open_tasks(tasks, agent)[k]),
    decreases tasks.len(),
{
    let head = tasks.drop_last();
    let t = tasks.last();
    let rest = open_tasks(head, agent);
    if k < rest.len() {
        assert(distinct(head)) by {
            assert forall|i: int, j: int| 0 <= i < j < head.len() implies (#[trigger] head[i]).key()
                != (#[trigger] head[j]).key() by {
                assert(tasks[i].key() != tasks[j].key());
            }
        }
        lemma_open_tasks(head, agent, k);
        let id = rest[k];
        lemma_place(head, id);
        let p = place(head, id);
        assert(tasks[p] == head[p]);
        lemma_found_at(tasks, p);
        lemma_found_at(head, p);
    } else {
        lemma_found_at(tasks, tasks.len() - 1);
    }
}

proof fn lemma_fixed_task(t: TaskModel, decisions: Seq<DecisionModel>, now: Timestamp)
    ensures
        task_in_line(fix_task(t, decisions, now).record, decisions),
        task_in_line(t, decisions) ==> fix_task(t, decisions, now).record == t && !fix_task(
            t,
            decisions,
            now,
        ).changed,
{
}

proof fn lemma_fixed_session(s: SessionModel, live: Handles, now: Timestamp)
    ensures
        session_in_line(fix_session(s, live, now).record, live),
        session_in_line(s, live) ==> fix_session(s, live, now).record == s && !fix_session(
            s,
            live,
            now,
        ).changed,
{
}

proof fn lemma_fixed_agent(
    a: AgentModel,
    tasks: Seq<TaskModel>,
    sessions: Seq<SessionModel>,
    now: Timestamp,
)
    requires
        distinct(tasks),
    ensures
        agent_in_line(fix_agent(a, tasks, sessions, now).record, tasks, sessions),
        agent_in_line(a, tasks, sessions) ==> fix_agent(a, tasks, sessions, now).record == a
            && !fix_agent(a, tasks, sessions, now).changed,
{
    if open_tasks(tasks, a.name).len() > 0 {
        lemma_open_tasks(tasks, a.name, 0);
    }
}

proof fn lemma_no_task_changed(tasks: Seq<TaskModel>, decisions: Seq<DecisionModel>, now: Timestamp)
    requires
        forall|i: int| 0 <= i < tasks.len() ==> task_in_line(#[trigger] tasks[i], decisions),
    ensures
        repair_tasks(tasks, decisions, now).records == tasks,
        repair_tasks(tasks, decisions, now).count == 0,
        repair_tasks(tasks, decisions, now).effects.len() == 0,
    decreases tasks.len(),
{
    if tasks.len() > 0 {
        assert forall|i: int| 0 <= i < tasks.drop_last().len() implies task_in_line(
            #[trigger] tasks.drop_last()[i],
            decisions,
        ) by {
            assert(tasks.drop_last()[i] == tasks[i]);
        }
        lemma_no_task_changed(tasks.drop_last(), decisions, now);
        lemma_fixed_task(tasks[tasks.len() - 1], decisions, now);
    }
    assert(repair_tasks(tasks, decisions, now).records =~= tasks);
}

proof fn lemma_no_session_changed(
    sessions: Seq<SessionModel>,
    live: Handles,
    now: Timestamp,
)
    requires
        forall|i: int| 0 <= i < sessions.len() ==> session_in_line(#[trigger] sessions[i], live),
    ensures
        repair_sessions(sessions, live, now).records == sessions,
        repair_sessions(sessions, live, now).count == 0,
        repair_sessions(sessions, live, now).effects.len() == 0,
    decreases sessions.len(),
{
    if sessions.len() > 0 {
        assert forall|i: int| 0 <= i < sessions.drop_last().len() implies session_in_line(
            #[trigger] sessions.drop_last()[i],
            live,
        ) by {
            assert(sessions.drop_last()[i] == sessions[i]);
        }
        lemma_no_session_changed(sessions.drop_last(), live, now);
        lemma_fixed_session(sessions[sessions.len() - 1], live, now);
    }
    assert(repair_sessions(sessions, live, now).records =~= sessions);
}

proof fn lemma_no_agent_changed(
    agents: Seq<AgentModel>,
    tasks: Seq<TaskModel>,
    sessions: Seq<SessionModel>,
    now: Timestamp,
)
    requires
        distinct(tasks),
        forall|i: int|
            0 <= i < agents.len() ==> agent_in_line(#[trigger] agents[i], tasks, sessions),
    ensures
        repair_agents(agents, tasks, sessions, now).records == agents,
        repair_agents(agents, tasks, sessions, now).count == 0,
        repair_agents(agents, tasks, sessions, now).effects.len() == 0,
    decreases agents.len(),
{
    if agents.len() > 0 {
        assert forall|i: int| 0 <= i < agents.drop_last().len() implies agent_in_line(
            #[trigger] agents.drop_last()[i],
            tasks,
            sessions,
        ) by {
            assert(agents.drop_last()[i] == agents[i]);
        }
        lemma_no_agent_changed(agents.drop_last(), tasks, sessions, now);
        lemma_fixed_agent(agents[agents.len() - 1], tasks, sessions, now);
    }
    assert(repair_agents(agents, tasks, sessions, now).records =~= agents);
}

/// After a repair the records agree with each other.
pub proof fn repair_brings_in_line(w: World, requested_by: Seq<char>, now: Timestamp)
    requires
        w.tidy(),
        w.repair(requested_by, now).1 is Ok,
    ensures
        w.repair(requested_by, now).0.in_line(),
{
    let t = repair_tasks(w.tasks, w.decisions, now).records;
    let s = repair_sessions(w.sessions, w.handles(), now).records;
    let v = w.repair(requested_by, now).0;
    lemma_repair_tasks(w.tasks, w.decisions, now);
    lemma_repair_sessions(w.sessions, w.handles(), now);
    lemma_repair_agents(w.agents, t, s, now);
    assert(v.tasks == t && v.sessions == s && v.decisions == w.decisions);
    assert(distinct(t)) by {
        assert forall|i: int, j: int| 0 <= i < j < t.len() implies (#[trigger] t[i]).key() != (
        #[trigger] t[j]).key() by {
            assert(w.tasks[i].key() != w.tasks[j].key());
        }
    }
    assert forall|i: int| 0 <= i < v.tasks.len() implies task_in_line(
        #[trigger] v.tasks[i],
        v.decisions,
    ) by {
        lemma_fixed_task(w.tasks[i], w.decisions, now);
    }
    assert forall|i: int| 0 <= i < v.sessions.len() implies session_in_line(
        #[trigger] v.sessions[i],
        v.handles(),
    ) by {
        lemma_fixed_session(w.sessions[i], w.handles(), now);
    }
    assert forall|i: int| 0 <= i < v.agents.len() implies agent_in_line(
        #[trigger] v.agents[i],
        v.tasks,
        v.sessions,
    ) by {
        lemma_fixed_agent(w.agents[i], t, s, now);
    }
}

/// Where the records agree, a repair changes and stores none of them.
pub proof fn in_line_needs_no_repair(w: World, requested_by: Seq<char>, now: Timestamp)
    requires
        w.tidy(),
        w.in_line(),
    ensures
        w.repair(requested_by, now).0.agents == w.agents,
        w.repair(requested_by, now).0.tasks == w.tasks,
        w.repair(requested_by, now).0.sessions == w.sessions,
        w.repaired_tables(now).outbox == w.outbox,
        w.repair(requested_by, now).1 matches Ok(r) ==> r.repaired_agents == 0 && r.repaired_tasks
            == 0 && r.repaired_sessions == 0,
{
    lemma_no_task_changed(w.tasks, w.decisions, now);
    lemma_no_session_changed(w.sessions, w.handles(), now);
    lemma_no_agent_changed(w.agents, w.tasks, w.sessions, now);
    assert(w.repaired_tables(now).outbox =~= w.outbox);
}

/// A second repair changes nothing.
pub proof fn repair_is_idempotent(
    w: World,
    requested_by: Seq<char>,
    now: Timestamp,
    again_by: Seq<char>,
    later: Timestamp,
)
    requires
        w.tidy(),
        w.repair(requested_by, now).1 is Ok,
    ensures
        ({
            let once = w.repair(requested_by, now).0;
            let twice = once.repair(again_by, later);
            &&& twice.0.agents == once.agents
            &&& twice.0.tasks == once.tasks
            &&& twice.0.sessions == once.sessions
            &&& twice.1 matches Ok(r) ==> r.repaired_agents == 0 && r.repaired_tasks == 0
                && r.repaired_sessions == 0
        }),
{
    repair_brings_in_line(w, requested_by, now);
    repair_keeps(w, requested_by, now);
    in_line_needs_no_repair(w.repair(requested_by, now).0, again_by, later);
}

/// A repair leaves a session that runs, has no end and can be stopped as it is.
pub proof fn repair_leaves_live_sessions(
    w: World,
    requested_by: Seq<char>,
    now: Timestamp,
    session_id: Seq<char>,
)
    requires
        w.tidy(),
        w.handles().hold(session_id),
        runs(w.sessions, session_id),
        found(w.sessions, session_id)->Some_0.ended_at is None,
    ensures
        found(w.repair(requested_by, now).0.sessions, session_id) == found(
            w.sessions,
            session_id,
        ),
{
    let s = repair_sessions(w.sessions, w.handles(), now).records;
    lemma_repair_sessions(w.sessions, w.handles(), now);
    lemma_place(w.sessions, session_id);
    let p = place(w.sessions, session_id);
    lemma_found_at(w.sessions, p);
    assert(distinct(s)) by {
        assert forall|i: int, j: int| 0 <= i < j < s.len() implies (#[trigger] s[i]).key() != (
        #[trigger] s[j]).key() by {
            assert(w.sessions[i].key() != w.sessions[j].key());
        }
    }
    lemma_fixed_session(w.sessions[p], w.handles(), now);
    lemma_found_at(s, p);
}

/// A repair moves no task to another state or agent, and it does not choose between
/// several open tasks of an agent.
pub proof fn repair_is_conservative(w: World, requested_by: Seq<char>, now: Timestamp)
    ensures
        forall|i: int|
            0 <= i < w.tasks.len() ==> {
                let t = #[trigger] w.repair(requested_by, now).0.tasks[i];
                &&& t.task_id == w.tasks[i].task_id
                &&& t.state == w.tasks[i].state
                &&& t.from_agent == w.tasks[i].from_agent
                &&& t.to_agent == w.tasks[i].to_agent
            },
        forall|i: int|
            0 <= i < w.agents.len() && w.agents[i].current_task_id is None
                && w.agents[i].current_session_id is None && open_tasks(
                w.tasks,
                w.agents[i].name,
            ).len() > 1 ==> #[trigger] w.repair(requested_by, now).0.agents[i] == w.agents[i],
{
    let t = repair_tasks(w.tasks, w.decisions, now).records;
    let s = repair_sessions(w.sessions, w.handles(), now).records;
    lemma_repair_tasks(w.tasks, w.decisions, now);
    lemma_repair_sessions(w.sessions, w.handles(), now);
    lemma_repair_agents(w.agents, t, s, now);
    assert forall|name: Seq<char>| #[trigger] open_tasks(t, name) == open_tasks(w.tasks, name) by {
        lemma_same_open_tasks(w.tasks, t, name);
    }
}

proof fn lemma_same_open_tasks(s: Seq<TaskModel>, t: Seq<TaskModel>, agent: Seq<char>)
    requires
        s.len() == t.len(),
        forall|i: int|
            0 <= i < s.len() ==> s[i].task_id == (#[trigger] t[i]).task_id && s[i].state
                == t[i].state && s[i].to_agent == t[i].to_agent,
    ensures
        open_tasks(s, agent) == open_tasks(t, agent),
    decreases s.len(),
{
    if s.len() > 0 {
        assert forall|i: int| 0 <= i < s.len() - 1 implies s.drop_last()[i].task_id == (
        #[trigger] t.drop_last()[i]).task_id && s.drop_last()[i].state == t.drop_last()[i].state
            && s.drop_last()[i].to_agent == t.drop_last()[i].to_agent by {
            assert(t.drop_last()[i] == t[i]);
        }
        lemma_same_open_tasks(s.drop_last(), t.drop_last(), agent);
        assert(s[s.len() - 1].state == t[t.len() - 1].state);
    }
}

/// Of the records, those that stay are there and no others, each as it was.
pub proof fn kept_are_those_that_stay<R: Removable>(
    s: Seq<R>,
    agents: Seq<Seq<char>>,
    task_ids: Seq<Seq<char>>,
    r: R,
)
    ensures
        kept(s, agents, task_ids).contains(r) <==> s.contains(r) && r.stays(agents, task_ids),
    decreases s.len(),
{
    reveal(Seq::filter);
    let t = kept(s, agents, task_ids);
    if s.len() > 0 {
        let head = s.drop_last();
        kept_are_those_that_stay(head, agents, task_ids, r);
        let h = kept(head, agents, task_ids);
        assert(s == head.push(s.last()));
        assert(s.contains(r) <==> head.contains(r) || r == s.last()) by {
            if head.contains(r) {
                let i = choose|i: int| 0 <= i < head.len() && head[i] == r;
                assert(s[i] == r);
            }
            if s.contains(r) && r != s.last() {
                let i = choose|i: int| 0 <= i < s.len() && s[i] == r;
                assert(head[i] == r);
            }
            if r == s.last() {
                assert(s[s.len() - 1] == r);
            }
        }
        if s.last().stays(agents, task_ids) {
            assert(t == h.push(s.last()));
            if h.contains(r) {
                let i = choose|i: int| 0 <= i < h.len() && h[i] == r;
                assert(t[i] == r);
            }
            if t.contains(r) && r != s.last() {
                let i = choose|i: int| 0 <= i < t.len() && t[i] == r;
                assert(h[i] == r);
            }
            if r == s.last() {
                assert(t[t.len() - 1] == r);
            }
        }
    }
}

proof fn lemma_tasks_of(tasks: Seq<TaskModel>, agents: Seq<Seq<char>>, live_only: bool, t: TaskModel)
    requires
        tasks.contains(t),
        agents.contains(t.from_agent) || agents.contains(t.to_agent),
        !live_only || !terminal(t.state),
    ensures
        tasks_of(tasks, agents, live_only).contains(t.task_id),
    decreases tasks.len(),
{
    let all = tasks_of(tasks, agents, live_only);
    let rest = tasks_of(tasks.drop_last(), agents, live_only);
    let i = choose|i: int| 0 <= i < tasks.len() && tasks[i] == t;
    if i < tasks.len() - 1 {
        assert(tasks.drop_last()[i] == t);
        lemma_tasks_of(tasks.drop_last(), agents, live_only, t);
        let k = choose|k: int| 0 <= k < rest.len() && rest[k] == t.task_id;
        assert(all[k] == t.task_id);
    } else {
        assert(all[all.len() - 1] == t.task_id);
    }
}

proof fn lemma_running_of(sessions: Seq<SessionModel>, agent: Seq<char>, s: SessionModel)
    requires
        sessions.contains(s),
        s.agent_name == agent,
        s.status == CodexSessionStatus::Running,
    ensures
        running_of(sessions, agent).len() > 0,
    decreases sessions.len(),
{
    let i = choose|i: int| 0 <= i < sessions.len() && sessions[i] == s;
    if i < sessions.len() - 1 {
        assert(sessions.drop_last()[i] == s);
        lemma_running_of(sessions.drop_last(), agent, s);
    }
}

/// An agent goes only where no task of it is open, no session of it runs, its bridge
/// is closed and nothing is waiting for it; the main agent never goes.
pub proof fn only_an_agent_at_rest_is_removed(w: World, agent: Seq<char>)
    requires
        w.plan_removal(agent) is Ok,
    ensures
        agent != "main"@,
        w.agent(agent) is Some,
        forall|i: int|
            0 <= i < w.tasks.len() && ((#[trigger] w.tasks[i]).from_agent == agent
                || w.tasks[i].to_agent == agent) ==> terminal(w.tasks[i].state),
        forall|i: int|
            0 <= i < w.sessions.len() && (#[trigger] w.sessions[i]).agent_name == agent
                ==> w.sessions[i].status != CodexSessionStatus::Running,
        forall|i: int|
            0 <= i < w.active_sessions.len() ==> (#[trigger] w.active_sessions[i]).agent_name
                != agent,
        !filed(w.active_bridges, agent),
        w.agent(agent)->Some_0.bridge_state != BridgeConnectionState::Connected,
        w.agent(agent)->Some_0.bridge_pending_delivery_count == 0,
{
    let one = seq![agent];
    assert(one[0] == agent);
    assert(one.contains(agent));
    assert forall|i: int|
        0 <= i < w.tasks.len() && ((#[trigger] w.tasks[i]).from_agent == agent
            || w.tasks[i].to_agent == agent) implies terminal(w.tasks[i].state) by {
        if !terminal(w.tasks[i].state) {
            assert(w.tasks.contains(w.tasks[i]));
            lemma_tasks_of(w.tasks, one, true, w.tasks[i]);
        }
    }
    assert forall|i: int|
        0 <= i < w.sessions.len() && (#[trigger] w.sessions[i]).agent_name
            == agent implies w.sessions[i].status != CodexSessionStatus::Running by {
        if w.sessions[i].status == CodexSessionStatus::Running {
            assert(w.sessions.contains(w.sessions[i]));
            lemma_running_of(w.sessions, agent, w.sessions[i]);
        }
    }
}

/// Nothing of the agents is left in the state.
pub open spec fn nothing_left(w: World, agents: Seq<Seq<char>>) -> bool {
    &&& forall|i: int| 0 <= i < w.agents.len() ==> !agents.contains((#[trigger] w.agents[i]).name)
    &&& forall|i: int|
        0 <= i < w.tasks.len() ==> !agents.contains((#[trigger] w.tasks[i]).from_agent)
            && !agents.contains(w.tasks[i].to_agent)
    &&& forall|i: int|
        0 <= i < w.sessions.len() ==> !agents.contains((#[trigger] w.sessions[i]).agent_name)
    &&& forall|i: int|
        0 <= i < w.recent_streams.len() ==> !agents.contains((#[trigger] w.recent_streams[i]).agent)
    &&& forall|i: int|
        0 <= i < w.active_sessions.len() ==> !agents.contains(
            (#[trigger] w.active_sessions[i]).agent_name,
        )
    &&& forall|i: int|
        0 <= i < w.recent_runtime_events.len() ==> !names_one(
            (#[trigger] w.recent_runtime_events[i]).agent_name,
            agents,
        ) && !names_one(w.recent_runtime_events[i].actor_name, agents)
}

proof fn lemma_all_stay<R: Removable>(
    s: Seq<R>,
    agents: Seq<Seq<char>>,
    task_ids: Seq<Seq<char>>,
)
    ensures
        forall|i: int|
            0 <= i < kept(s, agents, task_ids).len() ==> (#[trigger] kept(s, agents, task_ids)[i]).stays(
                agents,
                task_ids,
            ),
{
    assert forall|i: int| 0 <= i < kept(s, agents, task_ids).len() implies (#[trigger] kept(
        s,
        agents,
        task_ids,
    )[i]).stays(agents, task_ids) by {
        assert(kept(s, agents, task_ids).contains(kept(s, agents, task_ids)[i]));
        kept_are_those_that_stay(s, agents, task_ids, kept(s, agents, task_ids)[i]);
    }
}

proof fn lemma_purge(w: World, plan: PlanModel)
    ensures
        nothing_left(w.purge(plan), plan.agents),
        forall|i: int|
            0 <= i < w.purge(plan).decisions.len() ==> !plan.task_ids.contains(
                (#[trigger] w.purge(plan).decisions[i]).task_id,
            ),
{
    lemma_all_stay(w.agents, plan.agents, plan.task_ids);
    lemma_all_stay(w.tasks, plan.agents, plan.task_ids);
    lemma_all_stay(w.decisions, plan.agents, plan.task_ids);
    lemma_all_stay(w.sessions, plan.agents, plan.task_ids);
    lemma_all_stay(w.recent_streams, plan.agents, plan.task_ids);
    lemma_all_stay(w.active_sessions, plan.agents, plan.task_ids);
    lemma_all_stay(w.recent_runtime_events, plan.agents, plan.task_ids);
}

/// A removed agent is gone, and with it its tasks, the decisions on those, its
/// sessions, its lines, its bridge and its mailbox.
pub proof fn removal_leaves_nothing(w: World, agent: Seq<char>, rows: DeletedRows)
    requires
        w.tidy(),
        w.plan_removal(agent) is Ok,
        rows.agents > 0,
    ensures
        ({
            let gone = w.apply_removal(agent, w.plan_removal(agent)->Ok_0, rows).0;
            &&& gone.agent(agent) is None
            &&& nothing_left(gone, seq![agent])
            &&& !filed(gone.active_bridges, agent)
            &&& !filed(gone.bridge_queues, agent)
            &&& forall|i: int, j: int|
                0 <= i < gone.decisions.len() && 0 <= j < w.tasks.len() && (w.tasks[j].from_agent
                    == agent || w.tasks[j].to_agent == agent) ==> (
                #[trigger] gone.decisions[i]).task_id != (#[trigger] w.tasks[j]).task_id
        }),
{
    let plan = w.plan_removal(agent)->Ok_0;
    let gone = w.apply_removal(agent, plan, rows).0;
    let one = seq![agent];
    assert(one[0] == agent);
    assert(one.contains(agent));
    assert(plan.agents == one);
    lemma_purge(w, plan);
    assert(gone.agent(agent) is None) by {
        lemma_place(gone.agents, agent);
    }
    lemma_gone(w.active_bridges, agent);
    lemma_gone(w.bridge_queues, agent);
    assert forall|i: int, j: int|
        0 <= i < gone.decisions.len() && 0 <= j < w.tasks.len() && (w.tasks[j].from_agent == agent
            || w.tasks[j].to_agent == agent) implies (#[trigger] gone.decisions[i]).task_id != (
    #[trigger] w.tasks[j]).task_id by {
        assert(w.tasks.contains(w.tasks[j]));
        lemma_tasks_of(w.tasks, one, false, w.tasks[j]);
        assert(gone.decisions[i] == w.purge(plan).decisions[i]);
    }
}

proof fn lemma_gone<R: Keyed>(s: Seq<R>, k: Seq<char>)
    requires
        distinct(s),
    ensures
        !filed(without(s, k), k),
{
    lemma_place(s, k);
    let t = without(s, k);
    lemma_place(t, k);
    if filed(t, k) {
        let p = place(s, k);
        let q = place(t, k);
        let q2 = if q >= p {
            q + 1
        } else {
            q
        };
        assert(t[q] == s[q2]);
        assert(s[q2].key() == s[p].key());
    }
}

proof fn lemma_demo_names(agents: Seq<AgentModel>, live_only: bool, name: Seq<char>)
    ensures
        demo_names(agents, live_only).contains(name) <==> is_demo(name) && exists|i: int|
            0 <= i < agents.len() && (#[trigger] agents[i]).name == name && (!live_only
                || agents[i].current_session_id is Some),
    decreases agents.len(),
{
    let all = demo_names(agents, live_only);
    if agents.len() > 0 {
        let head = agents.drop_last();
        let rest = demo_names(head, live_only);
        let last = agents[agents.len() - 1];
        lemma_demo_names(head, live_only, name);
        if rest.contains(name) {
            let k = choose|k: int| 0 <= k < rest.len() && rest[k] == name;
            assert(all[k] == name);
            let i = choose|i: int|
                0 <= i < head.len() && (#[trigger] head[i]).name == name && (!live_only
                    || head[i].current_session_id is Some);
            assert(agents[i].name == name);
        }
        if is_demo(last.name) && (!live_only || last.current_session_id is Some) {
            assert(all[all.len() - 1] == last.name);
            assert(agents[agents.len() - 1].name == last.name);
        }
        if all.contains(name) {
            let k = choose|k: int| 0 <= k < all.len() && all[k] == name;
            if k < rest.len() {
                assert(rest[k] == name);
            }
        }
        if is_demo(name) && exists|i: int|
            0 <= i < agents.len() && (#[trigger] agents[i]).name == name && (!live_only
                || agents[i].current_session_id is Some) {
            let i = choose|i: int|
                0 <= i < agents.len() && (#[trigger] agents[i]).name == name && (!live_only
                    || agents[i].current_session_id is Some);
            if i < head.len() {
                assert(head[i] == agents[i]);
            }
        }
    }
}

/// A cleanup takes the demonstration agents with all that is theirs, and no other
/// agent.
pub proof fn cleanup_takes_the_demonstration_agents(
    w: World,
    requested_by: Seq<char>,
    rows: DeletedRows,
    now: Timestamp,
    agent: AgentModel,
)
    requires
        w.plan_cleanup(requested_by) is Ok,
    ensures
        w.apply_cleanup(requested_by, w.plan_cleanup(requested_by)->Ok_0, rows, now).0.agents.contains(
            agent,
        ) <==> w.agents.contains(agent) && !is_demo(agent.name),
{
    let plan = w.plan_cleanup(requested_by)->Ok_0;
    kept_are_those_that_stay(w.agents, plan.agents, plan.task_ids, agent);
    lemma_demo_names(w.agents, false, agent.name);
    if w.agents.contains(agent) {
        let i = choose|i: int| 0 <= i < w.agents.len() && w.agents[i] == agent;
        assert(w.agents[i].name == agent.name);
        if is_demo(agent.name) {
            assert(plan.agents.contains(agent.name));
        }
    }
}

/// Every session that is marked as running is among those given.
pub open spec fn running_among(sessions: Seq<SessionModel>, stale: Seq<SessionModel>) -> bool {
    forall|i: int|
        0 <= i < sessions.len() && (#[trigger] sessions[i]).status == CodexSessionStatus::Running
            ==> exists|j: int|
            0 <= j < stale.len() && (#[trigger] stale[j]).session_id == sessions[i].session_id
}

proof fn lemma_running_listed(sessions: Seq<SessionModel>)
    ensures
        running_among(sessions, running_sessions(sessions)),
    decreases sessions.len(),
{
    let all = running_sessions(sessions);
    if sessions.len() > 0 {
        let head = sessions.drop_last();
        let rest = running_sessions(head);
        lemma_running_listed(head);
        assert forall|i: int|
            0 <= i < sessions.len() && (#[trigger] sessions[i]).status
                == CodexSessionStatus::Running implies exists|j: int|
            0 <= j < all.len() && (#[trigger] all[j]).session_id == sessions[i].session_id by {
            if i < head.len() {
                assert(head[i] == sessions[i]);
                let j = choose|j: int|
                    0 <= j < rest.len() && (#[trigger] rest[j]).session_id == head[i].session_id;
                assert(all[j].session_id == sessions[i].session_id);
            } else {
                assert(all[all.len() - 1].session_id == sessions[i].session_id);
            }
        }
    }
}

proof fn lemma_recovered(w: World, stale: Seq<SessionModel>, now: Timestamp)
    requires
        w.tidy(),
        running_among(w.sessions, stale),
        w.recover_all(stale, now).1 is Ok,
    ensures
        forall|i: int|
            0 <= i < w.recover_all(stale, now).0.sessions.len() ==> (#[trigger] w.recover_all(
                stale,
                now,
            ).0.sessions[i]).status != CodexSessionStatus::Running,
    decreases stale.len(),
{
    if stale.len() > 0 {
        let first = w.recover_session(stale[0], now);
        let rest = stale.skip(1);
        let id = stale[0].session_id;
        let ended = ended_session(w.session(id)->Some_0, CodexSessionStatus::Failed, now);
        let t = put(w.sessions, ended);
        assert(first.0.sessions == t);
        lemma_place(w.sessions, id);
        assert(ended.session_id == id);
        assert forall|i: int|
            0 <= i < t.len() && (#[trigger] t[i]).status
                == CodexSessionStatus::Running implies exists|j: int|
            0 <= j < rest.len() && (#[trigger] rest[j]).session_id == t[i].session_id by {
            let p = place(w.sessions, id);
            assert(i != p);
            assert(t[i] == w.sessions[i]);
            assert(w.sessions[i].key() != w.sessions[p].key());
            let j = choose|j: int|
                0 <= j < stale.len() && (#[trigger] stale[j]).session_id
                    == w.sessions[i].session_id;
            assert(rest[j - 1] == stale[j]);
        }
        startup_keeps_order(w, id, id, None, stale[0], 0, now);
        lemma_recovered(first.0, rest, now);
    }
}

/// After a start no session of an earlier run is still marked as running.
pub proof fn start_leaves_no_session_running(w: World, now: Timestamp)
    requires
        w.tidy(),
        w.recover_stale_sessions(now).1 is Ok,
    ensures
        forall|i: int|
            0 <= i < w.recover_stale_sessions(now).0.sessions.len() ==> (
            #[trigger] w.recover_stale_sessions(now).0.sessions[i]).status
                != CodexSessionStatus::Running,
{
    lemma_running_listed(w.sessions);
    lemma_recovered(w, running_sessions(w.sessions), now);
}

/// After a start every agent points only to a session that runs and to a task that
/// is not over.
pub proof fn start_leaves_no_stale_pointer(w: World, now: Timestamp)
    requires
        w.tidy(),
    ensures
        w.normalize_agents(now).sessions == w.sessions,
        w.normalize_agents(now).tasks == w.tasks,
        forall|i: int|
            0 <= i < w.normalize_agents(now).agents.len() ==> {
                let a = #[trigger] w.normalize_agents(now).agents[i];
                &&& a.current_session_id matches Some(id) ==> runs(w.sessions, id)
                &&& a.current_task_id matches Some(id) ==> is_open(w.tasks, id)
            },
{
    assert forall|i: int| 0 <= i < w.normalize_agents(now).agents.len() implies ({
        let a = #[trigger] w.normalize_agents(now).agents[i];
        &&& a.current_session_id matches Some(id) ==> runs(w.sessions, id)
        &&& a.current_task_id matches Some(id) ==> is_open(w.tasks, id)
    }) by {
        if open_tasks(w.tasks, w.agents[i].name).len() > 0 {
            lemma_open_tasks(w.tasks, w.agents[i].name, 0);
        }
    }
}

/// After a start every task mirrors the newest decision on it.
pub proof fn start_renews_the_mirrors(w: World)
    ensures
        w.sync_task_decisions().decisions == w.decisions,
        forall|i: int|
            0 <= i < w.sync_task_decisions().tasks.len() ==> mirrors_decision(
                #[trigger] w.sync_task_decisions().tasks[i],
                latest_decision(w.decisions, w.tasks[i].task_id),
            ),
{
}

} // verus!
