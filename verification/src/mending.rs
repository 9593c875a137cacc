//! What a repair, a removal, a cleanup and a start do to the single records.

use vstd::prelude::*;

use crate::models::{
    AgentBootstrapState, AgentModel, AgentRole, AgentSessionState, AppServerOwner,
    BridgeConnectionState,
    CodexSessionStatus, DecisionModel, RuntimeEventModel, SessionMode, SessionModel,
    StreamModel, TaskModel, TaskState,
};
use crate::promises::{found_after_put, found_has_its_key, same_task};
use crate::record::{holds_decision, nothing_decided, same_report};
use crate::removal::{is_demo, DeletedRows, Removable};
use crate::repair::{
    fix_agent, fix_session, fix_task, open_tasks, repair_agents, repair_sessions, repair_tasks,
    runs, Handles,
};
use crate::runs::other_sessions_stay;
use crate::standing::{is_newest_on, keeps_agent, lemma_newest_on};
use crate::startup::{daemon_serves, loaded, resolved_prompt};
use crate::state::World;
use crate::table::found;
use crate::text::begins_with;
use crate::time::Timestamp;

verus! {

/// The task is closed, cancelled or failed.
pub open spec fn is_over(state: TaskState) -> bool {
    state == TaskState::Closed || state == TaskState::Cancelled || state == TaskState::Failed
}

/// A repaired task is closed exactly where it is over: since it last changed, where it did
/// not say so. It holds the newest decision on it, or none where none was made. Its wording,
/// its report and its state stay, and where nothing was wrong with it, so does all of it.
pub proof fn repaired_task_is_in_line(w: World, task: TaskModel, now: Timestamp)
    ensures
        ({
            let f = fix_task(task, w.decisions, now);
            let t = f.record;
            &&& same_task(task, t) && same_report(task, t) && t.state == task.state
            &&& is_over(task.state) && task.closed_at is Some ==> t.closed_at == task.closed_at
            &&& is_over(task.state) && task.closed_at is None ==> t.closed_at == Some(
                task.updated_at,
            )
            &&& !is_over(task.state) ==> t.closed_at is None
            &&& exists|d: Option<DecisionModel>| #[trigger]
                is_newest_on(w, d, task.task_id) && (d matches Some(x) ==> holds_decision(t, x)) && (
                d is None ==> nothing_decided(t))
            &&& f.changed ==> t.updated_at == now && f.notes.len() > 0
            &&& !f.changed ==> t == task && f.notes.len() == 0
        }),
{
    lemma_newest_on(w, task.task_id);
    let d = crate::decision::latest_decision(w.decisions, task.task_id);
    assert(is_newest_on(w, d, task.task_id));
}

/// A repaired session runs exactly where it did and can be stopped; one that could not be has
/// failed. It has an end exactly where it does not run: the one it had, else its last output,
/// else now. Whose session it is, its mode, its process and its thread stay.
pub proof fn repaired_session_is_in_line(s: SessionModel, live: Handles, now: Timestamp)
    ensures
        ({
            let f = fix_session(s, live, now);
            let t = f.record;
            let runs = s.status == CodexSessionStatus::Running;
            &&& t == SessionModel {
                status: t.status,
                ended_at: t.ended_at,
                last_output_at: t.last_output_at,
                ..s
            }
            &&& runs && live.hold(s.session_id) ==> t.status == CodexSessionStatus::Running
                && t.ended_at is None && t.last_output_at == s.last_output_at
            &&& runs && !live.hold(s.session_id) ==> t.status == CodexSessionStatus::Failed && (
            s.ended_at is Some ==> t.ended_at == s.ended_at) && (s.ended_at is None ==> t.ended_at
                == Some(now)) && (s.last_output_at is Some ==> t.last_output_at == s.last_output_at)
                && (s.last_output_at is None ==> t.last_output_at == Some(now))
            &&& !runs ==> t.status == s.status && t.last_output_at == s.last_output_at && (
            s.ended_at is Some ==> t.ended_at == s.ended_at) && (s.ended_at is None
                && s.last_output_at is Some ==> t.ended_at == s.last_output_at) && (s.ended_at
                is None && s.last_output_at is None ==> t.ended_at == Some(now))
            &&& f.changed ==> f.notes.len() > 0
            &&& !f.changed ==> t == s && f.notes.len() == 0
        }),
{
}

/// A session can be stopped where its round has a handle, or where it is the app server that
/// the daemon runs for an agent.
pub proof fn handle_is_of_a_round_or_a_server(live: Handles, id: Seq<char>, i: int)
    ensures
        found(live.rounds, id) is Some ==> live.hold(id),
        0 <= i < live.servers.len() && live.servers[i].session_id == id ==> live.hold(id),
        found(live.rounds, id) is None && (forall|j: int|
            0 <= j < live.servers.len() ==> (#[trigger] live.servers[j]).session_id != id)
            ==> !live.hold(id),
{
}

/// A repaired agent points to its session only where that runs, and to its task only where
/// that is not over. With neither it is bound to its open task where it has exactly one, and
/// idle where it has none; with a session it is busy, and with a task alone it is in the
/// state in which that task keeps it. Nothing else about it changes but the time when it was
/// seen.
pub proof fn repaired_agent_is_in_line(
    a: AgentModel,
    tasks: Seq<TaskModel>,
    sessions: Seq<SessionModel>,
    now: Timestamp,
)
    ensures
        ({
            let f = fix_agent(a, tasks, sessions, now);
            let r = f.record;
            let seated = a.current_session_id is Some && (found(
                sessions,
                a.current_session_id->Some_0,
            ) matches Some(s) && s.status == CodexSessionStatus::Running);
            let tasked = a.current_task_id is Some && (found(
                tasks,
                a.current_task_id->Some_0,
            ) matches Some(t) && !is_over(t.state));
            let open = open_tasks(tasks, a.name);
            &&& r == AgentModel {
                current_session_id: r.current_session_id,
                current_task_id: r.current_task_id,
                state: r.state,
                last_heartbeat_at: r.last_heartbeat_at,
                ..a
            }
            &&& seated ==> r.current_session_id == a.current_session_id && r.state
                == AgentSessionState::Busy
            &&& !seated ==> r.current_session_id is None
            &&& tasked ==> r.current_task_id == a.current_task_id
            &&& !seated && tasked ==> keeps_agent(
                found(tasks, a.current_task_id->Some_0)->Some_0.state,
                r.state,
            )
            &&& !tasked && (seated || open.len() != 1) ==> r.current_task_id is None
            &&& !tasked && !seated && open.len() == 1 ==> r.current_task_id == Some(open[0])
            &&& !tasked && !seated && open.len() == 0 ==> r.state == AgentSessionState::Idle
            &&& !tasked && !seated && open.len() > 1 ==> r.state == a.state
            &&& !f.changed ==> r == a
            &&& f.changed ==> f.notes.len() > 0
        }),
{
}

/// The open tasks of an agent are those that it was given and that are not over.
pub proof fn open_tasks_are_those_given(tasks: Seq<TaskModel>, agent: Seq<char>, t: TaskModel)
    ensures
        open_tasks(Seq::empty(), agent).len() == 0,
        t.to_agent == agent && !is_over(t.state) ==> open_tasks(tasks.push(t), agent) == open_tasks(
            tasks,
            agent,
        ).push(t.task_id),
        t.to_agent != agent || is_over(t.state) ==> open_tasks(tasks.push(t), agent) == open_tasks(
            tasks,
            agent,
        ),
{
    assert(tasks.push(t).drop_last() =~= tasks);
}

/// A repair goes through the records one by one: each further one is repaired as it stands,
/// and is counted where it was changed.
pub proof fn repair_goes_record_by_record(
    tasks: Seq<TaskModel>,
    t: TaskModel,
    sessions: Seq<SessionModel>,
    s: SessionModel,
    agents: Seq<AgentModel>,
    a: AgentModel,
    decisions: Seq<DecisionModel>,
    live: Handles,
    now: Timestamp,
)
    ensures
        ({
            let before = repair_tasks(tasks, decisions, now);
            let after = repair_tasks(tasks.push(t), decisions, now);
            let f = fix_task(t, decisions, now);
            &&& after.records == before.records.push(f.record)
            &&& after.notes == before.notes + f.notes
            &&& f.changed ==> after.count == before.count + 1
            &&& !f.changed ==> after.count == before.count && after.effects == before.effects
        }),
        ({
            let before = repair_sessions(sessions, live, now);
            let after = repair_sessions(sessions.push(s), live, now);
            let f = fix_session(s, live, now);
            &&& after.records == before.records.push(f.record)
            &&& after.notes == before.notes + f.notes
            &&& f.changed ==> after.count == before.count + 1
            &&& !f.changed ==> after.count == before.count && after.effects == before.effects
        }),
        ({
            let before = repair_agents(agents, tasks, sessions, now);
            let after = repair_agents(agents.push(a), tasks, sessions, now);
            let f = fix_agent(a, tasks, sessions, now);
            &&& after.records == before.records.push(f.record)
            &&& after.notes == before.notes + f.notes
            &&& f.changed ==> after.count == before.count + 1
            &&& !f.changed ==> after.count == before.count && after.effects == before.effects
        }),
{
    assert(tasks.push(t).drop_last() =~= tasks);
    assert(sessions.push(s).drop_last() =~= sessions);
    assert(agents.push(a).drop_last() =~= agents);
}

/// A repair is told with who asked for it, how many records of each kind were changed, and
/// what was wrong with them; only a registered agent can ask for it.
pub proof fn repair_is_told(w: World, requested_by: Seq<char>, now: Timestamp)
    ensures
        ({
            let r = w.repair(requested_by, now);
            let t = repair_tasks(w.tasks, w.decisions, now);
            let s = repair_sessions(w.sessions, w.handles(), now);
            let a = repair_agents(w.agents, t.records, s.records, now);
            &&& r.1 is Ok <==> w.agent(requested_by) is Some
            &&& r.1 is Err ==> r.0 == w
            &&& r.1 matches Ok(told) ==> {
                &&& told.requested_by == requested_by
                &&& told.repaired_tasks == t.count as usize
                &&& told.repaired_sessions == s.count as usize
                &&& told.repaired_agents == a.count as usize
                &&& told.notes == t.notes + s.notes + a.notes
                &&& r.0.tasks == t.records && r.0.sessions == s.records && r.0.agents == a.records
                &&& r.0.decisions == w.decisions && r.0.bridge_queues == w.bridge_queues
            }
        }),
{
}

/// What goes with an agent: a task that it gave or was given, or that is named; a decision
/// on a task that is named; its sessions, its lines and its live rounds; and an entry of the
/// ledger that is about it, of its doing or on a task that is named.
pub proof fn what_goes_with_an_agent(
    agents: Seq<Seq<char>>,
    ids: Seq<Seq<char>>,
    a: AgentModel,
    t: TaskModel,
    d: DecisionModel,
    s: SessionModel,
    line: StreamModel,
    e: RuntimeEventModel,
)
    ensures
        a.stays(agents, ids) <==> !agents.contains(a.name),
        t.stays(agents, ids) <==> !agents.contains(t.from_agent) && !agents.contains(t.to_agent)
            && !ids.contains(t.task_id),
        d.stays(agents, ids) <==> !ids.contains(d.task_id),
        s.stays(agents, ids) <==> !agents.contains(s.agent_name),
        line.stays(agents, ids) <==> !agents.contains(line.agent),
        e.agent_name is Some && agents.contains(e.agent_name->Some_0) ==> !e.stays(agents, ids),
        e.actor_name is Some && agents.contains(e.actor_name->Some_0) ==> !e.stays(agents, ids),
        e.task_id is Some && ids.contains(e.task_id->Some_0) ==> !e.stays(agents, ids),
        e.agent_name is None && e.actor_name is None && e.task_id is None ==> e.stays(agents, ids),
        e.stays(agents, ids) ==> (e.agent_name matches Some(n) ==> !agents.contains(n)),
        !e.stays(agents, ids) ==> (e.agent_name is Some && agents.contains(e.agent_name->Some_0))
            || (e.actor_name is Some && agents.contains(e.actor_name->Some_0)) || (e.task_id is Some
            && ids.contains(e.task_id->Some_0)),
{
}

/// The agents made for demonstrations are the probe and those whose names begin so.
pub proof fn demonstration_agents_are_known(name: Seq<char>, rest: Seq<char>)
    ensures
        is_demo("demo_"@ + rest),
        is_demo("usage_limit_probe"@),
        is_demo(name) ==> name == "usage_limit_probe"@ || name == "demo_"@ + name.skip(5),
{
    reveal_strlit("demo_");
    assert(("demo_"@ + rest).take(5) =~= "demo_"@);
    if begins_with(name, "demo_"@) {
        assert(name =~= "demo_"@ + name.skip(5));
    }
}

/// A removal is told with the agent and how many rows of each kind went; it is refused, and
/// nothing changes, where the database had no such agent. So is a cleanup, with all the
/// agents that went.
pub proof fn removal_is_told(
    w: World,
    agent: Seq<char>,
    plan: crate::removal::PlanModel,
    rows: DeletedRows,
    requested_by: Seq<char>,
    now: Timestamp,
)
    requires
        rows.runtime_events_by_task + rows.runtime_events_by_agent <= usize::MAX,
    ensures
        ({
            let r = w.apply_removal(agent, plan, rows);
            &&& rows.agents == 0 ==> r.1 is Err && r.0 == w
            &&& rows.agents > 0 ==> (r.1 matches Ok(told) && told.agent == agent
                && told.removed_tasks == rows.tasks && told.removed_task_events == rows.task_events
                && told.removed_runtime_events == rows.runtime_events_by_task
                + rows.runtime_events_by_agent && told.removed_decisions == rows.decisions
                && told.removed_sessions == rows.sessions && told.removed_stream_events
                == rows.stream_events)
        }),
        ({
            let r = w.apply_cleanup(requested_by, plan, rows, now);
            let nothing = plan.agents.len() == 0 && plan.task_ids.len() == 0;
            &&& r.1.requested_by == requested_by
            &&& nothing ==> r.0 == w && r.1.removed_agents == 0 && r.1.removed_tasks == 0
                && r.1.removed_decisions == 0 && r.1.removed_sessions == 0
                && r.1.removed_stream_events == 0 && r.1.removed_task_events == 0
                && r.1.removed_runtime_events == 0 && r.1.removed_agent_names.len() == 0
            &&& !nothing ==> r.1.removed_agents == rows.agents && r.1.removed_tasks == rows.tasks
                && r.1.removed_task_events == rows.task_events && r.1.removed_runtime_events
                == rows.runtime_events_by_task + rows.runtime_events_by_agent
                && r.1.removed_decisions == rows.decisions && r.1.removed_sessions == rows.sessions
                && r.1.removed_stream_events == rows.stream_events && r.1.removed_agent_names
                == plan.agents
        }),
{
}

/// The main agent is there after a start: the one that was, or a new one, which is the main
/// agent, works in the directory that is given and has the contract that is given. An agent
/// that was has its directory filled in where it had none, and its contract where it named
/// none.
pub proof fn main_agent_is_there(
    w: World,
    cwd: Seq<char>,
    prompt: Option<Seq<char>>,
    now: Timestamp,
)
    ensures
        ({
            let after = w.ensure_main_agent(cwd, prompt, now);
            let old = w.agent("main"@);
            &&& after.agent("main"@) is Some
            &&& after.tasks == w.tasks && after.sessions == w.sessions
            &&& forall|n: Seq<char>| n != "main"@ ==> #[trigger] after.agent(n) == w.agent(n)
            &&& old is None ==> {
                let a = after.agent("main"@)->Some_0;
                &&& a.role == AgentRole::Main && a.prompt_path == prompt
                &&& a.cwd == cwd
                &&& a.state == AgentSessionState::Idle && a.bootstrap_state
                    == AgentBootstrapState::AwaitingInit && a.current_task_id is None
                &&& found(after.bridge_queues, "main"@) is Some
            }
            &&& old matches Some(b) ==> {
                let a = after.agent("main"@)->Some_0;
                &&& a == AgentModel { cwd: a.cwd, prompt_path: a.prompt_path, ..b }
                &&& b.cwd == "."@ ==> a.cwd == cwd
                &&& b.cwd != "."@ ==> a.cwd == b.cwd
                &&& b.prompt_path is Some ==> a.prompt_path == b.prompt_path
                &&& b.prompt_path is None ==> a.prompt_path == prompt
            }
        }),
{
    broadcast use {found_after_put, found_has_its_key};

}

/// An agent gets the contract that was found at the start, and the main agent its directory
/// where it had none; nothing else about it changes, and no other agent does.
pub proof fn contract_is_brought_up_to_date(
    w: World,
    name: Seq<char>,
    cwd: Seq<char>,
    prompt: Option<Seq<char>>,
)
    ensures
        ({
            let after = w.sync_prompt(name, cwd, prompt);
            &&& w.agent(name) is None ==> after == w
            &&& w.agent(name) matches Some(b) ==> (after.agent(name) matches Some(a)
                && a.prompt_path == prompt && (name == "main"@ && b.cwd == "."@ ==> a.cwd == cwd)
                && (name != "main"@ || b.cwd != "."@ ==> a.cwd == b.cwd) && a == (AgentModel {
                cwd: a.cwd,
                prompt_path: prompt,
                ..b
            }))
            &&& forall|n: Seq<char>| n != name ==> #[trigger] after.agent(n) == w.agent(n)
        }),
{
    broadcast use {found_after_put, found_has_its_key};

}

/// The contract of an agent is the path that was given, below its directory where it is not
/// absolute, and the default file where none was given.
pub proof fn contract_path_is_resolved(
    given: Option<Seq<char>>,
    absolute: bool,
    below: Seq<char>,
    default: Option<Seq<char>>,
)
    ensures
        given is None ==> resolved_prompt(given, absolute, below, default) == default,
        given is Some && absolute ==> resolved_prompt(given, absolute, below, default) == given,
        given is Some && !absolute ==> resolved_prompt(given, absolute, below, default) == Some(
            below,
        ),
{
}

/// A session that was running when the daemon last stopped has failed now. Its agent no
/// longer has it, and is blocked where it holds a task; the agent of an app server that ran
/// has to be started anew.
pub proof fn stale_session_has_failed(w: World, session: SessionModel, now: Timestamp)
    requires
        w.session(session.session_id) == Some(session),
        w.agent(session.agent_name) is Some,
    ensures
        ({
            let r = w.recover_session(session, now);
            let b = w.agent(session.agent_name)->Some_0;
            let served = session.session_mode == SessionMode::AppServer;
            &&& r.1 is Ok
            &&& r.0.session(session.session_id) matches Some(s) && s.status
                == CodexSessionStatus::Failed && s.ended_at == Some(now)
            &&& other_sessions_stay(w, r.0, session.session_id)
            &&& r.0.tasks == w.tasks
            &&& forall|n: Seq<char>|
                n != session.agent_name ==> #[trigger] r.0.agent(n) == w.agent(n)
            &&& r.0.agent(session.agent_name) matches Some(a) && a.current_task_id
                == b.current_task_id && (!served ==> a.current_session_id is None && a.thread_id
                == b.thread_id && a.bootstrap_state == b.bootstrap_state) && (served
                ==> a.current_session_id == b.current_session_id && a.thread_id is None
                && a.app_server_url is None && a.bootstrap_state
                == AgentBootstrapState::AwaitingInit) && (b.current_task_id is Some
                && a.current_session_id is None ==> a.state == AgentSessionState::Blocked) && (
            !served && b.current_task_id is None ==> a.state == b.state)
        }),
{
    broadcast use {found_after_put, found_has_its_key};

}

/// An agent is brought into line at the start: it keeps its session only where that runs and
/// its task only where that is not over; one with neither is bound to its only open task; one
/// whose server the daemon no longer runs has to be started anew; and it is in the state that
/// its session or its task calls for. An agent that is in line stays as it is.
pub proof fn agent_is_brought_into_line(w: World, a: AgentModel, now: Timestamp)
    ensures
        ({
            let n = crate::startup::normalized(w, a, now);
            let seated = a.current_session_id is Some && (w.session(
                a.current_session_id->Some_0,
            ) matches Some(s) && s.status == CodexSessionStatus::Running);
            let tasked = a.current_task_id is Some && (w.task(
                a.current_task_id->Some_0,
            ) matches Some(t) && !is_over(t.state));
            let open = open_tasks(w.tasks, a.name);
            let unserved = a.app_server_owner == Some(AppServerOwner::Daemon) && !daemon_serves(
                w.sessions,
                a.name,
            );
            &&& n.name == a.name && n.role == a.role && n.cwd == a.cwd && n.prompt_path
                == a.prompt_path && n.visible_pane_pid == a.visible_pane_pid
            &&& seated ==> n.current_session_id == a.current_session_id && n.state
                == AgentSessionState::Busy
            &&& !seated ==> n.current_session_id is None
            &&& tasked ==> n.current_task_id == a.current_task_id
            &&& !tasked && !seated && open.len() == 1 ==> n.current_task_id == Some(open[0])
            &&& !tasked && (seated || open.len() != 1) ==> n.current_task_id is None
            &&& !seated && tasked ==> keeps_agent(
                w.task(a.current_task_id->Some_0)->Some_0.state,
                n.state,
            )
            &&& !seated && !tasked && open.len() != 1 ==> n.state == AgentSessionState::Idle
            &&& unserved && (a.app_server_url is Some || a.thread_id is Some || a.bootstrap_state
                == AgentBootstrapState::Ready) ==> n.thread_id is None && n.app_server_url is None
                && n.app_server_owner is None && n.bootstrap_state
                == AgentBootstrapState::AwaitingInit
            &&& !unserved ==> n.thread_id == a.thread_id && n.app_server_url == a.app_server_url
                && n.bootstrap_state == a.bootstrap_state && n.app_server_owner
                == a.app_server_owner
        }),
{
}

/// A start has no live rounds, servers or bridges, nothing to store, and the newest lines and
/// entries as they were stored.
pub proof fn start_has_nothing_live(
    agents: Seq<AgentModel>,
    tasks: Seq<TaskModel>,
    decisions: Seq<DecisionModel>,
    recent: Seq<SessionModel>,
    running: Seq<SessionModel>,
    streams: Seq<StreamModel>,
    events: Seq<RuntimeEventModel>,
)
    ensures
        ({
            let w = loaded(agents, tasks, decisions, recent, running, streams, events);
            &&& w.active_sessions.len() == 0 && w.active_managed_sessions.len() == 0
                && w.active_bridges.len() == 0 && w.outbox.len() == 0
            &&& w.recent_streams == streams && w.recent_runtime_events == events
        }),
{
}

/// Every record that was stored is there after a start, under its key: of two under one key
/// the later one, and of sessions one that is still marked as running rather than any other.
/// Every agent has a mailbox that is empty and goes on from the number it had reached.
pub proof fn stored_records_are_loaded(
    agents: Seq<AgentModel>,
    tasks: Seq<TaskModel>,
    decisions: Seq<DecisionModel>,
    recent: Seq<SessionModel>,
    running: Seq<SessionModel>,
    streams: Seq<StreamModel>,
    events: Seq<RuntimeEventModel>,
    i: int,
)
    ensures
        ({
            let w = loaded(agents, tasks, decisions, recent, running, streams, events);
            &&& (0 <= i < agents.len() && forall|j: int|
                i < j < agents.len() ==> (#[trigger] agents[j]).name != agents[i].name) ==> w.agent(
                agents[i].name,
            ) == Some(agents[i]) && (found(w.bridge_queues, agents[i].name) matches Some(q)
                && q.pending.len() == 0 && q.next_delivery_id == agents[i].bridge_last_delivery_id)
            &&& (0 <= i < tasks.len() && forall|j: int|
                i < j < tasks.len() ==> (#[trigger] tasks[j]).task_id != tasks[i].task_id)
                ==> w.task(tasks[i].task_id) == Some(tasks[i])
            &&& (0 <= i < decisions.len() && forall|j: int|
                i < j < decisions.len() ==> (#[trigger] decisions[j]).decision_id
                    != decisions[i].decision_id) ==> found(w.decisions, decisions[i].decision_id)
                == Some(decisions[i])
            &&& (0 <= i < running.len() && forall|j: int|
                i < j < running.len() ==> (#[trigger] running[j]).session_id
                    != running[i].session_id) ==> w.session(running[i].session_id) == Some(
                running[i],
            )
        }),
{
    let empty_agents = Seq::<AgentModel>::empty();
    if 0 <= i < agents.len() && forall|j: int|
        i < j < agents.len() ==> (#[trigger] agents[j]).name != agents[i].name {
        lemma_last_filed(empty_agents, agents, i);
        let queues = crate::startup::queues_for(agents);
        assert forall|j: int| i < j < queues.len() implies crate::table::Keyed::key(
            #[trigger] queues[j],
        ) != crate::table::Keyed::key(queues[i]) by {
            assert(agents[j].name != agents[i].name);
        }
        lemma_last_filed(Seq::empty(), queues, i);
    }
    if 0 <= i < tasks.len() && forall|j: int|
        i < j < tasks.len() ==> (#[trigger] tasks[j]).task_id != tasks[i].task_id {
        lemma_last_filed(Seq::empty(), tasks, i);
    }
    if 0 <= i < decisions.len() && forall|j: int|
        i < j < decisions.len() ==> (#[trigger] decisions[j]).decision_id
            != decisions[i].decision_id {
        lemma_last_filed(Seq::empty(), decisions, i);
    }
    if 0 <= i < running.len() && forall|j: int|
        i < j < running.len() ==> (#[trigger] running[j]).session_id != running[i].session_id {
        let all = recent + running;
        let k = recent.len() + i;
        assert forall|j: int| k < j < all.len() implies crate::table::Keyed::key(#[trigger] all[j])
            != crate::table::Keyed::key(all[k]) by {
            assert(all[j] == running[j - recent.len()]);
        }
        lemma_last_filed(Seq::empty(), all, k);
    }
}

proof fn lemma_last_filed<R: crate::table::Keyed>(s: Seq<R>, rows: Seq<R>, i: int)
    requires
        0 <= i < rows.len(),
        forall|j: int| i < j < rows.len() ==> (#[trigger] rows[j]).key() != rows[i].key(),
    ensures
        found(crate::table::filed_all(s, rows), rows[i].key()) == Some(rows[i]),
    decreases rows.len(),
{
    let head = rows.drop_last();
    crate::table::lemma_put(crate::table::filed_all(s, head), rows.last(), rows[i].key());
    if i < rows.len() - 1 {
        assert(rows[rows.len() - 1].key() != rows[i].key());
        assert forall|j: int| i < j < head.len() implies (#[trigger] head[j]).key()
            != head[i].key() by {
            assert(head[j] == rows[j]);
        }
        lemma_last_filed(s, head, i);
    }
}

/// An agent that is not the main one is removed exactly where it is at rest: none of its tasks
/// is open, none of its sessions runs or can be stopped, its bridge is not connected, and
/// nothing waits in its mailbox.
pub proof fn agent_at_rest_can_be_removed(w: World, agent: Seq<char>)
    requires
        agent != "main"@,
        w.agent(agent) matches Some(a) && a.bridge_state != BridgeConnectionState::Connected
            && a.bridge_pending_delivery_count == 0,
        forall|i: int|
            0 <= i < w.tasks.len() && ((#[trigger] w.tasks[i]).from_agent == agent
                || w.tasks[i].to_agent == agent) ==> is_over(w.tasks[i].state),
        forall|i: int|
            0 <= i < w.sessions.len() && (#[trigger] w.sessions[i]).agent_name == agent
                ==> w.sessions[i].status != CodexSessionStatus::Running,
        forall|i: int|
            0 <= i < w.active_sessions.len() ==> (#[trigger] w.active_sessions[i]).agent_name
                != agent,
        found(w.active_bridges, agent) is None,
    ensures
        w.plan_removal(agent) matches Ok(plan) && plan.agents == seq![agent],
{
    lemma_no_open_task(w.tasks, agent);
    lemma_none_runs(w.sessions, agent);
}

proof fn lemma_no_open_task(tasks: Seq<TaskModel>, agent: Seq<char>)
    requires
        forall|i: int|
            0 <= i < tasks.len() && ((#[trigger] tasks[i]).from_agent == agent || tasks[i].to_agent
                == agent) ==> is_over(tasks[i].state),
    ensures
        crate::removal::tasks_of(tasks, seq![agent], true).len() == 0,
    decreases tasks.len(),
{
    if tasks.len() > 0 {
        let head = tasks.drop_last();
        assert forall|i: int|
            0 <= i < head.len() && ((#[trigger] head[i]).from_agent == agent || head[i].to_agent
                == agent) implies is_over(head[i].state) by {
            assert(head[i] == tasks[i]);
        }
        lemma_no_open_task(head, agent);
        let t = tasks[tasks.len() - 1];
        let one = seq![agent];
        if one.contains(t.from_agent) || one.contains(t.to_agent) {
            assert(is_over(t.state));
        }
    }
}

proof fn lemma_none_runs(sessions: Seq<SessionModel>, agent: Seq<char>)
    requires
        forall|i: int|
            0 <= i < sessions.len() && (#[trigger] sessions[i]).agent_name == agent
                ==> sessions[i].status != CodexSessionStatus::Running,
    ensures
        crate::removal::running_of(sessions, agent).len() == 0,
    decreases sessions.len(),
{
    if sessions.len() > 0 {
        let head = sessions.drop_last();
        assert forall|i: int|
            0 <= i < head.len() && (#[trigger] head[i]).agent_name == agent implies head[i].status
            != CodexSessionStatus::Running by {
            assert(head[i] == sessions[i]);
        }
        lemma_none_runs(head, agent);
        assert(sessions.last() == sessions[sessions.len() - 1]);
    }
}

/// The demonstration agents are cleaned up exactly where a registered agent asks for it and
/// none of them has a session.
pub proof fn demonstration_is_cleaned_up_at_rest(w: World, requested_by: Seq<char>)
    ensures
        w.plan_cleanup(requested_by) is Ok <==> w.agent(requested_by) is Some && forall|i: int|
            0 <= i < w.agents.len() && is_demo((#[trigger] w.agents[i]).name)
                ==> w.agents[i].current_session_id is None,
{
    lemma_live_demo(w.agents);
}

proof fn lemma_live_demo(agents: Seq<AgentModel>)
    ensures
        crate::removal::demo_names(agents, true).len() == 0 <==> forall|i: int|
            0 <= i < agents.len() && is_demo((#[trigger] agents[i]).name)
                ==> agents[i].current_session_id is None,
    decreases agents.len(),
{
    if agents.len() > 0 {
        let head = agents.drop_last();
        let last = agents[agents.len() - 1];
        lemma_live_demo(head);
        if forall|i: int|
            0 <= i < agents.len() && is_demo((#[trigger] agents[i]).name)
                ==> agents[i].current_session_id is None {
            assert forall|i: int|
                0 <= i < head.len() && is_demo((#[trigger] head[i]).name) implies head[i].current_session_id
                is None by {
                assert(head[i] == agents[i]);
            }
            assert(!is_demo(last.name) || last.current_session_id is None);
        }
        if crate::removal::demo_names(agents, true).len() == 0 {
            assert forall|i: int|
                0 <= i < agents.len() && is_demo(
                    (#[trigger] agents[i]).name,
                ) implies agents[i].current_session_id is None by {
                if i < head.len() {
                    assert(head[i] == agents[i]);
                }
            }
        }
    }
}

} // verus!
