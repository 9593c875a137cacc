//! What the overview, the inbox, a trace and the view of an agent show.

use vstd::prelude::*;

use crate::control::ControlRequest;
use crate::models::{
    AgentBootstrapState, AgentModel, AgentSessionState, BridgeConnectionState,
    CodexSessionStatus, DashboardModel, DecisionModel, RuntimeEventModel, SessionModel,
    TaskModel, TaskState, TraceModel,
};
use crate::order::{ranked, ranked_is_in_order};
use crate::reports::{
    agent_issues, agent_shown, all_event_lines, all_issues, child_state, context_badge,
    count_connected, count_ready, current_session, event_lines, event_meta, one_selected,
    open_task_lines, overview, padded, payload_source, seconds_for, session_named, trace_lines,
    transport, waiting_tasks, InboxTaskModel, OverviewModel,
};
use crate::text::{decimal, joined, lower, trimmed};
use crate::time::rfc3339;
use crate::watch::{last_events, shown_lines, shortened};

verus! {

/// The places of those items that fit, in their order.
pub open spec fn places(at: Seq<int>, n: int, fits: spec_fn(int) -> bool) -> bool {
    &&& forall|j: int| 0 <= j < at.len() ==> 0 <= #[trigger] at[j] < n
    &&& forall|j: int, k: int| 0 <= j < k < at.len() ==> #[trigger] at[j] < #[trigger] at[k]
    &&& forall|i: int| 0 <= i < n ==> (#[trigger] at.contains(i) <==> fits(i))
}

proof fn lemma_next_place(at: Seq<int>, n: int, fits: spec_fn(int) -> bool)
    requires
        places(at, n, fits),
        0 <= n,
    ensures
        places(
            if fits(n) {
                at.push(n)
            } else {
                at
            },
            n + 1,
            fits,
        ),
{
    let next = if fits(n) {
        at.push(n)
    } else {
        at
    };
    assert forall|i: int| 0 <= i < n + 1 implies (#[trigger] next.contains(i) <==> fits(i)) by {
        if i == n {
            if fits(n) {
                assert(next[next.len() - 1] == n);
            } else if at.contains(n) {
                let j = at.index_of(n);
                assert(at[j] == n);
            }
        } else {
            if at.contains(i) {
                let j = at.index_of(i);
                assert(next[j] == i);
            }
            if next.contains(i) {
                let j = next.index_of(i);
                assert(at[j] == i);
            }
            assert(at.contains(i) <==> fits(i));
        }
    }
}

/// The task waits for a decision of the agent that asked for it.
pub open spec fn awaits(task: TaskModel, agent: Seq<char>) -> bool {
    task.from_agent == agent && (task.state == TaskState::Reported || task.state
        == TaskState::BlockedWaitingDecision || task.state == TaskState::Analyzed)
}

/// These are the places of the tasks that wait for the agent, in their order.
pub open spec fn are_waiting(at: Seq<int>, tasks: Seq<TaskModel>, agent: Seq<char>) -> bool {
    places(at, tasks.len() as int, |i: int| awaits(tasks[i], agent))
}

/// The entry shows the task, each fact in the field of its name.
pub open spec fn entry_shows(entry: InboxTaskModel, task: TaskModel) -> bool {
    &&& entry.task_id == task.task_id
    &&& entry.to_agent == task.to_agent
    &&& entry.title == task.title
    &&& entry.state == task.state
    &&& entry.updated_at == task.updated_at
    &&& entry.latest_child_status == task.latest_child_status
    &&& entry.latest_child_summary == task.latest_child_summary
    &&& entry.latest_child_blocking == task.latest_child_blocking
    &&& entry.latest_child_topic == task.latest_child_topic
    &&& entry.latest_decision_summary == task.latest_decision_summary
    &&& entry.latest_decision_status == task.latest_decision_status
}

proof fn lemma_inbox_places(
    tasks: Seq<TaskModel>,
    agents: Seq<AgentModel>,
    agent: Seq<char>,
) -> (at: Seq<int>)
    ensures
        places(at, tasks.len() as int, |i: int| awaits(tasks[i], agent)),
        waiting_tasks(tasks, agents, agent).len() == at.len(),
        forall|j: int|
            0 <= j < at.len() ==> entry_shows(
                #[trigger] waiting_tasks(tasks, agents, agent)[j],
                tasks[at[j]],
            ),
    decreases tasks.len(),
{
    let fits = |i: int| awaits(tasks[i], agent);
    if tasks.len() == 0 {
        let at = Seq::<int>::empty();
        assert(places(at, 0, fits));
        at
    } else {
        let head = tasks.drop_last();
        let n = tasks.len() - 1;
        let before = lemma_inbox_places(head, agents, agent);
        assert(places(before, n, fits)) by {
            let old = |i: int| awaits(head[i], agent);
            assert forall|i: int| 0 <= i < n implies (#[trigger] before.contains(i) <==> fits(
                i,
            )) by {
                assert(before.contains(i) <==> old(i));
                assert(head[i] == tasks[i]);
            }
        }
        lemma_next_place(before, n, fits);
        let at = if fits(n) {
            before.push(n)
        } else {
            before
        };
        let all = waiting_tasks(tasks, agents, agent);
        let rest = waiting_tasks(head, agents, agent);
        assert forall|j: int| 0 <= j < at.len() implies entry_shows(
            #[trigger] all[j],
            tasks[at[j]],
        ) by {
            if j < before.len() {
                assert(entry_shows(rest[j], head[before[j]]));
            }
        }
        at
    }
}

/// The inbox of an agent lists the tasks that wait for its decision, all of them and no
/// others, each with its own facts and in the order in which they come.
pub proof fn inbox_lists_what_waits(
    tasks: Seq<TaskModel>,
    agents: Seq<AgentModel>,
    agent: Seq<char>,
)
    ensures
        exists|at: Seq<int>| #[trigger]
            are_waiting(at, tasks, agent) && waiting_tasks(tasks, agents, agent).len() == at.len()
                && forall|j: int|
                0 <= j < at.len() ==> entry_shows(
                    #[trigger] waiting_tasks(tasks, agents, agent)[j],
                    tasks[at[j]],
                ),
{
    let at = lemma_inbox_places(tasks, agents, agent);
    assert(are_waiting(at, tasks, agent));
}

/// In the inbox the task that was touched last comes first.
pub proof fn inbox_is_newest_first(
    tasks: Seq<TaskModel>,
    agents: Seq<AgentModel>,
    agent: Seq<char>,
)
    ensures
        ({
            let listed = ranked(waiting_tasks(tasks, agents, agent));
            &&& listed.to_multiset() == waiting_tasks(tasks, agents, agent).to_multiset()
            &&& forall|i: int, j: int|
                0 <= i < j < listed.len() ==> !(#[trigger] listed[i]).updated_at.before(
                    (#[trigger] listed[j]).updated_at,
                )
        }),
{
    let waiting = waiting_tasks(tasks, agents, agent);
    ranked_is_in_order(waiting);
    let listed = ranked(waiting);
    assert forall|i: int, j: int| 0 <= i < j < listed.len() implies !(
    #[trigger] listed[i]).updated_at.before((#[trigger] listed[j]).updated_at) by {
        assert(crate::order::Ranked::not_after(listed[i], listed[j]));
    }
}

/// The state of a task's agent is that of the agent of that name, and none where no agent
/// has it.
pub proof fn state_of_the_child_is_shown(agents: Seq<AgentModel>, name: Seq<char>, k: int)
    ensures
        0 <= k < agents.len() && agents[k].name == name && (forall|j: int|
            0 <= j < k ==> (#[trigger] agents[j]).name != name) ==> child_state(agents, name)
            == Some(lower(agents[k].state.shown())),
        (forall|j: int| 0 <= j < agents.len() ==> (#[trigger] agents[j]).name != name)
            ==> child_state(agents, name) is None,
    decreases agents.len(),
{
    if agents.len() > 0 {
        let rest = agents.skip(1);
        state_of_the_child_is_shown(rest, name, k - 1);
        if 0 < k < agents.len() && (forall|j: int|
            0 <= j < k ==> (#[trigger] agents[j]).name != name) {
            assert(agents[0].name != name);
            assert forall|j: int| 0 <= j < k - 1 implies (#[trigger] rest[j]).name != name by {
                assert(rest[j] == agents[j + 1]);
            }
        }
        if forall|j: int| 0 <= j < agents.len() ==> (#[trigger] agents[j]).name != name {
            assert(agents[0].name != name);
            assert forall|j: int| 0 <= j < rest.len() implies (#[trigger] rest[j]).name != name by {
                assert(rest[j] == agents[j + 1]);
            }
        }
    }
}

/// The session is among those given, under the identifier that the agent names.
pub open spec fn has_running_session(agent: AgentModel, sessions: Seq<SessionModel>) -> bool {
    agent.current_session_id matches Some(id) && (session_named(sessions, id) matches Some(s)
        && s.status == CodexSessionStatus::Running)
}

proof fn lemma_session_named(sessions: Seq<SessionModel>, id: Seq<char>)
    ensures
        session_named(sessions, id) matches Some(s) ==> s.session_id == id && sessions.contains(s),
        session_named(sessions, id) is None ==> forall|i: int|
            0 <= i < sessions.len() ==> (#[trigger] sessions[i]).session_id != id,
    decreases sessions.len(),
{
    if sessions.len() > 0 {
        let rest = sessions.skip(1);
        lemma_session_named(rest, id);
        if sessions[0].session_id == id {
            assert(sessions.contains(sessions[0]));
        } else {
            if let Some(s) = session_named(rest, id) {
                let i = rest.index_of(s);
                assert(sessions[i + 1] == s);
            } else {
                assert forall|i: int| 0 <= i < sessions.len() implies (
                #[trigger] sessions[i]).session_id != id by {
                    if i > 0 {
                        assert(rest[i - 1] == sessions[i]);
                    }
                }
            }
        }
    }
}

/// The session of an agent is one of its identifier, and there is none only where none of
/// the sessions has it.
pub proof fn session_of_an_agent_is_found(sessions: Seq<SessionModel>, agent: AgentModel)
    ensures
        agent.current_session_id is None ==> current_session(sessions, agent) is None,
        agent.current_session_id matches Some(id) ==> match current_session(sessions, agent) {
            Some(s) => s.session_id == id && sessions.contains(s),
            None => forall|i: int|
                0 <= i < sessions.len() ==> (#[trigger] sessions[i]).session_id != id,
        },
{
    if let Some(id) = agent.current_session_id {
        lemma_session_named(sessions, id);
    }
}

/// An agent is reached by the session that runs on it; without one by its bridge, where that
/// is connected; else by its window, where it has one; else not at all.
pub proof fn transport_is_told(agent: AgentModel, sessions: Seq<SessionModel>)
    ensures
        ({
            let told = transport(agent, sessions);
            let running = has_running_session(agent, sessions);
            let connected = agent.bridge_state == BridgeConnectionState::Connected;
            &&& running ==> told == "managed/"@ + lower(
                current_session(sessions, agent)->Some_0.session_mode.shown(),
            )
            &&& !running && connected && agent.bridge_mode is Some ==> told == "bridge/"@
                + agent.bridge_mode->Some_0.label()
            &&& !running && connected && agent.bridge_mode is None ==> told == "bridge"@
            &&& !running && !connected && agent.visible_pane_pid is Some ==> told
                == "visible_runtime"@
            &&& !running && !connected && agent.visible_pane_pid is None ==> told == "none"@
        }),
{
}

/// The context of an agent is told by its contract, marked where that is no file, and by its
/// working notes.
pub proof fn context_is_badged(a: OverviewModel)
    ensures
        a.agent.prompt_path is None && !a.has_work ==> context_badge(a) == "none"@,
        a.agent.prompt_path is None && a.has_work ==> context_badge(a) == "work"@,
        a.agent.prompt_path is Some && a.prompt_is_file && !a.has_work ==> context_badge(a)
            == "prompt"@,
        a.agent.prompt_path is Some && a.prompt_is_file && a.has_work ==> context_badge(a)
            == "prompt+work"@,
        a.agent.prompt_path is Some && !a.prompt_is_file && !a.has_work ==> context_badge(a)
            == "prompt!"@,
        a.agent.prompt_path is Some && !a.prompt_is_file && a.has_work ==> context_badge(a)
            == "prompt!+work"@,
{
}

/// One for what holds and none for what does not.
pub open spec fn one_if(b: bool) -> nat {
    if b {
        1
    } else {
        0
    }
}

/// Everything that is out of order with an agent is told, and nothing else: that it is not
/// ready, that it cannot be reached, that deliveries wait for it, that it works without a
/// task or has a task and is idle, that its contract is no file, that its session is unknown.
pub proof fn issues_of_an_agent_are_told(a: OverviewModel, sessions: Seq<SessionModel>)
    ensures
        ({
            let told = agent_issues(a, sessions);
            let agent = a.agent;
            let unready = agent.bootstrap_state != AgentBootstrapState::Ready;
            let unlinked = transport(agent, sessions) == "none"@;
            let pending = agent.bridge_pending_delivery_count > 0;
            let taskless = agent.current_task_id is None && agent.state != AgentSessionState::Idle;
            let idle = agent.current_task_id is Some && agent.state == AgentSessionState::Idle;
            let contract = agent.prompt_path is Some && !a.prompt_is_file;
            let lost = agent.current_session_id is Some && current_session(sessions, agent) is None;
            &&& told.len() == one_if(unready) + one_if(unlinked) + one_if(pending) + one_if(
                taskless,
            ) + one_if(idle) + one_if(contract) + one_if(lost)
            &&& unready ==> told.contains(
                agent.name + " bootstrap="@ + lower(agent.bootstrap_state.shown()),
            )
            &&& unlinked ==> told.contains(agent.name + " missing_runtime_link"@)
            &&& pending ==> told.contains(
                agent.name + " bridge_pending="@ + decimal(
                    agent.bridge_pending_delivery_count as nat,
                ),
            )
            &&& taskless ==> told.contains(
                agent.name + " state="@ + lower(agent.state.shown()) + " without current_task"@,
            )
            &&& idle ==> told.contains(agent.name + " idle_with_current_task"@)
            &&& contract ==> told.contains(
                agent.name + " prompt_contract_missing="@ + agent.prompt_path->Some_0,
            )
            &&& lost ==> told.contains(
                agent.name + " current_session_missing="@ + agent.current_session_id->Some_0,
            )
        }),
{
    let told = agent_issues(a, sessions);
    let agent = a.agent;
    let n1 = one_if(agent.bootstrap_state != AgentBootstrapState::Ready);
    let n2 = n1 + one_if(transport(agent, sessions) == "none"@);
    let n3 = n2 + one_if(agent.bridge_pending_delivery_count > 0);
    let n4 = n3 + one_if(agent.current_task_id is None && agent.state != AgentSessionState::Idle);
    let n5 = n4 + one_if(agent.current_task_id is Some && agent.state == AgentSessionState::Idle);
    let n6 = n5 + one_if(agent.prompt_path is Some && !a.prompt_is_file);
    if agent.bootstrap_state != AgentBootstrapState::Ready {
        assert(told[0] == agent.name + " bootstrap="@ + lower(agent.bootstrap_state.shown()));
    }
    if transport(agent, sessions) == "none"@ {
        assert(told[n1 as int] == agent.name + " missing_runtime_link"@);
    }
    if agent.bridge_pending_delivery_count > 0 {
        assert(told[n2 as int] == agent.name + " bridge_pending="@ + decimal(
            agent.bridge_pending_delivery_count as nat,
        ));
    }
    if agent.current_task_id is None && agent.state != AgentSessionState::Idle {
        assert(told[n3 as int] == agent.name + " state="@ + lower(agent.state.shown())
            + " without current_task"@);
    }
    if agent.current_task_id is Some && agent.state == AgentSessionState::Idle {
        assert(told[n4 as int] == agent.name + " idle_with_current_task"@);
    }
    if agent.prompt_path is Some && !a.prompt_is_file {
        assert(told[n5 as int] == agent.name + " prompt_contract_missing="@
            + agent.prompt_path->Some_0);
    }
    if agent.current_session_id is Some && current_session(sessions, agent) is None {
        assert(told[n6 as int] == agent.name + " current_session_missing="@
            + agent.current_session_id->Some_0);
    }
}

/// A column is as wide as it is meant to be, or as its text where that is wider, and begins
/// with its text.
pub proof fn column_begins_with_its_text(s: Seq<char>, width: nat)
    ensures
        padded(s, width).len() == if s.len() < width {
            width
        } else {
            s.len()
        },
        padded(s, width).take(s.len() as int) == s,
        forall|i: int| s.len() <= i < padded(s, width).len()
            ==> #[trigger] padded(s, width)[i] == ' ',
{
    assert(padded(s, width).take(s.len() as int) =~= s);
}

/// One more agent is counted where it is ready, and where its bridge is connected.
pub proof fn agents_are_counted(agents: Seq<OverviewModel>, a: OverviewModel)
    ensures
        count_ready(Seq::empty()) == 0,
        count_connected(Seq::empty()) == 0,
        count_ready(agents.push(a)) == count_ready(agents) + one_if(
            a.agent.bootstrap_state == AgentBootstrapState::Ready,
        ),
        count_connected(agents.push(a)) == count_connected(agents) + one_if(
            a.agent.bridge_state == BridgeConnectionState::Connected,
        ),
{
    assert(agents.push(a).drop_last() =~= agents);
}

/// One more task is listed where it is not over, on a line of its own that tells its number,
/// who asked for it, who does it, its state and its title.
pub proof fn open_tasks_are_listed(tasks: Seq<TaskModel>, t: TaskModel)
    ensures
        open_task_lines(Seq::empty()).len() == 0,
        t.state == TaskState::Closed || t.state == TaskState::Cancelled || t.state
            == TaskState::Failed ==> open_task_lines(tasks.push(t)) == open_task_lines(tasks),
        t.state != TaskState::Closed && t.state != TaskState::Cancelled && t.state
            != TaskState::Failed ==> open_task_lines(tasks.push(t)) == open_task_lines(tasks).push(
            padded(t.task_id, 26) + " "@ + padded(t.from_agent, 20) + " "@ + padded(t.to_agent, 20)
                + " "@ + padded(lower(t.state.shown()), 24) + " "@ + t.title,
        ),
{
    assert(tasks.push(t).drop_last() =~= tasks);
}

/// The overview has a line for every agent, with its role, its state, its bootstrap, how it
/// is reached, its task and session and its context.
pub proof fn agent_is_shown_on_a_line(a: OverviewModel, sessions: Seq<SessionModel>)
    ensures
        ({
            let agent = a.agent;
            let task = match agent.current_task_id {
                Some(id) => id,
                None => "-"@,
            };
            let session = match agent.current_session_id {
                Some(id) => id,
                None => "-"@,
            };
            agent_shown(a, sessions) == padded(agent.name, 24) + " "@ + padded(
                lower(agent.role.shown()),
                6,
            ) + " "@ + padded(lower(agent.state.shown()), 10) + " "@ + padded(
                lower(agent.bootstrap_state.shown()),
                12,
            ) + " "@ + padded(transport(agent, sessions), 18) + " "@ + padded(
                task + " / "@ + session,
                26,
            ) + " "@ + context_badge(a)
        }),
{
}

/// The overview tells how many agents there are, how many are ready and connected and how
/// many tasks are open; then every agent in order, everything that is out of order, and every
/// open task.
pub proof fn overview_tells_all(
    agents: Seq<OverviewModel>,
    tasks: Seq<TaskModel>,
    sessions: Seq<SessionModel>,
    moment: Seq<char>,
)
    ensures
        ({
            let lines = overview(agents, tasks, sessions, moment);
            let sorted = ranked(agents);
            let issues = all_issues(sorted, sessions);
            let open = open_task_lines(tasks);
            let n = agents.len() as int;
            &&& lines[0] == "Overview at "@ + moment
            &&& lines[1] == "Agents total="@ + decimal(agents.len()) + " ready="@ + decimal(
                count_ready(sorted),
            ) + " bridge_connected="@ + decimal(count_connected(sorted)) + " open_tasks="@
                + decimal(open.len())
            &&& forall|i: int|
                0 <= i < n ==> #[trigger] lines[5 + i] == agent_shown(sorted[i], sessions)
            &&& lines[6 + n] == "Issues "@ + decimal(issues.len())
            &&& issues.len() == 0 ==> lines[7 + n] == "  none"@
            &&& forall|i: int|
                0 <= i < issues.len() ==> #[trigger] lines[7 + n + i] == "  - "@ + issues[i]
            &&& open.len() > 0 ==> lines.len() >= open.len() && lines.skip(
                lines.len() - open.len(),
            ) == open
            &&& open.len() == 0 && issues.len() > 0 ==> lines.len() == 7 + n + issues.len()
            &&& open.len() == 0 && issues.len() == 0 ==> lines.len() == 8 + n
        }),
{
    ranked_is_in_order(agents);
    let lines = overview(agents, tasks, sessions, moment);
    let open = open_task_lines(tasks);
    if open.len() > 0 {
        assert(lines.skip(lines.len() - open.len()) =~= open);
    }
}

/// What is out of order with the agents is told agent by agent.
pub proof fn issues_are_told_in_order(
    agents: Seq<OverviewModel>,
    a: OverviewModel,
    sessions: Seq<SessionModel>,
)
    ensures
        all_issues(Seq::empty(), sessions).len() == 0,
        all_issues(agents.push(a), sessions) == all_issues(agents, sessions) + agent_issues(
            a,
            sessions,
        ),
{
    assert(agents.push(a).drop_last() =~= agents);
}

/// An entry of the ledger is shown with its time, its type, what it is about and its summary;
/// who did it, which agent, task and session it is about and why, as far as that is known;
/// and its payload, where there is more in it than an empty object.
pub proof fn entry_is_shown(event: RuntimeEventModel)
    ensures
        ({
            let lines = event_lines(event);
            let meta = event_meta(event);
            &&& lines[0] == "["@ + rfc3339(event.created_at) + "] "@ + event.event_type + " "@
                + event.scope + "/"@ + event.scope_id + " "@ + event.summary
            &&& lines.last().len() == 0
            &&& meta.len() == one_if(event.actor_name is Some) + one_if(event.agent_name is Some)
                + one_if(event.task_id is Some) + one_if(event.session_id is Some) + one_if(
                event.reason is Some,
            )
            &&& event.actor_name matches Some(s) ==> meta.contains("actor="@ + s)
            &&& event.agent_name matches Some(s) ==> meta.contains("agent="@ + s)
            &&& event.task_id matches Some(s) ==> meta.contains("task="@ + s)
            &&& event.session_id matches Some(s) ==> meta.contains("session="@ + s)
            &&& event.reason matches Some(s) ==> meta.contains("reason="@ + s)
            &&& meta.len() > 0 ==> lines[1] == "  "@ + joined(meta, " | "@)
            &&& (event.payload_json is Some && trimmed(event.payload_json->Some_0).len() > 0
                && trimmed(event.payload_json->Some_0) != "{}"@) ==> lines.contains(
                "  payload="@ + trimmed(event.payload_json->Some_0),
            ) && lines.len() == 3 + one_if(meta.len() > 0)
            &&& event.payload_json is None ==> lines.len() == 2 + one_if(meta.len() > 0)
        }),
{
    reveal_strlit("");
    let lines = event_lines(event);
    let meta = event_meta(event);
    let n1 = one_if(event.actor_name is Some);
    let n2 = n1 + one_if(event.agent_name is Some);
    let n3 = n2 + one_if(event.task_id is Some);
    let n4 = n3 + one_if(event.session_id is Some);
    if let Some(s) = event.actor_name {
        assert(meta[0] == "actor="@ + s);
    }
    if let Some(s) = event.agent_name {
        assert(meta[n1 as int] == "agent="@ + s);
    }
    if let Some(s) = event.task_id {
        assert(meta[n2 as int] == "task="@ + s);
    }
    if let Some(s) = event.session_id {
        assert(meta[n3 as int] == "session="@ + s);
    }
    if let Some(s) = event.reason {
        assert(meta[n4 as int] == "reason="@ + s);
    }
    if event.payload_json is Some && trimmed(event.payload_json->Some_0).len() > 0 && trimmed(
        event.payload_json->Some_0,
    ) != "{}"@ {
        assert(lines[lines.len() - 2] == "  payload="@ + trimmed(event.payload_json->Some_0));
    }
}

/// A trace tells what it was asked by and how many entries it has, and then every entry in
/// its order.
pub proof fn trace_shows_every_entry(trace: TraceModel, events: Seq<RuntimeEventModel>, e: RuntimeEventModel)
    ensures
        trace_lines(trace)[0] == "Trace "@ + trace.query_kind + "="@ + trace.query_value
            + " events="@ + decimal(trace.event_count as nat),
        trace_lines(trace).skip(2) == all_event_lines(trace.events),
        all_event_lines(Seq::empty()).len() == 0,
        all_event_lines(events.push(e)) == all_event_lines(events) + event_lines(e),
{
    assert(trace_lines(trace).skip(2) =~= all_event_lines(trace.events));
    assert(events.push(e).drop_last() =~= events);
}

/// The client waits longest for a bootstrap, half a minute longer than that may take; a
/// minute and a half for a round; twenty seconds for what stops or cleans up much; and four
/// seconds for anything else.
pub proof fn client_waits_long_enough(request: ControlRequest, bootstrap: u64)
    ensures
        request is EnsureManagedSession && bootstrap <= u64::MAX - 30 ==> seconds_for(
            request,
            bootstrap,
        ) == bootstrap + 30,
        request is RunAgentRound || request is RunTaskRound ==> seconds_for(request, bootstrap)
            == 90,
        request is StopManagedSessions || request is StopVisiblePanes || request is CleanupDemoData
            || request is RepairRuntimeState ==> seconds_for(request, bootstrap) == 20,
        request is Ping || request is Snapshot || request is CreateTask || request is SendDecision
            || request is ReportTask || request is TouchAgent || request is Trace || request
            is CancelTask || request is RetryTask || request is ResolveTask || request
            is RegisterAgent || request is RemoveAgent || request is StopAgentSession
                ==> seconds_for(
            request,
            bootstrap,
        ) == 4,
{
}

/// A payload is given as a text or as a file, and is handed on as it was given; a trace is
/// asked for by exactly one thing.
pub proof fn choices_are_checked(
    json: Option<Seq<char>>,
    file: Option<Seq<char>>,
    agent: bool,
    task: bool,
    session: bool,
)
    ensures
        payload_source(json, file) is Err <==> json is Some && file is Some,
        payload_source(json, file) matches Ok(given) ==> given.0 == json && given.1 == file,
        one_selected(agent, task, session) <==> one_if(agent) + one_if(task) + one_if(session) == 1,
{
}

/// The event is about the agent that is watched.
pub open spec fn is_about(event: DashboardModel, watched: Seq<char>) -> bool {
    match event {
        DashboardModel::Snapshot { snapshot } => true,
        DashboardModel::AgentStateChanged { agent } => agent.name == watched,
        DashboardModel::TaskEvent { task, event_type } => task.to_agent == watched
            || task.from_agent == watched,
        DashboardModel::DecisionEvent { decision, event_type } => decision.target_agent == watched
            || decision.issued_by == watched,
        DashboardModel::SessionEvent { session, event_type } => session.agent_name == watched,
        DashboardModel::RuntimeEvent { event } => event.agent_name == Some(watched)
            || event.actor_name == Some(watched),
        DashboardModel::StreamChunk { event } => event.agent == watched,
    }
}

/// The view of an agent shows every event that is about it and nothing of any other; of its
/// output it shows what is asked for, and no JSON.
pub proof fn view_shows_its_agent_alone(
    event: DashboardModel,
    watched: Seq<char>,
    limit: nat,
    show_streams: bool,
)
    ensures
        ({
            let lines = shown_lines(event, watched, limit, show_streams);
            &&& !is_about(event, watched) ==> lines.len() == 0
            &&& is_about(event, watched) && !(event is StreamChunk) ==> lines.len() > 0
            &&& event is StreamChunk && !show_streams ==> lines.len() == 0
            &&& event matches DashboardModel::StreamChunk { event: e } ==> (lines.len() > 0 ==> (
            trimmed(e.content).len() == 0 || (trimmed(e.content)[0] != '{' && trimmed(e.content)[0]
                != '[')))
            &&& event matches DashboardModel::StreamChunk { event: e } ==> (show_streams && e.agent
                == watched && (trimmed(e.content).len() == 0 || (trimmed(e.content)[0] != '{'
                && trimmed(e.content)[0] != '[')) ==> lines.len() == 1 && lines[0].1 == "["@
                + e.stream + "] "@ + shortened(e.content, 160))
        }),
{
    reveal_strlit("{");
    reveal_strlit("[");
    if let DashboardModel::StreamChunk { event: e } = event {
        let t = trimmed(e.content);
        if t.len() > 0 {
            assert(t.take(1)[0] == t[0]);
            assert("{"@[0] == '{');
            assert("["@[0] == '[');
            if t[0] == '{' {
                assert(t.take(1) =~= "{"@);
            }
            if t[0] == '[' {
                assert(t.take(1) =~= "["@);
            }
            if t.take(1) == "{"@ {
                assert(t[0] == '{');
            }
            if t.take(1) == "["@ {
                assert(t[0] == '[');
            }
        }
    }
}

/// A task's event is shown with its type, the task's number, its state and its title, and
/// below it what was reported and what was decided last, as far as that is known; a
/// decision's with its task and its words; a session's with its number, its mode and its
/// status; an entry's with its type and its summary.
pub proof fn event_is_shown_with_its_facts(
    task: TaskModel,
    decision: DecisionModel,
    session: SessionModel,
    entry: RuntimeEventModel,
    event_type: Seq<char>,
    watched: Seq<char>,
    limit: nat,
    show_streams: bool,
)
    ensures
        ({
            let event = DashboardModel::TaskEvent { task, event_type };
            let lines = shown_lines(event, watched, limit, show_streams);
            is_about(event, watched) ==> {
                &&& lines[0].1 == event_type + " | "@ + task.task_id + " | "@
                    + crate::watch::task_state_name(task.state) + " | "@ + shortened(task.title, 80)
                &&& lines.len() == 1 + one_if(task.latest_child_summary is Some) + one_if(
                    task.latest_decision_summary is Some,
                )
                &&& task.latest_child_summary matches Some(s) ==> lines[1].1 == "子反馈: "@
                    + shortened(s, 120)
                &&& task.latest_decision_summary matches Some(s) ==> lines.last().1 == "主决策: "@
                    + shortened(s, 120)
            }
        }),
        ({
            let event = DashboardModel::DecisionEvent { decision, event_type };
            let lines = shown_lines(event, watched, limit, show_streams);
            is_about(event, watched) ==> lines.len() == 1 && lines[0].1 == event_type + " | "@
                + decision.task_id + " | "@ + shortened(decision.summary, 120)
        }),
        ({
            let event = DashboardModel::SessionEvent { session, event_type };
            let lines = shown_lines(event, watched, limit, show_streams);
            is_about(event, watched) ==> lines.len() == 1 && lines[0].1 == event_type + " | "@
                + session.session_id + " | "@ + crate::watch::session_mode_name(
                session.session_mode,
            ) + " | "@ + crate::watch::session_status_name(session.status)
        }),
        ({
            let event = DashboardModel::RuntimeEvent { event: entry };
            let lines = shown_lines(event, watched, limit, show_streams);
            is_about(event, watched) ==> lines.len() == 1 && lines[0].1 == entry.event_type
                + " | "@ + shortened(entry.summary, 140)
        }),
{
}

/// An agent's state is shown with its bootstrap, its session, its server and its task.
pub proof fn state_of_an_agent_is_shown(agent: AgentModel, limit: nat, show_streams: bool)
    ensures
        ({
            let lines = shown_lines(
                DashboardModel::AgentStateChanged { agent },
                agent.name,
                limit,
                show_streams,
            );
            let session = match agent.current_session_id {
                Some(s) => "在线("@ + s + ")"@,
                None => "无在线轮次会话"@,
            };
            let server = match (agent.app_server_owner, agent.app_server_url) {
                (Some(owner), Some(url)) => crate::watch::app_server_owner_name(owner) + " "@
                    + shortened(url, 52),
                _ => "未绑定"@,
            };
            let task = match agent.current_task_id {
                Some(id) => id,
                None => "无"@,
            };
            lines.len() == 1 && lines[0].1 == crate::watch::agent_state_name(agent.state)
                + " | 初始化="@ + crate::watch::bootstrap_state_name(agent.bootstrap_state)
                + " | 会话状态="@ + session + " | app-server="@ + server + " | 任务="@ + task
        }),
{
}

/// The entry is about the agent, or of its doing.
pub open spec fn entry_is_about(e: RuntimeEventModel, watched: Seq<char>) -> bool {
    e.agent_name == Some(watched) || e.actor_name == Some(watched)
}

/// The entries at these places are the last ones about the agent: they are about it, they
/// come in order, and none that is about it stands behind the first of them and is left out.
pub open spec fn are_last(
    at: Seq<int>,
    events: Seq<RuntimeEventModel>,
    watched: Seq<char>,
    limit: nat,
) -> bool {
    &&& at.len() <= limit
    &&& forall|j: int|
        0 <= j < at.len() ==> 0 <= #[trigger] at[j] < events.len() && entry_is_about(
            events[at[j]],
            watched,
        )
    &&& forall|j: int, k: int| 0 <= j < k < at.len() ==> #[trigger] at[j] < #[trigger] at[k]
    &&& forall|i: int|
        0 <= i < events.len() && entry_is_about(#[trigger] events[i], watched) && (at.len() < limit
            || (at.len() > 0 && at[0] <= i)) ==> at.contains(i)
}

/// The view of an agent begins with the last entries about it, as many as are asked for, the
/// oldest first.
pub proof fn last_entries_are_shown(
    events: Seq<RuntimeEventModel>,
    watched: Seq<char>,
    limit: nat,
) -> (at: Seq<int>)
    ensures
        are_last(at, events, watched, limit),
        last_events(events, watched, limit).len() == at.len(),
        forall|j: int|
            0 <= j < at.len() ==> #[trigger] last_events(events, watched, limit)[j]
                == events[at[j]],
    decreases events.len(),
{
    if events.len() == 0 || limit == 0 {
        Seq::empty()
    } else {
        let head = events.drop_last();
        let n = events.len() - 1;
        if entry_is_about(events.last(), watched) {
            let less = (limit - 1) as nat;
            let before = last_entries_are_shown(head, watched, less);
            let at = before.push(n);
            assert forall|j: int| 0 <= j < at.len() implies 0 <= #[trigger] at[j] < events.len()
                && entry_is_about(events[at[j]], watched) by {
                if j < before.len() {
                    assert(head[before[j]] == events[at[j]]);
                }
            }
            assert forall|i: int|
                0 <= i < events.len() && entry_is_about(#[trigger] events[i], watched) && (at.len()
                    < limit || (at.len() > 0 && at[0] <= i)) implies at.contains(i) by {
                if i == n {
                    assert(at[at.len() - 1] == n);
                } else {
                    assert(head[i] == events[i]);
                    if before.len() > 0 {
                        assert(at[0] == before[0]);
                    } else {
                        assert(at[0] == n);
                    }
                    assert(before.contains(i));
                    let j = before.index_of(i);
                    assert(at[j] == i);
                }
            }
            assert forall|j: int| 0 <= j < at.len() implies #[trigger] last_events(
                events,
                watched,
                limit,
            )[j] == events[at[j]] by {
                if j < before.len() {
                    assert(last_events(head, watched, less)[j] == head[before[j]]);
                }
            }
            at
        } else {
            let at = last_entries_are_shown(head, watched, limit);
            assert forall|j: int| 0 <= j < at.len() implies 0 <= #[trigger] at[j] < events.len()
                && entry_is_about(events[at[j]], watched) by {
                assert(head[at[j]] == events[at[j]]);
            }
            assert forall|i: int|
                0 <= i < events.len() && entry_is_about(#[trigger] events[i], watched) && (at.len()
                    < limit || (at.len() > 0 && at[0] <= i)) implies at.contains(i) by {
                if i < n {
                    assert(head[i] == events[i]);
                }
            }
            assert forall|j: int| 0 <= j < at.len() implies #[trigger] last_events(
                events,
                watched,
                limit,
            )[j] == events[at[j]] by {
                assert(last_events(head, watched, limit)[j] == head[at[j]]);
            }
            at
        }
    }
}

} // verus!
