//! What an agent's own record and its sessions say after an operation, and what it leaves
//! of them.

use vstd::prelude::*;

use crate::agents::{fresh_agent, owner_named, pane_kind_named, role_named};
use crate::draft::{ad_hoc_check, agent_state_for, new_task_check, task_round_check, terminal};
use crate::models::{
    AgentBootstrapState, AgentModel, AgentRole, AgentSessionState, AppServerOwner,
    BridgeConnectionState, SourceModel, TaskState, VisiblePaneKind,
};
use crate::promises::{found_after_put, found_has_its_key};
use crate::record::{blank, is_core_of, lemma_blank, trimming_keeps_the_core};
use crate::state::World;
use crate::table::found;
use crate::text::{lower, trimmed};
use crate::time::Timestamp;

verus! {

/// The state in which a task in the given state keeps its agent: at work until the round
/// is over, blocked until the main agent has decided, and free once the task has ended.
pub open spec fn keeps_agent(task: TaskState, agent: AgentSessionState) -> bool {
    match task {
        TaskState::Pending => agent == AgentSessionState::Busy,
        TaskState::Accepted => agent == AgentSessionState::Busy,
        TaskState::Running => agent == AgentSessionState::Busy,
        TaskState::Completed => agent == AgentSessionState::Busy,
        TaskState::Reported => agent == AgentSessionState::Blocked,
        TaskState::BlockedWaitingDecision => agent == AgentSessionState::Blocked,
        TaskState::Analyzed => agent == AgentSessionState::Blocked,
        TaskState::DecisionSent => agent == AgentSessionState::Blocked,
        TaskState::Closed => agent == AgentSessionState::Idle,
        TaskState::Cancelled => agent == AgentSessionState::Idle,
        TaskState::Failed => agent == AgentSessionState::Idle,
    }
}

/// A task is over exactly where it sets its agent free.
pub proof fn ended_task_frees_its_agent(state: TaskState)
    ensures
        keeps_agent(state, agent_state_for(state)),
        terminal(state) <==> agent_state_for(state) == AgentSessionState::Idle,
        terminal(state) <==> (state == TaskState::Closed || state == TaskState::Cancelled || state
            == TaskState::Failed),
{
}

/// An agent takes a new task exactly when it is ready, idle, and has neither a task nor a
/// session; the same goes for a round outside of tasks. For a round of a task it is ready,
/// busy with that very task, and without a session.
pub proof fn agent_is_ready_for_work(a: AgentModel, task_id: Seq<char>)
    ensures
        new_task_check(a) is Ok <==> {
            &&& a.bootstrap_state == AgentBootstrapState::Ready
            &&& a.state == AgentSessionState::Idle
            &&& a.current_task_id is None
            &&& a.current_session_id is None
        },
        ad_hoc_check(a) is Ok <==> new_task_check(a) is Ok,
        task_round_check(a, task_id) is Ok <==> {
            &&& a.bootstrap_state == AgentBootstrapState::Ready
            &&& a.state == AgentSessionState::Busy
            &&& a.current_task_id == Some(task_id)
            &&& a.current_session_id is None
        },
{
}

/// The one agent's record is the given one, and no other agent's has changed.
pub open spec fn only_changes(before: World, after: World, name: Seq<char>, a: AgentModel) -> bool {
    &&& after.agent(name) == Some(a)
    &&& forall|n: Seq<char>| n != name ==> #[trigger] after.agent(n) == before.agent(n)
    &&& after.tasks == before.tasks
    &&& after.decisions == before.decisions
    &&& after.sessions == before.sessions
}

/// An agent that is registered is kept under its name with its role, its repository, its
/// directory and its contract; it is idle, waits for its bootstrap, and has neither a task
/// nor a session nor a thread.
pub proof fn registered_agent_is_kept(
    w: World,
    name: Seq<char>,
    role: AgentRole,
    repo_name: Option<Seq<char>>,
    cwd: Seq<char>,
    prompt_path: Option<Seq<char>>,
    now: Timestamp,
)
    ensures
        ({
            let after = w.register_agent(
                fresh_agent(name, role, repo_name, cwd, prompt_path, now),
            );
            &&& after.agent(name) matches Some(a) && only_changes(w, after, name, a) && a.name
                == name && a.role == role && a.repo_name == repo_name && a.cwd == cwd
                && a.prompt_path == prompt_path && a.state == AgentSessionState::Idle
                && a.bootstrap_state == AgentBootstrapState::AwaitingInit && a.bootstrap_summary
                is None && a.bootstrap_completed_at is None && a.current_task_id is None
                && a.current_session_id is None && a.thread_id is None && a.app_server_url is None
                && a.app_server_owner is None && a.visible_pane_pid is None && a.visible_pane_kind
                is None && a.bridge_state == BridgeConnectionState::Disconnected
                && a.bridge_session_id is None && a.last_output_at is None && a.last_heartbeat_at
                == Some(now)
            &&& found(after.bridge_queues, name) is Some
            &&& found(w.bridge_queues, name) is Some ==> found(after.bridge_queues, name) == found(
                w.bridge_queues,
                name,
            )
            &&& found(w.bridge_queues, name) is None ==> after.pending_deliveries(name).len() == 0
            &&& forall|n: Seq<char>|
                n != name ==> #[trigger] found(after.bridge_queues, n) == found(
                    w.bridge_queues,
                    n,
                )
        }),
{
    broadcast use {found_after_put, found_has_its_key};

}

/// A sign of life is noted and changes nothing else about an agent that is not offline; one
/// that was offline is busy where a session is on it, goes by the state of its task where
/// it has one, and is idle otherwise.
pub proof fn sign_of_life_is_noted(w: World, name: Seq<char>, now: Timestamp)
    ensures
        ({
            let r = w.touch_agent(name, now);
            &&& r.1 is Ok <==> w.agent(name) is Some
            &&& r.1 is Err ==> r.0 == w
            &&& r.1 matches Ok(a) ==> {
                let old = w.agent(name)->Some_0;
                &&& only_changes(w, r.0, name, a)
                &&& a == AgentModel { last_heartbeat_at: Some(now), state: a.state, ..old }
                &&& old.state != AgentSessionState::Offline ==> a.state == old.state
                &&& old.state == AgentSessionState::Offline && old.current_session_id is Some
                    ==> a.state == AgentSessionState::Busy
                &&& old.state == AgentSessionState::Offline && old.current_session_id is None
                    && old.current_task_id is None ==> a.state == AgentSessionState::Idle
                &&& old.state == AgentSessionState::Offline && old.current_session_id is None
                    && old.current_task_id is Some && w.task(old.current_task_id->Some_0) is Some
                    ==> keeps_agent(w.task(old.current_task_id->Some_0)->Some_0.state, a.state)
                &&& old.state == AgentSessionState::Offline && old.current_session_id is None
                    && old.current_task_id is Some && w.task(old.current_task_id->Some_0) is None
                    ==> a.state == AgentSessionState::Idle
            }
        }),
{
    broadcast use {found_after_put, found_has_its_key};

}

/// A bootstrap that begins forgets the last one, the thread and the app server, and
/// nothing else; one that is over is noted with its summary and, where one is given, its
/// thread, and the agent is ready.
pub proof fn bootstrap_is_kept(
    w: World,
    name: Seq<char>,
    summary: Option<Seq<char>>,
    thread_id: Option<Seq<char>>,
    now: Timestamp,
)
    ensures
        w.begin_bootstrap(name, now).1 is Ok <==> w.agent(name) is Some,
        w.begin_bootstrap(name, now) matches (after, Ok(a)) ==> {
            let old = w.agent(name)->Some_0;
            &&& only_changes(w, after, name, a)
            &&& a.bootstrap_state == AgentBootstrapState::AwaitingInit
            &&& a.bootstrap_summary is None && a.bootstrap_completed_at is None
            &&& a.thread_id is None
            &&& a.app_server_url is None && a.app_server_owner is None
                && a.app_server_registered_at is None
            &&& a.last_heartbeat_at == Some(now)
            &&& same_but_for_bootstrap(old, a)
        },
        w.mark_ready(name, summary, thread_id, now).1 is Ok <==> w.agent(name) is Some,
        w.mark_ready(name, summary, thread_id, now) matches (after, Ok(a)) ==> {
            let old = w.agent(name)->Some_0;
            &&& only_changes(w, after, name, a)
            &&& a.bootstrap_state == AgentBootstrapState::Ready
            &&& core_where_any(a.bootstrap_summary, summary)
            &&& a.bootstrap_completed_at == Some(now)
            &&& a.last_heartbeat_at == Some(now)
            &&& (thread_id is None || blank(thread_id->Some_0)) ==> a.thread_id == old.thread_id
            &&& (thread_id is Some && !blank(thread_id->Some_0)) ==> core_where_any(
                a.thread_id,
                thread_id,
            )
            &&& a.app_server_url == old.app_server_url && a.app_server_owner
                == old.app_server_owner && a.app_server_registered_at
                == old.app_server_registered_at
            &&& same_but_for_bootstrap(old, a)
        },
{
    broadcast use {found_after_put, found_has_its_key};

    if let Some(s) = summary {
        trimming_keeps_the_core(s);
        lemma_blank(s);
    }
    if let Some(s) = thread_id {
        trimming_keeps_the_core(s);
        lemma_blank(s);
    }
}

/// What is kept of a text that may be missing: its core, and nothing where it is blank.
pub open spec fn core_where_any(kept: Option<Seq<char>>, given: Option<Seq<char>>) -> bool {
    match (given, kept) {
        (None, k) => k is None,
        (Some(s), None) => blank(s),
        (Some(s), Some(k)) => is_core_of(k, s) && k.len() > 0,
    }
}

/// Whose agent it is, what it works on and how it is reached are the same.
pub open spec fn same_but_for_bootstrap(a: AgentModel, b: AgentModel) -> bool {
    &&& a.name == b.name && a.role == b.role && a.repo_name == b.repo_name && a.cwd == b.cwd
    &&& a.prompt_path == b.prompt_path
    &&& a.visible_pane_pid == b.visible_pane_pid && a.visible_pane_kind == b.visible_pane_kind
        && a.visible_pane_registered_at == b.visible_pane_registered_at
    &&& a.state == b.state
    &&& a.current_task_id == b.current_task_id && a.current_session_id == b.current_session_id
    &&& a.last_output_at == b.last_output_at
    &&& a.bridge_state == b.bridge_state && a.bridge_mode == b.bridge_mode && a.bridge_session_id
        == b.bridge_session_id && a.bridge_connected_at == b.bridge_connected_at
        && a.bridge_last_seen_at == b.bridge_last_seen_at && a.bridge_last_delivery_id
        == b.bridge_last_delivery_id && a.bridge_last_ack_delivery_id
        == b.bridge_last_ack_delivery_id && a.bridge_pending_delivery_count
        == b.bridge_pending_delivery_count
}

/// A window is registered with its process and its kind, now, and is forgotten where no
/// process is given; a process without a kind is refused. Nothing else changes.
pub proof fn window_is_kept(
    w: World,
    name: Seq<char>,
    pid: Option<u32>,
    kind: Option<VisiblePaneKind>,
    now: Timestamp,
)
    ensures
        ({
            let r = w.set_visible_pane(name, pid, kind, now);
            &&& r.1 is Ok <==> w.agent(name) is Some && (pid is None || kind is Some)
            &&& r.1 is Err ==> r.0 == w
            &&& r.1 matches Ok(a) ==> {
                &&& only_changes(w, r.0, name, a)
                &&& a.visible_pane_pid == pid
                &&& pid is Some ==> a.visible_pane_kind == kind && a.visible_pane_registered_at
                    == Some(now)
                &&& pid is None ==> a.visible_pane_kind is None && a.visible_pane_registered_at
                    is None
                &&& a == AgentModel {
                    visible_pane_pid: a.visible_pane_pid,
                    visible_pane_kind: a.visible_pane_kind,
                    visible_pane_registered_at: a.visible_pane_registered_at,
                    last_heartbeat_at: Some(now),
                    ..w.agent(name)->Some_0
                }
            }
        }),
{
    broadcast use {found_after_put, found_has_its_key};

}

/// An app server is registered under its address, now, with the owner that is named, else
/// with the bridge where one is connected, else with the daemon; a blank address forgets
/// it. Nothing else changes.
pub proof fn app_server_is_kept(
    w: World,
    name: Seq<char>,
    url: Option<Seq<char>>,
    owner: Option<AppServerOwner>,
    now: Timestamp,
)
    ensures
        ({
            let r = w.set_app_server(name, url, owner, now);
            &&& r.1 is Ok <==> w.agent(name) is Some
            &&& r.1 is Err ==> r.0 == w
            &&& r.1 matches Ok(a) ==> {
                let old = w.agent(name)->Some_0;
                let given = url is Some && !blank(url->Some_0);
                &&& only_changes(w, r.0, name, a)
                &&& core_where_any(a.app_server_url, url)
                &&& given && owner is Some ==> a.app_server_owner == owner
                &&& given && owner is None && old.bridge_state == BridgeConnectionState::Connected
                    ==> a.app_server_owner == Some(AppServerOwner::Bridge)
                &&& given && owner is None && old.bridge_state != BridgeConnectionState::Connected
                    ==> a.app_server_owner == Some(AppServerOwner::Daemon)
                &&& given ==> a.app_server_registered_at == Some(now)
                &&& !given ==> a.app_server_owner is None && a.app_server_registered_at is None
                &&& a == AgentModel {
                    app_server_url: a.app_server_url,
                    app_server_owner: a.app_server_owner,
                    app_server_registered_at: a.app_server_registered_at,
                    last_heartbeat_at: Some(now),
                    ..old
                }
            }
        }),
{
    broadcast use {found_after_put, found_has_its_key};

    if let Some(s) = url {
        trimming_keeps_the_core(s);
        lemma_blank(s);
    }
}

/// An agent is recovered exactly when it is blocked and at rest, and is idle then; its
/// thread is reset exactly when it is at rest, and is forgotten then. Nothing else changes.
pub proof fn agent_at_rest_is_recovered_and_reset(w: World, name: Seq<char>, now: Timestamp)
    ensures
        ({
            let at_rest = w.agent(name) is Some && w.agent(name)->Some_0.current_task_id is None
                && w.agent(name)->Some_0.current_session_id is None;
            let old = w.agent(name)->Some_0;
            &&& w.recover_agent(name, now).1 is Ok <==> at_rest && old.state
                == AgentSessionState::Blocked
            &&& w.recover_agent(name, now).1 is Err ==> w.recover_agent(name, now).0 == w
            &&& w.recover_agent(name, now) matches (after, Ok(a)) ==> only_changes(
                w,
                after,
                name,
                a,
            ) && a == (AgentModel {
                state: AgentSessionState::Idle,
                last_heartbeat_at: Some(now),
                ..old
            })
            &&& w.reset_thread(name, now).1 is Ok <==> at_rest
            &&& w.reset_thread(name, now).1 is Err ==> w.reset_thread(name, now).0 == w
            &&& w.reset_thread(name, now) matches (after, Ok(a)) ==> only_changes(w, after, name, a)
                && a == (AgentModel { thread_id: None, last_heartbeat_at: Some(now), ..old })
        }),
{
    broadcast use {found_after_put, found_has_its_key};

}

/// An agent whose app server is gone has to be started anew: it is not ready, has no
/// thread and no server; with a task it is blocked, and without one it is idle unless a
/// session is still on it.
pub proof fn lost_app_server_is_forgotten(
    w: World,
    name: Seq<char>,
    reason: Seq<char>,
    now: Timestamp,
)
    ensures
        ({
            let r = w.reset_app_server(name, reason, now);
            &&& r.1 is Ok <==> w.agent(name) is Some
            &&& r.1 is Err ==> r.0 == w
            &&& r.1 matches Ok(a) ==> {
                let old = w.agent(name)->Some_0;
                &&& only_changes(w, r.0, name, a)
                &&& a.bootstrap_state == AgentBootstrapState::AwaitingInit
                &&& a.bootstrap_summary is None && a.bootstrap_completed_at is None
                &&& a.thread_id is None
                &&& a.app_server_url is None && a.app_server_owner is None
                    && a.app_server_registered_at is None
                &&& old.current_task_id is Some ==> a.state == AgentSessionState::Blocked
                &&& old.current_task_id is None && old.current_session_id is None ==> a.state
                    == AgentSessionState::Idle
                &&& old.current_task_id is None && old.current_session_id is Some ==> a.state
                    == old.state
                &&& same_but_for_bootstrap(AgentModel { state: a.state, ..old }, a)
                &&& a.last_heartbeat_at == Some(now)
            }
        }),
{
    broadcast use {found_after_put, found_has_its_key};

}

/// What is told of an agent is its own record, the task and the session that it names, and
/// the newest decision on that task.
pub proof fn agent_is_shown_with_its_task(
    w: World,
    name: Seq<char>,
    sources: Seq<SourceModel>,
)
    ensures
        ({
            let r = w.agent_context(name, sources);
            &&& r is Ok <==> w.agent(name) is Some
            &&& r matches Ok(c) ==> {
                &&& Some(c.agent) == w.agent(name)
                &&& c.context_sources == sources
                &&& c.agent.current_task_id is None ==> c.current_task is None
                    && c.latest_decision is None
                &&& c.agent.current_task_id matches Some(id) ==> c.current_task == w.task(id)
                &&& c.agent.current_session_id is None ==> c.current_session is None
                &&& c.agent.current_session_id matches Some(id) ==> c.current_session
                    == w.session(id)
                &&& c.current_task is None ==> c.latest_decision is None
                &&& c.current_task matches Some(t) ==> is_newest_on(
                    w,
                    c.latest_decision,
                    t.task_id,
                )
            }
        }),
{
    if let Some(a) = w.agent(name) {
        if let Some(id) = a.current_task_id {
            if let Some(t) = w.task(id) {
                lemma_newest_on(w, t.task_id);
            }
        }
    }
}

/// The decision is on the task, and none on the task is newer; there is none only where
/// there is none on the task.
pub open spec fn is_newest_on(
    w: World,
    d: Option<crate::models::DecisionModel>,
    task_id: Seq<char>,
) -> bool {
    match d {
        Some(d) => w.decisions.contains(d) && d.task_id == task_id && forall|i: int|
            0 <= i < w.decisions.len() && (#[trigger] w.decisions[i]).task_id == task_id
                ==> !d.created_at.before(w.decisions[i].created_at),
        None => forall|i: int|
            0 <= i < w.decisions.len() ==> (#[trigger] w.decisions[i]).task_id != task_id,
    }
}

pub proof fn lemma_newest_on(w: World, task_id: Seq<char>)
    ensures
        is_newest_on(w, crate::decision::latest_decision(w.decisions, task_id), task_id),
{
    crate::decision::newest_decision_is_newest(w.decisions, task_id, None, false);
    match crate::decision::latest_decision(w.decisions, task_id) {
        Some(d) => {
            assert forall|i: int|
                0 <= i < w.decisions.len() && (#[trigger] w.decisions[i]).task_id
                    == task_id implies !d.created_at.before(w.decisions[i].created_at) by {
                assert(crate::decision::decision_fits(w.decisions[i], task_id, None, false));
            }
        },
        None => {
            assert forall|i: int| 0 <= i < w.decisions.len() implies (
            #[trigger] w.decisions[i]).task_id != task_id by {
                assert(!crate::decision::decision_fits(w.decisions[i], task_id, None, false));
            }
        },
    }
}

/// What is told of a task is its own record, its agent with the session that it names, and
/// the newest decision on the task.
pub proof fn task_is_shown_with_its_agent(
    w: World,
    task_id: Seq<char>,
    sources: Seq<SourceModel>,
)
    ensures
        ({
            let r = w.task_context(task_id, sources);
            &&& r is Ok <==> w.task(task_id) is Some
            &&& r matches Ok(c) ==> {
                &&& Some(c.task) == w.task(task_id)
                &&& c.agent == w.agent(c.task.to_agent)
                &&& is_newest_on(w, c.latest_decision, task_id)
                &&& c.agent is None ==> c.current_session is None && c.context_sources.len() == 0
                &&& c.agent matches Some(a) ==> c.context_sources == sources
                &&& (c.agent is Some && c.agent->Some_0.current_session_id is Some)
                    ==> c.current_session == w.session(c.agent->Some_0.current_session_id->Some_0)
                &&& (c.agent is Some && c.agent->Some_0.current_session_id is None)
                    ==> c.current_session is None
            }
        }),
{
    lemma_newest_on(w, task_id);
}

/// A role, the owner of an app server and the kind of a window are read by their words;
/// of the last two neither capitals nor white space around them count.
pub proof fn words_are_read(s: Seq<char>)
    ensures
        role_named(s) == Ok::<AgentRole, Seq<char>>(AgentRole::Main) <==> s == "main"@,
        role_named(s) == Ok::<AgentRole, Seq<char>>(AgentRole::Child) <==> s == "child"@,
        owner_named(s) == Ok::<AppServerOwner, Seq<char>>(AppServerOwner::Bridge) <==> lower(
            trimmed(s),
        ) == "bridge"@,
        owner_named(s) == Ok::<AppServerOwner, Seq<char>>(AppServerOwner::Daemon) <==> lower(
            trimmed(s),
        ) == "daemon"@,
        pane_kind_named(s) == Ok::<VisiblePaneKind, Seq<char>>(VisiblePaneKind::Shell) <==> lower(
            trimmed(s),
        ) == "shell"@,
        pane_kind_named(s) == Ok::<VisiblePaneKind, Seq<char>>(VisiblePaneKind::View) <==> lower(
            trimmed(s),
        ) == "view"@,
{
    reveal_strlit("main");
    reveal_strlit("child");
    reveal_strlit("bridge");
    reveal_strlit("daemon");
    reveal_strlit("shell");
    reveal_strlit("view");
    assert("bridge"@[0] != "daemon"@[0]);
    assert("main"@.len() != "child"@.len());
    assert("shell"@.len() != "view"@.len());
}

} // verus!
