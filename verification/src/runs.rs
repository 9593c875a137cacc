//! Sessions and rounds: what is kept of one that begins, speaks, ends or breaks down.

use vstd::prelude::*;

use crate::backend::{round_outcome, BackendEvent, BackendFinished, BackendStream};
use crate::json::{read_json, JsonModel};
use crate::listening::{lemma_reads, reads};
use crate::managed::{
    failure_answer, failure_reason, process_reason, process_state, reported_summary,
    BootstrapFailure, ManagedStartModel,
};
use crate::models::{
    AgentBootstrapState, AgentModel, AgentSessionState, AppServerOwner, CodexSessionStatus,
    PayloadModel, RoundModel, SessionMode, SessionModel, StreamModel, TaskRoundStatus,
    TaskState,
};
use crate::control::ResponseModel;
use crate::order::{in_order, ranked, ranked_is_in_order};
use crate::promises::{found_after_put, found_has_its_key, same_task};
use crate::record::{
    blank, ended_round_is_kept, holds_report, is_core_of, is_word_for, lemma_blank,
    other_tasks_stay, same_decision, same_report, step_is_made_where_it_fits,
    trimming_keeps_the_core,
};
use crate::rounds::RoundStartModel;
use crate::sessions::{
    is_stop_message, new_session, stop_report, with_panes, StopModel, VisiblePaneStopOutcome,
};
use crate::standing::only_changes;
use crate::state::{LiveModel, ManagedModel, World};
use crate::table::{distinct, found, lemma_place, lemma_place_is, place, without, Keyed};
use crate::text::{joined, part_at, texts};
use crate::time::Timestamp;
use crate::wording::says;

verus! {

/// A table from which a record was taken no longer has it, where no other record was filed
/// under its key, and still has all others.
pub proof fn taken_out_is_gone<R: Keyed>(s: Seq<R>, k: Seq<char>, other: Seq<char>)
    requires
        distinct(s),
    ensures
        found(without(s, k), k) is None,
        other != k ==> found(without(s, k), other) == found(s, other),
{
    lemma_place(s, k);
    lemma_place(s, other);
    let t = without(s, k);
    let p = place(s, k);
    if p < s.len() {
        assert forall|i: int| 0 <= i < t.len() implies (#[trigger] t[i]).key() != k by {
            if i < p {
                assert(t[i] == s[i]);
            } else {
                assert(t[i] == s[i + 1]);
                assert(s[p].key() != s[i + 1].key());
            }
        }
        lemma_place_is(t, k, t.len() as int);
        if other != k {
            let q = place(s, other);
            let at = if q < p {
                q
            } else {
                q - 1
            };
            assert(q != p);
            assert forall|i: int| 0 <= i < at implies (#[trigger] t[i]).key() != other by {
                if i < p {
                    assert(t[i] == s[i]);
                } else {
                    assert(t[i] == s[i + 1]);
                }
            }
            lemma_place_is(t, other, at);
        }
    }
}

/// The session of a round begins with its agent, its mode, its process and its thread; it
/// runs from now on and has not ended.
pub proof fn new_session_runs(
    session_id: Seq<char>,
    agent: Seq<char>,
    mode: SessionMode,
    pid: Option<u32>,
    thread_id: Option<Seq<char>>,
    now: Timestamp,
)
    ensures
        ({
            let s = new_session(session_id, agent, mode, pid, thread_id, now);
            &&& s.session_id == session_id && s.agent_name == agent && s.session_mode == mode
            &&& s.pid == pid && s.thread_id == thread_id
            &&& s.status == CodexSessionStatus::Running && s.started_at == now
            &&& s.ended_at is None && s.last_output_at is None
        }),
{
}

/// No other session has changed.
pub open spec fn other_sessions_stay(before: World, after: World, id: Seq<char>) -> bool {
    forall|n: Seq<char>| n != id ==> #[trigger] after.session(n) == before.session(n)
}

/// A round that begins has its session kept and made its agent's current one, and the
/// session can be stopped from then on.
pub proof fn begun_session_is_current(w: World, session: SessionModel, now: Timestamp)
    ensures
        ({
            let r = w.start_round_session(session, now);
            let agent = session.agent_name;
            &&& r.1 is Ok <==> w.agent(agent) is Some
            &&& r.0.session(session.session_id) == Some(session)
            &&& other_sessions_stay(w, r.0, session.session_id)
            &&& r.1 is Ok ==> r.0.agent(agent) == Some(
                AgentModel {
                    current_session_id: Some(session.session_id),
                    last_heartbeat_at: Some(now),
                    ..w.agent(agent)->Some_0
                },
            )
            &&& r.1 is Ok ==> found(r.0.active_sessions, session.session_id) == Some(
                LiveModel { session_id: session.session_id, agent_name: agent },
            )
            &&& forall|n: Seq<char>| n != agent ==> #[trigger] r.0.agent(n) == w.agent(n)
        }),
{
    broadcast use {found_after_put, found_has_its_key};

}

/// A session that has ended has the status and the time of its end, and had its last output
/// then, where it had none before; otherwise it is as it was. Its agent loses it as its
/// current one where that is asked for.
pub proof fn ended_session_is_kept(
    w: World,
    session_id: Seq<char>,
    status: CodexSessionStatus,
    ended_at: Timestamp,
    clear_current: bool,
    now: Timestamp,
)
    requires
        w.session(session_id) is Some,
    ensures
        ({
            let r = w.finalize_session(session_id, status, ended_at, clear_current, now);
            let old = w.session(session_id)->Some_0;
            let agent = old.agent_name;
            &&& r.0.session(session_id) matches Some(s) && s == (SessionModel {
                status,
                ended_at: Some(ended_at),
                last_output_at: s.last_output_at,
                ..old
            }) && (old.last_output_at is Some ==> s.last_output_at == old.last_output_at) && (
            old.last_output_at is None ==> s.last_output_at == Some(ended_at))
            &&& other_sessions_stay(w, r.0, session_id)
            &&& !clear_current ==> r.0.agents == w.agents && r.1 is Ok
            &&& clear_current ==> (r.1 is Ok <==> w.agent(agent) is Some)
            &&& clear_current && w.agent(agent) is Some ==> r.0.agent(agent) == Some(
                AgentModel {
                    current_session_id: None,
                    last_heartbeat_at: Some(now),
                    ..w.agent(agent)->Some_0
                },
            )
            &&& forall|n: Seq<char>| n != agent ==> #[trigger] r.0.agent(n) == w.agent(n)
        }),
{
    broadcast use {found_after_put, found_has_its_key};

}

/// A round that has finished ends its session, as succeeded exactly where the process did;
/// its agent has no current session then, the session can no longer be stopped, and the
/// round is answered by what its output said.
pub proof fn finished_session_is_kept(
    w: World,
    session_id: Seq<char>,
    agent: Seq<char>,
    finished: BackendFinished,
    now: Timestamp,
)
    requires
        w.session(session_id) matches Some(s) && s.agent_name == agent,
        w.agent(agent) is Some,
        distinct(w.active_sessions),
    ensures
        ({
            let r = w.finish_round_session(session_id, agent, finished, now);
            &&& r.0.session(session_id) matches Some(s) && s.ended_at == Some(now) && (
            finished.success <==> s.status == CodexSessionStatus::Succeeded) && (!finished.success
                <==> s.status == CodexSessionStatus::Failed) && s.thread_id == w.session(
                session_id,
            )->Some_0.thread_id && s.started_at == w.session(session_id)->Some_0.started_at
            &&& r.0.agent(agent) matches Some(a) && a.current_session_id is None && a.state
                == w.agent(agent)->Some_0.state && a.current_task_id
                == w.agent(agent)->Some_0.current_task_id
            &&& found(r.0.active_sessions, session_id) is None
            &&& forall|n: Seq<char>|
                n != session_id ==> #[trigger] found(r.0.active_sessions, n) == found(
                    w.active_sessions,
                    n,
                )
            &&& r.1 is Ok <==> finished.success && !finished.stopped
                && finished.parsed@.thread_id is Some
            &&& r.1 == round_outcome(
                finished.parsed@,
                texts(finished.stderr_lines@),
                finished.success,
                finished.status_label@,
                finished.stopped,
                agent,
                now,
            )
        }),
{
    broadcast use {found_after_put, found_has_its_key};

    assert forall|n: Seq<char>| n != session_id implies #[trigger] found(
        without(w.active_sessions, session_id),
        n,
    ) == found(w.active_sessions, n) by {
        taken_out_is_gone(w.active_sessions, session_id, n);
    }
    taken_out_is_gone(w.active_sessions, session_id, session_id);
}

/// A line that a session says is kept as the newest of all, with its session, its agent and
/// its stream, and the session had its last output now; a thread that it starts is the
/// session's thread.
pub proof fn what_a_session_says_is_kept(
    w: World,
    session_id: Seq<char>,
    agent: Seq<char>,
    event: BackendEvent,
    now: Timestamp,
)
    ensures
        ({
            let after = w.session_event(session_id, agent, event, now);
            let old = w.session(session_id);
            &&& event matches BackendEvent::Line { stream, line } ==> {
                &&& after.recent_streams.len() > 0
                &&& after.recent_streams.last() == (StreamModel {
                    session_id: Some(session_id),
                    agent,
                    stream: after.recent_streams.last().stream,
                    content: line@,
                    at: now,
                })
                &&& stream == BackendStream::Stdout ==> after.recent_streams.last().stream
                    == "stdout"@
                &&& stream == BackendStream::Stderr ==> after.recent_streams.last().stream
                    == "stderr"@
                &&& old matches Some(s) ==> after.session(session_id) == Some(
                    SessionModel { last_output_at: Some(now), ..s },
                )
            }
            &&& event matches BackendEvent::ThreadStarted { thread_id } ==> {
                &&& after.recent_streams == w.recent_streams
                &&& old matches Some(s) ==> after.session(session_id) == Some(
                    SessionModel { thread_id: Some(thread_id@), ..s },
                )
            }
            &&& old is None ==> after.session(session_id) is None
            &&& other_sessions_stay(w, after, session_id)
            &&& after.agents == w.agents && after.tasks == w.tasks
        }),
{
    broadcast use {found_after_put, found_has_its_key};

}

/// The session that is stopped is the agent's current one, and it is stopped once: it is
/// taken off the list of those that can be. An agent without one stops the app server that
/// the daemon runs for it.
pub proof fn stopped_session_is_the_agents(w: World, agent: Seq<char>)
    requires
        distinct(w.active_sessions),
        distinct(w.active_managed_sessions),
    ensures
        ({
            let r = w.take_session_to_stop(agent);
            &&& r.1 matches Ok(stop) ==> {
                let a = w.agent(agent)->Some_0;
                &&& w.agent(agent) is Some
                &&& stop.agent == agent
                &&& !stop.managed ==> a.current_session_id == Some(stop.session_id) && found(
                    w.active_sessions,
                    stop.session_id,
                ) == Some(LiveModel { session_id: stop.session_id, agent_name: agent }) && found(
                    r.0.active_sessions,
                    stop.session_id,
                ) is None
                &&& stop.managed ==> a.current_session_id is None && a.app_server_owner == Some(
                    AppServerOwner::Daemon,
                ) && (found(w.active_managed_sessions, agent) matches Some(m) && m.session_id
                    == stop.session_id) && found(r.0.active_managed_sessions, agent) is None
            }
            &&& (w.agent(agent) matches Some(a) && (a.current_session_id matches Some(id) && found(
                w.active_sessions,
                id,
            ) == Some(LiveModel { session_id: id, agent_name: agent }))) ==> r.1 is Ok
            &&& (w.agent(agent) matches Some(a) && a.current_session_id is None
                && a.app_server_owner == Some(AppServerOwner::Daemon) && found(
                w.active_managed_sessions,
                agent,
            ) is Some) ==> r.1 is Ok
            &&& r.0.agents == w.agents && r.0.sessions == w.sessions && r.0.tasks == w.tasks
        }),
{
    broadcast use found_has_its_key;

    if let Some(a) = w.agent(agent) {
        if let Some(id) = a.current_session_id {
            taken_out_is_gone(w.active_sessions, id, id);
        }
    }
    taken_out_is_gone(w.active_managed_sessions, agent, agent);
}

proof fn lemma_with_panes(agents: Seq<AgentModel>, a: AgentModel)
    ensures
        with_panes(agents).contains(a) <==> agents.contains(a) && a.visible_pane_pid is Some,
    decreases agents.len(),
{
    if agents.len() > 0 {
        let head = agents.drop_last();
        lemma_with_panes(head, a);
        let rest = with_panes(head);
        let all = with_panes(agents);
        if all.contains(a) {
            let i = all.index_of(a);
            if i < rest.len() {
                assert(rest[i] == a);
            } else {
                assert(agents[agents.len() - 1] == a);
            }
            if head.contains(a) {
                let j = head.index_of(a);
                assert(agents[j] == a);
            }
        }
        if agents.contains(a) && a.visible_pane_pid is Some {
            let j = agents.index_of(a);
            if j < head.len() {
                assert(head[j] == a);
                let i = rest.index_of(a);
                assert(all[i] == a);
            } else {
                assert(all[all.len() - 1] == a);
            }
        }
    } else {
        assert(!with_panes(agents).contains(a));
    }
}

/// The windows that are stopped are those of all agents that have one, and of no others,
/// in the order of their names.
pub proof fn every_window_is_stopped(w: World, a: AgentModel)
    ensures
        in_order(w.panes_to_stop()),
        w.panes_to_stop().contains(a) <==> w.agents.contains(a) && a.visible_pane_pid is Some,
{
    let panes = with_panes(w.agents);
    ranked_is_in_order(panes);
    lemma_with_panes(w.agents, a);
    vstd::seq_lib::to_multiset_contains(panes, a);
    vstd::seq_lib::to_multiset_contains(ranked(panes), a);
}

/// A round outside of tasks begins exactly where the agent may take one, and makes it busy;
/// one that succeeded leaves it idle, with the thread that was kept for it, else with the
/// round's own; one that failed blocks it, unless it was stopped by request.
pub proof fn ad_hoc_round_is_kept(
    w: World,
    agent: Seq<char>,
    round: RoundModel,
    kept_thread: Option<Seq<char>>,
    missing: Seq<char>,
    message: Seq<char>,
    now: Timestamp,
)
    ensures
        w.start_ad_hoc_round(agent, now).1 is Err ==> w.start_ad_hoc_round(agent, now).0 == w,
        w.start_ad_hoc_round(agent, now) matches (after, Ok(a)) ==> w.agent(agent) == Some(a)
            && only_changes(
            w,
            after,
            agent,
            AgentModel { state: AgentSessionState::Busy, last_heartbeat_at: Some(now), ..a },
        ),
        w.finish_ad_hoc_round(agent, round, kept_thread, missing, now).1 is Ok <==> w.agent(agent)
            is Some,
        w.finish_ad_hoc_round(agent, round, kept_thread, missing, now) matches (after, Ok(_))
            ==> (after.agent(agent) matches Some(a) && only_changes(w, after, agent, a) && a == (
        AgentModel {
            thread_id: a.thread_id,
            state: AgentSessionState::Idle,
            last_output_at: Some(round.completed_at),
            last_heartbeat_at: Some(now),
            ..w.agent(agent)->Some_0
        }) && (kept_thread is Some ==> a.thread_id == kept_thread) && (kept_thread is None
            ==> a.thread_id == Some(round.thread_id)) && after.recent_streams.last().content
            == "[RESULT] "@ + round.final_message && after.recent_streams.last().agent == agent),
        w.fail_ad_hoc_round(agent, message, now).1 is Ok <==> w.agent(agent) is Some,
        w.fail_ad_hoc_round(agent, message, now) matches (after, Ok(_)) ==> (after.agent(
            agent,
        ) matches Some(a) && only_changes(w, after, agent, a) && (is_stop_message(message)
            ==> a.state == AgentSessionState::Idle) && (!is_stop_message(message) ==> a.state
            == AgentSessionState::Blocked) && a.thread_id == w.agent(agent)->Some_0.thread_id
            && a.current_task_id == w.agent(agent)->Some_0.current_task_id),
{
    broadcast use {found_after_put, found_has_its_key};

}

/// The message of a round that was stopped is known as such.
pub proof fn stop_is_known_by_its_message(
    parsed: crate::backend::ParsedModel,
    stderr: Seq<Seq<char>>,
    success: bool,
    label: Seq<char>,
    agent: Seq<char>,
    now: Timestamp,
)
    ensures
        round_outcome(parsed, stderr, success, label, true, agent, now) matches Err(message)
            && is_stop_message(message),
{
    reveal_strlit("codex session stop requested for agent ");
    reveal_strlit("codex session stop requested for agent");
    let message = "codex session stop requested for agent "@ + agent;
    let part = "codex session stop requested for agent"@;
    assert(message.subrange(0, part.len() as int) =~= part);
    assert(part_at(message, part, 0));
}

/// A round of a task begins exactly where the task waits and its agent is busy with it,
/// ready and without a session; the task runs then. What the round is started with is the
/// task and the agent as they were.
pub proof fn begun_round_runs_the_task(w: World, task_id: Seq<char>, now: Timestamp)
    ensures
        ({
            let r = w.begin_task_round(task_id, now);
            &&& r.1 is Err ==> r.0 == w
            &&& r.1 matches Ok(start) ==> {
                &&& w.task(task_id) == Some(start.task)
                &&& start.task.state == TaskState::Pending
                &&& w.agent(start.task.to_agent) == Some(start.agent)
                &&& start.agent.current_task_id == Some(task_id)
                &&& r.0.task(task_id) matches Some(t) && t.state == TaskState::Running && same_task(
                    start.task,
                    t,
                ) && same_report(start.task, t) && same_decision(start.task, t)
                &&& other_tasks_stay(w, r.0, task_id)
                &&& r.0.agents == w.agents
            }
            &&& (w.task(task_id) matches Some(t) && t.state == TaskState::Pending && (w.agent(
                t.to_agent,
            ) matches Some(a) && a.bootstrap_state == AgentBootstrapState::Ready
                && a.current_task_id == Some(task_id) && a.current_session_id is None && a.state
                == AgentSessionState::Busy)) ==> r.1 is Ok
        }),
{
    broadcast use {found_after_put, found_has_its_key};

}

/// A round that broke down fails its task, blocks its agent and takes the task from it; it
/// is answered with the failed task and, in place of a report, with what went wrong.
pub proof fn broken_round_fails_the_task(
    w: World,
    start: RoundStartModel,
    message: Seq<char>,
    now: Timestamp,
)
    requires
        w.task(start.task.task_id) matches Some(t) && t.state == TaskState::Running && t.to_agent
            == start.task.to_agent,
        w.agent(start.task.to_agent) is Some,
    ensures
        ({
            let r = w.fail_task_round(start, message, now);
            let id = start.task.task_id;
            &&& r.1 matches Ok(ResponseModel::TaskRound { task, result, payload, decision })
            &&& task.state == TaskState::Failed && task.closed_at == Some(now)
            &&& r.0.task(id) == Some(task)
            &&& other_tasks_stay(w, r.0, id)
            &&& same_task(w.task(id)->Some_0, task) && same_report(w.task(id)->Some_0, task)
            &&& result.agent == start.agent.name && result.final_message == message
                && result.completed_at == now
            &&& start.agent.thread_id matches Some(thread) ==> result.thread_id == thread
            &&& start.agent.thread_id is None ==> result.thread_id.len() == 0
            &&& payload.status == TaskRoundStatus::Report
            &&& payload.details == Some(message)
            &&& payload.blocking == Some("P0"@)
            &&& payload.changed_files.len() == 0
            &&& decision is None
            &&& r.0.agent(start.task.to_agent) matches Some(a) && a.state
                == AgentSessionState::Blocked && a.current_task_id is None && a.thread_id
                == w.agent(start.task.to_agent)->Some_0.thread_id
        }),
{
    broadcast use {found_after_put, found_has_its_key};

    reveal_strlit("");
    step_is_made_where_it_fits(
        w,
        start.task.task_id,
        start.task.to_agent,
        TaskState::Running,
        TaskState::Failed,
        "task_failed"@,
        now,
    );
}

/// A round that has ended with a report is answered with the round, the report and the
/// task that holds it; without one it is refused, and nothing changes.
pub proof fn finished_round_is_told(
    w: World,
    start: RoundStartModel,
    round: RoundModel,
    payload: Option<PayloadModel>,
    decision_id: Seq<char>,
    now: Timestamp,
)
    requires
        w.task(start.task.task_id) == Some(start.task),
    ensures
        ({
            let r = w.finish_task_round(start, round, payload, decision_id, now);
            &&& payload is None ==> r.1 is Err && r.0 == w
            &&& r.1 matches Ok(answer) ==> {
                let p = payload->Some_0;
                &&& answer matches ResponseModel::TaskRound {
                    task,
                    result,
                    payload: told,
                    decision,
                }
                &&& result == round
                &&& told == p
                &&& r.0.task(start.task.task_id) == Some(task)
                &&& same_task(start.task, task)
                &&& task.latest_child_status matches Some(word) && is_word_for(word, p.status)
                    && holds_report(task, word, Some(p.summary), p.blocking, p.topic, p.details)
            }
        }),
{
    if let Some(p) = payload {
        ended_round_is_kept(
            w,
            start.task,
            p,
            Some(round.thread_id),
            round.completed_at,
            round.final_message,
            "task_round_payload"@,
            "TASK_ROUND_RESULT"@,
            decision_id,
            now,
        );
    }
}

/// A draft is asked for only where something is asked, the source agent may do a round and
/// the target may take a task; it is asked for with the records of the two as they are.
pub proof fn draft_is_planned(w: World, from: Seq<char>, to: Seq<char>, request: Seq<char>)
    ensures
        ({
            let r = w.plan_draft(from, to, request);
            &&& r matches Ok(plan) ==> {
                &&& w.agent(from) == Some(plan.source)
                &&& w.agent(to) == Some(plan.target)
                &&& is_core_of(plan.request, request) && plan.request.len() > 0
            }
            &&& r is Ok <==> {
                &&& !blank(request)
                &&& w.agent(from) matches Some(a) && rests(a)
                &&& w.agent(to) matches Some(b) && rests(b)
            }
        }),
{
    trimming_keeps_the_core(request);
    lemma_blank(request);
}

/// The agent is ready and idle, with neither a task nor a session.
pub open spec fn rests(a: AgentModel) -> bool {
    &&& a.bootstrap_state == AgentBootstrapState::Ready
    &&& a.state == AgentSessionState::Idle
    &&& a.current_task_id is None
    &&& a.current_session_id is None
}

/// A bootstrap has reported exactly where its status is ready and its summary is more than
/// white space; the summary is then that, trimmed.
pub proof fn ready_report_is_read(payload: JsonModel)
    ensures
        ({
            let r = reported_summary(payload);
            &&& r is Ok <==> reads(payload, "status"@, "ready"@) && exists|s: Seq<char>|
                #[trigger] reads(payload, "summary"@, s) && !blank(s)
            &&& forall|s: Seq<char>| #[trigger]
                reads(payload, "summary"@, s) && r is Ok ==> is_core_of(r->Ok_0, s)
        }),
{
    reveal_strlit("ready");
    reveal_strlit("");
    assert("ready"@.len() != ""@.len());
    lemma_reads(payload, "status"@);
    lemma_reads(payload, "summary"@);
    match payload.text_at("summary"@) {
        Some(s) => {
            trimming_keeps_the_core(s);
            lemma_blank(s);
            assert(reads(payload, "summary"@, s));
        },
        None => {},
    }
}

/// An app server that runs already is kept as it is, and nothing changes; else the agent is
/// made ready for a new one, and is given as it is then.
pub proof fn running_app_server_is_kept(w: World, agent: Seq<char>, now: Timestamp)
    ensures
        ({
            let r = w.begin_managed(agent, now);
            &&& r.1 is Ok <==> w.agent(agent) is Some
            &&& w.agent(agent) is Some && found(w.active_managed_sessions, agent) is Some ==> r == (
                w,
                Ok::<ManagedStartModel, Seq<char>>(
                    ManagedStartModel::Running { agent: w.agent(agent)->Some_0 },
                ),
            )
            &&& w.agent(agent) is Some && found(w.active_managed_sessions, agent) is None ==> (
            r.1->Ok_0 matches ManagedStartModel::Launch { agent: a } && r.0.agent(agent) == Some(a)
                && a.bootstrap_state == AgentBootstrapState::AwaitingInit && a.thread_id is None
                && a.app_server_url is None && a.name == agent && a.cwd == w.agent(
                agent,
            )->Some_0.cwd && a.current_task_id == w.agent(agent)->Some_0.current_task_id)
        }),
{
    broadcast use {found_after_put, found_has_its_key};

}

/// The process of an app server that was started is kept as a session, and as the one that
/// the daemon runs for its agent.
pub proof fn started_app_server_is_kept(w: World, session: SessionModel)
    ensures
        ({
            let after = w.managed_started(session);
            &&& after.session(session.session_id) == Some(session)
            &&& other_sessions_stay(w, after, session.session_id)
            &&& found(after.active_managed_sessions, session.agent_name) == Some(
                ManagedModel { agent_name: session.agent_name, session_id: session.session_id },
            )
            &&& forall|n: Seq<char>|
                n != session.agent_name ==> #[trigger] found(after.active_managed_sessions, n)
                    == found(w.active_managed_sessions, n)
            &&& after.agents == w.agents && after.tasks == w.tasks
        }),
{
    broadcast use {found_after_put, found_has_its_key};

}

/// A bootstrap that failed gives its app server up: the daemon runs none for the agent any
/// longer, the one that it ran is handed back to be stopped, and the agent has to be
/// started anew.
pub proof fn failed_bootstrap_gives_up(
    w: World,
    agent: Seq<char>,
    reason: Seq<char>,
    now: Timestamp,
)
    requires
        w.agent(agent) is Some,
        distinct(w.active_managed_sessions),
    ensures
        ({
            let r = w.managed_failed(agent, reason, now);
            &&& r.1 == found(w.active_managed_sessions, agent)
            &&& found(r.0.active_managed_sessions, agent) is None
            &&& r.0.agent(agent) matches Some(a) && a.bootstrap_state
                == AgentBootstrapState::AwaitingInit && a.thread_id is None && a.app_server_url
                is None && a.app_server_owner is None
            &&& r.0.tasks == w.tasks && r.0.sessions == w.sessions
            &&& forall|n: Seq<char>| n != agent ==> #[trigger] r.0.agent(n) == w.agent(n)
        }),
{
    broadcast use {found_after_put, found_has_its_key};

    taken_out_is_gone(w.active_managed_sessions, agent, agent);
}

/// A bootstrap that reported makes its agent ready exactly where its last message is such a
/// report: the summary is what it reports, and the thread is the round's.
pub proof fn reported_bootstrap_makes_ready(
    w: World,
    agent: Seq<char>,
    session_id: Seq<char>,
    url: Seq<char>,
    message: Seq<char>,
    thread_id: Seq<char>,
    now: Timestamp,
)
    requires
        w.agent(agent) is Some,
    ensures
        ({
            let r = w.managed_reported(agent, session_id, url, message, thread_id, now);
            &&& r.1 is Err ==> r.0 == w
            &&& r.1 is Ok <==> (read_json(message) matches Ok(v) && reads(v, "status"@, "ready"@)
                && exists|s: Seq<char>| #[trigger] reads(v, "summary"@, s) && !blank(s))
            &&& r.1 matches Ok(a) ==> {
                &&& only_changes(w, r.0, agent, a)
                &&& a.bootstrap_state == AgentBootstrapState::Ready
                &&& a.bootstrap_completed_at == Some(now)
                &&& a.bootstrap_summary is Some
                &&& forall|s: Seq<char>| #[trigger]
                    reads(read_json(message)->Ok_0, "summary"@, s) ==> is_core_of(
                        a.bootstrap_summary->Some_0,
                        s,
                    )
                &&& !blank(thread_id) ==> (a.thread_id matches Some(t) && is_core_of(t, thread_id))
                &&& a.state == w.agent(agent)->Some_0.state
            }
        }),
{
    broadcast use {found_after_put, found_has_its_key};

    trimming_keeps_the_core(thread_id);
    lemma_blank(thread_id);
    if let Ok(v) = read_json(message) {
        ready_report_is_read(v);
        if let Ok(summary) = reported_summary(v) {
            crate::text::trimmed_is_idempotent(v.text_at("summary"@)->Some_0);
        }
    }
}

/// The process of an app server that has ended ends its session, as succeeded where it
/// succeeded or was stopped by request and as failed otherwise; the daemon runs none for the
/// agent any longer, and the agent has to be started anew.
pub proof fn ended_app_server_is_kept(
    w: World,
    agent: Seq<char>,
    session_id: Seq<char>,
    lines: Seq<Seq<char>>,
    success: bool,
    stopped: bool,
    label: Seq<char>,
    now: Timestamp,
)
    requires
        w.agent(agent) is Some,
        w.session(session_id) is Some,
        distinct(w.active_managed_sessions),
    ensures
        ({
            let after = w.managed_finished(
                agent,
                session_id,
                lines,
                success,
                stopped,
                label,
                now,
            );
            let old = w.agent(agent)->Some_0;
            &&& after.session(session_id) matches Some(s) && s.ended_at == Some(now) && (success
                || stopped ==> s.status == CodexSessionStatus::Succeeded) && (!success && !stopped
                ==> s.status == CodexSessionStatus::Failed)
            &&& other_sessions_stay(w, after, session_id)
            &&& found(after.active_managed_sessions, agent) is None
            &&& after.agent(agent) matches Some(a) && a.bootstrap_state
                == AgentBootstrapState::AwaitingInit && a.thread_id is None && a.app_server_url
                is None && a.app_server_owner is None && a.current_task_id == old.current_task_id
                && a.current_session_id == old.current_session_id && (old.current_task_id is Some
                ==> a.state == AgentSessionState::Blocked) && (old.current_task_id is None
                && old.current_session_id is None ==> a.state == AgentSessionState::Idle)
            &&& after.tasks == w.tasks
        }),
{
    broadcast use {found_after_put, found_has_its_key};

    taken_out_is_gone(w.active_managed_sessions, agent, agent);
}

/// The words for a process that has ended tell a stop by request from an end and from a
/// failure, and a failure is given its reason: the last line that the process said, else
/// its status.
pub proof fn end_of_process_is_told(
    success: bool,
    stopped: bool,
    lines: Seq<Seq<char>>,
    label: Seq<char>,
)
    ensures
        stopped ==> process_state(success, stopped) == "stopped"@ && process_reason(
            success,
            stopped,
            lines,
            label,
        ) == "managed session stopped by request"@,
        !stopped && success ==> process_state(success, stopped) == "exited"@ && process_reason(
            success,
            stopped,
            lines,
            label,
        ) == "managed session exited"@,
        !stopped && !success ==> process_state(success, stopped) == "failed"@,
        !stopped && !success && lines.len() > 0 ==> process_reason(success, stopped, lines, label)
            == "managed session exited unexpectedly: "@ + lines.last(),
        !stopped && !success && lines.len() == 0 ==> process_reason(success, stopped, lines, label)
            == "managed session exited unexpectedly: "@ + label,
{
}

/// A bootstrap that failed is told by its own message, and one that took too long by the
/// seconds that it had.
pub proof fn failed_bootstrap_is_told(f: BootstrapFailure)
    ensures
        f matches BootstrapFailure::Failed { message } ==> failure_answer(f) == message@
            && failure_reason(f) == "managed bootstrap failed: "@ + message@,
        f matches BootstrapFailure::TimedOut { seconds } ==> failure_answer(f) == failure_reason(f)
            && failure_reason(f) == "managed bootstrap timed out after "@ + crate::text::decimal(
            seconds as nat,
        ) + "s"@,
{
}

/// What is answered when several were asked to stop names all that were and all that could
/// not be, in their order.
pub proof fn stops_are_told(
    none: Seq<char>,
    some: Seq<char>,
    failed: Seq<char>,
    stopped: Seq<Seq<char>>,
    failures: Seq<Seq<char>>,
)
    ensures
        ({
            let told = stop_report(none, some, failed, stopped, failures);
            &&& stopped.len() == 0 && failures.len() == 0 ==> told == none
            &&& stopped.len() > 0 ==> says(told, some + joined(stopped, ", "@))
            &&& failures.len() > 0 ==> says(told, joined(failures, "; "@))
            &&& stopped.len() == 0 && failures.len() > 0 ==> told == failed + joined(
                failures,
                "; "@,
            )
        }),
{
    let told = stop_report(none, some, failed, stopped, failures);
    let empty = Seq::<char>::empty();
    if stopped.len() > 0 {
        let first = some + joined(stopped, ", "@);
        if failures.len() == 0 {
            assert(told =~= empty + first + empty);
        } else {
            assert(told =~= empty + first + ("; failures: "@ + joined(failures, "; "@)));
            assert(told =~= (first + "; failures: "@) + joined(failures, "; "@) + empty);
        }
    } else if failures.len() > 0 {
        assert(told =~= failed + joined(failures, "; "@) + empty);
    }
}

/// An agent that begins its task in its window has it running, whatever it was before: one
/// that waits is accepted on the way, and one that runs stays as it is. Any other state, and
/// an agent without a task, is refused.
pub proof fn begun_visible_task_runs(w: World, agent: Seq<char>, now: Timestamp)
    ensures
        ({
            let r = w.begin_visible_task(agent, now);
            &&& r.1 matches Ok(t) ==> {
                &&& w.agent(agent) matches Some(a) && a.current_task_id == Some(t.task_id)
                &&& t.state == TaskState::Running
                &&& r.0.task(t.task_id) == Some(t)
                &&& w.task(t.task_id) matches Some(old) && same_task(old, t) && same_report(old, t)
                    && same_decision(old, t) && (old.state == TaskState::Pending || old.state
                    == TaskState::Accepted || old.state == TaskState::Running) && (old.state
                    == TaskState::Running ==> r.0 == w)
                &&& r.0.agents == w.agents
            }
            &&& (w.agent(agent) matches Some(a) && (a.current_task_id matches Some(id) && (w.task(
                id,
            ) matches Some(t) && (t.state == TaskState::Running || (t.to_agent == agent && (t.state
                == TaskState::Pending || t.state == TaskState::Accepted)))))) ==> r.1 is Ok
        }),
{
    broadcast use {found_after_put, found_has_its_key};

}

/// When all app servers of the daemon are to stop, every one of them is given, in the order of
/// their agents' names, and none is left that can be stopped again.
pub proof fn every_app_server_is_stopped(w: World)
    ensures
        w.take_managed_sessions().1.to_multiset() == w.active_managed_sessions.to_multiset(),
        in_order(w.take_managed_sessions().1),
        w.take_managed_sessions().0.active_managed_sessions.len() == 0,
        w.take_managed_sessions().0 == (World {
            active_managed_sessions: w.take_managed_sessions().0.active_managed_sessions,
            ..w
        }),
{
    ranked_is_in_order(w.active_managed_sessions);
}

/// A window that was stopped, or that was gone at the start, is forgotten; its agent's work
/// stays.
pub proof fn stopped_window_is_forgotten(
    w: World,
    agent: AgentModel,
    pid: u32,
    outcome: VisiblePaneStopOutcome,
    now: Timestamp,
)
    ensures
        ({
            let stopped = w.pane_stopped(agent, pid, outcome, now);
            let gone = w.recover_pane(agent.name, pid, now);
            &&& stopped.1 is Ok <==> w.agent(agent.name) is Some
            &&& gone.1 is Ok <==> w.agent(agent.name) is Some
            &&& stopped.1 is Ok ==> (stopped.0.agent(agent.name) matches Some(a) && only_changes(
                w,
                stopped.0,
                agent.name,
                a,
            ) && a.visible_pane_pid is None && a.visible_pane_kind is None
                && a.visible_pane_registered_at is None && a.state == w.agent(
                agent.name,
            )->Some_0.state && a.current_task_id == w.agent(agent.name)->Some_0.current_task_id)
            &&& gone.1 is Ok ==> (gone.0.agent(agent.name) matches Some(a) && only_changes(
                w,
                gone.0,
                agent.name,
                a,
            ) && a.visible_pane_pid is None && a.visible_pane_kind is None
                && a.visible_pane_registered_at is None)
        }),
{
    broadcast use {found_after_put, found_has_its_key};

}

/// A stop that was asked for is said on the session that is to stop, in its agent's name, and
/// tells a server of the daemon from a round.
pub proof fn asked_stop_is_said(w: World, stop: StopModel, now: Timestamp)
    ensures
        ({
            let line = w.note_stop(stop, now).recent_streams.last();
            &&& line.session_id == Some(stop.session_id)
            &&& line.agent == stop.agent
            &&& line.at == now
            &&& stop.managed ==> line.content == "[MANAGED_SESSION_STOP_REQUESTED]"@
            &&& !stop.managed ==> line.content == "[SESSION_STOP_REQUESTED]"@
        }),
{
}

} // verus!
