//! What is written into the history, told to the dashboards and said in an agent's name when
//! something happens.

use vstd::prelude::*;

use crate::dialogue::pushed_field;
use crate::json::{json_text, no_fields, object, JsonModel};
use crate::listening::reads;
use crate::models::{
    AgentModel, AppServerOwner, CodexSessionStatus, DashboardModel, DraftModel, SessionModel,
    StreamModel, TaskModel, TaskState, VisiblePaneKind,
};
use crate::promises::{found_after_put, found_has_its_key};
use crate::state::{EffectModel, World};
use crate::time::Timestamp;

verus! {

/// The effect is one of those that have come since.
pub open spec fn adds(before: World, after: World, effect: EffectModel) -> bool {
    exists|i: int|
        before.outbox.len() <= i < after.outbox.len() && #[trigger] after.outbox[i] == effect
}

/// An entry of this type on this thing, by this actor, has come since; its agent, its task and
/// its summary are the given ones.
pub open spec fn adds_entry(
    before: World,
    after: World,
    scope: Seq<char>,
    scope_id: Seq<char>,
    agent: Option<Seq<char>>,
    task_id: Option<Seq<char>>,
    actor: Option<Seq<char>>,
    event_type: Seq<char>,
    summary: Seq<char>,
) -> bool {
    exists|i: int|
        before.outbox.len() <= i < after.outbox.len() && (#[trigger] after.outbox[i] matches
            EffectModel::AppendRuntimeEvent { event } && event.scope == scope && event.scope_id
            == scope_id && event.agent_name == agent && event.task_id == task_id
            && event.actor_name == actor && event.event_type == event_type && event.summary
            == summary)
}

/// A line that the agent says is stored and told, on its stream.
pub open spec fn adds_line(
    before: World,
    after: World,
    agent: Seq<char>,
    content: Seq<char>,
    now: Timestamp,
) -> bool {
    &&& adds(
        before,
        after,
        EffectModel::AppendStream { session_id: None, agent, stream: "stdout"@, content },
    )
    &&& adds(
        before,
        after,
        EffectModel::Publish {
            event: DashboardModel::StreamChunk {
                event: StreamModel { session_id: None, agent, stream: "stdout"@, content, at: now },
            },
        },
    )
}

/// A line that is said is stored, told, and the newest that is kept.
pub proof fn line_is_told(
    w: World,
    session_id: Option<Seq<char>>,
    agent: Seq<char>,
    stream: Seq<char>,
    content: Seq<char>,
    now: Timestamp,
)
    ensures
        ({
            let after = w.record_stream(session_id, agent, stream, content, now);
            let line = StreamModel { session_id, agent, stream, content, at: now };
            &&& adds(w, after, EffectModel::AppendStream { session_id, agent, stream, content })
            &&& adds(
                w,
                after,
                EffectModel::Publish { event: DashboardModel::StreamChunk { event: line } },
            )
            &&& after.recent_streams.last() == line
        }),
{
    let after = w.record_stream(session_id, agent, stream, content, now);
    let n = w.outbox.len() as int;
    assert(after.outbox[n] == (EffectModel::AppendStream { session_id, agent, stream, content }));
    let last = after.outbox.len() - 1;
    assert(after.outbox[last] is Publish);
}

/// A step of a task is in its history with the state before and the state after, is told to
/// the dashboards with the task as it is then, and has an entry in the ledger by whoever made
/// it.
pub proof fn step_is_in_the_history(
    w: World,
    task: TaskModel,
    next: TaskState,
    event_type: Seq<char>,
    actor: Option<Seq<char>>,
    now: Timestamp,
)
    ensures
        ({
            let r = w.transition(task, next, event_type, actor, now);
            &&& adds(
                w,
                r.0,
                EffectModel::InsertTaskEvent {
                    task_id: task.task_id,
                    event_type,
                    from_state: Some(task.state),
                    to_state: Some(next),
                    payload: "{}"@,
                },
            )
            &&& adds(
                w,
                r.0,
                EffectModel::Publish {
                    event: DashboardModel::TaskEvent { task: r.1, event_type },
                },
            )
            &&& adds_entry(
                w,
                r.0,
                "task"@,
                task.task_id,
                Some(task.to_agent),
                Some(task.task_id),
                actor,
                event_type,
                "task state "@ + task.state.shown() + " -> "@ + next.shown(),
            )
        }),
{
    let r = w.transition(task, next, event_type, actor, now);
    let n = w.outbox.len() as int;
    assert(r.0.outbox[n + 1] is InsertTaskEvent);
    assert(r.0.outbox[n + 2] is Publish);
    assert(r.0.outbox[n + 3] is AppendRuntimeEvent);
}

/// The creation of a task is in its history, is told to the dashboards, and has an entry in
/// the ledger by whoever asked for it, with the reason that was given.
pub proof fn creation_is_in_the_history(
    w: World,
    from: Seq<char>,
    to: Seq<char>,
    draft: DraftModel,
    by: Option<Seq<char>>,
    standing: Option<Seq<char>>,
    why: Seq<char>,
    task_id: Seq<char>,
    now: Timestamp,
)
    ensures
        w.create_task(from, to, draft, by, standing, why, task_id, now) matches (after, Ok(task))
            ==> {
            &&& adds(w, after, EffectModel::InsertTask { task })
            &&& adds(
                w,
                after,
                EffectModel::InsertTaskEvent {
                    task_id,
                    event_type: "task_created"@,
                    from_state: None,
                    to_state: Some(TaskState::Pending),
                    payload: "{}"@,
                },
            )
            &&& adds(
                w,
                after,
                EffectModel::Publish {
                    event: DashboardModel::TaskEvent { task, event_type: "task_created"@ },
                },
            )
            &&& adds_entry(
                w,
                after,
                "task"@,
                task_id,
                Some(to),
                Some(task_id),
                Some(from),
                "task_created"@,
                "created task for "@ + to,
            )
        },
{
    broadcast use {found_after_put, found_has_its_key};

    if let (after, Ok(task)) = w.create_task(from, to, draft, by, standing, why, task_id, now) {
        let n = w.outbox.len() as int;
        assert(after.outbox[n] is InsertTask);
        assert(after.outbox[n + 1] is InsertTaskEvent);
        assert(after.outbox[n + 2] is SaveAgent);
        assert(after.outbox[n + 3] is Publish);
        assert(after.outbox[n + 4] is Publish);
        assert(after.outbox[n + 5] is AppendRuntimeEvent);
    }
}

/// What an agent reports is told to the dashboards with the task that holds it, and has an
/// entry in the ledger by that agent, with its status and its summary.
pub proof fn report_is_in_the_ledger(
    w: World,
    task: TaskModel,
    status: Seq<char>,
    summary: Option<Seq<char>>,
    blocking: Option<Seq<char>>,
    topic: Option<Seq<char>>,
    details: Option<Seq<char>>,
    event_type: Seq<char>,
    now: Timestamp,
)
    ensures
        ({
            let r = w.child_feedback(
                task,
                status,
                summary,
                blocking,
                topic,
                details,
                event_type,
                now,
            );
            &&& adds(
                w,
                r.0,
                EffectModel::Publish {
                    event: DashboardModel::TaskEvent { task: r.1, event_type },
                },
            )
            &&& summary matches Some(s) ==> adds_entry(
                w,
                r.0,
                "task"@,
                task.task_id,
                Some(task.to_agent),
                Some(task.task_id),
                Some(task.to_agent),
                event_type,
                "child feedback status="@ + status + " summary="@ + s,
            )
        }),
{
    let r = w.child_feedback(task, status, summary, blocking, topic, details, event_type, now);
    let n = w.outbox.len() as int;
    assert(r.0.outbox[n + 1] is Publish);
    assert(r.0.outbox[n + 2] is AppendRuntimeEvent);
}

/// A report that is handed in is kept in the task's history, and said in the agent's name, as
/// an object with its blocking, its topic and its details.
pub proof fn handed_in_report_is_in_the_history(
    w: World,
    task_id: Seq<char>,
    agent: Seq<char>,
    blocking: Seq<char>,
    topic: Seq<char>,
    details: Seq<char>,
    now: Timestamp,
)
    ensures
        w.report_task(task_id, agent, blocking, topic, details, now) matches (after, Ok(t))
            ==> exists|v: JsonModel|
            reads(v, "blocking"@, blocking) && reads(v, "topic"@, topic) && reads(
                v,
                "details"@,
                details,
            ) && adds(
                w,
                after,
                EffectModel::InsertTaskEvent {
                    task_id,
                    event_type: "report_payload"@,
                    from_state: Some(TaskState::Reported),
                    to_state: Some(TaskState::Reported),
                    payload: #[trigger] json_text(v),
                },
            ) && adds_line(w, after, agent, "[REPORT] "@ + json_text(v), now),
{
    broadcast use {found_has_its_key, pushed_field};

    if let (after, Ok(t)) = w.report_task(task_id, agent, blocking, topic, details, now) {
        reveal_strlit("blocking");
        reveal_strlit("topic");
        reveal_strlit("details");
        assert("blocking"@.len() != "topic"@.len());
        assert("blocking"@.len() != "details"@.len());
        assert("topic"@.len() != "details"@.len());
        let v = object(
            no_fields().push(("blocking"@, JsonModel::Text(blocking))).push(
                ("topic"@, JsonModel::Text(topic)),
            ).push(("details"@, JsonModel::Text(details))),
        );
        let n = w.outbox.len() as int;
        assert(after.outbox[n + 4] is InsertTaskEvent);
        assert(after.outbox[n + 5] is AppendStream);
        assert(after.outbox[n + 6] is Publish);
        assert(adds(
            w,
            after,
            EffectModel::InsertTaskEvent {
                task_id,
                event_type: "report_payload"@,
                from_state: Some(TaskState::Reported),
                to_state: Some(TaskState::Reported),
                payload: json_text(v),
            },
        ));
        assert(adds_line(w, after, agent, "[REPORT] "@ + json_text(v), now));
    }
}

/// A decision that is sent is told to the dashboards, and has an entry in the ledger by
/// whoever made it.
pub proof fn decision_is_in_the_ledger(
    w: World,
    task_id: Seq<char>,
    issued_by: Seq<char>,
    target: Seq<char>,
    summary: Seq<char>,
    decision_id: Seq<char>,
    now: Timestamp,
)
    ensures
        w.send_decision(task_id, issued_by, target, summary, decision_id, now) matches (
            after,
            Ok(d),
        ) ==> {
            &&& adds(w, after, EffectModel::InsertDecision { decision: d })
            &&& adds(
                w,
                after,
                EffectModel::Publish {
                    event: DashboardModel::DecisionEvent {
                        decision: d,
                        event_type: "decision_sent"@,
                    },
                },
            )
            &&& adds_entry(
                w,
                after,
                "task"@,
                task_id,
                Some(target),
                Some(task_id),
                Some(issued_by),
                "decision_sent"@,
                "sent decision "@ + decision_id,
            )
        },
{
    broadcast use {found_after_put, found_has_its_key};

    if let (after, Ok(d)) = w.send_decision(task_id, issued_by, target, summary, decision_id, now) {
        let n = w.outbox.len() as int;
        assert(after.outbox[n + 4] is InsertDecision);
        let last = after.outbox.len() - 1;
        assert(after.outbox[last] is AppendRuntimeEvent);
        assert(after.outbox[last - 1] is Publish);
    }
}

/// An agent whose record changes is told to the dashboards as it is then.
pub open spec fn tells_agent(before: World, after: World, a: AgentModel) -> bool {
    adds(
        before,
        after,
        EffectModel::Publish { event: DashboardModel::AgentStateChanged { agent: a } },
    ) && adds(before, after, EffectModel::SaveAgent { agent: a })
}

proof fn lemma_told(w: World, a: AgentModel)
    ensures
        tells_agent(w, w.persist_agent(a), a),
{
    let after = w.persist_agent(a);
    let n = w.outbox.len() as int;
    assert(after.outbox[n] is SaveAgent);
    assert(after.outbox[n + 1] is Publish);
}

/// What is done to an agent by hand is stored, told to the dashboards, and has an entry in the
/// ledger of the type of what was done.
pub proof fn change_of_an_agent_is_told(
    w: World,
    name: Seq<char>,
    summary: Option<Seq<char>>,
    thread_id: Option<Seq<char>>,
    reason: Seq<char>,
    now: Timestamp,
)
    ensures
        w.touch_agent(name, now) matches (after, Ok(a)) ==> tells_agent(w, after, a),
        w.begin_bootstrap(name, now) matches (after, Ok(a)) ==> tells_agent(w, after, a)
            && has_entry(w, after, name, "agent_bootstrap_started"@),
        w.mark_ready(name, summary, thread_id, now) matches (after, Ok(a)) ==> tells_agent(
            w,
            after,
            a,
        ) && has_entry(w, after, name, "agent_ready"@),
        w.recover_agent(name, now) matches (after, Ok(a)) ==> tells_agent(w, after, a)
            && has_entry(w, after, name, "agent_recovered"@) && adds_line(
            w,
            after,
            name,
            "[AGENT_RECOVERED]"@,
            now,
        ),
        w.reset_thread(name, now) matches (after, Ok(a)) ==> tells_agent(w, after, a) && has_entry(
            w,
            after,
            name,
            "thread_reset"@,
        ) && adds_line(w, after, name, "[THREAD_RESET]"@, now),
        w.reset_app_server(name, reason, now) matches (after, Ok(a)) ==> tells_agent(w, after, a)
            && has_entry(w, after, name, "daemon_app_server_reset"@),
{
    let n = w.outbox.len() as int;
    if let (after, Ok(a)) = w.touch_agent(name, now) {
        lemma_told(w, a);
    }
    if let (after, Ok(a)) = w.begin_bootstrap(name, now) {
        assert(after.outbox[n] is SaveAgent && after.outbox[n + 1] is Publish);
        assert(after.outbox[n + 4] is AppendRuntimeEvent);
    }
    if let (after, Ok(a)) = w.mark_ready(name, summary, thread_id, now) {
        assert(after.outbox[n] is SaveAgent && after.outbox[n + 1] is Publish);
        assert(after.outbox[n + 4] is AppendRuntimeEvent);
    }
    if let (after, Ok(a)) = w.recover_agent(name, now) {
        assert(after.outbox[n] is SaveAgent && after.outbox[n + 1] is Publish);
        assert(after.outbox[n + 2] is AppendStream && after.outbox[n + 3] is Publish);
        assert(after.outbox[n + 4] is AppendRuntimeEvent);
    }
    if let (after, Ok(a)) = w.reset_thread(name, now) {
        assert(after.outbox[n] is SaveAgent && after.outbox[n + 1] is Publish);
        assert(after.outbox[n + 2] is AppendStream && after.outbox[n + 3] is Publish);
        assert(after.outbox[n + 4] is AppendRuntimeEvent);
    }
    if let (after, Ok(a)) = w.reset_app_server(name, reason, now) {
        assert(after.outbox[n] is SaveAgent && after.outbox[n + 1] is Publish);
        assert(after.outbox[n + 2] is AppendRuntimeEvent);
    }
}

/// An entry on the agent, of this type and of its doing, has come since.
pub open spec fn has_entry(
    before: World,
    after: World,
    name: Seq<char>,
    event_type: Seq<char>,
) -> bool {
    exists|i: int|
        before.outbox.len() <= i < after.outbox.len() && (#[trigger] after.outbox[i] matches
            EffectModel::AppendRuntimeEvent { event } && event.scope == "agent"@ && event.scope_id
            == name && event.agent_name == Some(name) && event.actor_name == Some(name)
            && event.event_type == event_type)
}

/// A window or a server that is registered or forgotten is told, with an entry of the type of
/// what was done; a window that was not known leaves no entry when it is forgotten.
pub proof fn change_of_a_window_or_server_is_told(
    w: World,
    name: Seq<char>,
    pid: Option<u32>,
    kind: Option<VisiblePaneKind>,
    url: Option<Seq<char>>,
    owner: Option<AppServerOwner>,
    now: Timestamp,
)
    ensures
        w.set_visible_pane(name, pid, kind, now) matches (after, Ok(a)) ==> {
            let old = w.agent(name)->Some_0;
            let known = old.visible_pane_pid is Some || old.visible_pane_kind is Some
                || old.visible_pane_registered_at is Some;
            &&& tells_agent(w, after, a)
            &&& pid is Some ==> has_entry(w, after, name, "visible_pane_registered"@)
            &&& pid is None && known ==> has_entry(w, after, name, "visible_pane_cleared"@)
            &&& pid is None && !known ==> after.outbox.len() == w.outbox.len() + 2
        },
        w.set_app_server(name, url, owner, now) matches (after, Ok(a)) ==> {
            &&& tells_agent(w, after, a)
            &&& a.app_server_url is Some ==> has_entry(w, after, name, "app_server_registered"@)
            &&& a.app_server_url is None ==> has_entry(w, after, name, "app_server_cleared"@)
        },
{
    let n = w.outbox.len() as int;
    if let (after, Ok(a)) = w.set_visible_pane(name, pid, kind, now) {
        assert(after.outbox[n] is SaveAgent && after.outbox[n + 1] is Publish);
        if after.outbox.len() > n + 2 {
            assert(after.outbox[n + 2] is AppendRuntimeEvent);
        }
    }
    if let (after, Ok(a)) = w.set_app_server(name, url, owner, now) {
        assert(after.outbox[n] is SaveAgent && after.outbox[n + 1] is Publish);
        assert(after.outbox[n + 2] is AppendRuntimeEvent);
    }
}

/// A session that begins or ends is told to the dashboards as it is then, by an event of the
/// type of what happened: its start, its success or its failure.
pub proof fn session_is_told(
    w: World,
    session: SessionModel,
    session_id: Seq<char>,
    status: CodexSessionStatus,
    ended_at: Timestamp,
    now: Timestamp,
)
    ensures
        adds(
            w,
            w.start_round_session(session, now).0,
            EffectModel::Publish {
                event: DashboardModel::SessionEvent { session, event_type: "session_started"@ },
            },
        ),
        w.session(session_id) is Some ==> ({
            let after = w.finalize_session(session_id, status, ended_at, false, now).0;
            let s = after.session(session_id)->Some_0;
            &&& status == CodexSessionStatus::Succeeded ==> adds(
                w,
                after,
                EffectModel::Publish {
                    event: DashboardModel::SessionEvent {
                        session: s,
                        event_type: "session_succeeded"@,
                    },
                },
            )
            &&& status == CodexSessionStatus::Failed ==> adds(
                w,
                after,
                EffectModel::Publish {
                    event: DashboardModel::SessionEvent {
                        session: s,
                        event_type: "session_failed"@,
                    },
                },
            )
        }),
{
    broadcast use {found_after_put, found_has_its_key};

    let n = w.outbox.len() as int;
    let begun = w.start_round_session(session, now).0;
    assert(begun.outbox[n + 1] is Publish);
    if w.session(session_id) is Some {
        let after = w.finalize_session(session_id, status, ended_at, false, now).0;
        assert(after.outbox[n + 1] is Publish);
    }
}

} // verus!
