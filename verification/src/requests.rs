//! What a request brings about, in the terms of its own fields.

use vstd::prelude::*;

use crate::control::{ControlRequest, ResponseModel};
use crate::dispatch::{answered, RequestFacts, StepModel, TraceKind};
use crate::json::read_json;
use crate::models::{
    AgentBootstrapState, AgentModel, AgentRole, AgentSessionState, AppServerOwner, DecisionModel,
    DraftModel, TaskModel, TaskRoundPayload, TaskState, VisiblePaneKind,
};
use crate::promises::{found_after_put, found_has_its_key, same_task};
use crate::record::{
    cancelled_task_is_kept, created_task_holds_the_request, decided_task_is_kept,
    effort_is_kept, ended_round_is_kept, holds_report, is_core_of, is_word_for, keeps_the_list,
    keeps_the_scope, other_tasks_stay, resolved_task_is_kept, retried_task_is_kept,
    same_decision, same_report, step_changes_the_state_alone, submitted_report_is_kept,
    write_scope_is_kept,
};
use crate::runs::{begun_round_runs_the_task, draft_is_planned};
use crate::standing::{
    agent_is_shown_with_its_task, app_server_is_kept, bootstrap_is_kept, core_where_any,
    only_changes, task_is_shown_with_its_agent, window_is_kept, words_are_read,
};
use crate::state::{EffectModel, World};
use crate::text::{lower, opt_text, texts, trimmed};
use crate::time::Timestamp;

verus! {

/// The request is answered with the given task.
pub open spec fn gives_task(r: Result<StepModel, Seq<char>>, task: TaskModel) -> bool {
    r == Ok::<StepModel, Seq<char>>(
        StepModel::Reply { response: ResponseModel::Task { task } },
    )
}

/// The request is answered with this agent.
pub open spec fn gives_agent(r: Result<StepModel, Seq<char>>, agent: AgentModel) -> bool {
    r == Ok::<StepModel, Seq<char>>(
        StepModel::Reply { response: ResponseModel::Agent { agent } },
    )
}

/// A request for a task is answered with a task that holds what was asked for: each part of
/// the request in the field of its name, brought into form.
pub proof fn requested_task_is_created(
    w: World,
    from_agent: String,
    to_agent: String,
    title: String,
    summary: String,
    effort: Option<String>,
    read_scope: Vec<String>,
    write_scope: Vec<String>,
    acceptance: Vec<String>,
    auto_resolve_by: Option<String>,
    auto_resolve_summary: Option<String>,
    facts: RequestFacts,
    fresh: Seq<char>,
    now: Timestamp,
)
    ensures
        ({
            let r = w.dispatch(
                ControlRequest::CreateTask {
                    from_agent,
                    to_agent,
                    title,
                    summary,
                    effort,
                    read_scope,
                    write_scope,
                    acceptance,
                    auto_resolve_by,
                    auto_resolve_summary,
                },
                facts,
                fresh,
                now,
            );
            r.1 is Ok ==> exists|task: TaskModel| #[trigger] gives_task(r.1, task) && {
                &&& r.0.task(task.task_id) == Some(task)
                &&& task.task_id == "T-"@ + fresh
                &&& task.from_agent == from_agent@
                &&& task.to_agent == to_agent@
                &&& is_core_of(task.title, title@)
                &&& is_core_of(task.summary, summary@)
                &&& effort_is_kept(task.effort, opt_text(effort))
                &&& keeps_the_scope(task.read_scope, texts(read_scope@))
                &&& w.agent(to_agent@) matches Some(a) && write_scope_is_kept(
                    task.write_scope,
                    texts(write_scope@),
                    a.cwd,
                )
                &&& keeps_the_list(task.acceptance, texts(acceptance@))
                &&& task.auto_resolve_by == opt_text(auto_resolve_by)
                &&& task.auto_resolve_summary == opt_text(auto_resolve_summary)
                &&& task.state == TaskState::Pending
                &&& task.created_at == now
                &&& r.0.agent(to_agent@) matches Some(a) && a.current_task_id == Some(task.task_id)
                    && a.state == AgentSessionState::Busy
            }
        }),
{
    broadcast use {found_after_put, found_has_its_key};

    let draft = DraftModel {
        title: title@,
        summary: summary@,
        effort: opt_text(effort),
        read_scope: texts(read_scope@),
        write_scope: texts(write_scope@),
        acceptance: texts(acceptance@),
    };
    let id = "T-"@ + fresh;
    created_task_holds_the_request(
        w,
        from_agent@,
        to_agent@,
        draft,
        opt_text(auto_resolve_by),
        opt_text(auto_resolve_summary),
        "control_request"@,
        id,
        now,
    );
    let made = w.create_task(
        from_agent@,
        to_agent@,
        draft,
        opt_text(auto_resolve_by),
        opt_text(auto_resolve_summary),
        "control_request"@,
        id,
        now,
    );
    if made.1 is Ok {
        let request = ControlRequest::CreateTask {
            from_agent,
            to_agent,
            title,
            summary,
            effort,
            read_scope,
            write_scope,
            acceptance,
            auto_resolve_by,
            auto_resolve_summary,
        };
        let r = w.dispatch(request, facts, fresh, now);
        assert(gives_task(r.1, made.1->Ok_0));
    }
}

/// A step of a task that its agent asks for is made exactly where the task is the agent's
/// and in the state before it, and is answered with the task in the state after it: a task
/// that waits is accepted, one that was accepted runs, one that runs is completed.
pub proof fn requested_step_is_made(
    w: World,
    task_id: String,
    agent: String,
    facts: RequestFacts,
    fresh: Seq<char>,
    now: Timestamp,
)
    ensures
        ({
            let accept = w.dispatch(
                ControlRequest::AcceptTask { task_id, agent },
                facts,
                fresh,
                now,
            );
            let start = w.dispatch(
                ControlRequest::StartTask { task_id, agent },
                facts,
                fresh,
                now,
            );
            let complete = w.dispatch(
                ControlRequest::CompleteTask { task_id, agent },
                facts,
                fresh,
                now,
            );
            let id = task_id@;
            let name = agent@;
            &&& steps(w, accept, id, name, TaskState::Pending, TaskState::Accepted)
            &&& steps(w, start, id, name, TaskState::Accepted, TaskState::Running)
            &&& steps(w, complete, id, name, TaskState::Running, TaskState::Completed)
        }),
{
    broadcast use {found_after_put, found_has_its_key};

    if let Some(t) = w.task(task_id@) {
        let a = Some(agent@);
        let accepted = "task_accepted"@;
        step_changes_the_state_alone(w, t, TaskState::Accepted, accepted, a, now);
        let running = "task_running"@;
        step_changes_the_state_alone(w, t, TaskState::Running, running, a, now);
        let completed = "task_completed"@;
        step_changes_the_state_alone(w, t, TaskState::Completed, completed, a, now);
    }
    let accept = w.dispatch(ControlRequest::AcceptTask { task_id, agent }, facts, fresh, now);
    let start = w.dispatch(ControlRequest::StartTask { task_id, agent }, facts, fresh, now);
    let complete = w.dispatch(ControlRequest::CompleteTask { task_id, agent }, facts, fresh, now);
    let id = task_id@;
    if accept.1 is Ok {
        assert(gives_task(accept.1, accept.0.task(id)->Some_0));
    }
    if start.1 is Ok {
        assert(gives_task(start.1, start.0.task(id)->Some_0));
    }
    if complete.1 is Ok {
        assert(gives_task(complete.1, complete.0.task(id)->Some_0));
    }
}

/// The outcome is a step of the agent's task from the one state into the other.
pub open spec fn steps(
    w: World,
    r: (World, Result<StepModel, Seq<char>>),
    task_id: Seq<char>,
    agent: Seq<char>,
    before: TaskState,
    after: TaskState,
) -> bool {
    &&& r.1 is Ok <==> (w.task(task_id) matches Some(t) && t.to_agent == agent && t.state == before)
    &&& r.1 is Err ==> r.0 == w
    &&& r.1 is Ok ==> (r.0.task(task_id) matches Some(t) && gives_task(r.1, t) && t.state == after
        && same_task(w.task(task_id)->Some_0, t) && same_report(w.task(task_id)->Some_0, t)
        && same_decision(w.task(task_id)->Some_0, t) && other_tasks_stay(w, r.0, task_id))
}

/// A report that an agent hands in is answered with the task that holds it, each part of the
/// report in the field of its name.
pub proof fn requested_report_is_kept(
    w: World,
    task_id: String,
    agent: String,
    blocking: String,
    topic: String,
    details: String,
    facts: RequestFacts,
    fresh: Seq<char>,
    now: Timestamp,
)
    ensures
        ({
            let r = w.dispatch(
                ControlRequest::ReportTask { task_id, agent, blocking, topic, details },
                facts,
                fresh,
                now,
            );
            &&& r.1 is Ok <==> (w.task(task_id@) matches Some(t) && t.to_agent == agent@ && t.state
                == TaskState::Completed)
            &&& r.1 is Err ==> r.0 == w
            &&& r.1 is Ok ==> (r.0.task(task_id@) matches Some(t) && gives_task(r.1, t)
                && holds_report(
                t,
                "report"@,
                Some(topic@),
                Some(blocking@),
                Some(topic@),
                Some(details@),
            ) && t.state == TaskState::Reported)
        }),
{
    submitted_report_is_kept(w, task_id@, agent@, blocking@, topic@, details@, now);
}

/// A decision that is asked for is sent as it was asked for, by whom and to whom, with its
/// words, and the task is closed exactly where that was asked for; it is answered with the
/// decision and the task.
pub proof fn requested_decision_is_sent(
    w: World,
    task_id: String,
    issued_by: String,
    target_agent: String,
    summary: String,
    auto_close: bool,
    facts: RequestFacts,
    fresh: Seq<char>,
    now: Timestamp,
)
    ensures
        ({
            let r = w.dispatch(
                ControlRequest::SendDecision {
                    task_id,
                    issued_by,
                    target_agent,
                    summary,
                    auto_close,
                },
                facts,
                fresh,
                now,
            );
            r.1 is Ok ==> exists|d: DecisionModel, t: TaskModel| #[trigger] gives_decided(
                r.1,
                d,
                t,
            ) && {
                &&& d.decision_id == "D-"@ + fresh
                &&& d.task_id == task_id@
                &&& d.issued_by == issued_by@
                &&& d.target_agent == target_agent@
                &&& d.summary == summary@
                &&& r.0.task(task_id@) == Some(t)
                &&& auto_close ==> t.state == TaskState::Closed
                &&& !auto_close ==> t.state == TaskState::Pending
            }
        }),
{
    let r = w.dispatch(
        ControlRequest::SendDecision { task_id, issued_by, target_agent, summary, auto_close },
        facts,
        fresh,
        now,
    );
    let id = "D-"@ + fresh;
    decided_task_is_kept(
        w,
        task_id@,
        issued_by@,
        target_agent@,
        summary@,
        auto_close,
        id,
        now,
    );
    if r.1 is Ok {
        let done = w.decide_task(
            task_id@,
            issued_by@,
            target_agent@,
            summary@,
            auto_close,
            id,
            now,
        ).1->Ok_0;
        assert(gives_decided(r.1, done.decision, done.task));
    }
}

/// The request is answered with the given decision and the given task.
pub open spec fn gives_decided(
    r: Result<StepModel, Seq<char>>,
    decision: DecisionModel,
    task: TaskModel,
) -> bool {
    r == Ok::<StepModel, Seq<char>>(
        StepModel::Reply { response: ResponseModel::DecisionTask { decision, task } },
    )
}

/// A report that is to be resolved is decided on by the analyzer with the words that were
/// given, and the task waits for its next round.
pub proof fn requested_resolution_is_made(
    w: World,
    task_id: String,
    analyzer: String,
    summary: String,
    facts: RequestFacts,
    fresh: Seq<char>,
    now: Timestamp,
)
    ensures
        ({
            let r = w.dispatch(
                ControlRequest::ResolveTask { task_id, analyzer, summary },
                facts,
                fresh,
                now,
            );
            r.1 is Ok ==> exists|d: DecisionModel, t: TaskModel| #[trigger] gives_decided(
                r.1,
                d,
                t,
            ) && {
                &&& d.decision_id == "D-"@ + fresh
                &&& d.task_id == task_id@
                &&& d.issued_by == analyzer@
                &&& d.target_agent == t.to_agent
                &&& d.summary == summary@
                &&& r.0.task(task_id@) == Some(t)
                &&& t.state == TaskState::Pending
            }
        }),
{
    let r = w.dispatch(
        ControlRequest::ResolveTask { task_id, analyzer, summary },
        facts,
        fresh,
        now,
    );
    let id = "D-"@ + fresh;
    resolved_task_is_kept(w, task_id@, analyzer@, summary@, id, now);
    if r.1 is Ok {
        let done = w.resolve_task(task_id@, analyzer@, summary@, id, now).1->Ok_0;
        assert(gives_decided(r.1, done.decision, done.task));
    }
}

/// A task that is to be looked at, given up or tried again is answered with the task as it
/// is then: analyzed, cancelled, or waiting.
pub proof fn requested_turn_of_a_task_is_made(
    w: World,
    task_id: String,
    by: String,
    facts: RequestFacts,
    fresh: Seq<char>,
    now: Timestamp,
)
    ensures
        ({
            let looked = w.dispatch(
                ControlRequest::AnalyzeTask { task_id, analyzer: by },
                facts,
                fresh,
                now,
            );
            let cancelled = w.dispatch(
                ControlRequest::CancelTask { task_id, requested_by: by },
                facts,
                fresh,
                now,
            );
            let retried = w.dispatch(
                ControlRequest::RetryTask { task_id, requested_by: by },
                facts,
                fresh,
                now,
            );
            let old = w.task(task_id@);
            &&& looked.1 is Ok <==> (old matches Some(t) && (t.state == TaskState::Reported
                || t.state == TaskState::BlockedWaitingDecision))
            &&& looked.1 is Ok ==> (looked.0.task(task_id@) matches Some(t) && gives_task(
                looked.1,
                t,
            ) && t.state == TaskState::Analyzed && same_task(old->Some_0, t) && same_report(
                old->Some_0,
                t,
            ))
            &&& cancelled.1 is Ok ==> (cancelled.0.task(task_id@) matches Some(t) && gives_task(
                cancelled.1,
                t,
            ) && t.state == TaskState::Cancelled && t.closed_at == Some(now) && same_task(
                old->Some_0,
                t,
            ))
            &&& retried.1 is Ok ==> (retried.0.task(task_id@) matches Some(t) && gives_task(
                retried.1,
                t,
            ) && t.state == TaskState::Pending && t.closed_at is None && same_task(old->Some_0, t)
                && same_report(old->Some_0, t))
            &&& retried.1 is Ok ==> old->Some_0.state == TaskState::Failed || old->Some_0.state
                == TaskState::Cancelled
        }),
{
    broadcast use {found_after_put, found_has_its_key};

    cancelled_task_is_kept(w, task_id@, by@, now);
    retried_task_is_kept(w, task_id@, by@, now);
    let states = crate::tasks::analyzable();
    if let Some(t) = w.task(task_id@) {
        step_changes_the_state_alone(w, t, TaskState::Analyzed, "main_analyzed"@, None, now);
        if states.contains(t.state) {
            let i = states.index_of(t.state);
        }
        assert(states[0] == TaskState::Reported);
        assert(states[1] == TaskState::BlockedWaitingDecision);
    }
}

/// A round that an agent hands in from its window is answered with that report and with the
/// task that holds it.
pub proof fn requested_visible_round_is_kept(
    w: World,
    task_id: String,
    agent: String,
    payload: TaskRoundPayload,
    facts: RequestFacts,
    fresh: Seq<char>,
    now: Timestamp,
)
    ensures
        ({
            let r = w.dispatch(
                ControlRequest::SubmitVisibleTaskRound { task_id, agent, payload },
                facts,
                fresh,
                now,
            );
            r.1 is Ok ==> {
                &&& w.task(task_id@) matches Some(old) && old.to_agent == agent@ && old.state
                    == TaskState::Running
                &&& r.1 matches Ok(StepModel::Reply { response }) && response matches
                    ResponseModel::VisibleTaskRound { task, payload: told, decision } && told
                    == payload@ && r.0.task(task_id@) == Some(task) && (
                task.latest_child_status matches Some(word) && is_word_for(word, payload@.status)
                    && holds_report(
                    task,
                    word,
                    Some(payload@.summary),
                    payload@.blocking,
                    payload@.topic,
                    payload@.details,
                ))
            }
        }),
{
    broadcast use found_has_its_key;

    if let Some(t) = w.task(task_id@) {
        ended_round_is_kept(
            w,
            t,
            payload@,
            None,
            now,
            facts.rendered_payload@,
            "visible_task_round_payload"@,
            "VISIBLE_TASK_ROUND"@,
            "D-"@ + fresh,
            now,
        );
    }
}

/// An agent that is to be registered is answered with its record, as the request gives it:
/// its role by its word, and as contract the path that was given, below its directory where
/// it is not absolute, else the default file of that directory.
pub proof fn requested_agent_is_registered(
    w: World,
    name: String,
    role: String,
    repo_name: Option<String>,
    cwd: String,
    prompt_path: Option<String>,
    facts: RequestFacts,
    fresh: Seq<char>,
    now: Timestamp,
)
    ensures
        ({
            let r = w.dispatch(
                ControlRequest::RegisterAgent { name, role, repo_name, cwd, prompt_path },
                facts,
                fresh,
                now,
            );
            &&& r.1 is Ok <==> role@ == "main"@ || role@ == "child"@
            &&& r.1 is Err ==> r.0 == w
            &&& r.1 is Ok ==> (r.0.agent(name@) matches Some(a) && gives_agent(r.1, a)
                && only_changes(w, r.0, name@, a) && a.name == name@ && a.repo_name == opt_text(
                repo_name,
            ) && a.cwd == cwd@ && (role@ == "main"@ <==> a.role == AgentRole::Main) && (role@
                == "child"@ <==> a.role == AgentRole::Child) && (prompt_path is None
                ==> a.prompt_path == opt_text(facts.prompt.default_file)) && (prompt_path is Some
                && facts.prompt.absolute ==> a.prompt_path == Some(prompt_path->Some_0@)) && (
            prompt_path is Some && !facts.prompt.absolute ==> a.prompt_path == Some(
                facts.prompt.below_cwd@,
            )) && a.bootstrap_state == AgentBootstrapState::AwaitingInit && a.state
                == AgentSessionState::Idle && a.current_task_id is None && a.thread_id is None)
        }),
{
    broadcast use {found_after_put, found_has_its_key};

    words_are_read(role@);
    reveal_strlit("main");
    reveal_strlit("child");
    assert("main"@.len() != "child"@.len());
}

/// A bootstrap that is to be noted is answered with the agent: ready, with the summary and
/// the thread of the request.
pub proof fn requested_bootstrap_is_noted(
    w: World,
    agent: String,
    summary: Option<String>,
    thread_id: Option<String>,
    facts: RequestFacts,
    fresh: Seq<char>,
    now: Timestamp,
)
    ensures
        ({
            let ready = w.dispatch(
                ControlRequest::MarkAgentReady { agent, summary, thread_id },
                facts,
                fresh,
                now,
            );
            let begun = w.dispatch(
                ControlRequest::BeginAgentBootstrap { agent },
                facts,
                fresh,
                now,
            );
            &&& ready.1 is Ok <==> w.agent(agent@) is Some
            &&& ready.1 is Ok ==> (ready.0.agent(agent@) matches Some(a) && gives_agent(ready.1, a)
                && a.bootstrap_state == AgentBootstrapState::Ready && core_where_any(
                a.bootstrap_summary,
                opt_text(summary),
            ) && a.bootstrap_completed_at == Some(now) && (thread_id is None ==> a.thread_id
                == w.agent(agent@)->Some_0.thread_id))
            &&& begun.1 is Ok <==> w.agent(agent@) is Some
            &&& begun.1 is Ok ==> (begun.0.agent(agent@) matches Some(a) && gives_agent(begun.1, a)
                && a.bootstrap_state == AgentBootstrapState::AwaitingInit && a.thread_id is None
                && a.app_server_url is None)
        }),
{
    bootstrap_is_kept(w, agent@, opt_text(summary), opt_text(thread_id), now);
}

/// A window or an app server that is to be registered is answered with the agent that has
/// it, by the word of its kind or its owner.
pub proof fn requested_window_and_server_are_kept(
    w: World,
    agent: String,
    pid: Option<u32>,
    kind: Option<String>,
    url: Option<String>,
    owner: Option<String>,
    facts: RequestFacts,
    fresh: Seq<char>,
    now: Timestamp,
)
    ensures
        ({
            let pane = w.dispatch(
                ControlRequest::SetAgentVisiblePane { agent, pid, kind },
                facts,
                fresh,
                now,
            );
            let server = w.dispatch(
                ControlRequest::SetAgentAppServer { agent, app_server_url: url, owner },
                facts,
                fresh,
                now,
            );
            &&& pane.1 is Err ==> pane.0 == w
            &&& pane.1 is Ok ==> (pane.0.agent(agent@) matches Some(a) && gives_agent(pane.1, a)
                && a.visible_pane_pid == pid && (pid is Some ==> (kind matches Some(k) && (lower(
                trimmed(k@),
            ) == "shell"@ <==> a.visible_pane_kind == Some(VisiblePaneKind::Shell)) && (lower(
                trimmed(k@),
            ) == "view"@ <==> a.visible_pane_kind == Some(VisiblePaneKind::View)))))
            &&& server.1 is Err ==> server.0 == w
            &&& server.1 is Ok ==> (server.0.agent(agent@) matches Some(a) && gives_agent(
                server.1,
                a,
            ) && core_where_any(a.app_server_url, opt_text(url)) && (owner is Some
                && a.app_server_url is Some ==> (lower(trimmed(owner->Some_0@)) == "bridge"@
                <==> a.app_server_owner == Some(AppServerOwner::Bridge)) && (lower(
                trimmed(owner->Some_0@),
            ) == "daemon"@ <==> a.app_server_owner == Some(AppServerOwner::Daemon))))
        }),
{
    if let Some(k) = kind {
        words_are_read(k@);
        if let Ok(named) = crate::agents::pane_kind_named(k@) {
            window_is_kept(w, agent@, pid, Some(named), now);
        }
    } else {
        window_is_kept(w, agent@, pid, None, now);
    }
    if let Some(o) = owner {
        words_are_read(o@);
        if let Ok(named) = crate::agents::owner_named(o@) {
            app_server_is_kept(w, agent@, opt_text(url), Some(named), now);
            if let Some(u) = url {
                crate::record::trimming_keeps_the_core(u@);
                crate::record::lemma_blank(u@);
            }
        }
    } else {
        app_server_is_kept(w, agent@, opt_text(url), None, now);
    }
}

/// What is asked of an agent or a task is told, and nothing changes.
pub proof fn requested_look_is_given(
    w: World,
    agent: String,
    task_id: String,
    facts: RequestFacts,
    fresh: Seq<char>,
    now: Timestamp,
)
    ensures
        ({
            let of_agent = w.dispatch(ControlRequest::AgentContext { agent }, facts, fresh, now);
            let of_task = w.dispatch(ControlRequest::TaskContext { task_id }, facts, fresh, now);
            let ping = w.dispatch(ControlRequest::Ping, facts, fresh, now);
            let all = w.dispatch(ControlRequest::Snapshot, facts, fresh, now);
            &&& of_agent.0 == w && of_task.0 == w && ping.0 == w && all.0 == w
            &&& of_agent.1 is Ok <==> w.agent(agent@) is Some
            &&& of_agent.1 is Ok ==> (of_agent.1->Ok_0 matches StepModel::Reply { response }
                && response matches ResponseModel::AgentContext { context } && Some(context.agent)
                == w.agent(agent@))
            &&& of_task.1 is Ok <==> w.task(task_id@) is Some
            &&& of_task.1 is Ok ==> (of_task.1->Ok_0 matches StepModel::Reply { response }
                && response matches ResponseModel::TaskContext { context } && Some(context.task)
                == w.task(task_id@) && context.agent == w.agent(context.task.to_agent))
            &&& ping.1 == Ok::<StepModel, Seq<char>>(
                StepModel::Reply { response: ResponseModel::Pong },
            )
        }),
{
    agent_is_shown_with_its_task(w, agent@, crate::table::views(facts.context_sources@));
    task_is_shown_with_its_agent(w, task_id@, crate::table::views(facts.context_sources@));
}

/// A trace is asked of the ledger for the agent where one is named, else for the task, else
/// for the session, and for at least one entry and at most five hundred; one that names
/// nothing is refused.
pub proof fn requested_trace_is_asked(
    w: World,
    agent: Option<String>,
    task_id: Option<String>,
    session_id: Option<String>,
    limit: usize,
    facts: RequestFacts,
    fresh: Seq<char>,
    now: Timestamp,
)
    ensures
        ({
            let r = w.dispatch(
                ControlRequest::Trace { agent, task_id, session_id, limit },
                facts,
                fresh,
                now,
            );
            &&& r.0 == w
            &&& r.1 is Ok <==> agent is Some || task_id is Some || session_id is Some
            &&& r.1 is Ok ==> (r.1->Ok_0 matches StepModel::QueryTrace { kind, value, limit: n } && 1
                <= n <= 500 && (1 <= limit <= 500 ==> n == limit) && (limit > 500 ==> n == 500) && (
            agent is Some ==> kind == TraceKind::Agent && value == agent->Some_0@) && (agent is None
                && task_id is Some ==> kind == TraceKind::Task && value == task_id->Some_0@) && (
            agent is None && task_id is None ==> kind == TraceKind::Session && value
                == session_id->Some_0@))
        }),
{
}

/// An entry for the ledger is written as it was asked for, each part in the field of its
/// name; one whose payload is not JSON is refused.
pub proof fn requested_entry_is_written(
    w: World,
    scope: String,
    scope_id: String,
    agent: Option<String>,
    task_id: Option<String>,
    session_id: Option<String>,
    actor: Option<String>,
    event_type: String,
    summary: String,
    reason: Option<String>,
    payload_json: Option<String>,
    facts: RequestFacts,
    fresh: Seq<char>,
    now: Timestamp,
)
    ensures
        ({
            let r = w.dispatch(
                ControlRequest::AppendRuntimeEvent {
                    scope,
                    scope_id,
                    agent,
                    task_id,
                    session_id,
                    actor,
                    event_type,
                    summary,
                    reason,
                    payload_json,
                },
                facts,
                fresh,
                now,
            );
            let valid = payload_json is None || read_json(payload_json->Some_0@) is Ok;
            &&& r.1 is Ok <==> valid
            &&& !valid ==> r.0 == w
            &&& valid ==> {
                &&& r.0.outbox.len() == w.outbox.len() + 1
                &&& r.0.outbox.drop_last() == w.outbox
                &&& r.0.outbox.last() matches EffectModel::AppendRuntimeEvent { event }
                    && event.scope == scope@ && event.scope_id == scope_id@ && event.agent_name
                    == opt_text(agent) && event.task_id == opt_text(task_id) && event.session_id
                    == opt_text(session_id) && event.actor_name == opt_text(actor)
                    && event.event_type == event_type@ && event.summary == summary@ && event.reason
                    == opt_text(reason) && event.payload_json == opt_text(payload_json)
                &&& r.0 == World { outbox: r.0.outbox, ..w }
            }
        }),
{
    let r = w.dispatch(
        ControlRequest::AppendRuntimeEvent {
            scope,
            scope_id,
            agent,
            task_id,
            session_id,
            actor,
            event_type,
            summary,
            reason,
            payload_json,
        },
        facts,
        fresh,
        now,
    );
    if r.1 is Ok {
        assert(r.0.outbox.drop_last() =~= w.outbox);
    }
}

/// A round that is asked for is run with the agent as it was and the prompt of the request,
/// or with the task and its agent as they were; a task that is to be drafted, with the two
/// agents and what is asked.
pub proof fn requested_round_is_begun(
    w: World,
    agent: String,
    prompt: String,
    task_id: String,
    to_agent: String,
    facts: RequestFacts,
    fresh: Seq<char>,
    now: Timestamp,
)
    ensures
        ({
            let ad_hoc = w.dispatch(
                ControlRequest::RunAgentRound { agent, prompt },
                facts,
                fresh,
                now,
            );
            let of_task = w.dispatch(ControlRequest::RunTaskRound { task_id }, facts, fresh, now);
            let draft = w.dispatch(
                ControlRequest::CreateTaskFromPrompt {
                    from_agent: agent,
                    to_agent,
                    request: prompt,
                },
                facts,
                fresh,
                now,
            );
            &&& ad_hoc.1 is Ok ==> (ad_hoc.1->Ok_0 matches StepModel::RunAgentRound {
                agent: a,
                prompt: p,
            } && w.agent(agent@) == Some(a) && p == prompt@ && (ad_hoc.0.agent(agent@) matches Some(
                b,
            ) && b.state == AgentSessionState::Busy))
            &&& of_task.1 is Ok ==> (of_task.1->Ok_0 matches StepModel::RunTaskRound { start }
                && w.task(task_id@) == Some(start.task) && w.agent(start.task.to_agent) == Some(
                start.agent,
            ) && (of_task.0.task(task_id@) matches Some(t) && t.state == TaskState::Running))
            &&& draft.1 is Ok ==> (draft.1->Ok_0 matches StepModel::DraftTask { draft: d }
                && w.agent(agent@) == Some(d.source) && w.agent(to_agent@) == Some(d.target)
                && is_core_of(d.request, prompt@))
            &&& draft.0 == w
        }),
{
    broadcast use {found_after_put, found_has_its_key};

    begun_round_runs_the_task(w, task_id@, now);
    draft_is_planned(w, agent@, to_agent@, prompt@);
}

/// A failure is answered with its message, and everything else with what it is.
pub proof fn failure_is_answered(r: Result<ResponseModel, Seq<char>>)
    ensures
        r matches Ok(response) ==> answered(r) == response,
        r matches Err(message) ==> answered(r) == (ResponseModel::Error { message }),
{
}

/// What is asked of an agent or of a decision is done to the one that is named, and answered
/// with what came of it.
pub proof fn requested_act_is_on_the_one_named(
    w: World,
    agent: String,
    task_id: String,
    facts: RequestFacts,
    fresh: Seq<char>,
    now: Timestamp,
)
    ensures
        ({
            let touched = w.dispatch(ControlRequest::TouchAgent { agent }, facts, fresh, now);
            let recovered = w.dispatch(ControlRequest::RecoverAgent { agent }, facts, fresh, now);
            let reset = w.dispatch(ControlRequest::ResetAgentThread { agent }, facts, fresh, now);
            let begun = w.dispatch(ControlRequest::BeginVisibleTask { agent }, facts, fresh, now);
            let acked = w.dispatch(
                ControlRequest::AcknowledgeDecision { task_id, agent },
                facts,
                fresh,
                now,
            );
            let closed = w.dispatch(
                ControlRequest::CloseTask { task_id, agent },
                facts,
                fresh,
                now,
            );
            &&& touched.0 == w.touch_agent(agent@, now).0
            &&& w.touch_agent(agent@, now).1 matches Ok(a) ==> gives_agent(touched.1, a)
            &&& recovered.0 == w.recover_agent(agent@, now).0
            &&& w.recover_agent(agent@, now).1 matches Ok(a) ==> gives_agent(recovered.1, a)
            &&& reset.0 == w.reset_thread(agent@, now).0
            &&& w.reset_thread(agent@, now).1 matches Ok(a) ==> gives_agent(reset.1, a)
            &&& begun.0 == w.begin_visible_task(agent@, now).0
            &&& w.begin_visible_task(agent@, now).1 matches Ok(t) ==> gives_task(begun.1, t)
            &&& acked.0 == w.acknowledge_decision(task_id@, agent@, true, now).0
            &&& w.acknowledge_decision(task_id@, agent@, true, now).1 matches Ok(d) ==> acked.1
                == Ok::<StepModel, Seq<char>>(
                StepModel::Reply { response: ResponseModel::Decision { decision: d } },
            )
            &&& closed.1 is Ok ==> (closed.0.task(task_id@) matches Some(t) && gives_task(
                closed.1,
                t,
            ) && t.state == TaskState::Closed && t.closed_at == Some(now))
        }),
{
    crate::record::lemma_reopened_tasks(w, task_id@, agent@, now);
}

/// A stop is asked of the session that the agent named has, of every server of the daemon, or
/// of every window; a server is started for the agent named, with the prompt of the request.
pub proof fn requested_stop_and_start_are_made(
    w: World,
    agent: String,
    bootstrap_prompt: Option<String>,
    facts: RequestFacts,
    fresh: Seq<char>,
    now: Timestamp,
)
    ensures
        ({
            let one = w.dispatch(ControlRequest::StopAgentSession { agent }, facts, fresh, now);
            let servers = w.dispatch(ControlRequest::StopManagedSessions, facts, fresh, now);
            let panes = w.dispatch(ControlRequest::StopVisiblePanes, facts, fresh, now);
            let managed = w.dispatch(
                ControlRequest::EnsureManagedSession { agent, bootstrap_prompt },
                facts,
                fresh,
                now,
            );
            &&& one.0 == w.take_session_to_stop(agent@).0
            &&& w.take_session_to_stop(agent@).1 matches Ok(stop) ==> one.1 == Ok::<
                StepModel,
                Seq<char>,
            >(StepModel::StopSession { stop })
            &&& servers.0 == w.take_managed_sessions().0
            &&& servers.1 == Ok::<StepModel, Seq<char>>(
                StepModel::StopManaged { sessions: w.take_managed_sessions().1 },
            )
            &&& panes.0 == w
            &&& panes.1 == Ok::<StepModel, Seq<char>>(
                StepModel::StopPanes { agents: w.panes_to_stop() },
            )
            &&& managed.0 == w.begin_managed(agent@, now).0
            &&& w.begin_managed(agent@, now).1 matches Ok(start) ==> managed.1 == Ok::<
                StepModel,
                Seq<char>,
            >(StepModel::Manage { start, bootstrap_prompt: opt_text(bootstrap_prompt) })
        }),
{
}

/// A removal and a cleanup are planned, and change nothing until the database has done its
/// part; a cleanup with nothing to do is answered at once. A repair is done and told.
pub proof fn requested_upkeep_is_planned(
    w: World,
    agent: String,
    facts: RequestFacts,
    fresh: Seq<char>,
    now: Timestamp,
)
    ensures
        ({
            let removal = w.dispatch(ControlRequest::RemoveAgent { agent }, facts, fresh, now);
            let cleanup = w.dispatch(
                ControlRequest::CleanupDemoData { requested_by: agent },
                facts,
                fresh,
                now,
            );
            let repair = w.dispatch(
                ControlRequest::RepairRuntimeState { requested_by: agent },
                facts,
                fresh,
                now,
            );
            &&& removal.0 == w && cleanup.0 == w
            &&& w.plan_removal(agent@) matches Ok(plan) ==> removal.1 == Ok::<StepModel, Seq<char>>(
                StepModel::Remove { agent: agent@, plan },
            )
            &&& w.plan_cleanup(agent@) matches Ok(plan) ==> (plan.agents.len() > 0
                || plan.task_ids.len() > 0 ==> cleanup.1 == Ok::<StepModel, Seq<char>>(
                StepModel::Cleanup { requested_by: agent@, plan },
            ))
            &&& repair.0 == w.repair(agent@, now).0
            &&& w.repair(agent@, now).1 matches Ok(summary) ==> repair.1 == Ok::<
                StepModel,
                Seq<char>,
            >(StepModel::Reply { response: ResponseModel::Repair { summary } })
        }),
{
}

} // verus!
