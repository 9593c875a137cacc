//! What the records say after an operation: each fact in the field of its name.

use vstd::prelude::*;

use crate::draft::{clean_list, clean_scope, has_key, normal_draft, scope_key};
use crate::models::{
    AgentBootstrapState, AgentModel, AgentSessionState, DecisionModel, DraftModel, PayloadModel, TaskModel,
    TaskRoundStatus, TaskState,
};
use crate::promises::{found_after_put, found_has_its_key, same_task};
use crate::state::World;
use crate::table::found;
use crate::text::{
    backslashed, drop_space, is_space, lower, skip_space, trimmed, trimmed_is_idempotent,
};
use crate::time::Timestamp;

verus! {

/// All of the text is white space.
pub open spec fn blank(s: Seq<char>) -> bool {
    forall|i: int| 0 <= i < s.len() ==> is_space(#[trigger] s[i])
}

/// The first text is the second without the white space around it, and no more is gone.
pub open spec fn is_core_of(core: Seq<char>, s: Seq<char>) -> bool {
    &&& exists|before: Seq<char>, after: Seq<char>|
        s == #[trigger] (before + core + after) && blank(before) && blank(after)
    &&& core.len() > 0 ==> !is_space(core[0]) && !is_space(core.last())
}

proof fn lemma_skipped(s: Seq<char>) -> (before: Seq<char>)
    ensures
        s == before + skip_space(s),
        blank(before),
        skip_space(s).len() > 0 ==> !is_space(skip_space(s)[0]),
    decreases s.len(),
{
    if s.len() > 0 && is_space(s[0]) {
        let b = lemma_skipped(s.skip(1));
        let before = seq![s[0]] + b;
        assert(s =~= seq![s[0]] + s.skip(1));
        assert(s =~= before + skip_space(s));
        before
    } else {
        assert(s =~= Seq::<char>::empty() + s);
        Seq::empty()
    }
}

proof fn lemma_dropped(s: Seq<char>) -> (after: Seq<char>)
    ensures
        s == drop_space(s) + after,
        blank(after),
        drop_space(s).len() > 0 ==> !is_space(drop_space(s).last()),
    decreases s.len(),
{
    if s.len() > 0 && is_space(s.last()) {
        let a = lemma_dropped(s.drop_last());
        let after = a.push(s.last());
        assert(s =~= s.drop_last().push(s.last()));
        assert(s =~= drop_space(s) + after);
        after
    } else {
        assert(s =~= s + Seq::<char>::empty());
        Seq::empty()
    }
}

/// Trimming takes away the white space at both ends and nothing else.
pub proof fn trimming_keeps_the_core(s: Seq<char>)
    ensures
        is_core_of(trimmed(s), s),
{
    let before = lemma_skipped(s);
    let mid = skip_space(s);
    let after = lemma_dropped(mid);
    assert(s =~= before + trimmed(s) + after);
    if trimmed(s).len() > 0 {
        assert(mid[0] == trimmed(s)[0]);
    }
}

/// The places of the kept items, in order: each kept item is what stands there, trimmed.
pub open spec fn picks(kept: Seq<Seq<char>>, asked: Seq<Seq<char>>, at: Seq<int>) -> bool {
    &&& at.len() == kept.len()
    &&& forall|j: int| 0 <= j < at.len() ==> 0 <= #[trigger] at[j] < asked.len()
    &&& forall|j: int, k: int| 0 <= j < k < at.len() ==> #[trigger] at[j] < #[trigger] at[k]
    &&& forall|j: int| 0 <= j < kept.len() ==> is_core_of(#[trigger] kept[j], asked[at[j]])
}

/// The list is what was asked for, item by item and trimmed, without the blank items.
pub open spec fn keeps_the_list(kept: Seq<Seq<char>>, asked: Seq<Seq<char>>) -> bool {
    exists|at: Seq<int>| #[trigger]
        picks(kept, asked, at) && forall|i: int|
            0 <= i < asked.len() ==> (at.contains(i) <==> !blank(#[trigger] asked[i]))
}

/// The two entries name the same path: capitals and the kind of slash do not count.
pub open spec fn same_path(a: Seq<char>, b: Seq<char>) -> bool {
    lower(backslashed(trimmed(a))) == lower(backslashed(trimmed(b)))
}

/// The scope is what was asked for, entry by entry and trimmed, without the blank entries
/// and without those that name the path of an earlier one.
pub open spec fn keeps_the_scope(kept: Seq<Seq<char>>, asked: Seq<Seq<char>>) -> bool {
    exists|at: Seq<int>| #[trigger]
        picks(kept, asked, at) && forall|i: int|
            0 <= i < asked.len() ==> (at.contains(i) <==> !blank(#[trigger] asked[i]) && forall|
                e: int,
            |
                0 <= e < i && !blank(#[trigger] asked[e]) ==> !same_path(asked[e], asked[i]))
}

pub proof fn lemma_blank(s: Seq<char>)
    ensures
        blank(s) <==> trimmed(s).len() == 0,
{
    trimming_keeps_the_core(s);
    let core = trimmed(s);
    let (b, a) = choose|b: Seq<char>, a: Seq<char>|
        s == #[trigger] (b + core + a) && blank(b) && blank(a);
    if core.len() > 0 {
        assert(s[b.len() as int] == core[0]);
        assert(!is_space(s[b.len() as int]));
    } else {
        assert forall|i: int| 0 <= i < s.len() implies is_space(#[trigger] s[i]) by {
            if i < b.len() {
                assert(s[i] == b[i]);
            } else {
                assert(s[i] == a[i - b.len()]);
            }
        }
    }
}

proof fn lemma_list_places(items: Seq<Seq<char>>) -> (at: Seq<int>)
    ensures
        picks(clean_list(items), items, at),
        forall|i: int| 0 <= i < items.len() ==> (at.contains(i) <==> !blank(#[trigger] items[i])),
    decreases items.len(),
{
    if items.len() == 0 {
        Seq::empty()
    } else {
        let head = items.drop_last();
        let n = items.len() - 1;
        let before = lemma_list_places(head);
        lemma_blank(items.last());
        trimming_keeps_the_core(items.last());
        let kept = clean_list(items);
        let at = if trimmed(items.last()).len() == 0 {
            before
        } else {
            before.push(n)
        };
        assert forall|j: int| 0 <= j < kept.len() implies is_core_of(
            #[trigger] kept[j],
            items[at[j]],
        ) by {
            if j < before.len() {
                assert(is_core_of(clean_list(head)[j], head[before[j]]));
            }
        }
        assert forall|i: int| 0 <= i < items.len() implies (at.contains(i) <==> !blank(
            #[trigger] items[i],
        )) by {
            lemma_last_place(before, at, n, i);
            if i < n {
                assert(head[i] == items[i]);
            }
        }
        at
    }
}

proof fn lemma_last_place(before: Seq<int>, at: Seq<int>, n: int, i: int)
    requires
        at == before || at == before.push(n),
        forall|j: int| 0 <= j < before.len() ==> 0 <= #[trigger] before[j] < n,
    ensures
        i < n ==> (at.contains(i) <==> before.contains(i)),
        i == n ==> (at.contains(i) <==> at == before.push(n)),
{
    if at.contains(i) {
        let j = choose|j: int| 0 <= j < at.len() && at[j] == i;
        if j < before.len() {
            assert(before[j] == i);
        }
    }
    if before.contains(i) {
        let j = choose|j: int| 0 <= j < before.len() && before[j] == i;
        assert(at[j] == i);
    }
    if at == before.push(n) {
        assert(at[at.len() - 1] == n);
    }
}

proof fn lemma_scope_places(items: Seq<Seq<char>>) -> (at: Seq<int>)
    ensures
        picks(clean_scope(items), items, at),
        forall|j: int|
            0 <= j < at.len() ==> #[trigger] clean_scope(items)[j] == trimmed(items[at[j]]),
        forall|i: int|
            0 <= i < items.len() ==> (at.contains(i) <==> !blank(#[trigger] items[i]) && forall|
                e: int,
            |
                0 <= e < i && !blank(#[trigger] items[e]) ==> !same_path(items[e], items[i])),
    decreases items.len(),
{
    if items.len() == 0 {
        Seq::empty()
    } else {
        let head = items.drop_last();
        let n = items.len() - 1;
        let before = lemma_scope_places(head);
        let rest = clean_scope(head);
        let item = trimmed(items.last());
        lemma_blank(items.last());
        trimming_keeps_the_core(items.last());
        trimmed_is_idempotent(items.last());
        let kept = clean_scope(items);
        let added = !(item.len() == 0 || has_key(rest, scope_key(item)));
        let at = if added {
            before.push(n)
        } else {
            before
        };
        assert forall|j: int| 0 <= j < kept.len() implies is_core_of(
            #[trigger] kept[j],
            items[at[j]],
        ) && kept[j] == trimmed(items[at[j]]) by {
            if j < before.len() {
                assert(is_core_of(rest[j], head[before[j]]));
                assert(rest[j] == trimmed(head[before[j]]));
            }
        }
        crate::draft::clean_scope_covers_the_scope(head);
        assert(has_key(rest, scope_key(item)) <==> exists|e: int|
            0 <= e < n && !blank(#[trigger] items[e]) && same_path(items[e], items[n])) by {
            if has_key(rest, scope_key(item)) {
                let j = choose|j: int|
                    0 <= j < rest.len() && scope_key(#[trigger] rest[j]) == scope_key(item);
                let e = before[j];
                trimmed_is_idempotent(items[e]);
                assert(rest[j] == trimmed(head[e]));
                assert(head[e] == items[e]);
                assert(before.contains(e));
                assert(!blank(head[e]));
                assert(same_path(items[e], items[n]));
            }
            if exists|e: int|
                0 <= e < n && !blank(#[trigger] items[e]) && same_path(items[e], items[n]) {
                let e = choose|e: int|
                    0 <= e < n && !blank(#[trigger] items[e]) && same_path(items[e], items[n]);
                assert(head[e] == items[e]);
                lemma_blank(items[e]);
                assert(has_key(rest, scope_key(head[e])));
                assert(scope_key(head[e]) == scope_key(item));
            }
        }
        assert forall|i: int| 0 <= i < items.len() implies (at.contains(i) <==> !blank(
            #[trigger] items[i],
        ) && forall|e: int|
            0 <= e < i && !blank(#[trigger] items[e]) ==> !same_path(items[e], items[i])) by {
            lemma_last_place(before, at, n, i);
            if i < n {
                assert(head[i] == items[i]);
                assert forall|e: int| 0 <= e < i implies head[e] == #[trigger] items[e] by {}
            }
        }
        at
    }
}

/// The draft that a task is made of has each part of what was asked for in its own field,
/// brought into form: the wording trimmed, the effort in small letters where it is one of
/// the three that are known, the lists without blank items, the scopes without repeats,
/// and the agent's directory as write scope where none is given.
pub proof fn draft_keeps_each_part(cwd: Seq<char>, d: DraftModel)
    ensures
        normal_draft(cwd, d) matches Ok(n) ==> {
            &&& is_core_of(n.title, d.title) && n.title.len() > 0
            &&& is_core_of(n.summary, d.summary) && n.summary.len() > 0
            &&& effort_is_kept(n.effort, d.effort)
            &&& keeps_the_scope(n.read_scope, d.read_scope)
            &&& keeps_the_list(n.acceptance, d.acceptance)
            &&& write_scope_is_kept(n.write_scope, d.write_scope, cwd)
        },
        blank(d.title) || blank(d.summary) ==> normal_draft(cwd, d) is Err,
{
    trimming_keeps_the_core(d.title);
    trimming_keeps_the_core(d.summary);
    lemma_blank(d.title);
    lemma_blank(d.summary);
    let r = lemma_scope_places(d.read_scope);
    let w = lemma_scope_places(d.write_scope);
    let a = lemma_list_places(d.acceptance);
    if normal_draft(cwd, d) is Ok {
        let n = normal_draft(cwd, d)->Ok_0;
        assert(picks(n.read_scope, d.read_scope, r));
        assert(picks(n.acceptance, d.acceptance, a));
        let clean = clean_scope(d.write_scope);
        if clean.len() > 0 {
            assert(picks(n.write_scope, d.write_scope, w));
            let i = w[0];
            assert(w.contains(i));
            assert(!blank(d.write_scope[i]));
        } else {
            assert forall|i: int| 0 <= i < d.write_scope.len() implies blank(
                #[trigger] d.write_scope[i],
            ) by {
                crate::draft::clean_scope_covers_the_scope(d.write_scope);
                lemma_blank(d.write_scope[i]);
            }
        }
    }
}

/// The effort that is kept: the one that was asked for in small letters, where it is
/// medium, high or xhigh, and none otherwise.
pub open spec fn effort_is_kept(kept: Option<Seq<char>>, asked: Option<Seq<char>>) -> bool {
    &&& asked is None ==> kept is None
    &&& kept matches Some(k) ==> asked is Some && k == lower(trimmed(asked->Some_0)) && (k
        == "medium"@ || k == "high"@ || k == "xhigh"@)
    &&& asked matches Some(v) ==> (lower(trimmed(v)) == "medium"@ || lower(trimmed(v)) == "high"@
        || lower(trimmed(v)) == "xhigh"@ ==> kept is Some)
}

/// The write scope that is kept: the one that was asked for, or the agent's directory
/// where nothing but blank entries was.
pub open spec fn write_scope_is_kept(
    kept: Seq<Seq<char>>,
    asked: Seq<Seq<char>>,
    cwd: Seq<char>,
) -> bool {
    &&& (exists|i: int| 0 <= i < asked.len() && !blank(#[trigger] asked[i])) ==> keeps_the_scope(
        kept,
        asked,
    )
    &&& (forall|i: int| 0 <= i < asked.len() ==> blank(#[trigger] asked[i])) ==> kept == seq![cwd]
}

/// A task that was created is kept under its number, and holds what was asked for, each
/// part brought into form in the field of its name; it waits, nothing was reported on it
/// and nothing decided.
pub proof fn created_task_holds_the_request(
    w: World,
    from: Seq<char>,
    to: Seq<char>,
    draft: DraftModel,
    by: Option<Seq<char>>,
    standing: Option<Seq<char>>,
    why: Seq<char>,
    task_id: Seq<char>,
    now: Timestamp,
)
    ensures
        w.create_task(from, to, draft, by, standing, why, task_id, now) matches (after, Ok(task))
            ==> {
            &&& after.task(task_id) == Some(task)
            &&& forall|id: Seq<char>|
                id != task_id ==> #[trigger] after.task(id) == w.task(id)
            &&& task.task_id == task_id
            &&& task.from_agent == from
            &&& task.to_agent == to
            &&& is_core_of(task.title, draft.title) && task.title.len() > 0
            &&& is_core_of(task.summary, draft.summary) && task.summary.len() > 0
            &&& effort_is_kept(task.effort, draft.effort)
            &&& keeps_the_scope(task.read_scope, draft.read_scope)
            &&& w.agent(to) matches Some(a) && write_scope_is_kept(
                task.write_scope,
                draft.write_scope,
                a.cwd,
            )
            &&& keeps_the_list(task.acceptance, draft.acceptance)
            &&& task.auto_resolve_by == by
            &&& task.auto_resolve_summary == standing
            &&& task.state == TaskState::Pending
            &&& task.created_at == now && task.updated_at == now && task.closed_at is None
            &&& task.round_count == 0
            &&& nothing_reported(task)
            &&& nothing_decided(task)
            &&& after.agent(to) matches Some(a) && a.current_task_id == Some(task_id) && a.state
                == AgentSessionState::Busy && a.cwd == w.agent(to)->Some_0.cwd && a.thread_id
                == w.agent(to)->Some_0.thread_id
        },
{
    broadcast use {found_after_put, found_has_its_key};

    if let Some(a) = w.agent(to) {
        draft_keeps_each_part(a.cwd, draft);
    }
}

pub open spec fn nothing_reported(t: TaskModel) -> bool {
    &&& t.latest_child_status is None
    &&& t.latest_child_summary is None
    &&& t.latest_child_blocking is None
    &&& t.latest_child_topic is None
    &&& t.latest_child_details is None
}

pub open spec fn nothing_decided(t: TaskModel) -> bool {
    &&& t.latest_decision_id is None
    &&& t.latest_decision_summary is None
    &&& t.latest_decision_status is None
    &&& t.latest_decision_issued_by is None
    &&& t.latest_decision_at is None
}

/// The task holds this report, each part in the field of its name.
pub open spec fn holds_report(
    t: TaskModel,
    status: Seq<char>,
    summary: Option<Seq<char>>,
    blocking: Option<Seq<char>>,
    topic: Option<Seq<char>>,
    details: Option<Seq<char>>,
) -> bool {
    &&& t.latest_child_status == Some(status)
    &&& t.latest_child_summary == summary
    &&& t.latest_child_blocking == blocking
    &&& t.latest_child_topic == topic
    &&& t.latest_child_details == details
}

/// Both tasks hold the same report.
pub open spec fn same_report(a: TaskModel, b: TaskModel) -> bool {
    &&& a.round_count == b.round_count
    &&& a.latest_child_status == b.latest_child_status
    &&& a.latest_child_summary == b.latest_child_summary
    &&& a.latest_child_blocking == b.latest_child_blocking
    &&& a.latest_child_topic == b.latest_child_topic
    &&& a.latest_child_details == b.latest_child_details
}

/// Both tasks hold the same decision.
pub open spec fn same_decision(a: TaskModel, b: TaskModel) -> bool {
    &&& a.latest_decision_id == b.latest_decision_id
    &&& a.latest_decision_summary == b.latest_decision_summary
    &&& a.latest_decision_status == b.latest_decision_status
    &&& a.latest_decision_issued_by == b.latest_decision_issued_by
    &&& a.latest_decision_at == b.latest_decision_at
}

/// The task holds this decision, each part in the field of its name.
pub open spec fn holds_decision(t: TaskModel, d: DecisionModel) -> bool {
    &&& t.latest_decision_id == Some(d.decision_id)
    &&& t.latest_decision_summary == Some(d.summary)
    &&& t.latest_decision_status == Some(d.status)
    &&& t.latest_decision_issued_by == Some(d.issued_by)
    &&& t.latest_decision_at == Some(d.created_at)
}

/// No other task has changed.
pub open spec fn other_tasks_stay(before: World, after: World, task_id: Seq<char>) -> bool {
    forall|id: Seq<char>| id != task_id ==> #[trigger] after.task(id) == before.task(id)
}

/// A report is kept in the task's record, its status, summary, blocking, topic and details
/// each in the field of that name; it counts as one round more, and nothing else about
/// the task changes, nor does any other task.
pub proof fn report_is_kept(
    w: World,
    task: TaskModel,
    status: Seq<char>,
    summary: Option<Seq<char>>,
    blocking: Option<Seq<char>>,
    topic: Option<Seq<char>>,
    details: Option<Seq<char>>,
    event_type: Seq<char>,
    now: Timestamp,
)
    ensures
        ({
            let r = w.child_feedback(
                task,
                status,
                summary,
                blocking,
                topic,
                details,
                event_type,
                now,
            );
            &&& r.0.task(task.task_id) == Some(r.1)
            &&& other_tasks_stay(w, r.0, task.task_id)
            &&& holds_report(r.1, status, summary, blocking, topic, details)
            &&& task.round_count < u32::MAX ==> r.1.round_count == task.round_count + 1
            &&& task.round_count == u32::MAX ==> r.1.round_count == u32::MAX
            &&& r.1.updated_at == now
            &&& same_task(task, r.1)
            &&& same_decision(task, r.1)
            &&& r.1.state == task.state
            &&& r.1.closed_at == task.closed_at
        }),
{
    broadcast use {found_after_put, found_has_its_key};

}

/// A step changes the task's state and its times alone: it is closed now where it is over,
/// that is closed, cancelled or failed; its wording, its report and its decision stay.
pub proof fn step_changes_the_state_alone(
    w: World,
    task: TaskModel,
    next: TaskState,
    event_type: Seq<char>,
    actor: Option<Seq<char>>,
    now: Timestamp,
)
    ensures
        ({
            let r = w.transition(task, next, event_type, actor, now);
            &&& r.0.task(task.task_id) == Some(r.1)
            &&& other_tasks_stay(w, r.0, task.task_id)
            &&& r.1.state == next
            &&& r.1.updated_at == now
            &&& next == TaskState::Closed || next == TaskState::Cancelled || next
                == TaskState::Failed ==> r.1.closed_at == Some(now)
            &&& next != TaskState::Closed && next != TaskState::Cancelled && next
                != TaskState::Failed ==> r.1.closed_at == task.closed_at
            &&& same_task(task, r.1)
            &&& same_report(task, r.1)
            &&& same_decision(task, r.1)
        }),
{
    broadcast use {found_after_put, found_has_its_key};

}

/// An agent's step is made exactly where the task is known, is the agent's and is in the
/// state that is expected.
pub proof fn step_is_made_where_it_fits(
    w: World,
    task_id: Seq<char>,
    agent: Seq<char>,
    expected: TaskState,
    next: TaskState,
    event_type: Seq<char>,
    now: Timestamp,
)
    ensures
        ({
            let r = w.transition_task(task_id, agent, expected, next, event_type, now);
            &&& r.1 is Ok <==> (w.task(task_id) matches Some(t) && t.to_agent == agent && t.state
                == expected)
            &&& r.1 is Err ==> r.0 == w
            &&& r.1 matches Ok(t) ==> t.state == next && r.0.task(task_id) == Some(t)
        }),
{
    broadcast use {found_after_put, found_has_its_key};

}

/// A report on a completed task is kept with its blocking, its topic and its details, and
/// under the topic as its summary; the task is then reported on.
pub proof fn submitted_report_is_kept(
    w: World,
    task_id: Seq<char>,
    agent: Seq<char>,
    blocking: Seq<char>,
    topic: Seq<char>,
    details: Seq<char>,
    now: Timestamp,
)
    ensures
        ({
            let r = w.report_task(task_id, agent, blocking, topic, details, now);
            &&& r.1 is Ok <==> (w.task(task_id) matches Some(t) && t.to_agent == agent && t.state
                == TaskState::Completed)
            &&& r.1 is Err ==> r.0 == w
            &&& r.1 matches Ok(t) ==> {
                &&& r.0.task(task_id) == Some(t)
                &&& other_tasks_stay(w, r.0, task_id)
                &&& holds_report(
                    t,
                    "report"@,
                    Some(topic),
                    Some(blocking),
                    Some(topic),
                    Some(details),
                )
                &&& t.state == TaskState::Reported
                &&& same_task(w.task(task_id)->Some_0, t)
                &&& same_decision(w.task(task_id)->Some_0, t)
            }
        }),
{
    broadcast use {found_after_put, found_has_its_key};

    step_is_made_where_it_fits(
        w,
        task_id,
        agent,
        TaskState::Completed,
        TaskState::Reported,
        "report_submitted"@,
        now,
    );
}

/// A decision is kept as it was made: on the task that is named, by the agent that is named,
/// for the task's agent, with the words that were given, sent and not yet acknowledged; and
/// the task holds it.
pub proof fn sent_decision_is_kept(
    w: World,
    task_id: Seq<char>,
    issued_by: Seq<char>,
    target: Seq<char>,
    summary: Seq<char>,
    decision_id: Seq<char>,
    now: Timestamp,
)
    ensures
        ({
            let r = w.send_decision(task_id, issued_by, target, summary, decision_id, now);
            &&& r.1 is Ok <==> (w.task(task_id) matches Some(t) && t.to_agent == target && t.state
                == TaskState::Analyzed)
            &&& r.1 is Err ==> r.0 == w
            &&& r.1 matches Ok(d) ==> {
                &&& d.decision_id == decision_id
                &&& d.task_id == task_id
                &&& d.issued_by == issued_by
                &&& d.target_agent == target
                &&& d.summary == summary
                &&& d.status == "sent"@
                &&& d.created_at == now
                &&& d.acknowledged_at is None
                &&& found(r.0.decisions, decision_id) == Some(d)
                &&& forall|id: Seq<char>|
                    id != decision_id ==> #[trigger] found(r.0.decisions, id) == found(
                        w.decisions,
                        id,
                    )
                &&& r.0.task(task_id) matches Some(t) && holds_decision(t, d) && t.state
                    == TaskState::DecisionSent && same_task(w.task(task_id)->Some_0, t)
                    && same_report(w.task(task_id)->Some_0, t)
                &&& other_tasks_stay(w, r.0, task_id)
            }
        }),
{
    broadcast use {found_after_put, found_has_its_key};

    step_is_made_where_it_fits(
        w,
        task_id,
        target,
        TaskState::Analyzed,
        TaskState::DecisionSent,
        "decision_sent"@,
        now,
    );
}

/// An acknowledgement marks the newest decision that this agent has open on the task as
/// acknowledged now, and changes nothing else about it; the task then holds it. Where none
/// is open nothing changes, and the newest of all is given back.
pub proof fn acknowledgement_is_kept(
    w: World,
    task_id: Seq<char>,
    agent: Seq<char>,
    emit_stream: bool,
    now: Timestamp,
)
    ensures
        ({
            let r = w.acknowledge_decision(task_id, agent, emit_stream, now);
            let of_agent = |d: DecisionModel| d.task_id == task_id && d.target_agent == agent;
            &&& r.1 is Err ==> r.0 == w
            &&& r.1 is Ok ==> (w.task(task_id) matches Some(t) && t.to_agent == agent && (t.state
                == TaskState::DecisionSent || t.state == TaskState::Closed))
            &&& r.1 matches Ok(d) ==> d.task_id == task_id && d.target_agent == agent
            &&& (r.1 is Ok && exists|i: int|
                0 <= i < w.decisions.len() && of_agent(#[trigger] w.decisions[i])
                    && w.decisions[i].acknowledged_at is None) ==> {
                let d = r.1->Ok_0;
                &&& d.status == "acknowledged"@ && d.acknowledged_at == Some(now)
                &&& found(r.0.decisions, d.decision_id) == Some(d)
                &&& r.0.task(task_id) matches Some(t) && holds_decision(t, d) && t.state
                    == w.task(task_id)->Some_0.state && same_task(w.task(task_id)->Some_0, t)
                    && same_report(w.task(task_id)->Some_0, t)
                &&& exists|i: int|
                    0 <= i < w.decisions.len() && was_open(#[trigger] w.decisions[i], d)
                &&& forall|i: int|
                    0 <= i < w.decisions.len() && of_agent(#[trigger] w.decisions[i])
                        && w.decisions[i].acknowledged_at is None ==> !d.created_at.before(
                        w.decisions[i].created_at,
                    )
            }
            &&& (forall|i: int|
                0 <= i < w.decisions.len() && of_agent(#[trigger] w.decisions[i])
                    ==> w.decisions[i].acknowledged_at is Some) ==> r.0 == w
        }),
{
    broadcast use {found_after_put, found_has_its_key};

    crate::decision::newest_decision_is_newest(w.decisions, task_id, Some(agent), true);
    crate::decision::newest_decision_is_newest(w.decisions, task_id, Some(agent), false);
    let r = w.acknowledge_decision(task_id, agent, emit_stream, now);
    if let Some(old) = crate::decision::newest_decision(w.decisions, task_id, Some(agent), true) {
        let i = w.decisions.index_of(old);
        assert(w.decisions[i] == old);
        if r.1 is Ok {
            assert(was_open(w.decisions[i], r.1->Ok_0));
        }
    }
}

/// The decision that was open is now acknowledged, and is otherwise the same.
pub open spec fn was_open(before: DecisionModel, after: DecisionModel) -> bool {
    &&& before.decision_id == after.decision_id
    &&& before.task_id == after.task_id
    &&& before.issued_by == after.issued_by
    &&& before.target_agent == after.target_agent
    &&& before.summary == after.summary
    &&& before.created_at == after.created_at
    &&& before.acknowledged_at is None
}

/// A task that is tried again waits as if it had never ended; its wording, its report and
/// its decision stay. Only one that failed or was cancelled can be tried again.
pub proof fn retried_task_is_kept(
    w: World,
    task_id: Seq<char>,
    requested_by: Seq<char>,
    now: Timestamp,
)
    ensures
        ({
            let r = w.retry_task(task_id, requested_by, now);
            &&& r.1 is Err ==> r.0 == w
            &&& r.1 matches Ok(t) ==> {
                &&& w.agent(requested_by) is Some
                &&& w.task(task_id) matches Some(old) && (old.state == TaskState::Failed
                    || old.state == TaskState::Cancelled) && same_task(old, t) && same_report(
                    old,
                    t,
                ) && same_decision(old, t)
                &&& t.state == TaskState::Pending && t.closed_at is None && t.updated_at == now
                &&& r.0.task(task_id) == Some(t)
                &&& other_tasks_stay(w, r.0, task_id)
                &&& r.0.agent(t.to_agent) matches Some(a) && a.current_task_id == Some(task_id)
                    && a.state == AgentSessionState::Busy
            }
        }),
{
    broadcast use {found_after_put, found_has_its_key};

}

/// An agent that holds the task is free after it, and every other is at its work as before.
pub open spec fn only_the_holder_is_freed(
    before: Option<AgentModel>,
    after: Option<AgentModel>,
    is_its_agent: bool,
    task_id: Seq<char>,
) -> bool {
    match (before, after) {
        (Some(b), Some(a)) => if is_its_agent && b.current_task_id == Some(task_id) {
            a.current_task_id is None && a.state == AgentSessionState::Idle
        } else {
            a.current_task_id == b.current_task_id && a.state == b.state
        },
        (None, None) => true,
        _ => false,
    }
}

/// A task that is given up is cancelled now; its wording, its report and its decision stay.
pub proof fn cancelled_task_is_kept(
    w: World,
    task_id: Seq<char>,
    requested_by: Seq<char>,
    now: Timestamp,
)
    ensures
        w.cancel_task(task_id, requested_by, now) matches (after, Ok(t)) ==> {
            &&& w.agent(requested_by) is Some
            &&& w.task(task_id) matches Some(old) && old.state != TaskState::Failed && old.state
                != TaskState::Cancelled && old.state != TaskState::Closed && same_task(old, t)
                && same_report(old, t) && same_decision(old, t)
            &&& t.state == TaskState::Cancelled && t.closed_at == Some(now)
            &&& after.task(task_id) == Some(t)
            &&& other_tasks_stay(w, after, task_id)
            &&& forall|n: Seq<char>|
                only_the_holder_is_freed(w.agent(n), #[trigger] after.agent(n), n == t.to_agent, task_id)
        },
{
    broadcast use {found_after_put, found_has_its_key};

    if let (after, Ok(t)) = w.cancel_task(task_id, requested_by, now) {
        let old = w.task(task_id)->Some_0;
        assert(crate::tasks::cancellable().contains(old.state));
        let i = crate::tasks::cancellable().index_of(old.state);
        crate::promises::transition_moves_the_task(
            w,
            old,
            TaskState::Cancelled,
            "task_cancelled"@,
            None,
            now,
        );
        let moved = w.transition(old, TaskState::Cancelled, "task_cancelled"@, None, now);
        assert forall|n: Seq<char>| only_the_holder_is_freed(
            w.agent(n),
            #[trigger] after.agent(n),
            n == t.to_agent,
            task_id,
        ) by {
            assert(crate::promises::same_duty(w.agent(n), moved.0.agent(n)));
        }
    }
}

/// What an acknowledgement leaves of the tasks.
proof fn lemma_acknowledged_tasks(
    w: World,
    task_id: Seq<char>,
    agent: Seq<char>,
    emit_stream: bool,
    now: Timestamp,
)
    ensures
        ({
            let r = w.acknowledge_decision(task_id, agent, emit_stream, now);
            &&& other_tasks_stay(w, r.0, task_id)
            &&& r.1 is Ok ==> w.task(task_id) is Some && r.0.task(task_id) is Some
            &&& r.1 is Ok ==> same_task(w.task(task_id)->Some_0, r.0.task(task_id)->Some_0)
                && same_report(w.task(task_id)->Some_0, r.0.task(task_id)->Some_0)
                && w.task(task_id)->Some_0.state == r.0.task(task_id)->Some_0.state
        }),
{
    broadcast use {found_after_put, found_has_its_key};

}

/// What opening a task again, or closing it, leaves of the tasks.
pub proof fn lemma_reopened_tasks(w: World, task_id: Seq<char>, agent: Seq<char>, now: Timestamp)
    ensures
        w.reopen_for_next_round(task_id, agent, now) matches (after, Ok(t)) ==> {
            &&& w.task(task_id) matches Some(old) && same_task(old, t) && same_report(old, t)
            &&& t.state == TaskState::Pending
            &&& after.task(task_id) == Some(t)
            &&& other_tasks_stay(w, after, task_id)
        },
        w.close_after_decision(task_id, agent, now) matches (after, Ok(t)) ==> {
            &&& w.task(task_id) matches Some(old) && same_task(old, t) && same_report(old, t)
            &&& t.state == TaskState::Closed && t.closed_at == Some(now)
            &&& after.task(task_id) == Some(t)
            &&& other_tasks_stay(w, after, task_id)
        },
{
    broadcast use {found_after_put, found_has_its_key};

    lemma_acknowledged_tasks(w, task_id, agent, false, now);
    lemma_acknowledged_tasks(w, task_id, agent, true, now);
    let quiet = w.acknowledge_decision(task_id, agent, false, now).0;
    let loud = w.acknowledge_decision(task_id, agent, true, now).0;
    if let Some(t) = quiet.task(task_id) {
        step_changes_the_state_alone(
            quiet,
            t,
            TaskState::Pending,
            "task_reopened"@,
            Some(agent),
            now,
        );
    }
    if let Some(t) = loud.task(task_id) {
        step_changes_the_state_alone(loud, t, TaskState::Closed, "task_closed"@, Some(agent), now);
    }
}

/// A decision that is sent and carried out at once is the one that was asked for; the task
/// is then closed, or waits for its next round, with its wording and its report as before.
pub proof fn decided_task_is_kept(
    w: World,
    task_id: Seq<char>,
    issued_by: Seq<char>,
    target: Seq<char>,
    summary: Seq<char>,
    auto_close: bool,
    decision_id: Seq<char>,
    now: Timestamp,
)
    ensures
        w.decide_task(task_id, issued_by, target, summary, auto_close, decision_id, now) matches (
            after,
            Ok(done),
        ) ==> {
            &&& done.decision.decision_id == decision_id
            &&& done.decision.task_id == task_id
            &&& done.decision.issued_by == issued_by
            &&& done.decision.target_agent == target
            &&& done.decision.summary == summary
            &&& auto_close ==> done.task.state == TaskState::Closed
            &&& !auto_close ==> done.task.state == TaskState::Pending
            &&& w.task(task_id) matches Some(old) && same_task(old, done.task) && same_report(
                old,
                done.task,
            )
            &&& after.task(task_id) == Some(done.task)
            &&& other_tasks_stay(w, after, task_id)
        },
{
    sent_decision_is_kept(w, task_id, issued_by, target, summary, decision_id, now);
    let sent = w.send_decision(task_id, issued_by, target, summary, decision_id, now);
    lemma_reopened_tasks(sent.0, task_id, target, now);
    if let (after, Ok(done)) = w.decide_task(
        task_id,
        issued_by,
        target,
        summary,
        auto_close,
        decision_id,
        now,
    ) {
        assert forall|id: Seq<char>| id != task_id implies #[trigger] after.task(id) == w.task(
            id,
        ) by {
            assert(sent.0.task(id) == w.task(id));
        }
    }
}

/// A report that is resolved is decided on by the analyzer, for the task's agent, with the
/// words that were given; the task waits for its next round, its wording and its report as
/// before.
pub proof fn resolved_task_is_kept(
    w: World,
    task_id: Seq<char>,
    analyzer: Seq<char>,
    summary: Seq<char>,
    decision_id: Seq<char>,
    now: Timestamp,
)
    ensures
        w.resolve_task(task_id, analyzer, summary, decision_id, now) matches (after, Ok(done))
            ==> {
            &&& w.task(task_id) matches Some(old) && (old.state == TaskState::Reported || old.state
                == TaskState::BlockedWaitingDecision || old.state == TaskState::Analyzed)
                && same_task(old, done.task) && same_report(old, done.task)
                && done.decision.target_agent == old.to_agent
            &&& done.decision.decision_id == decision_id
            &&& done.decision.task_id == task_id
            &&& done.decision.issued_by == analyzer
            &&& done.decision.summary == summary
            &&& done.task.state == TaskState::Pending
            &&& after.task(task_id) == Some(done.task)
            &&& other_tasks_stay(w, after, task_id)
        },
{
    broadcast use {found_after_put, found_has_its_key};

    if let (after, Ok(done)) = w.resolve_task(task_id, analyzer, summary, decision_id, now) {
        let task = w.task(task_id)->Some_0;
        let looked = if task.state == TaskState::Analyzed {
            (w, Ok(task))
        } else {
            w.analyze_task(task_id, analyzer, now)
        };
        step_changes_the_state_alone(
            w,
            task,
            TaskState::Analyzed,
            "main_analyzed"@,
            None,
            now,
        );
        assert(other_tasks_stay(w, looked.0, task_id));
        sent_decision_is_kept(
            looked.0,
            task_id,
            analyzer,
            task.to_agent,
            summary,
            decision_id,
            now,
        );
        let sent = looked.0.send_decision(
            task_id,
            analyzer,
            task.to_agent,
            summary,
            decision_id,
            now,
        );
        lemma_reopened_tasks(sent.0, task_id, task.to_agent, now);
        assert forall|id: Seq<char>| id != task_id implies #[trigger] after.task(id) == w.task(
            id,
        ) by {
            assert(sent.0.task(id) == looked.0.task(id));
            assert(looked.0.task(id) == w.task(id));
        }
    }
}

/// The word for a round's status.
pub open spec fn is_word_for(word: Seq<char>, status: TaskRoundStatus) -> bool {
    &&& status == TaskRoundStatus::Result ==> word == "result"@
    &&& status == TaskRoundStatus::Report ==> word == "report"@
    &&& status == TaskRoundStatus::WaitDecision ==> word == "wait_decision"@
}

proof fn lemma_round_end(w: World, task: TaskModel, status: TaskRoundStatus, now: Timestamp)
    requires
        w.task(task.task_id) == Some(task),
    ensures
        ({
            let r = w.end_round(task, status, now);
            &&& other_tasks_stay(w, r.0, task.task_id)
            &&& r.0.agents == w.agents
            &&& r.0.decisions == w.decisions
            &&& r.1 is Ok <==> task.state == TaskState::Running
            &&& r.1 matches Ok(t) ==> {
                &&& r.0.task(task.task_id) == Some(t)
                &&& same_task(task, t)
                &&& same_report(task, t)
                &&& same_decision(task, t)
                &&& status == TaskRoundStatus::WaitDecision ==> t.state
                    == TaskState::BlockedWaitingDecision
                &&& status != TaskRoundStatus::WaitDecision ==> t.state == TaskState::Reported
            }
        }),
{
    broadcast use {found_after_put, found_has_its_key};

    step_is_made_where_it_fits(
        w,
        task.task_id,
        task.to_agent,
        TaskState::Running,
        TaskState::Completed,
        "task_completed"@,
        now,
    );
}

/// A round that has ended is kept in the task's record: the report's status in its word,
/// its summary, its blocking, its topic and its details each in the field of that name,
/// and one round more. The task then waits for a decision where the report asks for one,
/// and is reported on otherwise; where a standing decision resolves it, it waits for its
/// next round.
pub proof fn ended_round_is_kept(
    w: World,
    task: TaskModel,
    payload: PayloadModel,
    thread_id: Option<Seq<char>>,
    completed_at: Timestamp,
    raw: Seq<char>,
    history_event: Seq<char>,
    stream_label: Seq<char>,
    decision_id: Seq<char>,
    now: Timestamp,
)
    requires
        w.task(task.task_id) == Some(task),
    ensures
        w.finalize_round(
            task,
            payload,
            thread_id,
            completed_at,
            raw,
            history_event,
            stream_label,
            decision_id,
            now,
        ) matches (after, Ok(done)) ==> {
            &&& task.state == TaskState::Running
            &&& after.task(task.task_id) == Some(done.task)
            &&& other_tasks_stay(w, after, task.task_id)
            &&& same_task(task, done.task)
            &&& done.task.latest_child_status matches Some(word) && is_word_for(
                word,
                payload.status,
            ) && holds_report(
                done.task,
                word,
                Some(payload.summary),
                payload.blocking,
                payload.topic,
                payload.details,
            )
            &&& task.round_count < u32::MAX ==> done.task.round_count == task.round_count + 1
            &&& done.decision is None ==> same_decision(task, done.task)
            &&& done.decision is None && payload.status == TaskRoundStatus::WaitDecision
                ==> done.task.state == TaskState::BlockedWaitingDecision
            &&& done.decision is None && payload.status != TaskRoundStatus::WaitDecision
                ==> done.task.state == TaskState::Reported
            &&& payload.status == TaskRoundStatus::Result || task.auto_resolve_by is None
                || task.auto_resolve_summary is None ==> done.decision is None
            &&& done.decision matches Some(d) ==> done.task.state == TaskState::Pending
                && d.task_id == task.task_id && d.target_agent == task.to_agent && Some(d.issued_by)
                == task.auto_resolve_by && Some(d.summary) == task.auto_resolve_summary
            &&& payload.status != TaskRoundStatus::Result && task.auto_resolve_by is Some
                && task.auto_resolve_summary is Some ==> done.decision is Some
        },
{
    broadcast use {found_after_put, found_has_its_key};

    let r = w.finalize_round(
        task,
        payload,
        thread_id,
        completed_at,
        raw,
        history_event,
        stream_label,
        decision_id,
        now,
    );
    lemma_round_end(w, task, payload.status, now);
    let ended = w.end_round(task, payload.status, now);
    if r.1 is Ok {
        let final_task = ended.1->Ok_0;
        let noted = ended.0.note_task(task.task_id, history_event, final_task.state, raw).say(
            task.to_agent,
            "["@ + stream_label + "] "@ + raw,
            now,
        );
        let next = crate::draft::agent_state_for(final_task.state);
        let settled = match thread_id {
            Some(id) => noted.agent_after_round(task.to_agent, Some(id), next, completed_at, now),
            None => noted.set_agent_state(task.to_agent, next, now),
        };
        assert(settled.0.tasks == ended.0.tasks);
        let word = payload.status.label();
        report_is_kept(
            settled.0,
            final_task,
            word,
            Some(payload.summary),
            payload.blocking,
            payload.topic,
            payload.details,
            "task_feedback_updated"@,
            now,
        );
        let told = settled.0.child_feedback(
            final_task,
            word,
            Some(payload.summary),
            payload.blocking,
            payload.topic,
            payload.details,
            "task_feedback_updated"@,
            now,
        );
        assert(other_tasks_stay(w, told.0, task.task_id)) by {
            assert forall|id: Seq<char>| id != task.task_id implies #[trigger] told.0.task(id)
                == w.task(id) by {
                assert(settled.0.task(id) == ended.0.task(id));
                assert(ended.0.task(id) == w.task(id));
            }
        }
        if payload.status != TaskRoundStatus::Result && task.auto_resolve_by is Some
            && task.auto_resolve_summary is Some {
            let analyzer = task.auto_resolve_by->Some_0;
            let said = told.0.say(
                analyzer,
                "[AUTO_RESOLVE] task="@ + task.task_id + " status="@ + crate::json::json_text(
                    crate::json::JsonModel::Text(word),
                ),
                now,
            );
            assert(said.tasks == told.0.tasks);
            resolved_task_is_kept(
                said,
                task.task_id,
                analyzer,
                task.auto_resolve_summary->Some_0,
                decision_id,
                now,
            );
            assert forall|id: Seq<char>| id != task.task_id implies #[trigger] r.0.task(id)
                == w.task(id) by {
                assert(said.task(id) == told.0.task(id));
                assert(told.0.task(id) == w.task(id));
            }
        }
    }
}

/// A task is created exactly where its agent is registered, ready, idle and without a task or
/// a session, the draft can be brought into form, and a standing decision is named together
/// with a registered agent or not at all; otherwise nothing changes.
pub proof fn task_is_created_where_it_can_be(
    w: World,
    from: Seq<char>,
    to: Seq<char>,
    draft: DraftModel,
    by: Option<Seq<char>>,
    standing: Option<Seq<char>>,
    why: Seq<char>,
    task_id: Seq<char>,
    now: Timestamp,
)
    ensures
        ({
            let r = w.create_task(from, to, draft, by, standing, why, task_id, now);
            &&& r.1 is Err ==> r.0 == w
            &&& r.1 is Ok <==> {
                &&& w.agent(to) matches Some(a) && a.bootstrap_state == AgentBootstrapState::Ready
                    && a.state == AgentSessionState::Idle && a.current_task_id is None
                    && a.current_session_id is None && normal_draft(a.cwd, draft) is Ok
                &&& by is Some <==> standing is Some
                &&& by matches Some(analyzer) ==> w.agent(analyzer) is Some
            }
        }),
{
}

/// A draft can be brought into form exactly where it has a title and a summary and all of its
/// write scope lies in the agent's directory.
pub proof fn draft_is_refused_for_a_reason(cwd: Seq<char>, d: DraftModel)
    ensures
        normal_draft(cwd, d) is Ok <==> {
            &&& !blank(d.title)
            &&& !blank(d.summary)
            &&& forall|i: int|
                0 <= i < crate::draft::write_scope_of(d.write_scope, cwd).len()
                    ==> crate::draft::within_root(
                    #[trigger] crate::draft::write_scope_of(d.write_scope, cwd)[i],
                    cwd,
                )
        },
{
    lemma_blank(d.title);
    lemma_blank(d.summary);
    crate::draft::lemma_none_outside(crate::draft::write_scope_of(d.write_scope, cwd), cwd);
}

/// An agent whose round has ended, and whom no standing decision sends on, is blocked until
/// the main agent has decided: it keeps its task and its session, and has the thread of the
/// round, where the round had one of its own, with its last output at the end of the round.
pub proof fn ended_round_leaves_the_agent(
    w: World,
    task: TaskModel,
    payload: PayloadModel,
    thread_id: Option<Seq<char>>,
    completed_at: Timestamp,
    raw: Seq<char>,
    history_event: Seq<char>,
    stream_label: Seq<char>,
    decision_id: Seq<char>,
    now: Timestamp,
)
    requires
        w.task(task.task_id) == Some(task),
    ensures
        w.finalize_round(
            task,
            payload,
            thread_id,
            completed_at,
            raw,
            history_event,
            stream_label,
            decision_id,
            now,
        ) matches (after, Ok(done)) ==> (done.decision is None ==> (w.agent(
            task.to_agent,
        ) matches Some(old) && (after.agent(task.to_agent) matches Some(a) && a.state
            == AgentSessionState::Blocked && a.current_task_id == old.current_task_id
            && a.current_session_id == old.current_session_id && a.last_heartbeat_at == Some(now)
            && a.bootstrap_state == old.bootstrap_state && (thread_id is Some ==> a.thread_id
            == thread_id && a.last_output_at == Some(completed_at)) && (thread_id is None
            ==> a.thread_id == old.thread_id && a.last_output_at == old.last_output_at)))),
{
    broadcast use {found_after_put, found_has_its_key};

    let r = w.finalize_round(
        task,
        payload,
        thread_id,
        completed_at,
        raw,
        history_event,
        stream_label,
        decision_id,
        now,
    );
    lemma_round_end(w, task, payload.status, now);
    if r.1 is Ok && r.1->Ok_0.decision is None {
        let ended = w.end_round(task, payload.status, now);
        assert(ended.0.agents == w.agents);
        crate::standing::ended_task_frees_its_agent(ended.1->Ok_0.state);
    }
}

} // verus!
