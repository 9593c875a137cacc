//! New tasks: whether an agent may take one, and what a task may ask for.

use vstd::prelude::*;

use crate::failure::{seen, Failure};
use crate::models::{
    AgentBootstrapState, AgentModel, AgentSessionState, AgentSummary, DraftModel,
    TaskDraftPayload, TaskState, TaskSummary,
};
use crate::text::{
    backslashed, begins_with, drop_trailing, has_text, is_text, lower, opt_text, same_text,
    starts_with, text, texts, to_backslashes, to_lower, trim, trim_end_char, trimmed,
    trimmed_is_idempotent,
};

verus! {

/// What keeps an agent from a new task, if anything.
pub open spec fn new_task_check(a: AgentModel) -> Result<(), Seq<char>> {
    if a.bootstrap_state != AgentBootstrapState::Ready {
        Err(
            "target agent "@ + a.name + " has not completed bootstrap, actual "@
                + a.bootstrap_state.shown(),
        )
    } else if a.current_task_id is Some {
        Err("target agent "@ + a.name + " already has an in-flight task"@)
    } else if a.current_session_id is Some {
        Err("target agent "@ + a.name + " already has a live session attached"@)
    } else if a.state != AgentSessionState::Idle {
        Err(
            "target agent "@ + a.name + " must be idle before receiving a new task, actual "@
                + a.state.shown(),
        )
    } else {
        Ok(())
    }
}

pub fn ensure_agent_ready_for_new_task(agent: &AgentSummary) -> (r: Result<(), Failure>)
    ensures
        seen(r) == new_task_check(agent@),
{
    if agent.bootstrap_state != AgentBootstrapState::Ready {
        return Err(
            Failure::new(
                text("target agent ").concat(agent.name.as_str()).concat(
                    " has not completed bootstrap, actual ",
                ).concat(agent.bootstrap_state.as_shown()),
            ),
        );
    }
    if agent.current_task_id.is_some() {
        return Err(
            Failure::new(
                text("target agent ").concat(agent.name.as_str()).concat(
                    " already has an in-flight task",
                ),
            ),
        );
    }
    if agent.current_session_id.is_some() {
        return Err(
            Failure::new(
                text("target agent ").concat(agent.name.as_str()).concat(
                    " already has a live session attached",
                ),
            ),
        );
    }
    if agent.state != AgentSessionState::Idle {
        return Err(
            Failure::new(
                text("target agent ").concat(agent.name.as_str()).concat(
                    " must be idle before receiving a new task, actual ",
                ).concat(agent.state.as_shown()),
            ),
        );
    }
    Ok(())
}

/// What keeps an agent from a round outside any task, if anything.
pub open spec fn ad_hoc_check(a: AgentModel) -> Result<(), Seq<char>> {
    if a.bootstrap_state != AgentBootstrapState::Ready {
        Err(
            "agent "@ + a.name + " has not completed bootstrap, actual "@
                + a.bootstrap_state.shown(),
        )
    } else if a.current_task_id is Some {
        Err("agent "@ + a.name + " has an in-flight task and cannot run an ad hoc round"@)
    } else if a.current_session_id is Some {
        Err("agent "@ + a.name + " already has a live session attached"@)
    } else if a.state != AgentSessionState::Idle {
        Err(
            "agent "@ + a.name + " must be idle before running an ad hoc round, actual "@
                + a.state.shown(),
        )
    } else {
        Ok(())
    }
}

pub fn ensure_agent_ready_for_ad_hoc_round(agent: &AgentSummary) -> (r: Result<(), Failure>)
    ensures
        seen(r) == ad_hoc_check(agent@),
{
    if agent.bootstrap_state != AgentBootstrapState::Ready {
        return Err(
            Failure::new(
                text("agent ").concat(agent.name.as_str()).concat(
                    " has not completed bootstrap, actual ",
                ).concat(agent.bootstrap_state.as_shown()),
            ),
        );
    }
    if agent.current_task_id.is_some() {
        return Err(
            Failure::new(
                text("agent ").concat(agent.name.as_str()).concat(
                    " has an in-flight task and cannot run an ad hoc round",
                ),
            ),
        );
    }
    if agent.current_session_id.is_some() {
        return Err(
            Failure::new(
                text("agent ").concat(agent.name.as_str()).concat(
                    " already has a live session attached",
                ),
            ),
        );
    }
    if agent.state != AgentSessionState::Idle {
        return Err(
            Failure::new(
                text("agent ").concat(agent.name.as_str()).concat(
                    " must be idle before running an ad hoc round, actual ",
                ).concat(agent.state.as_shown()),
            ),
        );
    }
    Ok(())
}

/// What keeps an agent from a round of its task, if anything.
pub open spec fn task_round_check(a: AgentModel, task_id: Seq<char>) -> Result<(), Seq<char>> {
    if a.bootstrap_state != AgentBootstrapState::Ready {
        Err(
            "agent "@ + a.name + " has not completed bootstrap, actual "@
                + a.bootstrap_state.shown(),
        )
    } else if a.current_task_id != Some(task_id) {
        Err("agent "@ + a.name + " is not currently assigned to task "@ + task_id)
    } else if a.current_session_id is Some {
        Err("agent "@ + a.name + " already has a live session attached"@)
    } else if a.state != AgentSessionState::Busy {
        Err(
            "agent "@ + a.name + " must be busy before running assigned task "@ + task_id
                + ", actual "@ + a.state.shown(),
        )
    } else {
        Ok(())
    }
}

pub fn ensure_agent_ready_for_task_round(agent: &AgentSummary, task_id: &str) -> (r: Result<
    (),
    Failure,
>)
    ensures
        seen(r) == task_round_check(agent@, task_id@),
{
    if agent.bootstrap_state != AgentBootstrapState::Ready {
        return Err(
            Failure::new(
                text("agent ").concat(agent.name.as_str()).concat(
                    " has not completed bootstrap, actual ",
                ).concat(agent.bootstrap_state.as_shown()),
            ),
        );
    }
    if !is_text(&agent.current_task_id, task_id) {
        return Err(
            Failure::new(
                text("agent ").concat(agent.name.as_str()).concat(
                    " is not currently assigned to task ",
                ).concat(task_id),
            ),
        );
    }
    if agent.current_session_id.is_some() {
        return Err(
            Failure::new(
                text("agent ").concat(agent.name.as_str()).concat(
                    " already has a live session attached",
                ),
            ),
        );
    }
    if agent.state != AgentSessionState::Busy {
        return Err(
            Failure::new(
                text("agent ").concat(agent.name.as_str()).concat(
                    " must be busy before running assigned task ",
                ).concat(task_id).concat(", actual ").concat(agent.state.as_shown()),
            ),
        );
    }
    Ok(())
}

/// Whether a task in this state is over.
pub open spec fn terminal(state: TaskState) -> bool {
    state == TaskState::Closed || state == TaskState::Cancelled || state == TaskState::Failed
}

pub fn is_task_terminal(state: TaskState) -> (r: bool)
    ensures
        r == terminal(state),
{
    match state {
        TaskState::Closed => true,
        TaskState::Cancelled => true,
        TaskState::Failed => true,
        _ => false,
    }
}

/// The state in which a task keeps its agent.
pub open spec fn agent_state_for(state: TaskState) -> AgentSessionState {
    match state {
        TaskState::Pending
        | TaskState::Accepted
        | TaskState::Running
        | TaskState::Completed => AgentSessionState::Busy,
        TaskState::Reported
        | TaskState::Analyzed
        | TaskState::DecisionSent
        | TaskState::BlockedWaitingDecision => AgentSessionState::Blocked,
        TaskState::Closed | TaskState::Cancelled | TaskState::Failed => AgentSessionState::Idle,
    }
}

pub fn desired_agent_state_for_task(task: &TaskSummary) -> (r: AgentSessionState)
    ensures
        r == agent_state_for(task@.state),
{
    match task.state {
        TaskState::Pending
        | TaskState::Accepted
        | TaskState::Running
        | TaskState::Completed => AgentSessionState::Busy,
        TaskState::Reported
        | TaskState::Analyzed
        | TaskState::DecisionSent
        | TaskState::BlockedWaitingDecision => AgentSessionState::Blocked,
        TaskState::Closed | TaskState::Cancelled | TaskState::Failed => AgentSessionState::Idle,
    }
}

/// What two scope entries are compared by: neither capitals nor the kind of slash count.
pub open spec fn scope_key(s: Seq<char>) -> Seq<char> {
    lower(backslashed(trimmed(s)))
}

/// Whether some entry of the list has this key.
pub open spec fn has_key(items: Seq<Seq<char>>, key: Seq<char>) -> bool {
    exists|i: int| 0 <= i < items.len() && scope_key(#[trigger] items[i]) == key
}

/// The entries, trimmed, without blank ones and without those that an earlier
/// entry has covered.
pub open spec fn clean_scope(items: Seq<Seq<char>>) -> Seq<Seq<char>>
    decreases items.len(),
{
    if items.len() == 0 {
        Seq::empty()
    } else {
        let rest = clean_scope(items.drop_last());
        let item = trimmed(items.last());
        if item.len() == 0 || has_key(rest, scope_key(item)) {
            rest
        } else {
            rest.push(item)
        }
    }
}

fn make_scope_key(s: &str) -> (r: String)
    ensures
        r@ == scope_key(s@),
{
    to_lower(to_backslashes(trim(s).as_str()).as_str())
}

pub fn sanitize_task_scope_list(items: Vec<String>) -> (r: Vec<String>)
    ensures
        texts(r@) == clean_scope(texts(items@)),
{
    let mut out: Vec<String> = Vec::new();
    let mut keys: Vec<String> = Vec::new();
    let mut i: usize = 0;
    assert(texts(out@) =~= clean_scope(texts(items@).take(0)));
    while i < items.len()
        invariant
            i <= items.len(),
            texts(out@) == clean_scope(texts(items@).take(i as int)),
            keys.len() == out.len(),
            forall|j: int|
                0 <= j < keys.len() ==> (#[trigger] keys@[j])@ == scope_key(out@[j]@),
        decreases items.len() - i,
    {
        let item = trim(items[i].as_str());
        proof {
            let head = texts(items@).take(i + 1);
            assert(head.drop_last() =~= texts(items@).take(i as int));
            assert(head.last() == items@[i as int]@);
            trimmed_is_idempotent(items@[i as int]@);
        }
        let key = make_scope_key(item.as_str());
        let ghost before = out@;
        proof {
            let rest = texts(out@);
            if texts(keys@).contains(key@) {
                let j = texts(keys@).index_of(key@);
                assert(keys@[j]@ == key@);
                assert(scope_key(rest[j]) == key@);
                assert(has_key(rest, key@));
            }
            if has_key(rest, key@) {
                let j = choose|j: int| 0 <= j < rest.len() && scope_key(#[trigger] rest[j]) == key@;
                assert(texts(keys@)[j] == key@) by {
                    assert(keys@[j]@ == scope_key(out@[j]@));
                }
            }
        }
        if !item.as_str().is_empty() && !has_text(&keys, key.as_str()) {
            out.push(item);
            keys.push(key);
            assert(texts(out@) =~= texts(before).push(item@));
        }
        i += 1;
    }
    assert(texts(items@).take(i as int) =~= texts(items@));
    out
}

/// A path as it is compared: trimmed, with backslashes and none at its end, in small letters.
pub open spec fn path_key(s: Seq<char>) -> Seq<char> {
    lower(drop_trailing(backslashed(trimmed(s)), '\\'))
}

/// Whether the path is the root or lies below it.
pub open spec fn within_root(candidate: Seq<char>, root: Seq<char>) -> bool {
    path_key(candidate) == path_key(root) || begins_with(
        path_key(candidate),
        path_key(root).push('\\'),
    )
}

fn make_path_key(s: &str) -> (r: String)
    ensures
        r@ == path_key(s@),
{
    to_lower(trim_end_char(to_backslashes(trim(s).as_str()).as_str(), '\\').as_str())
}

pub fn is_path_within_root(candidate: &str, root: &str) -> (r: bool)
    ensures
        r == within_root(candidate@, root@),
{
    let c = make_path_key(candidate);
    let mut prefix = make_path_key(root);
    if same_text(c.as_str(), prefix.as_str()) {
        return true;
    }
    prefix.push('\\');
    starts_with(c.as_str(), prefix.as_str())
}

/// The effort, if it is one of those that are known.
pub open spec fn known_effort(o: Option<Seq<char>>) -> Option<Seq<char>> {
    match o {
        Some(value) => {
            let effort = lower(trimmed(value));
            if effort == "medium"@ || effort == "high"@ || effort == "xhigh"@ {
                Some(effort)
            } else {
                None
            }
        },
        None => None,
    }
}

/// The entries, trimmed and without blank ones.
pub open spec fn clean_list(items: Seq<Seq<char>>) -> Seq<Seq<char>>
    decreases items.len(),
{
    if items.len() == 0 {
        Seq::empty()
    } else {
        let rest = clean_list(items.drop_last());
        let item = trimmed(items.last());
        if item.len() == 0 {
            rest
        } else {
            rest.push(item)
        }
    }
}

fn sanitize_list(items: &Vec<String>) -> (r: Vec<String>)
    ensures
        texts(r@) == clean_list(texts(items@)),
{
    let mut out: Vec<String> = Vec::new();
    let mut i: usize = 0;
    assert(texts(out@) =~= clean_list(texts(items@).take(0)));
    while i < items.len()
        invariant
            i <= items.len(),
            texts(out@) == clean_list(texts(items@).take(i as int)),
        decreases items.len() - i,
    {
        let item = trim(items[i].as_str());
        let ghost before = out@;
        proof {
            let head = texts(items@).take(i + 1);
            assert(head.drop_last() =~= texts(items@).take(i as int));
            assert(head.last() == items@[i as int]@);
        }
        if !item.as_str().is_empty() {
            out.push(item);
            assert(texts(out@) =~= texts(before).push(item@));
        }
        i += 1;
    }
    assert(texts(items@).take(i as int) =~= texts(items@));
    out
}

/// The scope to write in: what was asked for, or the whole repository.
pub open spec fn write_scope_of(asked: Seq<Seq<char>>, cwd: Seq<char>) -> Seq<Seq<char>> {
    let clean = clean_scope(asked);
    if clean.len() == 0 {
        seq![cwd]
    } else {
        clean
    }
}

/// The first entry that lies outside the root.
pub open spec fn first_outside(items: Seq<Seq<char>>, root: Seq<char>) -> Option<Seq<char>>
    decreases items.len(),
{
    if items.len() == 0 {
        None
    } else if !within_root(items[0], root) {
        Some(items[0])
    } else {
        first_outside(items.skip(1), root)
    }
}

/// The draft as the task takes it over, or why it cannot.
pub open spec fn normal_draft(cwd: Seq<char>, d: DraftModel) -> Result<DraftModel, Seq<char>> {
    let write_scope = write_scope_of(d.write_scope, cwd);
    if trimmed(d.title).len() == 0 {
        Err("generated task title cannot be empty"@)
    } else if trimmed(d.summary).len() == 0 {
        Err("generated task summary cannot be empty"@)
    } else {
        match first_outside(write_scope, cwd) {
            Some(item) => Err(
                "generated write_scope entry "@ + item + " is outside target repository "@ + cwd,
            ),
            None => Ok(
                DraftModel {
                    title: trimmed(d.title),
                    summary: trimmed(d.summary),
                    effort: known_effort(d.effort),
                    read_scope: clean_scope(d.read_scope),
                    write_scope,
                    acceptance: clean_list(d.acceptance),
                },
            ),
        }
    }
}

fn find_outside(items: &Vec<String>, root: &str) -> (r: Option<String>)
    ensures
        opt_text(r) == first_outside(texts(items@), root@),
{
    let mut i: usize = 0;
    assert(texts(items@).skip(0) =~= texts(items@));
    while i < items.len()
        invariant
            i <= items.len(),
            first_outside(texts(items@).skip(i as int), root@) == first_outside(
                texts(items@),
                root@,
            ),
        decreases items.len() - i,
    {
        assert(texts(items@).skip(i as int)[0] == items@[i as int]@);
        if !is_path_within_root(items[i].as_str(), root) {
            return Some(items[i].clone());
        }
        assert(texts(items@).skip(i as int).skip(1) =~= texts(items@).skip(i + 1));
        i += 1;
    }
    None
}

fn normalize_effort(effort: &Option<String>) -> (r: Option<String>)
    ensures
        opt_text(r) == known_effort(opt_text(*effort)),
{
    match effort {
        Some(value) => {
            let normal = to_lower(trim(value.as_str()).as_str());
            if same_text(normal.as_str(), "medium") || same_text(normal.as_str(), "high")
                || same_text(normal.as_str(), "xhigh") {
                Some(normal)
            } else {
                None
            }
        },
        None => None,
    }
}

pub fn normalize_task_draft_payload(target_agent: &AgentSummary, payload: TaskDraftPayload) -> (r:
    Result<TaskDraftPayload, Failure>)
    ensures
        seen(r) == normal_draft(target_agent@.cwd, payload@),
{
    let title = trim(payload.title.as_str());
    if title.as_str().is_empty() {
        return Err(Failure::new(text("generated task title cannot be empty")));
    }
    let summary = trim(payload.summary.as_str());
    if summary.as_str().is_empty() {
        return Err(Failure::new(text("generated task summary cannot be empty")));
    }
    let effort = normalize_effort(&payload.effort);
    let read_scope = sanitize_task_scope_list(payload.read_scope);
    let mut write_scope = sanitize_task_scope_list(payload.write_scope);
    if write_scope.len() == 0 {
        write_scope.push(target_agent.cwd.clone());
    }
    assert(texts(write_scope@) =~= write_scope_of(texts(payload.write_scope@), target_agent@.cwd));
    match find_outside(&write_scope, target_agent.cwd.as_str()) {
        Some(item) => {
            return Err(
                Failure::new(
                    text("generated write_scope entry ").concat(item.as_str()).concat(
                        " is outside target repository ",
                    ).concat(target_agent.cwd.as_str()),
                ),
            );
        },
        None => {},
    }
    Ok(
        TaskDraftPayload {
            title,
            summary,
            effort,
            read_scope,
            write_scope,
            acceptance: sanitize_list(&payload.acceptance),
        },
    )
}

/// A cleaned scope has no blank and no untrimmed entry, and no two entries of one key.
pub proof fn clean_scope_has_no_repeats(items: Seq<Seq<char>>)
    ensures
        forall|i: int|
            0 <= i < clean_scope(items).len() ==> (#[trigger] clean_scope(items)[i]).len() > 0
                && trimmed(clean_scope(items)[i]) == clean_scope(items)[i],
        forall|i: int, j: int|
            0 <= i < j < clean_scope(items).len() ==> scope_key(#[trigger] clean_scope(items)[i])
                != scope_key(#[trigger] clean_scope(items)[j]),
    decreases items.len(),
{
    if items.len() > 0 {
        let rest = clean_scope(items.drop_last());
        let item = trimmed(items.last());
        clean_scope_has_no_repeats(items.drop_last());
        trimmed_is_idempotent(items.last());
        let t = clean_scope(items);
        assert forall|i: int, j: int| 0 <= i < j < t.len() implies scope_key(#[trigger] t[i])
            != scope_key(#[trigger] t[j]) by {
            if j < rest.len() {
                assert(scope_key(rest[i]) != scope_key(rest[j]));
            } else {
                assert(t[i] == rest[i]);
                assert(!has_key(rest, scope_key(item)));
            }
        }
    }
}

/// Every entry of a scope that is not blank is covered by the cleaned scope, and the
/// cleaned scope holds nothing else.
pub proof fn clean_scope_covers_the_scope(items: Seq<Seq<char>>)
    ensures
        forall|i: int|
            0 <= i < items.len() && trimmed(#[trigger] items[i]).len() > 0 ==> has_key(
                clean_scope(items),
                scope_key(items[i]),
            ),
        forall|j: int|
            0 <= j < clean_scope(items).len() ==> has_key(
                items,
                scope_key(#[trigger] clean_scope(items)[j]),
            ),
    decreases items.len(),
{
    if items.len() > 0 {
        let head = items.drop_last();
        let rest = clean_scope(head);
        let item = trimmed(items.last());
        let t = clean_scope(items);
        clean_scope_covers_the_scope(head);
        trimmed_is_idempotent(items.last());
        assert forall|i: int| 0 <= i < items.len() && trimmed(#[trigger] items[i]).len()
            > 0 implies has_key(t, scope_key(items[i])) by {
            if i < head.len() {
                assert(head[i] == items[i]);
                let j = choose|j: int|
                    0 <= j < rest.len() && scope_key(#[trigger] rest[j]) == scope_key(items[i]);
                assert(scope_key(t[j]) == scope_key(items[i]));
            } else if has_key(rest, scope_key(item)) {
                let j = choose|j: int|
                    0 <= j < rest.len() && scope_key(#[trigger] rest[j]) == scope_key(item);
                assert(scope_key(t[j]) == scope_key(items[i]));
            } else {
                assert(scope_key(t[t.len() - 1]) == scope_key(items[i]));
            }
        }
        assert forall|j: int| 0 <= j < t.len() implies has_key(
            items,
            scope_key(#[trigger] t[j]),
        ) by {
            if j < rest.len() {
                assert(has_key(head, scope_key(rest[j])));
                let i = choose|i: int|
                    0 <= i < head.len() && scope_key(#[trigger] head[i]) == scope_key(rest[j]);
                assert(scope_key(items[i]) == scope_key(t[j]));
            } else {
                assert(scope_key(items[items.len() - 1]) == scope_key(t[j]));
            }
        }
    }
}

/// Whether the scope is clean.
pub open spec fn is_clean_scope(items: Seq<Seq<char>>) -> bool {
    &&& forall|i: int|
        0 <= i < items.len() ==> (#[trigger] items[i]).len() > 0 && trimmed(items[i]) == items[i]
    &&& forall|i: int, j: int|
        0 <= i < j < items.len() ==> scope_key(#[trigger] items[i]) != scope_key(
            #[trigger] items[j],
        )
}

proof fn lemma_clean_scope_stays(items: Seq<Seq<char>>)
    requires
        is_clean_scope(items),
    ensures
        clean_scope(items) == items,
    decreases items.len(),
{
    if items.len() > 0 {
        let head = items.drop_last();
        assert forall|i: int| 0 <= i < head.len() implies (#[trigger] head[i]).len() > 0
            && trimmed(head[i]) == head[i] by {
            assert(head[i] == items[i]);
        }
        assert forall|i: int, j: int| 0 <= i < j < head.len() implies scope_key(#[trigger] head[i])
            != scope_key(#[trigger] head[j]) by {
            assert(scope_key(items[i]) != scope_key(items[j]));
        }
        lemma_clean_scope_stays(head);
        let last = items[items.len() - 1];
        if has_key(head, scope_key(last)) {
            let i = choose|i: int|
                0 <= i < head.len() && scope_key(#[trigger] head[i]) == scope_key(last);
            assert(scope_key(items[i]) != scope_key(items[items.len() - 1]));
        }
        assert(head.push(last) =~= items);
    } else {
        assert(clean_scope(items) =~= items);
    }
}

/// Cleaning a scope twice is cleaning it once.
pub proof fn clean_scope_is_idempotent(items: Seq<Seq<char>>)
    ensures
        clean_scope(clean_scope(items)) == clean_scope(items),
{
    clean_scope_has_no_repeats(items);
    lemma_clean_scope_stays(clean_scope(items));
}

proof fn lemma_clean_list(items: Seq<Seq<char>>)
    ensures
        forall|i: int|
            0 <= i < clean_list(items).len() ==> (#[trigger] clean_list(items)[i]).len() > 0
                && trimmed(clean_list(items)[i]) == clean_list(items)[i],
        clean_list(clean_list(items)) == clean_list(items),
    decreases items.len(),
{
    if items.len() > 0 {
        lemma_clean_list(items.drop_last());
        trimmed_is_idempotent(items.last());
        let rest = clean_list(items.drop_last());
        let t = clean_list(items);
        if trimmed(items.last()).len() > 0 {
            assert(t.drop_last() =~= rest);
        }
    } else {
        assert(clean_list(items) =~= Seq::empty());
    }
}

proof fn lemma_known_effort(o: Option<Seq<char>>)
    ensures
        known_effort(known_effort(o)) == known_effort(o),
{
    reveal_strlit("medium");
    reveal_strlit("high");
    reveal_strlit("xhigh");
    assert(lower(trimmed("medium"@)) =~= "medium"@);
    assert(lower(trimmed("high"@)) =~= "high"@);
    assert(lower(trimmed("xhigh"@)) =~= "xhigh"@);
}

/// A draft that was brought into form stays as it is, where the root is trimmed or
/// the draft names what it writes to.
pub proof fn normal_draft_is_idempotent(cwd: Seq<char>, d: DraftModel)
    requires
        normal_draft(cwd, d) is Ok,
        trimmed(cwd) == cwd || clean_scope(d.write_scope).len() > 0,
    ensures
        normal_draft(cwd, normal_draft(cwd, d)->Ok_0) == normal_draft(cwd, d),
{
    let n = normal_draft(cwd, d)->Ok_0;
    trimmed_is_idempotent(d.title);
    trimmed_is_idempotent(d.summary);
    lemma_known_effort(d.effort);
    clean_scope_is_idempotent(d.read_scope);
    clean_scope_is_idempotent(d.write_scope);
    lemma_clean_list(d.acceptance);
    let clean = clean_scope(d.write_scope);
    if clean.len() == 0 {
        assert(n.write_scope == seq![cwd]);
        assert(n.write_scope.drop_last() =~= Seq::empty());
        assert(clean_scope(Seq::<Seq<char>>::empty()) =~= Seq::empty());
        assert(clean_scope(n.write_scope) =~= (if cwd.len() == 0 {
            Seq::empty()
        } else {
            seq![cwd]
        }));
    }
    assert(write_scope_of(n.write_scope, cwd) =~= n.write_scope);
}

/// A task never gets to write outside its agent's repository.
pub proof fn write_scope_stays_in_the_repository(cwd: Seq<char>, d: DraftModel)
    requires
        normal_draft(cwd, d) is Ok,
    ensures
        forall|i: int|
            0 <= i < normal_draft(cwd, d)->Ok_0.write_scope.len() ==> within_root(
                #[trigger] normal_draft(cwd, d)->Ok_0.write_scope[i],
                cwd,
            ),
        normal_draft(cwd, d)->Ok_0.write_scope.len() > 0,
{
    lemma_none_outside(normal_draft(cwd, d)->Ok_0.write_scope, cwd);
}

/// No entry is outside exactly where all are within.
pub proof fn lemma_none_outside(items: Seq<Seq<char>>, root: Seq<char>)
    ensures
        first_outside(items, root) is None <==> (forall|i: int|
            0 <= i < items.len() ==> within_root(#[trigger] items[i], root)),
    decreases items.len(),
{
    if items.len() > 0 {
        lemma_none_outside(items.skip(1), root);
        let rest = items.skip(1);
        if forall|i: int| 0 <= i < rest.len() ==> within_root(#[trigger] rest[i], root) {
            assert forall|i: int| 0 < i < items.len() implies within_root(
                #[trigger] items[i],
                root,
            ) by {
                assert(rest[i - 1] == items[i]);
            }
        }
        if forall|i: int| 0 <= i < items.len() ==> within_root(#[trigger] items[i], root) {
            assert forall|i: int| 0 <= i < rest.len() implies within_root(
                #[trigger] rest[i],
                root,
            ) by {
                assert(items[i + 1] == rest[i]);
            }
        }
    }
}

} // verus!
