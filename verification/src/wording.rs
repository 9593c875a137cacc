//! What the prompts tell an agent: each fact under its own label.

use vstd::prelude::*;

use crate::models::{AgentContextSourceKind, AgentModel, AgentRole, TaskModel};
use crate::prompts::{
    agent_round_prompt, bootstrap_prompt, bullets, child_context, context_prompt, context_sources, decision_context,
    file_block, file_blocks, managed_instructions, task_creation_prompt, task_prompt,
    AgentContextFiles, ContextFile, BOOTSTRAP_HEAD, BOOTSTRAP_TAIL, CONTRACT_HEAD, DRAFT_CONTRACT,
    DRAFT_HEAD, DRAFT_RULE, FLOW_HEAD, LOADED_CONTEXT, MISSING_PROMPT, NO_CONTEXT, ROUND_HEAD,
    ROUND_RULE, TASK_CONTRACT, TASK_HEAD, TASK_RULE, TASK_TAIL,
};
use crate::text::{decimal, joined, text_or, trimmed};
use crate::time::rfc3339;

verus! {

/// The words stand somewhere in the text.
pub open spec fn says(s: Seq<char>, words: Seq<char>) -> bool {
    exists|before: Seq<char>, after: Seq<char>| s == #[trigger] (before + words + after)
}

/// The parts one after another.
spec fn chain(parts: Seq<Seq<char>>) -> Seq<char>
    decreases parts.len(),
{
    if parts.len() == 0 {
        Seq::empty()
    } else {
        chain(parts.drop_last()) + parts.last()
    }
}

proof fn lemma_chain_split(parts: Seq<Seq<char>>, i: int)
    requires
        0 <= i <= parts.len(),
    ensures
        chain(parts) == chain(parts.take(i)) + chain(parts.skip(i)),
    decreases parts.len() - i,
{
    if i == parts.len() {
        assert(parts.take(i) =~= parts);
        assert(parts.skip(i).len() == 0);
        assert(chain(parts) =~= chain(parts.take(i)) + chain(parts.skip(i)));
    } else {
        let last = parts.last();
        let front = parts.drop_last();
        lemma_chain_split(front, i);
        assert(front.take(i) =~= parts.take(i));
        assert(front.skip(i) =~= parts.skip(i).drop_last());
        assert(parts.skip(i).last() == last);
        assert(chain(parts) =~= chain(parts.take(i)) + chain(parts.skip(i)));
    }
}

proof fn lemma_chain_says(parts: Seq<Seq<char>>, i: int, j: int)
    requires
        0 <= i <= j <= parts.len(),
    ensures
        says(chain(parts), chain(parts.subrange(i, j))),
{
    lemma_chain_split(parts, i);
    lemma_chain_split(parts.skip(i), j - i);
    assert(parts.skip(i).take(j - i) =~= parts.subrange(i, j));
    let before = chain(parts.take(i));
    let after = chain(parts.skip(i).skip(j - i));
    assert(chain(parts) =~= before + chain(parts.subrange(i, j)) + after);
}

/// What stands between two labels.
proof fn lemma_between(parts: Seq<Seq<char>>, i: int)
    requires
        0 <= i,
        i + 3 <= parts.len(),
    ensures
        says(chain(parts), parts[i] + parts[i + 1] + parts[i + 2]),
{
    lemma_chain_says(parts, i, i + 3);
    let three = parts.subrange(i, i + 3);
    reveal_with_fuel(chain, 4);
    assert(three.drop_last().drop_last().drop_last().len() == 0);
    assert(chain(three) =~= parts[i] + parts[i + 1] + parts[i + 2]);
}

proof fn lemma_between2(parts: Seq<Seq<char>>, i: int)
    requires
        0 <= i,
        i + 2 <= parts.len(),
    ensures
        says(chain(parts), parts[i] + parts[i + 1]),
{
    lemma_chain_says(parts, i, i + 2);
    let two = parts.subrange(i, i + 2);
    reveal_with_fuel(chain, 3);
    assert(two.drop_last().drop_last().len() == 0);
    assert(chain(two) =~= parts[i] + parts[i + 1]);
}

/// Only one text can stand where all around it is the same.
proof fn lemma_one_part(parts: Seq<Seq<char>>, i: int, other: Seq<char>)
    requires
        0 <= i < parts.len(),
        chain(parts) == chain(parts.update(i, other)),
    ensures
        parts[i] == other,
{
    let changed = parts.update(i, other);
    lemma_chain_split(parts, i);
    lemma_chain_split(changed, i);
    lemma_chain_split(parts.skip(i), 1);
    lemma_chain_split(changed.skip(i), 1);
    assert(parts.take(i) =~= changed.take(i));
    assert(parts.skip(i).skip(1) =~= changed.skip(i).skip(1));
    let before = chain(parts.take(i));
    let after = chain(parts.skip(i).skip(1));
    reveal_with_fuel(chain, 2);
    assert(parts.skip(i).take(1).drop_last().len() == 0);
    assert(changed.skip(i).take(1).drop_last().len() == 0);
    assert(chain(parts.skip(i).take(1)) =~= parts[i]);
    assert(chain(changed.skip(i).take(1)) =~= other);
    let whole = chain(parts);
    assert(whole.len() == before.len() + parts[i].len() + after.len());
    assert(whole.len() == before.len() + other.len() + after.len());
    assert(parts[i] =~= whole.subrange(
        before.len() as int,
        (before.len() + parts[i].len()) as int,
    ));
    assert(other =~= whole.subrange(before.len() as int, (before.len() + other.len()) as int));
}

spec fn task_parts(agent: AgentModel, task: TaskModel, context: AgentContextFiles) -> Seq<
    Seq<char>,
> {
    seq![
        TASK_HEAD@,
        agent.name,
        TASK_RULE@,
        context_prompt(context),
        TASK_CONTRACT@,
        task.task_id,
        "\n- from: "@,
        task.from_agent,
        "\n- to: "@,
        task.to_agent,
        "\n- title: "@,
        task.title,
        "\n- summary: "@,
        task.summary,
        "\n- effort: "@,
        text_or(task.effort, "high"@),
        "\n- round_count_completed: "@,
        decimal(task.round_count as nat),
        "\n\nRead scope:\n"@,
        bullets(task.read_scope, "current repository only"@),
        "\n\nWrite scope:\n"@,
        bullets(task.write_scope, agent.cwd),
        "\n\nAcceptance:\n"@,
        bullets(task.acceptance, "not explicitly provided"@),
        "\n\nMost recent round context:\n"@,
        child_context(task),
        decision_context(task),
        TASK_TAIL@,
    ]
}

/// The parts that a list starts with.
proof fn lemma_step(parts: Seq<Seq<char>>, n: int)
    requires
        0 <= n < parts.len(),
    ensures
        chain(parts.take(n + 1)) == chain(parts.take(n)) + parts[n],
{
    assert(parts.take(n + 1).drop_last() =~= parts.take(n));
}

proof fn lemma_task_parts(agent: AgentModel, task: TaskModel, context: AgentContextFiles)
    ensures
        task_prompt(agent, task, context) == chain(task_parts(agent, task, context)),
        task_parts(agent, task, context).len() == 28,
{
    let p = task_parts(agent, task, context);
    assert(p.take(28) =~= p);
    assert(p.take(0).len() == 0);
    lemma_step(p, 0);
    assert(chain(p.take(1)) =~= TASK_HEAD@);
    lemma_step(p, 1);
    lemma_step(p, 2);
    lemma_step(p, 3);
    lemma_step(p, 4);
    lemma_step(p, 5);
    lemma_step(p, 6);
    lemma_step(p, 7);
    lemma_step(p, 8);
    lemma_step(p, 9);
    lemma_step(p, 10);
    lemma_step(p, 11);
    lemma_step(p, 12);
    lemma_step(p, 13);
    lemma_step(p, 14);
    lemma_step(p, 15);
    lemma_step(p, 16);
    lemma_step(p, 17);
    lemma_step(p, 18);
    lemma_step(p, 19);
    lemma_step(p, 20);
    lemma_step(p, 21);
    lemma_step(p, 22);
    lemma_step(p, 23);
    lemma_step(p, 24);
    lemma_step(p, 25);
    lemma_step(p, 26);
    lemma_step(p, 27);
}

/// A task prompt gives the agent the task's own facts, each under its own label.
pub proof fn task_prompt_tells_the_task(
    agent: AgentModel,
    task: TaskModel,
    context: AgentContextFiles,
)
    ensures
        ({
            let said = task_prompt(agent, task, context);
            &&& says(said, "You are executing one repository-scoped task as child agent `"@ + agent.name)
            &&& says(said, task.task_id + "\n- from: "@)
            &&& says(said, "\n- from: "@ + task.from_agent + "\n- to: "@)
            &&& says(said, "\n- to: "@ + task.to_agent + "\n- title: "@)
            &&& says(said, "\n- title: "@ + task.title + "\n- summary: "@)
            &&& says(said, "\n- summary: "@ + task.summary + "\n- effort: "@)
            &&& task.effort matches Some(effort) ==> says(
                said,
                "\n- effort: "@ + effort + "\n- round_count_completed: "@,
            )
            &&& task.effort is None ==> says(
                said,
                "\n- effort: "@ + "high"@ + "\n- round_count_completed: "@,
            )
            &&& says(
                said,
                "\n- round_count_completed: "@ + decimal(task.round_count as nat)
                    + "\n\nRead scope:\n"@,
            )
        }),
{
    let p = task_parts(agent, task, context);
    lemma_task_parts(agent, task, context);
    lemma_between2(p, 0);
    lemma_between2(p, 5);
    lemma_between(p, 6);
    lemma_between(p, 8);
    lemma_between(p, 10);
    lemma_between(p, 12);
    lemma_between(p, 14);
    lemma_between(p, 16);
}

proof fn lemma_longer_says(
    s: Seq<char>,
    outer: Seq<char>,
    before: Seq<char>,
    words: Seq<char>,
    after: Seq<char>,
)
    requires
        says(s, outer),
        outer == before + words + after,
    ensures
        says(s, words),
{
    let (b, a) = choose|b: Seq<char>, a: Seq<char>| s == #[trigger] (b + outer + a);
    assert(s =~= (b + before) + words + (after + a));
}

/// The list is one line for each item, in their order: it opens with the first item,
/// each item but the last is followed by the next one, and the last one closes it.
pub open spec fn says_list(
    s: Seq<char>,
    head: Seq<char>,
    items: Seq<Seq<char>>,
    tail: Seq<char>,
) -> bool {
    &&& says(s, head + "- "@ + items[0])
    &&& forall|i: int|
        0 <= i < items.len() - 1 ==> says(
            s,
            "- "@ + #[trigger] items[i] + "\n"@ + "- "@ + items[i + 1],
        )
    &&& says(s, "- "@ + items.last() + tail)
}

spec fn dashed(items: Seq<Seq<char>>) -> Seq<Seq<char>> {
    items.map_values(|s: Seq<char>| "- "@ + s)
}

proof fn lemma_joined_first(lines: Seq<Seq<char>>) -> (rest: Seq<char>)
    requires
        0 < lines.len(),
    ensures
        joined(lines, "\n"@) == lines[0] + rest,
    decreases lines.len(),
{
    if lines.len() == 1 {
        assert(lines[0] =~= lines[0] + Seq::empty());
        Seq::empty()
    } else {
        let rest = lemma_joined_first(lines.drop_last());
        let more = rest + "\n"@ + lines.last();
        assert(joined(lines, "\n"@) =~= lines[0] + more);
        more
    }
}

proof fn lemma_joined_pair(lines: Seq<Seq<char>>, i: int)
    requires
        0 <= i < lines.len() - 1,
    ensures
        says(joined(lines, "\n"@), lines[i] + "\n"@ + lines[i + 1]),
    decreases lines.len(),
{
    let front = lines.drop_last();
    let whole = joined(lines, "\n"@);
    if i == lines.len() - 2 {
        let words = lines[i] + "\n"@ + lines[i + 1];
        if front.len() == 1 {
            assert(whole =~= Seq::empty() + words + Seq::empty());
        } else {
            let b = joined(front.drop_last(), "\n"@) + "\n"@;
            assert(joined(front, "\n"@) == b + lines[i]);
            assert(whole =~= b + words + Seq::empty());
        }
    } else {
        lemma_joined_pair(front, i);
        let words = lines[i] + "\n"@ + lines[i + 1];
        let (b, a) = choose|b: Seq<char>, a: Seq<char>|
            joined(front, "\n"@) == #[trigger] (b + words + a);
        assert(whole =~= b + words + (a + "\n"@ + lines.last()));
    }
}

proof fn lemma_joined_last(lines: Seq<Seq<char>>) -> (front: Seq<char>)
    requires
        0 < lines.len(),
    ensures
        joined(lines, "\n"@) == front + lines.last(),
{
    if lines.len() == 1 {
        assert(lines[0] =~= Seq::empty() + lines[0]);
        Seq::empty()
    } else {
        joined(lines.drop_last(), "\n"@) + "\n"@
    }
}

proof fn lemma_says_list(
    s: Seq<char>,
    head: Seq<char>,
    items: Seq<Seq<char>>,
    fallback: Seq<char>,
    tail: Seq<char>,
)
    requires
        says(s, head + bullets(items, fallback) + tail),
    ensures
        items.len() > 0 ==> says_list(s, head, items, tail),
        items.len() == 0 ==> says(s, head + ("- "@ + fallback) + tail),
{
    if items.len() > 0 {
        let lines = dashed(items);
        let listed = joined(lines, "\n"@);
        assert(listed == bullets(items, fallback));
        let outer = head + listed + tail;
        let rest = lemma_joined_first(lines);
        assert(outer =~= Seq::empty() + (head + "- "@ + items[0]) + (rest + tail));
        lemma_longer_says(s, outer, Seq::empty(), head + "- "@ + items[0], rest + tail);
        assert forall|i: int| 0 <= i < items.len() - 1 implies says(
            s,
            "- "@ + #[trigger] items[i] + "\n"@ + "- "@ + items[i + 1],
        ) by {
            lemma_joined_pair(lines, i);
            let words = lines[i] + "\n"@ + lines[i + 1];
            let (b, a) = choose|b: Seq<char>, a: Seq<char>| listed == #[trigger] (b + words + a);
            assert(outer =~= (head + b) + words + (a + tail));
            lemma_longer_says(s, outer, head + b, words, a + tail);
            assert(words =~= "- "@ + items[i] + "\n"@ + "- "@ + items[i + 1]);
        }
        let front = lemma_joined_last(lines);
        let words = "- "@ + items.last() + tail;
        assert(outer =~= (head + front) + words + Seq::empty());
        lemma_longer_says(s, outer, head + front, words, Seq::empty());
    }
}

/// A task prompt lists what may be read, what may be written and what is asked for,
/// each in its own section, item by item; where nothing is given, it says so, and the
/// agent may write in its own directory.
pub proof fn task_prompt_lists_the_scopes(
    agent: AgentModel,
    task: TaskModel,
    context: AgentContextFiles,
)
    ensures
        ({
            let said = task_prompt(agent, task, context);
            &&& task.read_scope.len() > 0 ==> says_list(
                said,
                "\n\nRead scope:\n"@,
                task.read_scope,
                "\n\nWrite scope:\n"@,
            )
            &&& task.read_scope.len() == 0 ==> says(
                said,
                "\n\nRead scope:\n"@ + ("- "@ + "current repository only"@)
                    + "\n\nWrite scope:\n"@,
            )
            &&& task.write_scope.len() > 0 ==> says_list(
                said,
                "\n\nWrite scope:\n"@,
                task.write_scope,
                "\n\nAcceptance:\n"@,
            )
            &&& task.write_scope.len() == 0 ==> says(
                said,
                "\n\nWrite scope:\n"@ + ("- "@ + agent.cwd) + "\n\nAcceptance:\n"@,
            )
            &&& task.acceptance.len() > 0 ==> says_list(
                said,
                "\n\nAcceptance:\n"@,
                task.acceptance,
                "\n\nMost recent round context:\n"@,
            )
            &&& task.acceptance.len() == 0 ==> says(
                said,
                "\n\nAcceptance:\n"@ + ("- "@ + "not explicitly provided"@)
                    + "\n\nMost recent round context:\n"@,
            )
        }),
{
    let p = task_parts(agent, task, context);
    let said = task_prompt(agent, task, context);
    lemma_task_parts(agent, task, context);
    lemma_between(p, 18);
    lemma_between(p, 20);
    lemma_between(p, 22);
    lemma_says_list(said, p[18], task.read_scope, "current repository only"@, p[20]);
    lemma_says_list(said, p[20], task.write_scope, agent.cwd, p[22]);
    lemma_says_list(said, p[22], task.acceptance, "not explicitly provided"@, p[24]);
}

/// Two tasks that differ in their title alone get different prompts; so do two that
/// differ in their summary, their number, the agent they come from, the agent they go
/// to, or the effort that they name, alone.
pub proof fn task_prompt_shows_each_text(
    agent: AgentModel,
    task: TaskModel,
    context: AgentContextFiles,
    other: Seq<char>,
)
    ensures
        ({
            let said = task_prompt(agent, task, context);
            &&& other != task.task_id ==> said != task_prompt(
                agent,
                (TaskModel { task_id: other, ..task }),
                context,
            )
            &&& other != task.from_agent ==> said != task_prompt(
                agent,
                (TaskModel { from_agent: other, ..task }),
                context,
            )
            &&& other != task.to_agent ==> said != task_prompt(
                agent,
                (TaskModel { to_agent: other, ..task }),
                context,
            )
            &&& other != task.title ==> said != task_prompt(
                agent,
                (TaskModel { title: other, ..task }),
                context,
            )
            &&& other != task.summary ==> said != task_prompt(
                agent,
                (TaskModel { summary: other, ..task }),
                context,
            )
            &&& task.effort is Some && other != task.effort->Some_0 ==> said != task_prompt(
                agent,
                (TaskModel { effort: Some(other), ..task }),
                context,
            )
            &&& task.effort is None && other != "high"@ ==> said != task_prompt(
                agent,
                (TaskModel { effort: Some(other), ..task }),
                context,
            )
        }),
{
    lemma_other_task_id(agent, task, context, other);
    lemma_other_from_agent(agent, task, context, other);
    lemma_other_to_agent(agent, task, context, other);
    lemma_other_title(agent, task, context, other);
    lemma_other_summary(agent, task, context, other);
    lemma_other_effort(agent, task, context, other);
}

proof fn lemma_other_task_id(
    agent: AgentModel,
    task: TaskModel,
    context: AgentContextFiles,
    other: Seq<char>,
)
    ensures
        other != task.task_id ==> task_prompt(agent, task, context) != task_prompt(
            agent,
            (TaskModel { task_id: other, ..task }),
            context,
        ),
{
    lemma_other_part(agent, task, TaskModel { task_id: other, ..task }, context, 5, other);
}

proof fn lemma_other_from_agent(
    agent: AgentModel,
    task: TaskModel,
    context: AgentContextFiles,
    other: Seq<char>,
)
    ensures
        other != task.from_agent ==> task_prompt(agent, task, context) != task_prompt(
            agent,
            (TaskModel { from_agent: other, ..task }),
            context,
        ),
{
    lemma_other_part(agent, task, TaskModel { from_agent: other, ..task }, context, 7, other);
}

proof fn lemma_other_to_agent(
    agent: AgentModel,
    task: TaskModel,
    context: AgentContextFiles,
    other: Seq<char>,
)
    ensures
        other != task.to_agent ==> task_prompt(agent, task, context) != task_prompt(
            agent,
            (TaskModel { to_agent: other, ..task }),
            context,
        ),
{
    lemma_other_part(agent, task, TaskModel { to_agent: other, ..task }, context, 9, other);
}

proof fn lemma_other_title(
    agent: AgentModel,
    task: TaskModel,
    context: AgentContextFiles,
    other: Seq<char>,
)
    ensures
        other != task.title ==> task_prompt(agent, task, context) != task_prompt(
            agent,
            (TaskModel { title: other, ..task }),
            context,
        ),
{
    lemma_other_part(agent, task, TaskModel { title: other, ..task }, context, 11, other);
}

proof fn lemma_other_summary(
    agent: AgentModel,
    task: TaskModel,
    context: AgentContextFiles,
    other: Seq<char>,
)
    ensures
        other != task.summary ==> task_prompt(agent, task, context) != task_prompt(
            agent,
            (TaskModel { summary: other, ..task }),
            context,
        ),
{
    lemma_other_part(agent, task, TaskModel { summary: other, ..task }, context, 13, other);
}

proof fn lemma_other_effort(
    agent: AgentModel,
    task: TaskModel,
    context: AgentContextFiles,
    other: Seq<char>,
)
    ensures
        other != text_or(task.effort, "high"@) ==> task_prompt(agent, task, context) != task_prompt(
            agent,
            (TaskModel { effort: Some(other), ..task }),
            context,
        ),
{
    lemma_other_part(agent, task, TaskModel { effort: Some(other), ..task }, context, 15, other);
}

proof fn lemma_other_part(
    agent: AgentModel,
    task: TaskModel,
    changed: TaskModel,
    context: AgentContextFiles,
    i: int,
    other: Seq<char>,
)
    requires
        0 <= i < 28,
        task_parts(agent, changed, context) =~= task_parts(agent, task, context).update(i, other),
    ensures
        task_prompt(agent, task, context) == task_prompt(agent, changed, context)
            ==> task_parts(agent, task, context)[i] == other,
{
    lemma_task_parts(agent, task, context);
    lemma_task_parts(agent, changed, context);
    if task_prompt(agent, task, context) == task_prompt(agent, changed, context) {
        lemma_one_part(task_parts(agent, task, context), i, other);
    }
}

/// Every item is one line.
pub open spec fn single_lines(items: Seq<Seq<char>>) -> bool {
    forall|i: int, j: int|
        0 <= i < items.len() && 0 <= j < items[i].len() ==> #[trigger] items[i][j] != '\n'
}

proof fn lemma_lines_are_one(a: Seq<Seq<char>>, b: Seq<Seq<char>>)
    requires
        0 < a.len(),
        0 < b.len(),
        single_lines(a),
        single_lines(b),
        joined(a, "\n"@) == joined(b, "\n"@),
    ensures
        a == b,
    decreases a.len(),
{
    reveal_strlit("\n");
    let s = joined(a, "\n"@);
    if a.len() == 1 && b.len() == 1 {
        assert(a =~= b);
    } else if a.len() == 1 {
        let at = joined(b.drop_last(), "\n"@).len() as int;
        assert(s[at] == '\n');
        assert(s == a[0]);
        assert(a[0][at] != '\n');
    } else if b.len() == 1 {
        let at = joined(a.drop_last(), "\n"@).len() as int;
        assert(s[at] == '\n');
        assert(s == b[0]);
        assert(b[0][at] != '\n');
    } else {
        let fa = joined(a.drop_last(), "\n"@);
        let fb = joined(b.drop_last(), "\n"@);
        assert(s == fa + "\n"@ + a.last());
        assert(s == fb + "\n"@ + b.last());
        assert(s[fa.len() as int] == '\n');
        assert(s[fb.len() as int] == '\n');
        if fa.len() < fb.len() {
            assert(a[a.len() - 1][fb.len() - fa.len() - 1] != '\n');
            assert(s[fb.len() as int] == a.last()[fb.len() - fa.len() - 1]);
        }
        if fb.len() < fa.len() {
            assert(b[b.len() - 1][fa.len() - fb.len() - 1] != '\n');
            assert(s[fa.len() as int] == b.last()[fa.len() - fb.len() - 1]);
        }
        assert(fa =~= s.take(fa.len() as int));
        assert(fb =~= s.take(fb.len() as int));
        assert(a.last() =~= s.skip((fa.len() + 1) as int));
        assert(b.last() =~= s.skip((fb.len() + 1) as int));
        lemma_lines_are_one(a.drop_last(), b.drop_last());
        assert(a =~= a.drop_last().push(a.last()));
        assert(b =~= b.drop_last().push(b.last()));
    }
}

proof fn lemma_lists_are_one(
    a: Seq<Seq<char>>,
    b: Seq<Seq<char>>,
    fallback: Seq<char>,
)
    requires
        0 < a.len(),
        0 < b.len(),
        single_lines(a),
        single_lines(b),
        bullets(a, fallback) == bullets(b, fallback),
    ensures
        a == b,
{
    reveal_strlit("- ");
    let da = dashed(a);
    let db = dashed(b);
    assert(single_lines(da)) by {
        assert forall|i: int, j: int|
            0 <= i < da.len() && 0 <= j < da[i].len() implies #[trigger] da[i][j] != '\n' by {
            assert(da[i] == "- "@ + a[i]);
            if j >= 2 {
                assert(a[i][j - 2] != '\n');
            }
        }
    }
    assert(single_lines(db)) by {
        assert forall|i: int, j: int|
            0 <= i < db.len() && 0 <= j < db[i].len() implies #[trigger] db[i][j] != '\n' by {
            assert(db[i] == "- "@ + b[i]);
            if j >= 2 {
                assert(b[i][j - 2] != '\n');
            }
        }
    }
    lemma_lines_are_one(da, db);
    assert forall|i: int| 0 <= i < a.len() implies a[i] == b[i] by {
        assert(da[i] == "- "@ + a[i]);
        assert(db[i] == "- "@ + b[i]);
        assert(a[i] =~= da[i].skip(2));
        assert(b[i] =~= db[i].skip(2));
    }
    assert(a =~= b);
}

/// Two tasks that differ in their read scope alone, in their write scope alone or in
/// their acceptance alone, get different prompts, where the items are one line each.
pub proof fn task_prompt_shows_each_list(
    agent: AgentModel,
    task: TaskModel,
    context: AgentContextFiles,
    other: Seq<Seq<char>>,
)
    requires
        0 < other.len(),
        single_lines(other),
    ensures
        ({
            let said = task_prompt(agent, task, context);
            &&& 0 < task.read_scope.len() && single_lines(task.read_scope) && other
                != task.read_scope ==> said != task_prompt(
                agent,
                (TaskModel { read_scope: other, ..task }),
                context,
            )
            &&& 0 < task.write_scope.len() && single_lines(task.write_scope) && other
                != task.write_scope ==> said != task_prompt(
                agent,
                (TaskModel { write_scope: other, ..task }),
                context,
            )
            &&& 0 < task.acceptance.len() && single_lines(task.acceptance) && other
                != task.acceptance ==> said != task_prompt(
                agent,
                (TaskModel { acceptance: other, ..task }),
                context,
            )
        }),
{
    lemma_other_read_scope(agent, task, context, other);
    lemma_other_write_scope(agent, task, context, other);
    lemma_other_acceptance(agent, task, context, other);
}

proof fn lemma_other_read_scope(
    agent: AgentModel,
    task: TaskModel,
    context: AgentContextFiles,
    other: Seq<Seq<char>>,
)
    requires
        0 < other.len(),
        single_lines(other),
    ensures
        0 < task.read_scope.len() && single_lines(task.read_scope) && other != task.read_scope
            ==> task_prompt(agent, task, context) != task_prompt(
            agent,
            (TaskModel { read_scope: other, ..task }),
            context,
        ),
{
    let fallback = "current repository only"@;
    lemma_other_part(
        agent,
        task,
        TaskModel { read_scope: other, ..task },
        context,
        19,
        bullets(other, fallback),
    );
    if 0 < task.read_scope.len() && single_lines(task.read_scope) && bullets(
        task.read_scope,
        fallback,
    ) == bullets(other, fallback) {
        lemma_lists_are_one(task.read_scope, other, fallback);
    }
}

proof fn lemma_other_write_scope(
    agent: AgentModel,
    task: TaskModel,
    context: AgentContextFiles,
    other: Seq<Seq<char>>,
)
    requires
        0 < other.len(),
        single_lines(other),
    ensures
        0 < task.write_scope.len() && single_lines(task.write_scope) && other != task.write_scope
            ==> task_prompt(agent, task, context) != task_prompt(
            agent,
            (TaskModel { write_scope: other, ..task }),
            context,
        ),
{
    let fallback = agent.cwd;
    lemma_other_part(
        agent,
        task,
        TaskModel { write_scope: other, ..task },
        context,
        21,
        bullets(other, fallback),
    );
    if 0 < task.write_scope.len() && single_lines(task.write_scope) && bullets(
        task.write_scope,
        fallback,
    ) == bullets(other, fallback) {
        lemma_lists_are_one(task.write_scope, other, fallback);
    }
}

proof fn lemma_other_acceptance(
    agent: AgentModel,
    task: TaskModel,
    context: AgentContextFiles,
    other: Seq<Seq<char>>,
)
    requires
        0 < other.len(),
        single_lines(other),
    ensures
        0 < task.acceptance.len() && single_lines(task.acceptance) && other != task.acceptance
            ==> task_prompt(agent, task, context) != task_prompt(
            agent,
            (TaskModel { acceptance: other, ..task }),
            context,
        ),
{
    let fallback = "not explicitly provided"@;
    lemma_other_part(
        agent,
        task,
        TaskModel { acceptance: other, ..task },
        context,
        23,
        bullets(other, fallback),
    );
    if 0 < task.acceptance.len() && single_lines(task.acceptance) && bullets(
        task.acceptance,
        fallback,
    ) == bullets(other, fallback) {
        lemma_lists_are_one(task.acceptance, other, fallback);
    }
}

proof fn lemma_says_within(s: Seq<char>, outer: Seq<char>, words: Seq<char>)
    requires
        says(s, outer),
        says(outer, words),
    ensures
        says(s, words),
{
    let (b, a) = choose|b: Seq<char>, a: Seq<char>| outer == #[trigger] (b + words + a);
    lemma_longer_says(s, outer, b, words, a);
}

spec fn child_parts(task: TaskModel) -> Seq<Seq<char>> {
    seq![
        "- latest_child_round: "@,
        decimal(task.round_count as nat),
        "\n- latest_child_status: "@,
        text_or(task.latest_child_status, "-"@),
        "\n- latest_child_summary: "@,
        text_or(task.latest_child_summary, "-"@),
        "\n- latest_child_blocking: "@,
        text_or(task.latest_child_blocking, "-"@),
        "\n- latest_child_topic: "@,
        text_or(task.latest_child_topic, "-"@),
        "\n- latest_child_details: "@,
        text_or(task.latest_child_details, "-"@),
        "\n"@,
    ]
}

proof fn lemma_child_parts(task: TaskModel)
    requires
        task.round_count != 0,
    ensures
        child_context(task) == chain(child_parts(task)),
        child_parts(task).len() == 13,
{
    let p = child_parts(task);
    assert(p.take(13) =~= p);
    assert(p.take(0).len() == 0);
    lemma_step(p, 0);
    assert(chain(p.take(1)) =~= p[0]);
    lemma_step(p, 1);
    lemma_step(p, 2);
    lemma_step(p, 3);
    lemma_step(p, 4);
    lemma_step(p, 5);
    lemma_step(p, 6);
    lemma_step(p, 7);
    lemma_step(p, 8);
    lemma_step(p, 9);
    lemma_step(p, 10);
    lemma_step(p, 11);
    lemma_step(p, 12);
}

/// The words after a label: the text that is known, or a dash.
pub open spec fn says_or_dash(
    s: Seq<char>,
    label: Seq<char>,
    known: Option<Seq<char>>,
    next: Seq<char>,
) -> bool {
    match known {
        Some(words) => says(s, label + words + next),
        None => says(s, label + "-"@ + next),
    }
}

/// A task prompt repeats what the agent reported last, each part of the report under
/// its own label; before the first round it says that there is none.
pub proof fn task_prompt_tells_the_last_report(
    agent: AgentModel,
    task: TaskModel,
    context: AgentContextFiles,
)
    ensures
        ({
            let said = task_prompt(agent, task, context);
            &&& task.round_count == 0 ==> says(
                said,
                "\n\nMost recent round context:\n"@ + "- latest_child_round: none\n"@,
            )
            &&& task.round_count > 0 ==> {
                &&& says(
                    said,
                    "- latest_child_round: "@ + decimal(task.round_count as nat)
                        + "\n- latest_child_status: "@,
                )
                &&& says_or_dash(
                    said,
                    "\n- latest_child_status: "@,
                    task.latest_child_status,
                    "\n- latest_child_summary: "@,
                )
                &&& says_or_dash(
                    said,
                    "\n- latest_child_summary: "@,
                    task.latest_child_summary,
                    "\n- latest_child_blocking: "@,
                )
                &&& says_or_dash(
                    said,
                    "\n- latest_child_blocking: "@,
                    task.latest_child_blocking,
                    "\n- latest_child_topic: "@,
                )
                &&& says_or_dash(
                    said,
                    "\n- latest_child_topic: "@,
                    task.latest_child_topic,
                    "\n- latest_child_details: "@,
                )
                &&& says_or_dash(
                    said,
                    "\n- latest_child_details: "@,
                    task.latest_child_details,
                    "\n"@,
                )
            }
        }),
{
    let said = task_prompt(agent, task, context);
    let p = task_parts(agent, task, context);
    lemma_task_parts(agent, task, context);
    lemma_between2(p, 24);
    lemma_between2(p, 25);
    let own = child_context(task);
    assert(p[25] + p[26] =~= Seq::empty() + own + decision_context(task));
    lemma_longer_says(said, p[25] + p[26], Seq::empty(), own, decision_context(task));
    if task.round_count > 0 {
        lemma_child_parts(task);
        let c = child_parts(task);
        lemma_between(c, 0);
        lemma_says_within(said, own, c[0] + c[1] + c[2]);
        lemma_between(c, 2);
        lemma_says_within(said, own, c[2] + c[3] + c[4]);
        lemma_between(c, 4);
        lemma_says_within(said, own, c[4] + c[5] + c[6]);
        lemma_between(c, 6);
        lemma_says_within(said, own, c[6] + c[7] + c[8]);
        lemma_between(c, 8);
        lemma_says_within(said, own, c[8] + c[9] + c[10]);
        lemma_between(c, 10);
        lemma_says_within(said, own, c[10] + c[11] + c[12]);
    }
}

spec fn decision_parts(task: TaskModel) -> Seq<Seq<char>> {
    seq![
        "- latest_main_decision_id: "@,
        text_or(task.latest_decision_id, "-"@),
        "\n- latest_main_decision_status: "@,
        text_or(task.latest_decision_status, "-"@),
        "\n- latest_main_decision_summary: "@,
        text_or(task.latest_decision_summary, "-"@),
        "\n- latest_main_decision_issued_by: "@,
        text_or(task.latest_decision_issued_by, "-"@),
        "\n- latest_main_decision_at: "@,
        match task.latest_decision_at {
            Some(t) => rfc3339(t),
            None => "-"@,
        },
        "\n"@,
    ]
}

proof fn lemma_decision_parts(task: TaskModel)
    requires
        task.latest_decision_id is Some,
    ensures
        decision_context(task) == chain(decision_parts(task)),
        decision_parts(task).len() == 11,
{
    let p = decision_parts(task);
    assert(p.take(11) =~= p);
    assert(p.take(0).len() == 0);
    lemma_step(p, 0);
    assert(chain(p.take(1)) =~= p[0]);
    lemma_step(p, 1);
    lemma_step(p, 2);
    lemma_step(p, 3);
    lemma_step(p, 4);
    lemma_step(p, 5);
    lemma_step(p, 6);
    lemma_step(p, 7);
    lemma_step(p, 8);
    lemma_step(p, 9);
    lemma_step(p, 10);
}

/// A task prompt repeats the main agent's last decision, each part of it under its own
/// label; where none was made it says so.
pub proof fn task_prompt_tells_the_decision(
    agent: AgentModel,
    task: TaskModel,
    context: AgentContextFiles,
)
    ensures
        ({
            let said = task_prompt(agent, task, context);
            &&& task.latest_decision_id is None ==> says(
                said,
                "- latest_main_decision: none\n"@ + TASK_TAIL@,
            )
            &&& task.latest_decision_id matches Some(id) ==> {
                &&& says(
                    said,
                    "- latest_main_decision_id: "@ + id + "\n- latest_main_decision_status: "@,
                )
                &&& says_or_dash(
                    said,
                    "\n- latest_main_decision_status: "@,
                    task.latest_decision_status,
                    "\n- latest_main_decision_summary: "@,
                )
                &&& says_or_dash(
                    said,
                    "\n- latest_main_decision_summary: "@,
                    task.latest_decision_summary,
                    "\n- latest_main_decision_issued_by: "@,
                )
                &&& says_or_dash(
                    said,
                    "\n- latest_main_decision_issued_by: "@,
                    task.latest_decision_issued_by,
                    "\n- latest_main_decision_at: "@,
                )
                &&& task.latest_decision_at is None ==> says(
                    said,
                    "\n- latest_main_decision_at: "@ + "-"@ + "\n"@,
                )
                &&& task.latest_decision_at matches Some(at) ==> says(
                    said,
                    "\n- latest_main_decision_at: "@ + rfc3339(at) + "\n"@,
                )
            }
        }),
{
    let said = task_prompt(agent, task, context);
    let p = task_parts(agent, task, context);
    lemma_task_parts(agent, task, context);
    lemma_between2(p, 26);
    let own = decision_context(task);
    assert(p[26] + p[27] =~= Seq::empty() + own + TASK_TAIL@);
    lemma_longer_says(said, p[26] + p[27], Seq::empty(), own, TASK_TAIL@);
    if task.latest_decision_id is Some {
        lemma_decision_parts(task);
        let c = decision_parts(task);
        lemma_between(c, 0);
        lemma_says_within(said, own, c[0] + c[1] + c[2]);
        lemma_between(c, 2);
        lemma_says_within(said, own, c[2] + c[3] + c[4]);
        lemma_between(c, 4);
        lemma_says_within(said, own, c[4] + c[5] + c[6]);
        lemma_between(c, 6);
        lemma_says_within(said, own, c[6] + c[7] + c[8]);
        lemma_between(c, 8);
        lemma_says_within(said, own, c[8] + c[9] + c[10]);
    }
}

proof fn lemma_block(files: Seq<ContextFile>, i: int)
    requires
        0 <= i < files.len(),
    ensures
        says(file_blocks(files), file_block(files[i].display@, files[i].content@)),
    decreases files.len(),
{
    let front = file_blocks(files.drop_last());
    let whole = file_blocks(files);
    let own = file_block(files.last().display@, files.last().content@);
    if i == files.len() - 1 {
        assert(whole =~= front + own + Seq::empty());
    } else {
        lemma_block(files.drop_last(), i);
        assert(whole =~= Seq::empty() + front + own);
        lemma_says_within(whole, front, file_block(files[i].display@, files[i].content@));
    }
}

proof fn lemma_neighbours(
    before: Seq<char>,
    head: Seq<char>,
    words: Seq<char>,
    close: Seq<char>,
    open: Seq<char>,
    name: Seq<char>,
    after: Seq<char>,
)
    ensures
        says((before + (head + words + close)) + (open + name + after), words + close + open + name),
{
    assert((before + (head + words + close)) + (open + name + after) =~= (before + head) + (words
        + close + open + name) + after);
}

proof fn lemma_block_pair(files: Seq<ContextFile>, i: int)
    requires
        0 <= i < files.len() - 1,
    ensures
        says(
            file_blocks(files),
            files[i].content@ + "\n```\n\n"@ + "File: "@ + files[i + 1].display@,
        ),
    decreases files.len(),
{
    let rest = files.drop_last();
    let front = file_blocks(rest);
    let whole = file_blocks(files);
    let last = files.last();
    if i + 1 < rest.len() {
        let own = file_block(last.display@, last.content@);
        lemma_block_pair(rest, i);
        assert(whole =~= Seq::empty() + front + own);
        lemma_says_within(
            whole,
            front,
            files[i].content@ + "\n```\n\n"@ + "File: "@ + files[i + 1].display@,
        );
    } else {
        let f = rest.last();
        let after = "\n```md\n"@ + last.content@ + "\n```\n\n"@;
        assert(front == file_blocks(rest.drop_last()) + file_block(f.display@, f.content@));
        assert(file_block(last.display@, last.content@) =~= "File: "@ + last.display@ + after);
        lemma_neighbours(
            file_blocks(rest.drop_last()),
            "File: "@ + f.display@ + "\n```md\n"@,
            f.content@,
            "\n```\n\n"@,
            "File: "@,
            last.display@,
            after,
        );
    }
}

/// The context that an agent is given holds every file that was read, its name and then
/// its content, in their order; it names the contract that was not found; and where there
/// is no file it says so.
pub open spec fn says_context(s: Seq<char>, context: AgentContextFiles) -> bool {
    let files = context.files@;
    &&& forall|i: int|
        0 <= i < files.len() ==> says(
            s,
            "File: "@ + #[trigger] files[i].display@ + "\n```md\n"@ + files[i].content@
                + "\n```\n\n"@,
        )
    &&& forall|i: int|
        0 <= i < files.len() - 1 ==> says(
            s,
            #[trigger] files[i].content@ + "\n```\n\n"@ + "File: "@ + files[i + 1].display@,
        )
    &&& files.len() == 0 ==> says(s, NO_CONTEXT@)
    &&& context.missing_prompt matches Some(path) ==> says(s, MISSING_PROMPT@ + path@ + "\n\n"@)
}

/// The part of a prompt that gives the context tells all of it.
pub proof fn context_is_told(context: AgentContextFiles)
    ensures
        says_context(context_prompt(context), context),
        context.files@.len() > 0 ==> says(context_prompt(context), LOADED_CONTEXT@),
        context.missing_prompt is None && context.files@.len() == 0 ==> context_prompt(context)
            == NO_CONTEXT@,
{
    reveal_strlit("");
    let s = context_prompt(context);
    let files = context.files@;
    let missing = match context.missing_prompt {
        Some(path) => MISSING_PROMPT@ + path@ + "\n\n"@,
        None => ""@,
    };
    if files.len() == 0 {
        assert(s =~= missing + NO_CONTEXT@ + Seq::empty());
        assert(s =~= Seq::empty() + missing + NO_CONTEXT@);
        if context.missing_prompt is None {
            assert(s =~= NO_CONTEXT@);
        }
    } else {
        let blocks = file_blocks(files);
        assert(s =~= missing + LOADED_CONTEXT@ + blocks);
        assert(s =~= (missing + LOADED_CONTEXT@) + blocks + Seq::empty());
        assert(s =~= Seq::empty() + missing + (LOADED_CONTEXT@ + blocks));
        assert forall|i: int| 0 <= i < files.len() implies says(
            s,
            "File: "@ + #[trigger] files[i].display@ + "\n```md\n"@ + files[i].content@
                + "\n```\n\n"@,
        ) by {
            lemma_block(files, i);
            lemma_says_within(
                s,
                blocks,
                "File: "@ + files[i].display@ + "\n```md\n"@ + files[i].content@ + "\n```\n\n"@,
            );
        }
        assert forall|i: int| 0 <= i < files.len() - 1 implies says(
            s,
            #[trigger] files[i].content@ + "\n```\n\n"@ + "File: "@ + files[i + 1].display@,
        ) by {
            lemma_block_pair(files, i);
            lemma_says_within(
                s,
                blocks,
                files[i].content@ + "\n```\n\n"@ + "File: "@ + files[i + 1].display@,
            );
        }
    }
}

proof fn lemma_context_within(s: Seq<char>, context: AgentContextFiles)
    requires
        says(s, context_prompt(context)),
    ensures
        says_context(s, context),
{
    let own = context_prompt(context);
    let files = context.files@;
    context_is_told(context);
    assert forall|i: int| 0 <= i < files.len() implies says(
        s,
        "File: "@ + #[trigger] files[i].display@ + "\n```md\n"@ + files[i].content@
            + "\n```\n\n"@,
    ) by {
        lemma_says_within(
            s,
            own,
            "File: "@ + files[i].display@ + "\n```md\n"@ + files[i].content@ + "\n```\n\n"@,
        );
    }
    assert forall|i: int| 0 <= i < files.len() - 1 implies says(
        s,
        #[trigger] files[i].content@ + "\n```\n\n"@ + "File: "@ + files[i + 1].display@,
    ) by {
        lemma_says_within(
            s,
            own,
            files[i].content@ + "\n```\n\n"@ + "File: "@ + files[i + 1].display@,
        );
    }
    if files.len() == 0 {
        lemma_says_within(s, own, NO_CONTEXT@);
    }
    if let Some(path) = context.missing_prompt {
        lemma_says_within(s, own, MISSING_PROMPT@ + path@ + "\n\n"@);
    }
}

/// A task prompt gives the agent its context.
pub proof fn task_prompt_gives_the_context(
    agent: AgentModel,
    task: TaskModel,
    context: AgentContextFiles,
)
    ensures
        says_context(task_prompt(agent, task, context), context),
{
    let p = task_parts(agent, task, context);
    let said = task_prompt(agent, task, context);
    lemma_task_parts(agent, task, context);
    lemma_between(p, 2);
    lemma_longer_says(said, p[2] + p[3] + p[4], p[2], p[3], p[4]);
    lemma_context_within(said, context);
}

spec fn round_parts(agent: AgentModel, context: AgentContextFiles, request: Seq<char>) -> Seq<
    Seq<char>,
> {
    seq![
        ROUND_HEAD@,
        agent.name,
        "` inside repository `"@,
        agent.cwd,
        ROUND_RULE@,
        context_prompt(context),
        "Round request:\n"@,
        request,
        "\n"@,
    ]
}

proof fn lemma_round_parts(agent: AgentModel, context: AgentContextFiles, request: Seq<char>)
    ensures
        agent_round_prompt(agent, context, request) == chain(round_parts(agent, context, request)),
{
    let p = round_parts(agent, context, request);
    assert(p.take(9) =~= p);
    assert(p.take(0).len() == 0);
    lemma_step(p, 0);
    assert(chain(p.take(1)) =~= p[0]);
    lemma_step(p, 1);
    lemma_step(p, 2);
    lemma_step(p, 3);
    lemma_step(p, 4);
    lemma_step(p, 5);
    lemma_step(p, 6);
    lemma_step(p, 7);
    lemma_step(p, 8);
}

/// The prompt of a round outside of tasks names the agent and its directory, gives the
/// agent its context, and ends with what was asked, word for word: two different requests
/// get different prompts.
pub proof fn round_prompt_tells_the_request(
    agent: AgentModel,
    context: AgentContextFiles,
    request: Seq<char>,
    other: Seq<char>,
)
    ensures
        ({
            let said = agent_round_prompt(agent, context, request);
            &&& says(said, "You are operating as agent `"@ + agent.name + "` inside repository `"@)
            &&& says(said, "` inside repository `"@ + agent.cwd + ROUND_RULE@)
            &&& says_context(said, context)
            &&& exists|before: Seq<char>|
                said == #[trigger] (before + ("Round request:\n"@ + request + "\n"@))
            &&& other != request ==> said != agent_round_prompt(agent, context, other)
        }),
{
    let p = round_parts(agent, context, request);
    let said = agent_round_prompt(agent, context, request);
    lemma_round_parts(agent, context, request);
    lemma_round_parts(agent, context, other);
    lemma_between(p, 0);
    lemma_between(p, 2);
    lemma_between(p, 4);
    lemma_longer_says(said, p[4] + p[5] + p[6], p[4], p[5], p[6]);
    lemma_context_within(said, context);
    let before = ROUND_HEAD@ + agent.name + "` inside repository `"@ + agent.cwd + ROUND_RULE@
        + context_prompt(context);
    assert(said =~= before + ("Round request:\n"@ + request + "\n"@));
    if said == agent_round_prompt(agent, context, other) {
        assert(round_parts(agent, context, other) =~= p.update(7, other));
        lemma_one_part(p, 7, other);
    }
}

spec fn draft_parts(
    source: AgentModel,
    target: AgentModel,
    context: AgentContextFiles,
    request: Seq<char>,
) -> Seq<Seq<char>> {
    seq![
        DRAFT_HEAD@,
        source.name,
        "` and must prepare one concrete delegated task for target agent `"@,
        target.name,
        DRAFT_RULE@,
        context_prompt(context),
        DRAFT_CONTRACT@,
        source.name,
        "\n- source_cwd: "@,
        source.cwd,
        "\n- target_agent: "@,
        target.name,
        "\n- target_cwd: "@,
        target.cwd,
        "\n- target_prompt_path: "@,
        text_or(target.prompt_path, "-"@),
        "\n\nOperator intent:\n"@,
        trimmed(request),
        "\n"@,
    ]
}

proof fn lemma_draft_parts(
    source: AgentModel,
    target: AgentModel,
    context: AgentContextFiles,
    request: Seq<char>,
)
    ensures
        task_creation_prompt(source, target, context, request) == chain(
            draft_parts(source, target, context, request),
        ),
{
    let p = draft_parts(source, target, context, request);
    assert(p.take(19) =~= p);
    assert(p.take(0).len() == 0);
    lemma_step(p, 0);
    assert(chain(p.take(1)) =~= p[0]);
    lemma_step(p, 1);
    lemma_step(p, 2);
    lemma_step(p, 3);
    lemma_step(p, 4);
    lemma_step(p, 5);
    lemma_step(p, 6);
    lemma_step(p, 7);
    lemma_step(p, 8);
    lemma_step(p, 9);
    lemma_step(p, 10);
    lemma_step(p, 11);
    lemma_step(p, 12);
    lemma_step(p, 13);
    lemma_step(p, 14);
    lemma_step(p, 15);
    lemma_step(p, 16);
    lemma_step(p, 17);
    lemma_step(p, 18);
}

/// The prompt that asks for a task tells the source agent from its target, each with its
/// own directory, gives the source agent its context, and ends with what was asked.
pub proof fn draft_prompt_tells_the_request(
    source: AgentModel,
    target: AgentModel,
    context: AgentContextFiles,
    request: Seq<char>,
)
    ensures
        ({
            let said = task_creation_prompt(source, target, context, request);
            &&& says(said, "You are acting as source agent `"@ + source.name
                + "` and must prepare one concrete delegated task for target agent `"@)
            &&& says(
                said,
                "` and must prepare one concrete delegated task for target agent `"@ + target.name
                    + DRAFT_RULE@,
            )
            &&& says(said, DRAFT_CONTRACT@ + source.name + "\n- source_cwd: "@)
            &&& says(said, "\n- source_cwd: "@ + source.cwd + "\n- target_agent: "@)
            &&& says(said, "\n- target_agent: "@ + target.name + "\n- target_cwd: "@)
            &&& says(said, "\n- target_cwd: "@ + target.cwd + "\n- target_prompt_path: "@)
            &&& says_or_dash(
                said,
                "\n- target_prompt_path: "@,
                target.prompt_path,
                "\n\nOperator intent:\n"@,
            )
            &&& says(said, "\n\nOperator intent:\n"@ + trimmed(request) + "\n"@)
            &&& says_context(said, context)
        }),
{
    let p = draft_parts(source, target, context, request);
    let said = task_creation_prompt(source, target, context, request);
    lemma_draft_parts(source, target, context, request);
    lemma_between(p, 0);
    lemma_between(p, 2);
    lemma_between(p, 4);
    lemma_between(p, 6);
    lemma_between(p, 8);
    lemma_between(p, 10);
    lemma_between(p, 12);
    lemma_between(p, 14);
    lemma_between(p, 16);
    lemma_longer_says(said, p[4] + p[5] + p[6], p[4], p[5], p[6]);
    lemma_context_within(said, context);
}

/// The first prompt of a managed agent names the file of its contract: the one that is
/// configured, else that of its role.
pub proof fn first_prompt_names_the_contract(role: AgentRole, file_name: Option<Seq<char>>)
    ensures
        file_name matches Some(name) ==> bootstrap_prompt(role, file_name) == BOOTSTRAP_HEAD@
            + name + BOOTSTRAP_TAIL@,
        file_name is None && role == AgentRole::Main ==> bootstrap_prompt(role, file_name)
            == BOOTSTRAP_HEAD@ + "MAIN_AGENT_PROMPT.md"@ + BOOTSTRAP_TAIL@,
        file_name is None && role == AgentRole::Child ==> bootstrap_prompt(role, file_name)
            == BOOTSTRAP_HEAD@ + "SUBAGENT_PROMPT.md"@ + BOOTSTRAP_TAIL@,
{
}

/// The standing instructions of a managed agent are its own contract, and for the main
/// agent alone the rules of the task flow after it; without a contract there are none.
pub proof fn instructions_hold_the_contract(
    agent: AgentModel,
    prompt: Seq<char>,
    flow: Option<(Seq<char>, Seq<char>)>,
)
    ensures
        ({
            let said = managed_instructions(agent, prompt, flow);
            &&& said is Some <==> agent.prompt_path is Some
            &&& agent.prompt_path matches Some(path) ==> {
                &&& says(said->Some_0, CONTRACT_HEAD@ + path + "\n\n"@ + trimmed(prompt))
                &&& (flow matches Some(f) && agent.name == "main"@) ==> says(
                    said->Some_0,
                    trimmed(prompt) + "\n\n"@ + (FLOW_HEAD@ + flow->Some_0.0) + "\n\n"@ + trimmed(
                        flow->Some_0.1,
                    ),
                )
                &&& flow is None || agent.name != "main"@ ==> said->Some_0 == CONTRACT_HEAD@ + path
                    + "\n\n"@ + trimmed(prompt)
            }
        }),
{
    if let Some(path) = agent.prompt_path {
        let said = managed_instructions(agent, prompt, flow)->Some_0;
        let own = CONTRACT_HEAD@ + path + "\n\n"@ + trimmed(prompt);
        if flow is Some && agent.name == "main"@ {
            let more = (FLOW_HEAD@ + flow->Some_0.0) + "\n\n"@ + trimmed(flow->Some_0.1);
            assert(said =~= Seq::empty() + own + ("\n\n"@ + more));
            assert(said =~= (CONTRACT_HEAD@ + path + "\n\n"@) + (trimmed(prompt) + "\n\n"@ + (
            FLOW_HEAD@ + flow->Some_0.0) + "\n\n"@ + trimmed(flow->Some_0.1)) + Seq::empty());
        } else {
            assert(said =~= Seq::empty() + own + Seq::empty());
        }
    }
}

/// The context of an agent is its contract, where it names one, and then the notes of its
/// repository, where they are there and are not the contract itself.
pub proof fn context_is_contract_and_notes(
    prompt: Option<(Seq<char>, bool)>,
    work: (Seq<char>, bool),
)
    ensures
        ({
            let sources = context_sources(prompt, work);
            let noted = work.1 && (prompt is None || prompt->Some_0.0 != work.0);
            &&& prompt matches Some(p) ==> sources.len() > 0 && sources[0].kind
                == AgentContextSourceKind::PromptContract && sources[0].path == p.0
                && sources[0].exists == p.1
            &&& noted ==> sources.len() > 0 && sources.last().kind
                == AgentContextSourceKind::WorkingNotes && sources.last().path == work.0
                && sources.last().exists
            &&& prompt is Some && noted ==> sources.len() == 2
            &&& prompt is Some && !noted ==> sources.len() == 1
            &&& prompt is None && noted ==> sources.len() == 1
            &&& prompt is None && !noted ==> sources.len() == 0
        }),
{
}

} // verus!
