//! The prompts that rounds are started with.

use vstd::prelude::*;

use crate::models::{
    AgentContextSource, AgentContextSourceKind, AgentModel, AgentRole, AgentSummary, SourceModel,
    TaskModel, TaskSummary,
};
use crate::startup::{default_prompt_file, prompt_file};
use crate::table::views;
use crate::text::{
    decimal, join, joined, opt_text, same_text, text, text_or, texts, to_decimal, trim, trimmed,
};
use crate::time::{rfc3339, to_rfc3339};

verus! {

/// A file of an agent's context: how it is shown, and whether it is there.
pub struct ContextFact {
    pub display: String,
    pub exists: bool,
}

/// What an agent's context is made of: its contract, where it has one, and the
/// working notes of its repository, where they are there and not the contract itself.
pub open spec fn context_sources(
    prompt: Option<(Seq<char>, bool)>,
    work: (Seq<char>, bool),
) -> Seq<SourceModel> {
    let contract = match prompt {
        Some(p) => seq![
            SourceModel {
                kind: AgentContextSourceKind::PromptContract,
                path: p.0,
                exists: p.1,
            },
        ],
        None => Seq::empty(),
    };
    if work.1 && !(prompt matches Some(p) && p.0 == work.0) {
        contract.push(
            SourceModel {
                kind: AgentContextSourceKind::WorkingNotes,
                path: work.0,
                exists: true,
            },
        )
    } else {
        contract
    }
}

pub open spec fn fact(f: Option<ContextFact>) -> Option<(Seq<char>, bool)> {
    match f {
        Some(f) => Some((f.display@, f.exists)),
        None => None,
    }
}

pub fn collect_agent_context_source_entries(prompt: Option<ContextFact>, work: ContextFact) -> (r: Vec<
    AgentContextSource,
>)
    ensures
        views(r@) == context_sources(fact(prompt), (work.display@, work.exists)),
{
    let mut out: Vec<AgentContextSource> = Vec::new();
    let mut repeated = false;
    match prompt {
        Some(p) => {
            repeated = same_text(p.display.as_str(), work.display.as_str());
            out.push(
                AgentContextSource {
                    kind: AgentContextSourceKind::PromptContract,
                    path: p.display,
                    exists: p.exists,
                },
            );
        },
        None => {},
    }
    if work.exists && !repeated {
        out.push(
            AgentContextSource {
                kind: AgentContextSourceKind::WorkingNotes,
                path: work.display,
                exists: true,
            },
        );
    }
    assert(views(out@) =~= context_sources(fact(prompt), (work.display@, work.exists)));
    out
}

/// A file of the context that was read.
pub struct ContextFile {
    pub display: String,
    pub content: String,
}

/// The context of an agent as it was read.
pub struct AgentContextFiles {
    /// The configured prompt path, where no such file is there.
    pub missing_prompt: Option<String>,
    pub files: Vec<ContextFile>,
}

pub const MISSING_PROMPT: &'static str = "Configured agent prompt path was not found, so continue with repo discovery only: ";

pub const NO_CONTEXT: &'static str = "No agent-specific prompt file or context file was found automatically. Inspect the repository directly before acting.\n\n";

pub const LOADED_CONTEXT: &'static str = "The following repo-local context files are already loaded for this round. Treat them as the active role contract and long-lived working context. Real-time child/main communication is supplied separately through daemon task and decision state, not repo-local status files.\n\n";

/// One file as a block of the prompt.
pub open spec fn file_block(display: Seq<char>, content: Seq<char>) -> Seq<char> {
    "File: "@ + display + "\n```md\n"@ + content + "\n```\n\n"@
}

/// All files as blocks, one after another.
pub open spec fn file_blocks(files: Seq<ContextFile>) -> Seq<char>
    decreases files.len(),
{
    if files.len() == 0 {
        Seq::empty()
    } else {
        file_blocks(files.drop_last()) + file_block(
            files.last().display@,
            files.last().content@,
        )
    }
}

/// The part of a prompt that gives the agent its context.
pub open spec fn context_prompt(context: AgentContextFiles) -> Seq<char> {
    let missing = match context.missing_prompt {
        Some(path) => MISSING_PROMPT@ + path@ + "\n\n"@,
        None => ""@,
    };
    if context.files@.len() == 0 {
        missing + NO_CONTEXT@
    } else {
        missing + LOADED_CONTEXT@ + file_blocks(context.files@)
    }
}

pub fn compose_agent_context_prompt(context: &AgentContextFiles) -> (r: String)
    ensures
        r@ == context_prompt(*context),
{
    let missing = match &context.missing_prompt {
        Some(path) => text(MISSING_PROMPT).concat(path.as_str()).concat("\n\n"),
        None => text(""),
    };
    if context.files.len() == 0 {
        return missing.concat(NO_CONTEXT);
    }
    let mut blocks = String::new();
    let mut i: usize = 0;
    while i < context.files.len()
        invariant
            i <= context.files.len(),
            blocks@ == file_blocks(context.files@.take(i as int)),
        decreases context.files.len() - i,
    {
        let f = &context.files[i];
        let block = text("File: ").concat(f.display.as_str()).concat("\n```md\n").concat(
            f.content.as_str(),
        ).concat("\n```\n\n");
        blocks.append(block.as_str());
        i += 1;
        proof {
            let head = context.files@.take(i as int);
            assert(head.drop_last() =~= context.files@.take(i - 1));
            assert(head.last() == *f);
        }
    }
    assert(context.files@.take(i as int) =~= context.files@);
    missing.concat(LOADED_CONTEXT).concat(blocks.as_str())
}

pub const ROUND_HEAD: &'static str = "You are operating as agent `";

pub const ROUND_RULE: &'static str = "`.\nWork only inside this repository unless the repo-local instructions explicitly tell you to inspect another local path.\n\n";

pub open spec fn agent_round_prompt(
    agent: AgentModel,
    context: AgentContextFiles,
    request: Seq<char>,
) -> Seq<char> {
    ROUND_HEAD@ + agent.name + "` inside repository `"@ + agent.cwd + ROUND_RULE@ + context_prompt(
        context,
    ) + "Round request:\n"@ + request + "\n"@
}

pub fn compose_agent_round_prompt(
    agent: &AgentSummary,
    context: &AgentContextFiles,
    request: &str,
) -> (r: String)
    ensures
        r@ == agent_round_prompt(agent@, *context, request@),
{
    text(ROUND_HEAD).concat(agent.name.as_str()).concat("` inside repository `").concat(
        agent.cwd.as_str(),
    ).concat(ROUND_RULE).concat(compose_agent_context_prompt(context).as_str()).concat(
        "Round request:\n",
    ).concat(request).concat("\n")
}

pub const DRAFT_HEAD: &'static str = "You are acting as source agent `";

pub const DRAFT_RULE: &'static str = "`.\nDo not execute the work yourself in this round. Do not modify files in this round. Your only job is to translate the operator intent into a structured task contract that agentd will create after your JSON reply.\n\n";

pub const DRAFT_CONTRACT: &'static str = "Dispatch contract:\n- Return exactly one JSON object matching the provided schema and nothing else.\n- `title` should be a short actionable task title.\n- `summary` should explain the goal, boundary, and expected outcome for the target agent.\n- `effort` should be `null`, `medium`, `high`, or `xhigh`. Prefer `null` unless a stronger effort is clearly justified.\n- `read_scope` should contain the minimal absolute paths the target agent may need to read.\n- `write_scope` must stay inside the target repository.\n- `acceptance` should contain concrete verification points or deliverables.\n- If the operator request is broad, break out only the single next task for this target agent.\n- Do not wrap the JSON in markdown fences.\n\nDispatch context:\n- source_agent: ";

pub open spec fn task_creation_prompt(
    source: AgentModel,
    target: AgentModel,
    context: AgentContextFiles,
    request: Seq<char>,
) -> Seq<char> {
    DRAFT_HEAD@ + source.name
        + "` and must prepare one concrete delegated task for target agent `"@ + target.name
        + DRAFT_RULE@ + context_prompt(context) + DRAFT_CONTRACT@ + source.name
        + "\n- source_cwd: "@ + source.cwd + "\n- target_agent: "@ + target.name
        + "\n- target_cwd: "@ + target.cwd + "\n- target_prompt_path: "@ + text_or(
        target.prompt_path,
        "-"@,
    ) + "\n\nOperator intent:\n"@ + trimmed(request) + "\n"@
}

pub fn compose_task_creation_prompt(
    source_agent: &AgentSummary,
    target_agent: &AgentSummary,
    context: &AgentContextFiles,
    request: &str,
) -> (r: String)
    ensures
        r@ == task_creation_prompt(source_agent@, target_agent@, *context, request@),
{
    text(DRAFT_HEAD).concat(source_agent.name.as_str()).concat(
        "` and must prepare one concrete delegated task for target agent `",
    ).concat(target_agent.name.as_str()).concat(DRAFT_RULE).concat(
        compose_agent_context_prompt(context).as_str(),
    ).concat(DRAFT_CONTRACT).concat(source_agent.name.as_str()).concat("\n- source_cwd: ").concat(
        source_agent.cwd.as_str(),
    ).concat("\n- target_agent: ").concat(target_agent.name.as_str()).concat(
        "\n- target_cwd: ",
    ).concat(target_agent.cwd.as_str()).concat("\n- target_prompt_path: ").concat(
        opt_or(&target_agent.prompt_path, "-").as_str(),
    ).concat("\n\nOperator intent:\n").concat(trim(request).as_str()).concat("\n")
}

pub fn opt_or(o: &Option<String>, fallback: &str) -> (r: String)
    ensures
        r@ == text_or(opt_text(*o), fallback@),
{
    match o {
        Some(s) => s.clone(),
        None => text(fallback),
    }
}

/// The items as a list, one on a line, or one line in their place.
pub open spec fn bullets(items: Seq<Seq<char>>, fallback: Seq<char>) -> Seq<char> {
    if items.len() == 0 {
        "- "@ + fallback
    } else {
        joined(items.map_values(|s: Seq<char>| "- "@ + s), "\n"@)
    }
}

fn make_bullets(items: &Vec<String>, fallback: &str) -> (r: String)
    ensures
        r@ == bullets(texts(items@), fallback@),
{
    assert(texts(items@).len() == items.len());
    if items.len() == 0 {
        return text("- ").concat(fallback);
    }
    let mut lines: Vec<String> = Vec::new();
    let mut i: usize = 0;
    let ghost want = texts(items@).map_values(|s: Seq<char>| "- "@ + s);
    while i < items.len()
        invariant
            i <= items.len(),
            want == texts(items@).map_values(|s: Seq<char>| "- "@ + s),
            texts(lines@) =~= want.take(i as int),
        decreases items.len() - i,
    {
        let line = text("- ").concat(items[i].as_str());
        let ghost before = lines@;
        lines.push(line);
        assert(texts(lines@) =~= texts(before).push(line@));
        i += 1;
    }
    assert(texts(lines@) =~= want);
    join(&lines, "\n")
}

/// What the task's last round reported.
pub open spec fn child_context(task: TaskModel) -> Seq<char> {
    if task.round_count == 0 {
        "- latest_child_round: none\n"@
    } else {
        "- latest_child_round: "@ + decimal(task.round_count as nat) + "\n- latest_child_status: "@
            + text_or(task.latest_child_status, "-"@) + "\n- latest_child_summary: "@ + text_or(
            task.latest_child_summary,
            "-"@,
        ) + "\n- latest_child_blocking: "@ + text_or(task.latest_child_blocking, "-"@)
            + "\n- latest_child_topic: "@ + text_or(task.latest_child_topic, "-"@)
            + "\n- latest_child_details: "@ + text_or(task.latest_child_details, "-"@) + "\n"@
    }
}

/// What the main agent decided last.
pub open spec fn decision_context(task: TaskModel) -> Seq<char> {
    match task.latest_decision_id {
        Some(id) => "- latest_main_decision_id: "@ + id + "\n- latest_main_decision_status: "@
            + text_or(task.latest_decision_status, "-"@) + "\n- latest_main_decision_summary: "@
            + text_or(task.latest_decision_summary, "-"@) + "\n- latest_main_decision_issued_by: "@
            + text_or(task.latest_decision_issued_by, "-"@) + "\n- latest_main_decision_at: "@ + (
        match task.latest_decision_at {
            Some(t) => rfc3339(t),
            None => "-"@,
        }) + "\n"@,
        None => "- latest_main_decision: none\n"@,
    }
}

fn make_child_context(task: &TaskSummary) -> (r: String)
    ensures
        r@ == child_context(task@),
{
    if task.round_count == 0 {
        text("- latest_child_round: none\n")
    } else {
        text("- latest_child_round: ").concat(
            to_decimal(task.round_count as u64).as_str(),
        ).concat("\n- latest_child_status: ").concat(
            opt_or(&task.latest_child_status, "-").as_str(),
        ).concat("\n- latest_child_summary: ").concat(
            opt_or(&task.latest_child_summary, "-").as_str(),
        ).concat("\n- latest_child_blocking: ").concat(
            opt_or(&task.latest_child_blocking, "-").as_str(),
        ).concat("\n- latest_child_topic: ").concat(
            opt_or(&task.latest_child_topic, "-").as_str(),
        ).concat("\n- latest_child_details: ").concat(
            opt_or(&task.latest_child_details, "-").as_str(),
        ).concat("\n")
    }
}

fn make_decision_context(task: &TaskSummary) -> (r: String)
    ensures
        r@ == decision_context(task@),
{
    match &task.latest_decision_id {
        Some(id) => {
            let at = match task.latest_decision_at {
                Some(t) => to_rfc3339(t),
                None => text("-"),
            };
            text("- latest_main_decision_id: ").concat(id.as_str()).concat(
                "\n- latest_main_decision_status: ",
            ).concat(opt_or(&task.latest_decision_status, "-").as_str()).concat(
                "\n- latest_main_decision_summary: ",
            ).concat(opt_or(&task.latest_decision_summary, "-").as_str()).concat(
                "\n- latest_main_decision_issued_by: ",
            ).concat(opt_or(&task.latest_decision_issued_by, "-").as_str()).concat(
                "\n- latest_main_decision_at: ",
            ).concat(at.as_str()).concat("\n")
        },
        None => text("- latest_main_decision: none\n"),
    }
}

pub const TASK_HEAD: &'static str = "You are executing one repository-scoped task as child agent `";

pub const TASK_RULE: &'static str = "`.\nWork only inside the allowed write scope. You may read outside the current repository only when the repo-local instructions or the task read scope explicitly allow it.\n\n";

pub const TASK_CONTRACT: &'static str = "Transport contract:\n- Your repo-local prompt may still ask for a human-readable `[REPORT]` or a repository progress-note update such as `work.md`. Treat those files as optional local workflow aids, not as the transport source of truth.\n- The authoritative communication channel for this round is the structured JSON payload plus daemon-side task and decision state kept in memory and SQLite.\n- Your final stdout for this round must still be exactly one JSON object that matches the provided schema and nothing else.\n- If you would normally answer with `[REPORT]`, translate that report into the JSON fields `summary`, `blocking`, `topic`, `details`, and `next_suggestion`.\n- Use `status=wait_decision` only when you must stop before continuing. Use `status=report` when you can summarize a concrete gap or issue for the main agent to analyze.\n\nReturn exactly one JSON object that matches the provided schema and nothing else.\n\nTask context:\n- task_id: ";

pub const TASK_TAIL: &'static str = "\nInterpretation rules:\n- Use status=result when you completed the requested work for this round.\n- Use status=report when you have a concrete issue, gap, or uncertainty for the main agent to analyze.\n- Use status=wait_decision when you must stop and wait before continuing.\n- If a latest main decision exists, treat it as the current instruction for this new round.\n- Keep changed_files limited to files you actually changed in this repository.\n- Do not wrap the JSON in markdown fences.\n";

pub open spec fn task_prompt(
    agent: AgentModel,
    task: TaskModel,
    context: AgentContextFiles,
) -> Seq<char> {
    TASK_HEAD@ + agent.name + TASK_RULE@ + context_prompt(context) + TASK_CONTRACT@ + task.task_id
        + "\n- from: "@ + task.from_agent + "\n- to: "@ + task.to_agent + "\n- title: "@
        + task.title + "\n- summary: "@ + task.summary + "\n- effort: "@ + text_or(
        task.effort,
        "high"@,
    ) + "\n- round_count_completed: "@ + decimal(task.round_count as nat)
        + "\n\nRead scope:\n"@ + bullets(task.read_scope, "current repository only"@)
        + "\n\nWrite scope:\n"@ + bullets(task.write_scope, agent.cwd) + "\n\nAcceptance:\n"@
        + bullets(task.acceptance, "not explicitly provided"@)
        + "\n\nMost recent round context:\n"@ + child_context(task) + decision_context(task)
        + TASK_TAIL@
}

pub fn compose_task_prompt(agent: &AgentSummary, task: &TaskSummary, context: &AgentContextFiles) -> (r:
    String)
    ensures
        r@ == task_prompt(agent@, task@, *context),
{
    text(TASK_HEAD).concat(agent.name.as_str()).concat(TASK_RULE).concat(
        compose_agent_context_prompt(context).as_str(),
    ).concat(TASK_CONTRACT).concat(task.task_id.as_str()).concat("\n- from: ").concat(
        task.from_agent.as_str(),
    ).concat("\n- to: ").concat(task.to_agent.as_str()).concat("\n- title: ").concat(
        task.title.as_str(),
    ).concat("\n- summary: ").concat(task.summary.as_str()).concat("\n- effort: ").concat(
        opt_or(&task.effort, "high").as_str(),
    ).concat("\n- round_count_completed: ").concat(
        to_decimal(task.round_count as u64).as_str(),
    ).concat("\n\nRead scope:\n").concat(
        make_bullets(&task.read_scope, "current repository only").as_str(),
    ).concat("\n\nWrite scope:\n").concat(
        make_bullets(&task.write_scope, agent.cwd.as_str()).as_str(),
    ).concat("\n\nAcceptance:\n").concat(
        make_bullets(&task.acceptance, "not explicitly provided").as_str(),
    ).concat("\n\nMost recent round context:\n").concat(make_child_context(task).as_str()).concat(
        make_decision_context(task).as_str(),
    ).concat(TASK_TAIL)
}

pub const BOOTSTRAP_HEAD: &'static str = "先按 UTF-8 读取当前工作区中的 ";

pub const BOOTSTRAP_TAIL: &'static str = "，并将其视为你的角色契约。暂时不要开始工作，先总结自己的当前职责边界和待命状态，不要开始新的工作，等待下一条消息。";

/// The prompt with which a managed agent is started; `file_name` is the last
/// part of its prompt path.
pub open spec fn bootstrap_prompt(role: AgentRole, file_name: Option<Seq<char>>) -> Seq<char> {
    BOOTSTRAP_HEAD@ + text_or(file_name, prompt_file(role)) + BOOTSTRAP_TAIL@
}

pub fn default_managed_bootstrap_prompt(role: AgentRole, file_name: &Option<String>) -> (r: String)
    ensures
        r@ == bootstrap_prompt(role, opt_text(*file_name)),
{
    text(BOOTSTRAP_HEAD).concat(opt_or(file_name, default_prompt_file(role)).as_str()).concat(
        BOOTSTRAP_TAIL,
    )
}

/// A contract that was read for a managed agent.
pub struct ContractText {
    pub path: String,
    pub content: String,
}

pub const CONTRACT_HEAD: &'static str = "以下内容由 AgentTool 以 UTF-8 从工作区提示词文件读取，并作为你的长期角色契约。\n契约文件: ";

pub const FLOW_HEAD: &'static str = "以下内容同样由 AgentTool 以 UTF-8 读取，并作为主 agent 的额外任务流约束。\n契约文件: ";

/// The standing instructions of a managed agent: its contract, and for the main
/// agent the rules of the task flow, where they are there.
pub open spec fn managed_instructions(
    agent: AgentModel,
    prompt: Seq<char>,
    flow: Option<(Seq<char>, Seq<char>)>,
) -> Option<Seq<char>> {
    match agent.prompt_path {
        None => None,
        Some(path) => {
            let own = CONTRACT_HEAD@ + path + "\n\n"@ + trimmed(prompt);
            match flow {
                Some(f) => if agent.name == "main"@ {
                    Some(own + "\n\n"@ + (FLOW_HEAD@ + f.0) + "\n\n"@ + trimmed(f.1))
                } else {
                    Some(own)
                },
                None => Some(own),
            }
        },
    }
}

pub open spec fn contract(c: Option<ContractText>) -> Option<(Seq<char>, Seq<char>)> {
    match c {
        Some(c) => Some((c.path@, c.content@)),
        None => None,
    }
}

/// `prompt_text` is what the agent's prompt file holds.
pub fn compose_managed_instructions(
    agent: &AgentSummary,
    prompt_text: &str,
    role_contract: Option<ContractText>,
) -> (r: Option<String>)
    ensures
        opt_text(r) == managed_instructions(agent@, prompt_text@, contract(role_contract)),
{
    match &agent.prompt_path {
        None => None,
        Some(path) => {
            let own = text(CONTRACT_HEAD).concat(path.as_str()).concat("\n\n").concat(
                trim(prompt_text).as_str(),
            );
            match role_contract {
                Some(f) => if same_text(agent.name.as_str(), "main") {
                    let head = text(FLOW_HEAD).concat(f.path.as_str());
                    Some(
                        own.concat("\n\n").concat(head.as_str()).concat("\n\n").concat(
                            trim(f.content.as_str()).as_str(),
                        ),
                    )
                } else {
                    Some(own)
                },
                None => Some(own),
            }
        },
    }
}

} // verus!
