//! What the control client makes of the daemon's answers: the overview, a trace,
//! the inbox of the main agent, and how long it waits for an answer.

use vstd::prelude::*;

use crate::config::AppConfig;
use crate::control::ControlRequest;
use crate::draft::{is_task_terminal, terminal};
use crate::failure::{seen, Failure};
use crate::models::{
    AgentBootstrapState, AgentModel, AgentRole, AgentSessionState, AgentSummary,
    BridgeConnectionState, CodexSessionStatus, RuntimeEventModel, RuntimeEventRecord,
    RuntimeTraceView, SessionModel, SessionSummary, TaskModel, TaskRoundStatus, TaskState,
    TaskSummary, TraceModel,
};
use crate::order::{
    lemma_text_order, rank_all, ranked, text_is_not_after, text_not_after, Rank, Ranked,
};
use crate::table::{views, Dup};
use crate::text::{
    copy_text, decimal, join, joined, lower, opt_text, same_text, text, text_or, texts, to_decimal,
    to_lower, trim, trimmed,
};
use crate::time::{lemma_before_total, rfc3339, to_rfc3339, Timestamp};

verus! {

/// So many spaces.
pub open spec fn spaces(n: nat) -> Seq<char> {
    Seq::new(n, |i: int| ' ')
}

/// The text, filled up with spaces to a width.
pub open spec fn padded(s: Seq<char>, width: nat) -> Seq<char> {
    if s.len() < width {
        s + spaces((width - s.len()) as nat)
    } else {
        s
    }
}

fn pad(s: &str, width: usize) -> (r: String)
    ensures
        r@ == padded(s@, width as nat),
{
    let mut r = text(s);
    let mut n: usize = s.unicode_len();
    assert(r@ =~= s@ + spaces(0));
    while n < width
        invariant
            s@.len() <= n,
            n <= width || n == s@.len(),
            r@ == s@ + spaces((n - s@.len()) as nat),
        decreases width - n,
    {
        r.push(' ');
        n += 1;
        assert(r@ =~= s@ + spaces((n - s@.len()) as nat));
    }
    assert(s@ + spaces(0) =~= s@);
    r
}

/// A line of dashes.
pub open spec fn rule() -> Seq<char> {
    Seq::new(116, |i: int| '-')
}

fn make_rule() -> (r: String)
    ensures
        r@ == rule(),
{
    let mut r = String::new();
    let mut n: usize = 0;
    while n < 116
        invariant
            n <= 116,
            r@ == Seq::new(n as nat, |i: int| '-'),
        decreases 116 - n,
    {
        r.push('-');
        n += 1;
        assert(r@ =~= Seq::new(n as nat, |i: int| '-'));
    }
    r
}

/// An agent with what the file system says of its context.
pub struct OverviewAgent {
    pub agent: AgentSummary,
    /// Whether the prompt path, where there is one, is a file.
    pub prompt_is_file: bool,
    /// Whether the repository has a work file.
    pub has_work: bool,
}

#[verifier::ext_equal]
pub struct OverviewModel {
    pub agent: AgentModel,
    pub prompt_is_file: bool,
    pub has_work: bool,
}

impl View for OverviewAgent {
    type V = OverviewModel;

    open spec fn view(&self) -> OverviewModel {
        OverviewModel {
            agent: self.agent@,
            prompt_is_file: self.prompt_is_file,
            has_work: self.has_work,
        }
    }
}

impl Dup for OverviewAgent {
    fn dup(&self) -> OverviewAgent {
        OverviewAgent {
            agent: self.agent.dup(),
            prompt_is_file: self.prompt_is_file,
            has_work: self.has_work,
        }
    }
}

/// Main agents come first, then children; each by name.
impl Ranked for OverviewModel {
    open spec fn not_after(self, other: Self) -> bool {
        if self.agent.role == other.agent.role {
            text_not_after(self.agent.name, other.agent.name)
        } else {
            self.agent.role is Main
        }
    }

    proof fn ranks(a: Self, b: Self, c: Self) {
        lemma_text_order(a.agent.name, b.agent.name, c.agent.name);
    }
}

impl Rank for OverviewAgent {
    fn is_not_after(&self, other: &Self) -> bool {
        if self.agent.role == other.agent.role {
            text_is_not_after(self.agent.name.as_str(), other.agent.name.as_str())
        } else {
            self.agent.role == AgentRole::Main
        }
    }
}

/// The session that the agent names, where the snapshot has it.
pub open spec fn session_named(sessions: Seq<SessionModel>, id: Seq<char>) -> Option<SessionModel>
    decreases sessions.len(),
{
    if sessions.len() == 0 {
        None
    } else if sessions[0].session_id == id {
        Some(sessions[0])
    } else {
        session_named(sessions.skip(1), id)
    }
}

pub open spec fn current_session(
    sessions: Seq<SessionModel>,
    agent: AgentModel,
) -> Option<SessionModel> {
    match agent.current_session_id {
        Some(id) => session_named(sessions, id),
        None => None,
    }
}

pub fn current_session_for_agent<'a>(
    sessions: &'a Vec<SessionSummary>,
    agent: &AgentSummary,
) -> (r: Option<&'a SessionSummary>)
    ensures
        r is Some == current_session(views(sessions@), agent@) is Some,
        r matches Some(s) ==> current_session(views(sessions@), agent@) == Some(s@),
{
    match &agent.current_session_id {
        Some(id) => {
            let ghost all = views(sessions@);
            let mut i: usize = 0;
            assert(all.skip(0) =~= all);
            while i < sessions.len()
                invariant
                    i <= sessions.len(),
                    all == views(sessions@),
                    agent@.current_session_id == Some(id@),
                    session_named(all.skip(i as int), id@) == session_named(all, id@),
                decreases sessions.len() - i,
            {
                assert(all.skip(i as int)[0] == sessions@[i as int]@);
                if same_text(sessions[i].session_id.as_str(), id.as_str()) {
                    return Some(&sessions[i]);
                }
                assert(all.skip(i as int).skip(1) =~= all.skip(i + 1));
                i += 1;
            }
            None
        },
        None => None,
    }
}

/// How the agent is reached: a running session, a bridge, a window, or nothing.
pub open spec fn transport(agent: AgentModel, sessions: Seq<SessionModel>) -> Seq<char> {
    let session = current_session(sessions, agent);
    if session matches Some(s) && s.status is Running {
        "managed/"@ + lower(session->0.session_mode.shown())
    } else if agent.bridge_state is Connected {
        match agent.bridge_mode {
            Some(mode) => "bridge/"@ + mode.label(),
            None => "bridge"@,
        }
    } else if agent.visible_pane_pid is Some {
        "visible_runtime"@
    } else {
        "none"@
    }
}

pub fn overview_transport(agent: &AgentSummary, sessions: &Vec<SessionSummary>) -> (r: String)
    ensures
        r@ == transport(agent@, views(sessions@)),
{
    match current_session_for_agent(sessions, agent) {
        Some(session) => {
            if session.status == CodexSessionStatus::Running {
                return text("managed/").concat(to_lower(session.session_mode.as_shown()).as_str());
            }
        },
        None => {},
    }
    if agent.bridge_state == BridgeConnectionState::Connected {
        return match agent.bridge_mode {
            Some(mode) => text("bridge/").concat(mode.as_label()),
            None => text("bridge"),
        };
    }
    if agent.visible_pane_pid.is_some() {
        return text("visible_runtime");
    }
    text("none")
}

/// What the agent's context is made of.
pub open spec fn context_badge(a: OverviewModel) -> Seq<char> {
    match (a.agent.prompt_path, a.prompt_is_file, a.has_work) {
        (Some(_), true, true) => "prompt+work"@,
        (Some(_), true, false) => "prompt"@,
        (Some(_), false, true) => "prompt!+work"@,
        (Some(_), false, false) => "prompt!"@,
        (None, _, true) => "work"@,
        (None, _, false) => "none"@,
    }
}

pub fn overview_context_badge(a: &OverviewAgent) -> (r: String)
    ensures
        r@ == context_badge(a@),
{
    match (&a.agent.prompt_path, a.prompt_is_file, a.has_work) {
        (Some(_), true, true) => text("prompt+work"),
        (Some(_), true, false) => text("prompt"),
        (Some(_), false, true) => text("prompt!+work"),
        (Some(_), false, false) => text("prompt!"),
        (None, _, true) => text("work"),
        (None, _, false) => text("none"),
    }
}

/// Whether the agent names a prompt that is no file.
pub open spec fn contract_missing(a: OverviewModel) -> bool {
    a.agent.prompt_path is Some && !a.prompt_is_file
}

pub fn prompt_contract_missing(a: &OverviewAgent) -> (r: bool)
    ensures
        r == contract_missing(a@),
{
    a.agent.prompt_path.is_some() && !a.prompt_is_file
}

/// Six columns and what is behind them.
pub open spec fn agent_columns(
    name: Seq<char>,
    role: Seq<char>,
    runtime: Seq<char>,
    bootstrap: Seq<char>,
    link: Seq<char>,
    task: Seq<char>,
    context: Seq<char>,
) -> Seq<char> {
    padded(name, 24) + " "@ + padded(role, 6) + " "@ + padded(runtime, 10) + " "@ + padded(
        bootstrap,
        12,
    ) + " "@ + padded(link, 18) + " "@ + padded(task, 26) + " "@ + context
}

fn agent_line(
    name: &str,
    role: &str,
    runtime: &str,
    bootstrap: &str,
    link: &str,
    task: &str,
    context: &str,
) -> (r: String)
    ensures
        r@ == agent_columns(name@, role@, runtime@, bootstrap@, link@, task@, context@),
{
    pad(name, 24).concat(" ").concat(pad(role, 6).as_str()).concat(" ").concat(
        pad(runtime, 10).as_str(),
    ).concat(" ").concat(pad(bootstrap, 12).as_str()).concat(" ").concat(
        pad(link, 18).as_str(),
    ).concat(" ").concat(pad(task, 26).as_str()).concat(" ").concat(context)
}

pub open spec fn agent_shown(a: OverviewModel, sessions: Seq<SessionModel>) -> Seq<char> {
    agent_columns(
        a.agent.name,
        lower(a.agent.role.shown()),
        lower(a.agent.state.shown()),
        lower(a.agent.bootstrap_state.shown()),
        transport(a.agent, sessions),
        text_or(a.agent.current_task_id, "-"@) + " / "@ + text_or(
            a.agent.current_session_id,
            "-"@,
        ),
        context_badge(a),
    )
}

fn or_dash(o: &Option<String>) -> (r: String)
    ensures
        r@ == text_or(opt_text(*o), "-"@),
{
    match o {
        Some(s) => s.clone(),
        None => text("-"),
    }
}

fn show_agent(a: &OverviewAgent, sessions: &Vec<SessionSummary>) -> (r: String)
    ensures
        r@ == agent_shown(a@, views(sessions@)),
{
    let task = or_dash(&a.agent.current_task_id).concat(" / ").concat(
        or_dash(&a.agent.current_session_id).as_str(),
    );
    agent_line(
        a.agent.name.as_str(),
        to_lower(a.agent.role.as_shown()).as_str(),
        to_lower(a.agent.state.as_shown()).as_str(),
        to_lower(a.agent.bootstrap_state.as_shown()).as_str(),
        overview_transport(&a.agent, sessions).as_str(),
        task.as_str(),
        overview_context_badge(a).as_str(),
    )
}

/// The list with one more item, where there is one.
pub open spec fn with(s: Seq<Seq<char>>, item: Option<Seq<char>>) -> Seq<Seq<char>> {
    match item {
        Some(x) => s.push(x),
        None => s,
    }
}

fn add_line(v: &mut Vec<String>, line: String)
    ensures
        texts(final(v)@) == texts(old(v)@).push(line@),
{
    v.push(line);
    assert(texts(v@) =~= texts(old(v)@).push(line@));
}

/// What is out of order with an agent.
pub open spec fn agent_issues(a: OverviewModel, sessions: Seq<SessionModel>) -> Seq<Seq<char>> {
    let name = a.agent.name;
    let bootstrap = if a.agent.bootstrap_state is Ready {
        None
    } else {
        Some(name + " bootstrap="@ + lower(a.agent.bootstrap_state.shown()))
    };
    let link = if transport(a.agent, sessions) == "none"@ {
        Some(name + " missing_runtime_link"@)
    } else {
        None
    };
    let pending = if a.agent.bridge_pending_delivery_count > 0 {
        Some(
            name + " bridge_pending="@ + decimal(a.agent.bridge_pending_delivery_count as nat),
        )
    } else {
        None
    };
    let taskless = if a.agent.current_task_id is None && !(a.agent.state is Idle) {
        Some(name + " state="@ + lower(a.agent.state.shown()) + " without current_task"@)
    } else {
        None
    };
    let idle = if a.agent.current_task_id is Some && a.agent.state is Idle {
        Some(name + " idle_with_current_task"@)
    } else {
        None
    };
    let contract = if contract_missing(a) {
        Some(name + " prompt_contract_missing="@ + text_or(a.agent.prompt_path, "-"@))
    } else {
        None
    };
    let session = match a.agent.current_session_id {
        Some(id) => if current_session(sessions, a.agent) is None {
            Some(name + " current_session_missing="@ + id)
        } else {
            None
        },
        None => None,
    };
    with(
        with(
            with(
                with(with(with(with(Seq::empty(), bootstrap), link), pending), taskless),
                idle,
            ),
            contract,
        ),
        session,
    )
}

fn find_agent_issues(a: &OverviewAgent, sessions: &Vec<SessionSummary>) -> (r: Vec<String>)
    ensures
        texts(r@) == agent_issues(a@, views(sessions@)),
{
    let name = a.agent.name.as_str();
    let mut v: Vec<String> = Vec::new();
    assert(texts(v@) =~= Seq::empty());
    if a.agent.bootstrap_state != AgentBootstrapState::Ready {
        add_line(
            &mut v,
            text(name).concat(" bootstrap=").concat(
                to_lower(a.agent.bootstrap_state.as_shown()).as_str(),
            ),
        );
    }
    if same_text(overview_transport(&a.agent, sessions).as_str(), "none") {
        add_line(&mut v, text(name).concat(" missing_runtime_link"));
    }
    if a.agent.bridge_pending_delivery_count > 0 {
        add_line(
            &mut v,
            text(name).concat(" bridge_pending=").concat(
                to_decimal(a.agent.bridge_pending_delivery_count as u64).as_str(),
            ),
        );
    }
    if a.agent.current_task_id.is_none() && a.agent.state != AgentSessionState::Idle {
        add_line(
            &mut v,
            text(name).concat(" state=").concat(to_lower(a.agent.state.as_shown()).as_str()).concat(
                " without current_task",
            ),
        );
    }
    if a.agent.current_task_id.is_some() && a.agent.state == AgentSessionState::Idle {
        add_line(&mut v, text(name).concat(" idle_with_current_task"));
    }
    if prompt_contract_missing(a) {
        add_line(
            &mut v,
            text(name).concat(" prompt_contract_missing=").concat(
                or_dash(&a.agent.prompt_path).as_str(),
            ),
        );
    }
    match &a.agent.current_session_id {
        Some(id) => {
            if current_session_for_agent(sessions, &a.agent).is_none() {
                add_line(
                    &mut v,
                    text(name).concat(" current_session_missing=").concat(id.as_str()),
                );
            }
        },
        None => {},
    }
    v
}

/// What is out of order with the agents, in their order.
pub open spec fn all_issues(agents: Seq<OverviewModel>, sessions: Seq<SessionModel>) -> Seq<
    Seq<char>,
>
    decreases agents.len(),
{
    if agents.len() == 0 {
        Seq::empty()
    } else {
        all_issues(agents.drop_last(), sessions) + agent_issues(agents.last(), sessions)
    }
}

fn find_all_issues(agents: &Vec<OverviewAgent>, sessions: &Vec<SessionSummary>) -> (r: Vec<String>)
    ensures
        texts(r@) == all_issues(views(agents@), views(sessions@)),
{
    let mut v: Vec<String> = Vec::new();
    let mut i: usize = 0;
    assert(texts(v@) =~= Seq::empty());
    while i < agents.len()
        invariant
            i <= agents.len(),
            texts(v@) == all_issues(views(agents@).take(i as int), views(sessions@)),
        decreases agents.len() - i,
    {
        let ghost before = texts(v@);
        let mut more = find_agent_issues(&agents[i], sessions);
        let ghost added = texts(more@);
        v.append(&mut more);
        proof {
            let head = views(agents@).take(i + 1);
            assert(head.drop_last() =~= views(agents@).take(i as int));
            assert(head.last() == agents@[i as int]@);
            assert(texts(v@) =~= before + added);
        }
        i += 1;
    }
    assert(views(agents@).take(i as int) =~= views(agents@));
    v
}

pub open spec fn count_ready(agents: Seq<OverviewModel>) -> nat
    decreases agents.len(),
{
    if agents.len() == 0 {
        0
    } else {
        count_ready(agents.drop_last()) + if agents.last().agent.bootstrap_state is Ready {
            1nat
        } else {
            0
        }
    }
}

pub open spec fn count_connected(agents: Seq<OverviewModel>) -> nat
    decreases agents.len(),
{
    if agents.len() == 0 {
        0
    } else {
        count_connected(agents.drop_last()) + if agents.last().agent.bridge_state is Connected {
            1nat
        } else {
            0
        }
    }
}

/// How many agents are ready, and how many are connected.
fn count_agents(agents: &Vec<OverviewAgent>) -> (r: (usize, usize))
    ensures
        r.0 == count_ready(views(agents@)),
        r.1 == count_connected(views(agents@)),
{
    let mut ready: usize = 0;
    let mut connected: usize = 0;
    let mut i: usize = 0;
    while i < agents.len()
        invariant
            i <= agents.len(),
            ready <= i,
            connected <= i,
            ready == count_ready(views(agents@).take(i as int)),
            connected == count_connected(views(agents@).take(i as int)),
        decreases agents.len() - i,
    {
        proof {
            let head = views(agents@).take(i + 1);
            assert(head.drop_last() =~= views(agents@).take(i as int));
            assert(head.last() == agents@[i as int]@);
        }
        if agents[i].agent.bootstrap_state == AgentBootstrapState::Ready {
            ready += 1;
        }
        if agents[i].agent.bridge_state == BridgeConnectionState::Connected {
            connected += 1;
        }
        i += 1;
    }
    assert(views(agents@).take(i as int) =~= views(agents@));
    (ready, connected)
}

pub open spec fn task_shown(task: TaskModel) -> Seq<char> {
    task_columns(
        task.task_id,
        task.from_agent,
        task.to_agent,
        lower(task.state.shown()),
        task.title,
    )
}

pub open spec fn task_columns(
    id: Seq<char>,
    from: Seq<char>,
    to: Seq<char>,
    state: Seq<char>,
    title: Seq<char>,
) -> Seq<char> {
    padded(id, 26) + " "@ + padded(from, 20) + " "@ + padded(to, 20) + " "@ + padded(state, 24)
        + " "@ + title
}

fn task_line(id: &str, from: &str, to: &str, state: &str, title: &str) -> (r: String)
    ensures
        r@ == task_columns(id@, from@, to@, state@, title@),
{
    pad(id, 26).concat(" ").concat(pad(from, 20).as_str()).concat(" ").concat(
        pad(to, 20).as_str(),
    ).concat(" ").concat(pad(state, 24).as_str()).concat(" ").concat(title)
}

/// The lines of the tasks that are not over.
pub open spec fn open_task_lines(tasks: Seq<TaskModel>) -> Seq<Seq<char>>
    decreases tasks.len(),
{
    if tasks.len() == 0 {
        Seq::empty()
    } else if terminal(tasks.last().state) {
        open_task_lines(tasks.drop_last())
    } else {
        open_task_lines(tasks.drop_last()).push(task_shown(tasks.last()))
    }
}

fn find_open_task_lines(tasks: &Vec<TaskSummary>) -> (r: Vec<String>)
    ensures
        texts(r@) == open_task_lines(views(tasks@)),
{
    let mut v: Vec<String> = Vec::new();
    let mut i: usize = 0;
    assert(texts(v@) =~= Seq::empty());
    while i < tasks.len()
        invariant
            i <= tasks.len(),
            texts(v@) == open_task_lines(views(tasks@).take(i as int)),
        decreases tasks.len() - i,
    {
        proof {
            let head = views(tasks@).take(i + 1);
            assert(head.drop_last() =~= views(tasks@).take(i as int));
            assert(head.last() == tasks@[i as int]@);
        }
        let task = &tasks[i];
        if !is_task_terminal(task.state) {
            add_line(
                &mut v,
                task_line(
                    task.task_id.as_str(),
                    task.from_agent.as_str(),
                    task.to_agent.as_str(),
                    to_lower(task.state.as_shown()).as_str(),
                    task.title.as_str(),
                ),
            );
        }
        i += 1;
    }
    assert(views(tasks@).take(i as int) =~= views(tasks@));
    v
}

/// Each issue as a point of a list.
pub open spec fn issue_points(issues: Seq<Seq<char>>) -> Seq<Seq<char>> {
    issues.map_values(|s: Seq<char>| "  - "@ + s)
}

pub open spec fn agent_lines(agents: Seq<OverviewModel>, sessions: Seq<SessionModel>) -> Seq<
    Seq<char>,
> {
    agents.map_values(|a: OverviewModel| agent_shown(a, sessions))
}

/// The lines of the overview of a moment, whose local time is given as a text.
pub open spec fn overview(
    agents: Seq<OverviewModel>,
    tasks: Seq<TaskModel>,
    sessions: Seq<SessionModel>,
    moment: Seq<char>,
) -> Seq<Seq<char>> {
    let sorted = ranked(agents);
    let open = open_task_lines(tasks);
    let issues = all_issues(sorted, sessions);
    let head = Seq::empty().push("Overview at "@ + moment).push(
        "Agents total="@ + decimal(agents.len()) + " ready="@ + decimal(count_ready(sorted))
            + " bridge_connected="@ + decimal(count_connected(sorted)) + " open_tasks="@ + decimal(
            open.len(),
        ),
    ).push(""@).push(
        agent_columns(
            "agent"@,
            "role"@,
            "runtime"@,
            "bootstrap"@,
            "transport"@,
            "task"@,
            "context"@,
        ),
    ).push(rule());
    let middle = (head + agent_lines(sorted, sessions)).push(""@).push(
        "Issues "@ + decimal(issues.len()),
    );
    let told = if issues.len() == 0 {
        middle.push("  none"@)
    } else {
        middle + issue_points(issues)
    };
    if open.len() == 0 {
        told
    } else {
        told.push(""@).push(task_columns("task"@, "from"@, "to"@, "state"@, "title"@)).push(rule())
            + open
    }
}

/// The lines of the overview.
pub fn render_overview(
    agents: &Vec<OverviewAgent>,
    tasks: &Vec<TaskSummary>,
    sessions: &Vec<SessionSummary>,
    moment: &str,
) -> (r: Vec<String>)
    ensures
        texts(r@) == overview(views(agents@), views(tasks@), views(sessions@), moment@),
{
    let sorted = rank_all(agents);
    proof {
        crate::order::ranked_is_in_order(views(agents@));
    }
    let mut open = find_open_task_lines(tasks);
    let issues = find_all_issues(&sorted, sessions);
    let (ready, connected) = count_agents(&sorted);
    let ghost all_sorted = views(sorted@);
    let ghost open_lines = texts(open@);
    let ghost told_issues = texts(issues@);
    let mut v: Vec<String> = Vec::new();
    assert(texts(v@) =~= Seq::empty());
    add_line(&mut v, text("Overview at ").concat(moment));
    add_line(
        &mut v,
        text("Agents total=").concat(to_decimal(sorted.len() as u64).as_str()).concat(
            " ready=",
        ).concat(to_decimal(ready as u64).as_str()).concat(" bridge_connected=").concat(
            to_decimal(connected as u64).as_str(),
        ).concat(" open_tasks=").concat(to_decimal(open.len() as u64).as_str()),
    );
    add_line(&mut v, text(""));
    add_line(
        &mut v,
        agent_line("agent", "role", "runtime", "bootstrap", "transport", "task", "context"),
    );
    add_line(&mut v, make_rule());
    let ghost head = texts(v@);
    let mut i: usize = 0;
    assert(head + agent_lines(all_sorted, views(sessions@)).take(0) =~= head);
    while i < sorted.len()
        invariant
            i <= sorted.len(),
            all_sorted == views(sorted@),
            texts(v@) == head + agent_lines(all_sorted, views(sessions@)).take(i as int),
        decreases sorted.len() - i,
    {
        let line = show_agent(&sorted[i], sessions);
        add_line(&mut v, line);
        i += 1;
        assert(texts(v@) =~= head + agent_lines(all_sorted, views(sessions@)).take(i as int));
    }
    assert(agent_lines(all_sorted, views(sessions@)).take(i as int) =~= agent_lines(
        all_sorted,
        views(sessions@),
    ));
    add_line(&mut v, text(""));
    add_line(&mut v, text("Issues ").concat(to_decimal(issues.len() as u64).as_str()));
    if issues.len() == 0 {
        add_line(&mut v, text("  none"));
    } else {
        let ghost middle = texts(v@);
        let mut k: usize = 0;
        assert(middle + issue_points(told_issues).take(0) =~= middle);
        while k < issues.len()
            invariant
                k <= issues.len(),
                told_issues == texts(issues@),
                texts(v@) == middle + issue_points(told_issues).take(k as int),
            decreases issues.len() - k,
        {
            let line = text("  - ").concat(issues[k].as_str());
            add_line(&mut v, line);
            k += 1;
            assert(texts(v@) =~= middle + issue_points(told_issues).take(k as int));
        }
        assert(issue_points(told_issues).take(k as int) =~= issue_points(told_issues));
    }
    if open.len() > 0 {
        add_line(&mut v, text(""));
        add_line(&mut v, task_line("task", "from", "to", "state", "title"));
        add_line(&mut v, make_rule());
        let ghost before = texts(v@);
        v.append(&mut open);
        assert(texts(v@) =~= before + open_lines);
    }
    v
}

/// What an entry of the ledger is about.
pub open spec fn event_meta(event: RuntimeEventModel) -> Seq<Seq<char>> {
    let actor = match event.actor_name {
        Some(s) => Some("actor="@ + s),
        None => None,
    };
    let agent = match event.agent_name {
        Some(s) => Some("agent="@ + s),
        None => None,
    };
    let task = match event.task_id {
        Some(s) => Some("task="@ + s),
        None => None,
    };
    let session = match event.session_id {
        Some(s) => Some("session="@ + s),
        None => None,
    };
    let reason = match event.reason {
        Some(s) => Some("reason="@ + s),
        None => None,
    };
    with(with(with(with(with(Seq::empty(), actor), agent), task), session), reason)
}

fn add_named(v: &mut Vec<String>, name: &str, value: &Option<String>)
    ensures
        texts(final(v)@) == with(
            texts(old(v)@),
            match *value {
                Some(s) => Some(name@ + s@),
                None => None,
            },
        ),
{
    match value {
        Some(s) => add_line(v, text(name).concat(s.as_str())),
        None => {},
    }
}

fn find_event_meta(event: &RuntimeEventRecord) -> (r: Vec<String>)
    ensures
        texts(r@) == event_meta(event@),
{
    let mut v: Vec<String> = Vec::new();
    assert(texts(v@) =~= Seq::empty());
    add_named(&mut v, "actor=", &event.actor_name);
    add_named(&mut v, "agent=", &event.agent_name);
    add_named(&mut v, "task=", &event.task_id);
    add_named(&mut v, "session=", &event.session_id);
    add_named(&mut v, "reason=", &event.reason);
    v
}

/// The lines of an entry of the ledger.
pub open spec fn event_lines(event: RuntimeEventModel) -> Seq<Seq<char>> {
    let head = Seq::empty().push(
        "["@ + rfc3339(event.created_at) + "] "@ + event.event_type + " "@ + event.scope + "/"@
            + event.scope_id + " "@ + event.summary,
    );
    let meta = event_meta(event);
    let about = if meta.len() == 0 {
        None
    } else {
        Some("  "@ + joined(meta, " | "@))
    };
    let payload = match event.payload_json {
        Some(p) => if trimmed(p).len() > 0 && trimmed(p) != "{}"@ {
            Some("  payload="@ + trimmed(p))
        } else {
            None
        },
        None => None,
    };
    with(with(head, about), payload).push(""@)
}

fn show_event(event: &RuntimeEventRecord) -> (r: Vec<String>)
    ensures
        texts(r@) == event_lines(event@),
{
    let mut v: Vec<String> = Vec::new();
    assert(texts(v@) =~= Seq::empty());
    add_line(
        &mut v,
        text("[").concat(to_rfc3339(event.created_at).as_str()).concat("] ").concat(
            event.event_type.as_str(),
        ).concat(" ").concat(event.scope.as_str()).concat("/").concat(
            event.scope_id.as_str(),
        ).concat(" ").concat(event.summary.as_str()),
    );
    let meta = find_event_meta(event);
    if meta.len() > 0 {
        add_line(&mut v, text("  ").concat(join(&meta, " | ").as_str()));
    }
    match &event.payload_json {
        Some(p) => {
            let payload = trim(p.as_str());
            if !payload.as_str().is_empty() && !same_text(payload.as_str(), "{}") {
                add_line(&mut v, text("  payload=").concat(payload.as_str()));
            }
        },
        None => {},
    }
    add_line(&mut v, text(""));
    v
}

pub open spec fn all_event_lines(events: Seq<RuntimeEventModel>) -> Seq<Seq<char>>
    decreases events.len(),
{
    if events.len() == 0 {
        Seq::empty()
    } else {
        all_event_lines(events.drop_last()) + event_lines(events.last())
    }
}

/// The lines of a trace.
pub open spec fn trace_lines(trace: TraceModel) -> Seq<Seq<char>> {
    Seq::empty().push(
        "Trace "@ + trace.query_kind + "="@ + trace.query_value + " events="@ + decimal(
            trace.event_count as nat,
        ),
    ).push(""@) + all_event_lines(trace.events)
}

pub fn render_trace(trace: &RuntimeTraceView) -> (r: Vec<String>)
    ensures
        texts(r@) == trace_lines(trace@),
{
    let mut v: Vec<String> = Vec::new();
    assert(texts(v@) =~= Seq::empty());
    add_line(
        &mut v,
        text("Trace ").concat(trace.query_kind.as_str()).concat("=").concat(
            trace.query_value.as_str(),
        ).concat(" events=").concat(to_decimal(trace.event_count as u64).as_str()),
    );
    add_line(&mut v, text(""));
    let ghost head = texts(v@);
    let ghost all = views(trace.events@);
    let mut i: usize = 0;
    assert(head + all_event_lines(all.take(0)) =~= head);
    while i < trace.events.len()
        invariant
            i <= trace.events.len(),
            all == views(trace.events@),
            texts(v@) == head + all_event_lines(all.take(i as int)),
        decreases trace.events.len() - i,
    {
        let ghost before = texts(v@);
        let mut more = show_event(&trace.events[i]);
        let ghost added = texts(more@);
        v.append(&mut more);
        proof {
            let part = all.take(i + 1);
            assert(part.drop_last() =~= all.take(i as int));
            assert(part.last() == trace.events@[i as int]@);
            assert(texts(v@) =~= before + added);
            assert(texts(v@) =~= head + all_event_lines(part));
        }
        i += 1;
    }
    assert(all.take(i as int) =~= all);
    v
}

/// A task that waits for the main agent.
#[derive(Debug)]
pub struct MainInboxTask {
    pub task_id: String,
    pub to_agent: String,
    pub child_state: Option<String>,
    pub title: String,
    pub state: TaskState,
    pub updated_at: Timestamp,
    pub latest_child_status: Option<String>,
    pub latest_child_summary: Option<String>,
    pub latest_child_blocking: Option<String>,
    pub latest_child_topic: Option<String>,
    pub latest_decision_summary: Option<String>,
    pub latest_decision_status: Option<String>,
}

#[verifier::ext_equal]
pub struct InboxTaskModel {
    pub task_id: Seq<char>,
    pub to_agent: Seq<char>,
    pub child_state: Option<Seq<char>>,
    pub title: Seq<char>,
    pub state: TaskState,
    pub updated_at: Timestamp,
    pub latest_child_status: Option<Seq<char>>,
    pub latest_child_summary: Option<Seq<char>>,
    pub latest_child_blocking: Option<Seq<char>>,
    pub latest_child_topic: Option<Seq<char>>,
    pub latest_decision_summary: Option<Seq<char>>,
    pub latest_decision_status: Option<Seq<char>>,
}

impl View for MainInboxTask {
    type V = InboxTaskModel;

    open spec fn view(&self) -> InboxTaskModel {
        InboxTaskModel {
            task_id: self.task_id@,
            to_agent: self.to_agent@,
            child_state: opt_text(self.child_state),
            title: self.title@,
            state: self.state,
            updated_at: self.updated_at,
            latest_child_status: opt_text(self.latest_child_status),
            latest_child_summary: opt_text(self.latest_child_summary),
            latest_child_blocking: opt_text(self.latest_child_blocking),
            latest_child_topic: opt_text(self.latest_child_topic),
            latest_decision_summary: opt_text(self.latest_decision_summary),
            latest_decision_status: opt_text(self.latest_decision_status),
        }
    }
}

impl Dup for MainInboxTask {
    fn dup(&self) -> MainInboxTask {
        MainInboxTask {
            task_id: self.task_id.clone(),
            to_agent: self.to_agent.clone(),
            child_state: copy_text(&self.child_state),
            title: self.title.clone(),
            state: self.state,
            updated_at: self.updated_at,
            latest_child_status: copy_text(&self.latest_child_status),
            latest_child_summary: copy_text(&self.latest_child_summary),
            latest_child_blocking: copy_text(&self.latest_child_blocking),
            latest_child_topic: copy_text(&self.latest_child_topic),
            latest_decision_summary: copy_text(&self.latest_decision_summary),
            latest_decision_status: copy_text(&self.latest_decision_status),
        }
    }
}

/// The task that changed last comes first.
impl Ranked for InboxTaskModel {
    open spec fn not_after(self, other: Self) -> bool {
        !self.updated_at.before(other.updated_at)
    }

    proof fn ranks(a: Self, b: Self, c: Self) {
        lemma_before_total(a.updated_at, b.updated_at);
        lemma_before_total(b.updated_at, c.updated_at);
        lemma_before_total(a.updated_at, c.updated_at);
    }
}

impl Rank for MainInboxTask {
    fn is_not_after(&self, other: &Self) -> bool {
        !self.updated_at.is_before(&other.updated_at)
    }
}

/// The tasks that wait for the agent that handed them out.
#[derive(Debug)]
pub struct MainInboxResponse {
    pub agent: String,
    pub task_count: usize,
    pub tasks: Vec<MainInboxTask>,
}

/// The state of the first agent of that name.
pub open spec fn child_state(agents: Seq<AgentModel>, name: Seq<char>) -> Option<Seq<char>>
    decreases agents.len(),
{
    if agents.len() == 0 {
        None
    } else if agents[0].name == name {
        Some(lower(agents[0].state.shown()))
    } else {
        child_state(agents.skip(1), name)
    }
}

fn find_child_state(agents: &Vec<AgentSummary>, name: &str) -> (r: Option<String>)
    ensures
        opt_text(r) == child_state(views(agents@), name@),
{
    let ghost all = views(agents@);
    let mut i: usize = 0;
    assert(all.skip(0) =~= all);
    while i < agents.len()
        invariant
            i <= agents.len(),
            all == views(agents@),
            child_state(all.skip(i as int), name@) == child_state(all, name@),
        decreases agents.len() - i,
    {
        assert(all.skip(i as int)[0] == agents@[i as int]@);
        if same_text(agents[i].name.as_str(), name) {
            return Some(to_lower(agents[i].state.as_shown()));
        }
        assert(all.skip(i as int).skip(1) =~= all.skip(i + 1));
        i += 1;
    }
    None
}

/// Whether the task waits for the agent.
pub open spec fn waits_for(task: TaskModel, agent: Seq<char>) -> bool {
    task.from_agent == agent && (task.state is Reported || task.state is BlockedWaitingDecision
        || task.state is Analyzed)
}

pub open spec fn inbox_task(task: TaskModel, agents: Seq<AgentModel>) -> InboxTaskModel {
    InboxTaskModel {
        task_id: task.task_id,
        to_agent: task.to_agent,
        child_state: child_state(agents, task.to_agent),
        title: task.title,
        state: task.state,
        updated_at: task.updated_at,
        latest_child_status: task.latest_child_status,
        latest_child_summary: task.latest_child_summary,
        latest_child_blocking: task.latest_child_blocking,
        latest_child_topic: task.latest_child_topic,
        latest_decision_summary: task.latest_decision_summary,
        latest_decision_status: task.latest_decision_status,
    }
}

pub open spec fn waiting_tasks(
    tasks: Seq<TaskModel>,
    agents: Seq<AgentModel>,
    agent: Seq<char>,
) -> Seq<InboxTaskModel>
    decreases tasks.len(),
{
    if tasks.len() == 0 {
        Seq::empty()
    } else if waits_for(tasks.last(), agent) {
        waiting_tasks(tasks.drop_last(), agents, agent).push(inbox_task(tasks.last(), agents))
    } else {
        waiting_tasks(tasks.drop_last(), agents, agent)
    }
}

fn find_waiting_tasks(
    tasks: &Vec<TaskSummary>,
    agents: &Vec<AgentSummary>,
    agent: &str,
) -> (r: Vec<MainInboxTask>)
    ensures
        views(r@) == waiting_tasks(views(tasks@), views(agents@), agent@),
{
    let mut v: Vec<MainInboxTask> = Vec::new();
    let mut i: usize = 0;
    assert(views(v@) =~= Seq::empty());
    while i < tasks.len()
        invariant
            i <= tasks.len(),
            views(v@) == waiting_tasks(views(tasks@).take(i as int), views(agents@), agent@),
        decreases tasks.len() - i,
    {
        let ghost before = views(v@);
        proof {
            let head = views(tasks@).take(i + 1);
            assert(head.drop_last() =~= views(tasks@).take(i as int));
            assert(head.last() == tasks@[i as int]@);
        }
        let task = &tasks[i];
        let waits = task.state == TaskState::Reported || task.state
            == TaskState::BlockedWaitingDecision || task.state == TaskState::Analyzed;
        if waits && same_text(task.from_agent.as_str(), agent) {
            let item = MainInboxTask {
                task_id: task.task_id.clone(),
                to_agent: task.to_agent.clone(),
                child_state: find_child_state(agents, task.to_agent.as_str()),
                title: task.title.clone(),
                state: task.state,
                updated_at: task.updated_at,
                latest_child_status: copy_text(&task.latest_child_status),
                latest_child_summary: copy_text(&task.latest_child_summary),
                latest_child_blocking: copy_text(&task.latest_child_blocking),
                latest_child_topic: copy_text(&task.latest_child_topic),
                latest_decision_summary: copy_text(&task.latest_decision_summary),
                latest_decision_status: copy_text(&task.latest_decision_status),
            };
            let ghost model = item@;
            v.push(item);
            assert(views(v@) =~= before.push(model));
        }
        i += 1;
    }
    assert(views(tasks@).take(i as int) =~= views(tasks@));
    v
}

/// The inbox: the tasks that wait, the one that changed last first.
pub fn build_main_inbox(agent: &str, tasks: &Vec<TaskSummary>, agents: &Vec<AgentSummary>) -> (r:
    MainInboxResponse)
    ensures
        r.agent@ == agent@,
        views(r.tasks@) == ranked(waiting_tasks(views(tasks@), views(agents@), agent@)),
        r.task_count == r.tasks.len(),
{
    let waiting = find_waiting_tasks(tasks, agents, agent);
    let sorted = rank_all(&waiting);
    MainInboxResponse { agent: text(agent), task_count: sorted.len(), tasks: sorted }
}

/// How many seconds the client waits for an answer.
pub open spec fn seconds_for(request: ControlRequest, bootstrap_seconds: u64) -> u64 {
    match request {
        ControlRequest::EnsureManagedSession { .. } => if bootstrap_seconds <= u64::MAX - 30 {
            (bootstrap_seconds + 30) as u64
        } else {
            u64::MAX
        },
        ControlRequest::RunAgentRound { .. } | ControlRequest::RunTaskRound { .. } => 90,
        ControlRequest::StopManagedSessions
        | ControlRequest::StopVisiblePanes
        | ControlRequest::CleanupDemoData { .. }
        | ControlRequest::RepairRuntimeState { .. } => 20,
        _ => 4,
    }
}

pub fn control_request_timeout(request: &ControlRequest, config: &AppConfig) -> (r: u64)
    ensures
        r == seconds_for(*request, config.managed_bootstrap_timeout_seconds),
{
    match request {
        ControlRequest::EnsureManagedSession { .. } => {
            let seconds: u64 = config.managed_bootstrap_timeout_seconds;
            if seconds <= u64::MAX - 30 {
                seconds + 30
            } else {
                u64::MAX
            }
        },
        ControlRequest::RunAgentRound { .. } | ControlRequest::RunTaskRound { .. } => 90,
        ControlRequest::StopManagedSessions
        | ControlRequest::StopVisiblePanes
        | ControlRequest::CleanupDemoData { .. }
        | ControlRequest::RepairRuntimeState { .. } => 20,
        _ => 4,
    }
}

/// Where the payload of a ledger entry comes from.
#[derive(Debug)]
pub enum PayloadSource {
    Nowhere,
    Given { text: String },
    File { path: String },
}

/// A payload is given as a text or as a file, not as both.
pub open spec fn payload_source(json: Option<Seq<char>>, file: Option<Seq<char>>) -> Result<
    (Option<Seq<char>>, Option<Seq<char>>),
    Seq<char>,
> {
    if json is Some && file is Some {
        Err("append-runtime-event accepts only one of --payload-json or --payload-file"@)
    } else {
        Ok((json, file))
    }
}

impl View for PayloadSource {
    type V = (Option<Seq<char>>, Option<Seq<char>>);

    open spec fn view(&self) -> (Option<Seq<char>>, Option<Seq<char>>) {
        match *self {
            PayloadSource::Nowhere => (None, None),
            PayloadSource::Given { text } => (Some(text@), None),
            PayloadSource::File { path } => (None, Some(path@)),
        }
    }
}

pub fn resolve_append_runtime_payload(
    payload_json: Option<String>,
    payload_file: Option<String>,
) -> (r: Result<PayloadSource, Failure>)
    ensures
        seen(r) == payload_source(opt_text(payload_json), opt_text(payload_file)),
{
    match (payload_json, payload_file) {
        (Some(_), Some(_)) => Err(
            Failure::new(
                text("append-runtime-event accepts only one of --payload-json or --payload-file"),
            ),
        ),
        (Some(s), None) => Ok(PayloadSource::Given { text: s }),
        (None, Some(path)) => Ok(PayloadSource::File { path }),
        (None, None) => Ok(PayloadSource::Nowhere),
    }
}

/// A trace is asked for by exactly one of three things.
pub open spec fn one_selected(agent: bool, task: bool, session: bool) -> bool {
    (agent && !task && !session) || (!agent && task && !session) || (!agent && !task && session)
}

pub fn check_trace_selection(
    agent: &Option<String>,
    task_id: &Option<String>,
    session_id: &Option<String>,
) -> (r: Result<(), Failure>)
    ensures
        seen(r) == (if one_selected(agent is Some, task_id is Some, session_id is Some) {
            Ok(())
        } else {
            Err("trace requires exactly one of --agent, --task, or --session"@)
        }),
{
    let a = agent.is_some();
    let t = task_id.is_some();
    let s = session_id.is_some();
    if (a && !t && !s) || (!a && t && !s) || (!a && !t && s) {
        Ok(())
    } else {
        Err(Failure::new(text("trace requires exactly one of --agent, --task, or --session")))
    }
}

pub open spec fn round_status_named(s: Seq<char>) -> Result<TaskRoundStatus, Seq<char>> {
    if s == "result"@ {
        Ok(TaskRoundStatus::Result)
    } else if s == "report"@ {
        Ok(TaskRoundStatus::Report)
    } else if s == "wait_decision"@ {
        Ok(TaskRoundStatus::WaitDecision)
    } else {
        Err("unsupported task round status: "@ + s)
    }
}

impl View for TaskRoundStatus {
    type V = TaskRoundStatus;

    open spec fn view(&self) -> TaskRoundStatus {
        *self
    }
}

pub fn parse_task_round_status(value: &str) -> (r: Result<TaskRoundStatus, Failure>)
    ensures
        seen(r) == round_status_named(value@),
{
    if same_text(value, "result") {
        Ok(TaskRoundStatus::Result)
    } else if same_text(value, "report") {
        Ok(TaskRoundStatus::Report)
    } else if same_text(value, "wait_decision") {
        Ok(TaskRoundStatus::WaitDecision)
    } else {
        Err(Failure::new(text("unsupported task round status: ").concat(value)))
    }
}

} // verus!
