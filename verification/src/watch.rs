//! The live view of one agent: which events it shows, and how.

use vstd::prelude::*;

use crate::models::{
    AgentBootstrapState, AgentModel, AgentSessionState, AgentSummary, AppServerOwner,
    CodexSessionStatus, DashboardEvent, DashboardModel, DashboardSnapshot, DecisionModel,
    DecisionSummary, RuntimeEventModel, RuntimeEventRecord, SessionMode, SessionModel,
    SessionSummary, StreamModel, TaskModel, TaskState, TaskSummary,
};
use crate::table::{found, views, Keyed};
use crate::text::{
    begins_with, from_chars, is_text, same_text, starts_with, text, text_or, to_chars, trim,
    trimmed,
};

verus! {

pub open spec fn agent_state_name(v: AgentSessionState) -> Seq<char> {
    match v {
        AgentSessionState::Idle => "空闲"@,
        AgentSessionState::Busy => "运行中"@,
        AgentSessionState::Blocked => "阻塞"@,
        AgentSessionState::Offline => "离线"@,
    }
}

pub fn label_agent_state(v: AgentSessionState) -> (r: &'static str)
    ensures
        r@ == agent_state_name(v),
{
    match v {
        AgentSessionState::Idle => "空闲",
        AgentSessionState::Busy => "运行中",
        AgentSessionState::Blocked => "阻塞",
        AgentSessionState::Offline => "离线",
    }
}

pub open spec fn bootstrap_state_name(v: AgentBootstrapState) -> Seq<char> {
    match v {
        AgentBootstrapState::AwaitingInit => "待初始化"@,
        AgentBootstrapState::Ready => "已就绪"@,
    }
}

pub fn label_bootstrap_state(v: AgentBootstrapState) -> (r: &'static str)
    ensures
        r@ == bootstrap_state_name(v),
{
    match v {
        AgentBootstrapState::AwaitingInit => "待初始化",
        AgentBootstrapState::Ready => "已就绪",
    }
}

pub open spec fn task_state_name(v: TaskState) -> Seq<char> {
    match v {
        TaskState::Pending => "待处理"@,
        TaskState::Accepted => "已接单"@,
        TaskState::Running => "运行中"@,
        TaskState::Completed => "已完成"@,
        TaskState::Reported => "已反馈"@,
        TaskState::Analyzed => "已分析"@,
        TaskState::DecisionSent => "已发决策"@,
        TaskState::Closed => "已关闭"@,
        TaskState::BlockedWaitingDecision => "等主决策"@,
        TaskState::Cancelled => "已取消"@,
        TaskState::Failed => "失败"@,
    }
}

pub fn label_task_state(v: TaskState) -> (r: &'static str)
    ensures
        r@ == task_state_name(v),
{
    match v {
        TaskState::Pending => "待处理",
        TaskState::Accepted => "已接单",
        TaskState::Running => "运行中",
        TaskState::Completed => "已完成",
        TaskState::Reported => "已反馈",
        TaskState::Analyzed => "已分析",
        TaskState::DecisionSent => "已发决策",
        TaskState::Closed => "已关闭",
        TaskState::BlockedWaitingDecision => "等主决策",
        TaskState::Cancelled => "已取消",
        TaskState::Failed => "失败",
    }
}

pub open spec fn session_mode_name(v: SessionMode) -> Seq<char> {
    match v {
        SessionMode::Round => "轮次"@,
        SessionMode::Pty => "终端"@,
        SessionMode::AppServer => "App Server"@,
    }
}

pub fn label_session_mode(v: SessionMode) -> (r: &'static str)
    ensures
        r@ == session_mode_name(v),
{
    match v {
        SessionMode::Round => "轮次",
        SessionMode::Pty => "终端",
        SessionMode::AppServer => "App Server",
    }
}

pub open spec fn session_status_name(v: CodexSessionStatus) -> Seq<char> {
    match v {
        CodexSessionStatus::Running => "运行中"@,
        CodexSessionStatus::Succeeded => "成功"@,
        CodexSessionStatus::Failed => "失败"@,
    }
}

pub fn label_session_status(v: CodexSessionStatus) -> (r: &'static str)
    ensures
        r@ == session_status_name(v),
{
    match v {
        CodexSessionStatus::Running => "运行中",
        CodexSessionStatus::Succeeded => "成功",
        CodexSessionStatus::Failed => "失败",
    }
}

pub open spec fn app_server_owner_name(v: AppServerOwner) -> Seq<char> {
    match v {
        AppServerOwner::Bridge => "桥接"@,
        AppServerOwner::Daemon => "中心托管"@,
    }
}

pub fn label_app_server_owner(v: AppServerOwner) -> (r: &'static str)
    ensures
        r@ == app_server_owner_name(v),
{
    match v {
        AppServerOwner::Bridge => "桥接",
        AppServerOwner::Daemon => "中心托管",
    }
}

/// The text, cut to so many characters.
pub open spec fn shortened(s: Seq<char>, max: nat) -> Seq<char> {
    if s.len() <= max {
        s
    } else {
        s.take(max as int) + "..."@
    }
}

pub fn shorten(value: &str, max_chars: usize) -> (r: String)
    ensures
        r@ == shortened(value@, max_chars as nat),
{
    let v = to_chars(value);
    if v.len() <= max_chars {
        return text(value);
    }
    let head = from_chars(&v, 0, max_chars);
    assert(head@ =~= value@.take(max_chars as int));
    head.concat("...")
}

/// Whether the text begins as JSON does.
pub open spec fn json_like(s: Seq<char>) -> bool {
    begins_with(trimmed(s), "{"@) || begins_with(trimmed(s), "["@)
}

pub fn looks_like_json(value: &str) -> (r: bool)
    ensures
        r == json_like(value@),
{
    let cut = trim(value);
    starts_with(cut.as_str(), "{") || starts_with(cut.as_str(), "[")
}

/// A line of the view: what it is about, and what it says.
pub struct WatchLine {
    pub tag: &'static str,
    pub message: String,
}

impl View for WatchLine {
    type V = (Seq<char>, Seq<char>);

    open spec fn view(&self) -> (Seq<char>, Seq<char>) {
        (self.tag@, self.message@)
    }
}

fn add_line(v: &mut Vec<WatchLine>, tag: &'static str, message: String)
    ensures
        views(final(v)@) == views(old(v)@).push((tag@, message@)),
{
    v.push(WatchLine { tag, message });
    assert(views(v@) =~= views(old(v)@).push((tag@, message@)));
}

/// How the agent's app server is shown.
pub open spec fn server_shown(agent: AgentModel) -> Seq<char> {
    match (agent.app_server_owner, agent.app_server_url) {
        (Some(owner), Some(url)) => app_server_owner_name(owner) + " "@ + shortened(url, 52),
        _ => "未绑定"@,
    }
}

fn show_server(agent: &AgentSummary) -> (r: String)
    ensures
        r@ == server_shown(agent@),
{
    match (agent.app_server_owner, &agent.app_server_url) {
        (Some(owner), Some(url)) => text(label_app_server_owner(owner)).concat(" ").concat(
            shorten(url.as_str(), 52).as_str(),
        ),
        _ => text("未绑定"),
    }
}

fn task_or_none(agent: &AgentSummary) -> (r: String)
    ensures
        r@ == text_or(agent@.current_task_id, "无"@),
{
    match &agent.current_task_id {
        Some(s) => s.clone(),
        None => text("无"),
    }
}

pub open spec fn agent_lines(agent: AgentModel, watched: Seq<char>) -> Seq<(Seq<char>, Seq<char>)> {
    if agent.name != watched {
        Seq::empty()
    } else {
        let session = match agent.current_session_id {
            Some(s) => "在线("@ + s + ")"@,
            None => "无在线轮次会话"@,
        };
        Seq::empty().push(
            (
                "状态"@,
                agent_state_name(agent.state) + " | 初始化="@ + bootstrap_state_name(
                    agent.bootstrap_state,
                ) + " | 会话状态="@ + session + " | app-server="@ + server_shown(agent)
                    + " | 任务="@ + text_or(agent.current_task_id, "无"@),
            ),
        )
    }
}

fn show_agent(agent: &AgentSummary, watched: &str) -> (r: Vec<WatchLine>)
    ensures
        views(r@) == agent_lines(agent@, watched@),
{
    let mut v: Vec<WatchLine> = Vec::new();
    assert(views(v@) =~= Seq::empty());
    if same_text(agent.name.as_str(), watched) {
        let session = match &agent.current_session_id {
            Some(s) => text("在线(").concat(s.as_str()).concat(")"),
            None => text("无在线轮次会话"),
        };
        let message = text(label_agent_state(agent.state)).concat(" | 初始化=").concat(
            label_bootstrap_state(agent.bootstrap_state),
        ).concat(" | 会话状态=").concat(session.as_str()).concat(" | app-server=").concat(
            show_server(agent).as_str(),
        ).concat(" | 任务=").concat(task_or_none(agent).as_str());
        add_line(&mut v, "状态", message);
    }
    v
}

pub open spec fn task_lines(task: TaskModel, event_type: Seq<char>, watched: Seq<char>) -> Seq<
    (Seq<char>, Seq<char>),
> {
    if task.to_agent != watched && task.from_agent != watched {
        Seq::empty()
    } else {
        let head = Seq::empty().push(
            (
                "任务"@,
                event_type + " | "@ + task.task_id + " | "@ + task_state_name(task.state) + " | "@
                    + shortened(task.title, 80),
            ),
        );
        let child = match task.latest_child_summary {
            Some(s) => head.push(("任务"@, "子反馈: "@ + shortened(s, 120))),
            None => head,
        };
        match task.latest_decision_summary {
            Some(s) => child.push(("任务"@, "主决策: "@ + shortened(s, 120))),
            None => child,
        }
    }
}

fn show_task(task: &TaskSummary, event_type: &str, watched: &str) -> (r: Vec<WatchLine>)
    ensures
        views(r@) == task_lines(task@, event_type@, watched@),
{
    let mut v: Vec<WatchLine> = Vec::new();
    assert(views(v@) =~= Seq::empty());
    if same_text(task.to_agent.as_str(), watched) || same_text(task.from_agent.as_str(), watched) {
        let message = text(event_type).concat(" | ").concat(task.task_id.as_str()).concat(
            " | ",
        ).concat(label_task_state(task.state)).concat(" | ").concat(
            shorten(task.title.as_str(), 80).as_str(),
        );
        add_line(&mut v, "任务", message);
        match &task.latest_child_summary {
            Some(s) => {
                let message = text("子反馈: ").concat(shorten(s.as_str(), 120).as_str());
                add_line(&mut v, "任务", message);
            },
            None => {},
        }
        match &task.latest_decision_summary {
            Some(s) => {
                let message = text("主决策: ").concat(shorten(s.as_str(), 120).as_str());
                add_line(&mut v, "任务", message);
            },
            None => {},
        }
    }
    v
}

pub open spec fn decision_lines(
    decision: DecisionModel,
    event_type: Seq<char>,
    watched: Seq<char>,
) -> Seq<(Seq<char>, Seq<char>)> {
    if decision.target_agent != watched && decision.issued_by != watched {
        Seq::empty()
    } else {
        Seq::empty().push(
            (
                "决策"@,
                event_type + " | "@ + decision.task_id + " | "@ + shortened(decision.summary, 120),
            ),
        )
    }
}

fn show_decision(decision: &DecisionSummary, event_type: &str, watched: &str) -> (r: Vec<WatchLine>)
    ensures
        views(r@) == decision_lines(decision@, event_type@, watched@),
{
    let mut v: Vec<WatchLine> = Vec::new();
    assert(views(v@) =~= Seq::empty());
    if same_text(decision.target_agent.as_str(), watched) || same_text(
        decision.issued_by.as_str(),
        watched,
    ) {
        let message = text(event_type).concat(" | ").concat(decision.task_id.as_str()).concat(
            " | ",
        ).concat(shorten(decision.summary.as_str(), 120).as_str());
        add_line(&mut v, "决策", message);
    }
    v
}

pub open spec fn session_lines(
    session: SessionModel,
    event_type: Seq<char>,
    watched: Seq<char>,
) -> Seq<(Seq<char>, Seq<char>)> {
    if session.agent_name != watched {
        Seq::empty()
    } else {
        Seq::empty().push(
            (
                "会话"@,
                event_type + " | "@ + session.session_id + " | "@ + session_mode_name(
                    session.session_mode,
                ) + " | "@ + session_status_name(session.status),
            ),
        )
    }
}

fn show_session(session: &SessionSummary, event_type: &str, watched: &str) -> (r: Vec<WatchLine>)
    ensures
        views(r@) == session_lines(session@, event_type@, watched@),
{
    let mut v: Vec<WatchLine> = Vec::new();
    assert(views(v@) =~= Seq::empty());
    if same_text(session.agent_name.as_str(), watched) {
        let message = text(event_type).concat(" | ").concat(session.session_id.as_str()).concat(
            " | ",
        ).concat(label_session_mode(session.session_mode)).concat(" | ").concat(
            label_session_status(session.status),
        );
        add_line(&mut v, "会话", message);
    }
    v
}

/// Whether the entry is about the agent, or of its doing.
pub open spec fn concerns(event: RuntimeEventModel, watched: Seq<char>) -> bool {
    event.agent_name == Some(watched) || event.actor_name == Some(watched)
}

fn does_concern(event: &RuntimeEventRecord, watched: &str) -> (r: bool)
    ensures
        r == concerns(event@, watched@),
{
    is_text(&event.agent_name, watched) || is_text(&event.actor_name, watched)
}

pub open spec fn event_message(event: RuntimeEventModel) -> Seq<char> {
    event.event_type + " | "@ + shortened(event.summary, 140)
}

fn show_event_message(event: &RuntimeEventRecord) -> (r: String)
    ensures
        r@ == event_message(event@),
{
    text(event.event_type.as_str()).concat(" | ").concat(
        shorten(event.summary.as_str(), 140).as_str(),
    )
}

pub open spec fn stream_lines(event: StreamModel, watched: Seq<char>, show_streams: bool) -> Seq<
    (Seq<char>, Seq<char>),
> {
    if show_streams && event.agent == watched && !json_like(event.content) {
        Seq::empty().push(
            ("输出"@, "["@ + event.stream + "] "@ + shortened(event.content, 160)),
        )
    } else {
        Seq::empty()
    }
}

/// The last entries that concern the agent, at most so many, oldest first.
pub open spec fn last_events(
    events: Seq<RuntimeEventModel>,
    watched: Seq<char>,
    limit: nat,
) -> Seq<RuntimeEventModel>
    decreases events.len(),
{
    if events.len() == 0 || limit == 0 {
        Seq::empty()
    } else if concerns(events.last(), watched) {
        last_events(events.drop_last(), watched, (limit - 1) as nat).push(events.last())
    } else {
        last_events(events.drop_last(), watched, limit)
    }
}

pub open spec fn event_lines(events: Seq<RuntimeEventModel>) -> Seq<(Seq<char>, Seq<char>)> {
    events.map_values(|e: RuntimeEventModel| ("事件"@, event_message(e)))
}

fn show_last_events(events: &Vec<RuntimeEventRecord>, n: usize, watched: &str, limit: usize) -> (r:
    Vec<WatchLine>)
    requires
        n <= events.len(),
    ensures
        views(r@) == event_lines(last_events(views(events@).take(n as int), watched@, limit as nat)),
    decreases n,
{
    if n == 0 || limit == 0 {
        let v: Vec<WatchLine> = Vec::new();
        assert(views(v@) =~= event_lines(
            last_events(views(events@).take(n as int), watched@, limit as nat),
        ));
        return v;
    }
    proof {
        let head = views(events@).take(n as int);
        assert(head.last() == events@[n - 1]@);
        assert(head.drop_last() =~= views(events@).take(n - 1));
    }
    if !does_concern(&events[n - 1], watched) {
        return show_last_events(events, n - 1, watched, limit);
    }
    let mut v = show_last_events(events, n - 1, watched, limit - 1);
    let ghost before = last_events(
        views(events@).take(n - 1),
        watched@,
        (limit - 1) as nat,
    );
    add_line(&mut v, "事件", show_event_message(&events[n - 1]));
    assert(views(v@) =~= event_lines(before.push(events@[n - 1]@)));
    v
}

/// The lines of a snapshot: the agent, and the last entries that concern it.
pub open spec fn snapshot_lines(
    agents: Seq<AgentModel>,
    events: Seq<RuntimeEventModel>,
    watched: Seq<char>,
    limit: nat,
) -> Seq<(Seq<char>, Seq<char>)> {
    match found(agents, watched) {
        None => Seq::empty().push(("快照"@, "agent 尚未注册。"@)),
        Some(agent) => {
            let head = Seq::empty().push(
                (
                    "快照"@,
                    "初始化="@ + bootstrap_state_name(agent.bootstrap_state) + " | 运行状态="@
                        + agent_state_name(agent.state) + " | app-server="@ + server_shown(agent)
                        + " | 当前任务="@ + text_or(agent.current_task_id, "无"@),
                ),
            );
            let last = last_events(events, watched, limit);
            if last.len() == 0 {
                head
            } else {
                head.push(("快照"@, "最近事件:"@)) + event_lines(last)
            }
        },
    }
}

/// Shows a snapshot.
pub fn print_snapshot(snapshot: &DashboardSnapshot, watched: &str, limit: usize) -> (r: Vec<
    WatchLine,
>)
    ensures
        views(r@) == snapshot_lines(
            snapshot@.agents,
            snapshot@.recent_runtime_events,
            watched@,
            limit as nat,
        ),
{
    let ghost all = views(snapshot.agents@);
    let mut v: Vec<WatchLine> = Vec::new();
    assert(views(v@) =~= Seq::empty());
    let mut i: usize = 0;
    while i < snapshot.agents.len() && !same_text(snapshot.agents[i].name.as_str(), watched)
        invariant
            i <= snapshot.agents.len(),
            all == views(snapshot.agents@),
            forall|j: int| 0 <= j < i ==> (#[trigger] all[j]).name != watched@,
        decreases snapshot.agents.len() - i,
    {
        assert(all[i as int] == snapshot.agents@[i as int]@);
        i += 1;
    }
    if i == snapshot.agents.len() {
        proof {
            crate::table::lemma_place(all, watched@);
        }
        add_line(&mut v, "快照", text("agent 尚未注册。"));
        return v;
    }
    proof {
        assert(all[i as int].key() == watched@);
        assert forall|j: int| 0 <= j < i implies (#[trigger] all[j]).key() != watched@ by {}
        crate::table::lemma_place_is(all, watched@, i as int);
    }
    let agent = &snapshot.agents[i];
    let message = text("初始化=").concat(label_bootstrap_state(agent.bootstrap_state)).concat(
        " | 运行状态=",
    ).concat(label_agent_state(agent.state)).concat(" | app-server=").concat(
        show_server(agent).as_str(),
    ).concat(" | 当前任务=").concat(task_or_none(agent).as_str());
    add_line(&mut v, "快照", message);
    let events = &snapshot.recent_runtime_events;
    let mut last = show_last_events(events, events.len(), watched, limit);
    assert(views(events@).take(events@.len() as int) =~= views(events@));
    if last.len() > 0 {
        add_line(&mut v, "快照", text("最近事件:"));
        let ghost before = views(v@);
        let ghost more = views(last@);
        v.append(&mut last);
        assert(views(v@) =~= before + more);
    }
    v
}

/// What the view of an agent shows of an event.
pub open spec fn shown_lines(
    event: DashboardModel,
    watched: Seq<char>,
    limit: nat,
    show_streams: bool,
) -> Seq<(Seq<char>, Seq<char>)> {
    match event {
        DashboardModel::Snapshot { snapshot } => snapshot_lines(
            snapshot.agents,
            snapshot.recent_runtime_events,
            watched,
            limit,
        ),
        DashboardModel::AgentStateChanged { agent } => agent_lines(agent, watched),
        DashboardModel::TaskEvent { task, event_type } => task_lines(task, event_type, watched),
        DashboardModel::DecisionEvent { decision, event_type } => decision_lines(
            decision,
            event_type,
            watched,
        ),
        DashboardModel::SessionEvent { session, event_type } => session_lines(
            session,
            event_type,
            watched,
        ),
        DashboardModel::RuntimeEvent { event } => if concerns(event, watched) {
            Seq::empty().push(("运行"@, event_message(event)))
        } else {
            Seq::empty()
        },
        DashboardModel::StreamChunk { event } => stream_lines(event, watched, show_streams),
    }
}

/// Shows an event.
pub fn handle_event(event: &DashboardEvent, watched: &str, limit: usize, show_streams: bool) -> (r:
    Vec<WatchLine>)
    ensures
        views(r@) == shown_lines(event@, watched@, limit as nat, show_streams),
{
    match event {
        DashboardEvent::Snapshot { snapshot } => print_snapshot(snapshot, watched, limit),
        DashboardEvent::AgentStateChanged { agent } => show_agent(agent, watched),
        DashboardEvent::TaskEvent { task, event_type } => show_task(
            task,
            event_type.as_str(),
            watched,
        ),
        DashboardEvent::DecisionEvent { decision, event_type } => show_decision(
            decision,
            event_type.as_str(),
            watched,
        ),
        DashboardEvent::SessionEvent { session, event_type } => show_session(
            session,
            event_type.as_str(),
            watched,
        ),
        DashboardEvent::RuntimeEvent { event } => {
            let mut v: Vec<WatchLine> = Vec::new();
            assert(views(v@) =~= Seq::empty());
            if does_concern(event, watched) {
                add_line(&mut v, "运行", show_event_message(event));
            }
            v
        },
        DashboardEvent::StreamChunk { event } => {
            let mut v: Vec<WatchLine> = Vec::new();
            assert(views(v@) =~= Seq::empty());
            if show_streams && same_text(event.agent.as_str(), watched) && !looks_like_json(
                event.content.as_str(),
            ) {
                let message = text("[").concat(event.stream.as_str()).concat("] ").concat(
                    shorten(event.content.as_str(), 160).as_str(),
                );
                add_line(&mut v, "输出", message);
            }
            v
        },
    }
}

} // verus!
