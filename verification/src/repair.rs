//! Repair of the runtime state: records that contradict each other are brought
//! into line, conservatively and with a note on each change.

use vstd::prelude::*;

use crate::decision::{
    apply_latest_decision_fields, latest_decision, latest_decision_for_task, mirrors_decision,
    task_latest_decision_is_current, with_decision,
};
use crate::draft::{
    agent_state_for, desired_agent_state_for_task, is_task_terminal, terminal,
};
use crate::failure::{seen, Failure};
use crate::models::{
    AgentModel, AgentSessionState, AgentSummary, CodexSessionStatus, DecisionModel,
    DecisionSummary, RepairModel, RepairSummary, SessionModel, SessionSummary, TaskModel,
    TaskSummary,
};
use crate::state::{
    known_agent, AppShared, Effect, EffectModel, LiveModel, LiveSession, ManagedModel,
    ManagedSession, World,
};
use crate::table::{filed, found, views, Dup, Table};
use crate::text::{copy_text, decimal, same_opt_text, same_text, text, texts, to_decimal};
use crate::time::Timestamp;

verus! {

/// A record after its repair, and what was changed.
pub struct Fix<R> {
    pub record: R,
    pub notes: Seq<Seq<char>>,
    pub changed: bool,
}

/// One repair after another.
pub open spec fn both<R>(first: Fix<R>, second: Fix<R>) -> Fix<R> {
    Fix {
        record: second.record,
        notes: first.notes + second.notes,
        changed: first.changed || second.changed,
    }
}

/// Nothing to repair.
pub open spec fn no_fix<R>(record: R) -> Fix<R> {
    Fix { record, notes: Seq::empty(), changed: false }
}

/// The times of closing: a task that is over has one, any other has none.
pub open spec fn fix_closing(task: TaskModel) -> Fix<TaskModel> {
    if terminal(task.state) && task.closed_at is None {
        Fix {
            record: TaskModel { closed_at: Some(task.updated_at), ..task },
            notes: seq![
                "task "@ + task.task_id + " had terminal state "@ + task.state.shown()
                    + " without closed_at; backfilled closed_at"@,
            ],
            changed: true,
        }
    } else if !terminal(task.state) && task.closed_at is Some {
        Fix {
            record: TaskModel { closed_at: None, ..task },
            notes: seq![
                "task "@ + task.task_id + " was non-terminal "@ + task.state.shown()
                    + " but had closed_at; cleared it"@,
            ],
            changed: true,
        }
    } else {
        no_fix(task)
    }
}

/// A task in line with itself and with the ledger of decisions.
pub open spec fn fix_task(
    task: TaskModel,
    decisions: Seq<DecisionModel>,
    now: Timestamp,
) -> Fix<TaskModel> {
    let closed = fix_closing(task);
    let latest = latest_decision(decisions, task.task_id);
    if mirrors_decision(closed.record, latest) {
        if closed.changed {
            Fix { record: TaskModel { updated_at: now, ..closed.record }, ..closed }
        } else {
            closed
        }
    } else {
        Fix {
            record: TaskModel { updated_at: now, ..with_decision(closed.record, latest) },
            notes: closed.notes.push(
                "task "@ + task.task_id
                    + " latest decision snapshot did not match decision ledger; synchronized task fields"@,
            ),
            changed: true,
        }
    }
}

/// What the daemon can stop: the rounds that are running and the app servers that it
/// started.
pub struct Handles {
    pub rounds: Seq<LiveModel>,
    pub servers: Seq<ManagedModel>,
}

impl Handles {
    /// Whether the session has a live handle.
    pub open spec fn hold(self, session_id: Seq<char>) -> bool {
        ||| filed(self.rounds, session_id)
        ||| exists|i: int|
            0 <= i < self.servers.len() && (#[trigger] self.servers[i]).session_id == session_id
    }
}

impl World {
    pub open spec fn handles(self) -> Handles {
        Handles { rounds: self.active_sessions, servers: self.active_managed_sessions }
    }
}

/// A session in line with what is really running.
pub open spec fn fix_session(
    session: SessionModel,
    live: Handles,
    now: Timestamp,
) -> Fix<SessionModel> {
    let running = session.status == CodexSessionStatus::Running;
    let is_live = live.hold(session.session_id);
    if running && !is_live {
        Fix {
            record: SessionModel {
                status: CodexSessionStatus::Failed,
                ended_at: match session.ended_at {
                    Some(t) => Some(t),
                    None => Some(now),
                },
                last_output_at: match session.last_output_at {
                    Some(t) => Some(t),
                    None => Some(now),
                },
                ..session
            },
            notes: seq![
                "session "@ + session.session_id
                    + " was marked running without a live handle; normalized to failed"@,
            ],
            changed: true,
        }
    } else if !running && session.ended_at is None {
        Fix {
            record: SessionModel {
                ended_at: match session.last_output_at {
                    Some(t) => Some(t),
                    None => Some(now),
                },
                ..session
            },
            notes: seq![
                "session "@ + session.session_id
                    + " was finished but missing ended_at; backfilled it"@,
            ],
            changed: true,
        }
    } else if running && session.ended_at is Some {
        Fix {
            record: SessionModel { ended_at: None, ..session },
            notes: seq![
                "session "@ + session.session_id
                    + " was running but had ended_at set; cleared it"@,
            ],
            changed: true,
        }
    } else {
        no_fix(session)
    }
}

/// The tasks of an agent that are not over, in the order of the table.
pub open spec fn open_tasks(tasks: Seq<TaskModel>, agent: Seq<char>) -> Seq<Seq<char>>
    decreases tasks.len(),
{
    if tasks.len() == 0 {
        Seq::empty()
    } else {
        let rest = open_tasks(tasks.drop_last(), agent);
        let t = tasks.last();
        if t.to_agent == agent && !terminal(t.state) {
            rest.push(t.task_id)
        } else {
            rest
        }
    }
}

/// Whether the session is known and runs.
pub open spec fn runs(sessions: Seq<SessionModel>, id: Seq<char>) -> bool {
    found(sessions, id) matches Some(s) && s.status == CodexSessionStatus::Running
}

/// Whether the task is known and not over.
pub open spec fn is_open(tasks: Seq<TaskModel>, id: Seq<char>) -> bool {
    found(tasks, id) matches Some(t) && !terminal(t.state)
}

/// An agent does not point to a session that does not run.
pub open spec fn fix_agent_session(a: AgentModel, sessions: Seq<SessionModel>) -> Fix<AgentModel> {
    match a.current_session_id {
        Some(id) => if runs(sessions, id) {
            no_fix(a)
        } else {
            Fix {
                record: AgentModel { current_session_id: None, ..a },
                notes: seq![
                    "agent "@ + a.name + " referenced stale current_session_id "@ + id
                        + "; cleared it"@,
                ],
                changed: true,
            }
        },
        None => no_fix(a),
    }
}

/// An agent does not point to a task that is over.
pub open spec fn fix_agent_task(a: AgentModel, tasks: Seq<TaskModel>) -> Fix<AgentModel> {
    match a.current_task_id {
        Some(id) => if is_open(tasks, id) {
            no_fix(a)
        } else {
            Fix {
                record: AgentModel { current_task_id: None, ..a },
                notes: seq![
                    "agent "@ + a.name + " referenced stale current_task_id "@ + id
                        + "; cleared it"@,
                ],
                changed: true,
            }
        },
        None => no_fix(a),
    }
}

/// An agent without task and session takes up its only open task, or rests; any
/// other is in the state that its session or task calls for.
pub open spec fn fix_agent_state(
    a: AgentModel,
    tasks: Seq<TaskModel>,
    original: AgentSessionState,
) -> Fix<AgentModel> {
    let open = open_tasks(tasks, a.name);
    if a.current_task_id is None && a.current_session_id is None {
        if open.len() == 1 {
            Fix {
                record: AgentModel {
                    current_task_id: Some(open[0]),
                    state: match found(tasks, open[0]) {
                        Some(t) => agent_state_for(t.state),
                        None => a.state,
                    },
                    ..a
                },
                notes: seq![
                    "agent "@ + a.name + " had exactly one open task "@ + open[0]
                        + "; rebound current_task_id"@,
                ],
                changed: true,
            }
        } else if open.len() == 0 && a.state != AgentSessionState::Idle {
            Fix {
                record: AgentModel { state: AgentSessionState::Idle, ..a },
                notes: seq![
                    "agent "@ + a.name + " had no task or session but state "@ + original.shown()
                        + "; normalized to idle"@,
                ],
                changed: true,
            }
        } else if open.len() > 1 {
            Fix {
                record: a,
                notes: seq![
                    "agent "@ + a.name + " has "@ + decimal(open.len())
                        + " open tasks and was not auto-repaired"@,
                ],
                changed: false,
            }
        } else {
            no_fix(a)
        }
    } else if a.current_session_id is Some {
        if a.state != AgentSessionState::Busy {
            Fix {
                record: AgentModel { state: AgentSessionState::Busy, ..a },
                notes: seq![
                    "agent "@ + a.name + " had a live session but state "@ + original.shown()
                        + "; normalized to busy"@,
                ],
                changed: true,
            }
        } else {
            no_fix(a)
        }
    } else {
        match found(tasks, a.current_task_id->Some_0) {
            Some(t) => if a.state != agent_state_for(t.state) {
                Fix {
                    record: AgentModel { state: agent_state_for(t.state), ..a },
                    notes: seq![
                        "agent "@ + a.name + " state "@ + original.shown()
                            + " did not match task "@ + a.current_task_id->Some_0
                            + "; normalized to "@ + agent_state_for(t.state).shown(),
                    ],
                    changed: true,
                }
            } else {
                no_fix(a)
            },
            None => no_fix(a),
        }
    }
}

/// An agent in line with the sessions and tasks.
pub open spec fn fix_agent(
    a: AgentModel,
    tasks: Seq<TaskModel>,
    sessions: Seq<SessionModel>,
    now: Timestamp,
) -> Fix<AgentModel> {
    let seated = fix_agent_session(a, sessions);
    let tasked = both(seated, fix_agent_task(seated.record, tasks));
    let f = both(tasked, fix_agent_state(tasked.record, tasks, a.state));
    if f.changed && (a.current_task_id != f.record.current_task_id || a.current_session_id
        != f.record.current_session_id || a.state != f.record.state) {
        Fix { record: AgentModel { last_heartbeat_at: Some(now), ..f.record }, ..f }
    } else {
        f
    }
}

/// Repaired records, with the notes and the effects of the repair.
pub struct Repaired<R> {
    pub records: Seq<R>,
    pub notes: Seq<Seq<char>>,
    pub effects: Seq<EffectModel>,
    pub count: nat,
}

/// The next record of a table, with the effects that store it.
pub open spec fn repaired_next<R>(
    done: Repaired<R>,
    f: Fix<R>,
    effects: Seq<EffectModel>,
) -> Repaired<R> {
    Repaired {
        records: done.records.push(f.record),
        notes: done.notes + f.notes,
        effects: if f.changed {
            done.effects + effects
        } else {
            done.effects
        },
        count: if f.changed {
            done.count + 1
        } else {
            done.count
        },
    }
}

pub open spec fn repaired_none<R>() -> Repaired<R> {
    Repaired { records: Seq::empty(), notes: Seq::empty(), effects: Seq::empty(), count: 0 }
}

pub open spec fn repair_tasks(
    tasks: Seq<TaskModel>,
    decisions: Seq<DecisionModel>,
    now: Timestamp,
) -> Repaired<TaskModel>
    decreases tasks.len(),
{
    if tasks.len() == 0 {
        repaired_none()
    } else {
        let t = tasks.last();
        let f = fix_task(t, decisions, now);
        repaired_next(
            repair_tasks(tasks.drop_last(), decisions, now),
            f,
            Seq::<EffectModel>::empty().push(EffectModel::UpdateTask { task: f.record }).push(
                EffectModel::InsertTaskEvent {
                    task_id: t.task_id,
                    event_type: "task_repaired"@,
                    from_state: Some(t.state),
                    to_state: Some(t.state),
                    payload: "{}"@,
                },
            ),
        )
    }
}

pub open spec fn repair_sessions(
    sessions: Seq<SessionModel>,
    live: Handles,
    now: Timestamp,
) -> Repaired<SessionModel>
    decreases sessions.len(),
{
    if sessions.len() == 0 {
        repaired_none()
    } else {
        let f = fix_session(sessions.last(), live, now);
        repaired_next(
            repair_sessions(sessions.drop_last(), live, now),
            f,
            Seq::<EffectModel>::empty().push(EffectModel::SaveSession { session: f.record }),
        )
    }
}

pub open spec fn repair_agents(
    agents: Seq<AgentModel>,
    tasks: Seq<TaskModel>,
    sessions: Seq<SessionModel>,
    now: Timestamp,
) -> Repaired<AgentModel>
    decreases agents.len(),
{
    if agents.len() == 0 {
        repaired_none()
    } else {
        let f = fix_agent(agents.last(), tasks, sessions, now);
        repaired_next(
            repair_agents(agents.drop_last(), tasks, sessions, now),
            f,
            Seq::<EffectModel>::empty().push(EffectModel::SaveAgent { agent: f.record }),
        )
    }
}

impl World {
    /// The tables after a repair, and what it changed.
    pub open spec fn repaired_tables(self, now: Timestamp) -> World {
        let t = repair_tasks(self.tasks, self.decisions, now);
        let s = repair_sessions(self.sessions, self.handles(), now);
        let a = repair_agents(self.agents, t.records, s.records, now);
        World {
            tasks: t.records,
            sessions: s.records,
            agents: a.records,
            outbox: self.outbox + t.effects + s.effects + a.effects,
            ..self
        }
    }

    pub open spec fn repair(self, requested_by: Seq<char>, now: Timestamp) -> (
        World,
        Result<RepairModel, Seq<char>>,
    ) {
        match known_agent(self, requested_by) {
            Err(e) => (self, Err(e)),
            Ok(_) => {
                let t = repair_tasks(self.tasks, self.decisions, now);
                let s = repair_sessions(self.sessions, self.handles(), now);
                let a = repair_agents(self.agents, t.records, s.records, now);
                (
                    self.repaired_tables(now).say(
                        requested_by,
                        "[REPAIR_RUNTIME_STATE] agents="@ + decimal(a.count) + " tasks="@
                            + decimal(t.count) + " sessions="@ + decimal(s.count),
                        now,
                    ).emit(EffectModel::PublishSnapshot),
                    Ok(
                        RepairModel {
                            requested_by,
                            repaired_agents: a.count as usize,
                            repaired_tasks: t.count as usize,
                            repaired_sessions: s.count as usize,
                            notes: t.notes + s.notes + a.notes,
                        },
                    ),
                )
            },
        }
    }
}

/// Adds a note to the list.
fn note(notes: &mut Vec<String>, s: String)
    ensures
        texts(final(notes)@) == texts(old(notes)@).push(s@),
{
    let ghost before = notes@;
    notes.push(s);
    assert(texts(notes@) =~= texts(before).push(s@));
}

fn repair_task(
    task: &mut TaskSummary,
    latest: Option<&DecisionSummary>,
    notes: &mut Vec<String>,
    now: Timestamp,
    Ghost(decisions): Ghost<Seq<DecisionModel>>,
) -> (changed: bool)
    requires
        latest_decision(decisions, old(task)@.task_id) == (match latest {
            Some(d) => Some(d@),
            None => None,
        }),
    ensures
        ({
            let f = fix_task(old(task)@, decisions, now);
            &&& final(task)@ == f.record
            &&& texts(final(notes)@) == texts(old(notes)@) + f.notes
            &&& changed == f.changed
        }),
{
    let ghost before = task@;
    let ghost n0 = texts(notes@);
    let mut changed = false;
    if is_task_terminal(task.state) && task.closed_at.is_none() {
        task.closed_at = Some(task.updated_at);
        changed = true;
        note(
            notes,
            text("task ").concat(task.task_id.as_str()).concat(" had terminal state ").concat(
                task.state.as_shown(),
            ).concat(" without closed_at; backfilled closed_at"),
        );
    } else if !is_task_terminal(task.state) && task.closed_at.is_some() {
        task.closed_at = None;
        changed = true;
        note(
            notes,
            text("task ").concat(task.task_id.as_str()).concat(" was non-terminal ").concat(
                task.state.as_shown(),
            ).concat(" but had closed_at; cleared it"),
        );
    }
    let ghost c = fix_closing(before);
    assert(task@ == c.record && changed == c.changed);
    assert(texts(notes@) =~= n0 + c.notes);
    if !task_latest_decision_is_current(task, latest) {
        apply_latest_decision_fields(task, latest);
        changed = true;
        note(
            notes,
            text("task ").concat(task.task_id.as_str()).concat(
                " latest decision snapshot did not match decision ledger; synchronized task fields",
            ),
        );
        assert(texts(notes@) =~= n0 + fix_task(before, decisions, now).notes);
    }
    if changed {
        task.updated_at = now;
    }
    changed
}

fn is_held(rounds: &Table<LiveSession>, servers: &Table<ManagedSession>, session_id: &str) -> (r:
    bool)
    ensures
        r == (Handles { rounds: rounds@, servers: servers@ }).hold(session_id@),
{
    if rounds.has(session_id) {
        return true;
    }
    let mut i: usize = 0;
    while i < servers.len()
        invariant
            i <= servers@.len(),
            forall|j: int| 0 <= j < i ==> (#[trigger] servers@[j]).session_id != session_id@,
        decreases servers@.len() - i,
    {
        let s = servers.at(i);
        if same_text(s.session_id.as_str(), session_id) {
            assert((Handles { rounds: rounds@, servers: servers@ }).servers[i as int].session_id
                == session_id@);
            return true;
        }
        i += 1;
    }
    false
}

fn repair_session(
    session: &mut SessionSummary,
    rounds: &Table<LiveSession>,
    servers: &Table<ManagedSession>,
    notes: &mut Vec<String>,
    now: Timestamp,
) -> (changed: bool)
    ensures
        ({
            let live = Handles { rounds: rounds@, servers: servers@ };
            let f = fix_session(old(session)@, live, now);
            &&& final(session)@ == f.record
            &&& texts(final(notes)@) == texts(old(notes)@) + f.notes
            &&& changed == f.changed
        }),
{
    let ghost n0 = texts(notes@);
    let running = session.status == CodexSessionStatus::Running;
    let is_live = is_held(rounds, servers, session.session_id.as_str());
    let ghost live = Handles { rounds: rounds@, servers: servers@ };
    let ghost f = fix_session(session@, live, now);
    if running && !is_live {
        session.status = CodexSessionStatus::Failed;
        if session.ended_at.is_none() {
            session.ended_at = Some(now);
        }
        if session.last_output_at.is_none() {
            session.last_output_at = Some(now);
        }
        note(
            notes,
            text("session ").concat(session.session_id.as_str()).concat(
                " was marked running without a live handle; normalized to failed",
            ),
        );
        assert(texts(notes@) =~= n0 + f.notes);
        true
    } else if !running && session.ended_at.is_none() {
        session.ended_at = match session.last_output_at {
            Some(t) => Some(t),
            None => Some(now),
        };
        note(
            notes,
            text("session ").concat(session.session_id.as_str()).concat(
                " was finished but missing ended_at; backfilled it",
            ),
        );
        assert(texts(notes@) =~= n0 + f.notes);
        true
    } else if running && session.ended_at.is_some() {
        session.ended_at = None;
        note(
            notes,
            text("session ").concat(session.session_id.as_str()).concat(
                " was running but had ended_at set; cleared it",
            ),
        );
        assert(texts(notes@) =~= n0 + f.notes);
        true
    } else {
        assert(texts(notes@) =~= n0 + f.notes);
        false
    }
}

pub fn find_open_tasks(tasks: &Table<TaskSummary>, agent: &str) -> (r: Vec<String>)
    ensures
        texts(r@) == open_tasks(tasks@, agent@),
{
    let mut out: Vec<String> = Vec::new();
    let mut i: usize = 0;
    assert(texts(out@) =~= open_tasks(tasks@.take(0), agent@));
    while i < tasks.len()
        invariant
            i <= tasks@.len(),
            texts(out@) == open_tasks(tasks@.take(i as int), agent@),
        decreases tasks@.len() - i,
    {
        let t = tasks.at(i);
        proof {
            assert(tasks@.take(i + 1).drop_last() =~= tasks@.take(i as int));
            assert(tasks@.take(i + 1).last() == t@);
        }
        if same_text(t.to_agent.as_str(), agent) && !is_task_terminal(t.state) {
            note(&mut out, t.task_id.clone());
        }
        i += 1;
    }
    assert(tasks@.take(i as int) =~= tasks@);
    out
}

pub fn session_runs(sessions: &Table<SessionSummary>, id: &str) -> (r: bool)
    ensures
        r == runs(sessions@, id@),
{
    match sessions.get(id) {
        Some(s) => s.status == CodexSessionStatus::Running,
        None => false,
    }
}

pub fn task_is_open(tasks: &Table<TaskSummary>, id: &str) -> (r: bool)
    ensures
        r == is_open(tasks@, id@),
{
    match tasks.get(id) {
        Some(t) => !is_task_terminal(t.state),
        None => false,
    }
}

fn drop_stale_session(
    agent: &mut AgentSummary,
    sessions: &Table<SessionSummary>,
    notes: &mut Vec<String>,
) -> (changed: bool)
    ensures
        ({
            let f = fix_agent_session(old(agent)@, sessions@);
            &&& final(agent)@ == f.record
            &&& texts(final(notes)@) == texts(old(notes)@) + f.notes
            &&& changed == f.changed
        }),
{
    let ghost n0 = texts(notes@);
    let ghost f = fix_agent_session(agent@, sessions@);
    let mut changed = false;
    match copy_text(&agent.current_session_id) {
        Some(id) => if !session_runs(sessions, id.as_str()) {
            agent.current_session_id = None;
            changed = true;
            note(
                notes,
                text("agent ").concat(agent.name.as_str()).concat(
                    " referenced stale current_session_id ",
                ).concat(id.as_str()).concat("; cleared it"),
            );
        },
        None => {},
    }
    assert(texts(notes@) =~= n0 + f.notes);
    changed
}

fn drop_stale_task(
    agent: &mut AgentSummary,
    tasks: &Table<TaskSummary>,
    notes: &mut Vec<String>,
) -> (changed: bool)
    ensures
        ({
            let f = fix_agent_task(old(agent)@, tasks@);
            &&& final(agent)@ == f.record
            &&& texts(final(notes)@) == texts(old(notes)@) + f.notes
            &&& changed == f.changed
        }),
{
    let ghost n0 = texts(notes@);
    let ghost f = fix_agent_task(agent@, tasks@);
    let mut changed = false;
    match copy_text(&agent.current_task_id) {
        Some(id) => if !task_is_open(tasks, id.as_str()) {
            agent.current_task_id = None;
            changed = true;
            note(
                notes,
                text("agent ").concat(agent.name.as_str()).concat(
                    " referenced stale current_task_id ",
                ).concat(id.as_str()).concat("; cleared it"),
            );
        },
        None => {},
    }
    assert(texts(notes@) =~= n0 + f.notes);
    changed
}

#[verifier::rlimit(40)]
fn repair_agent(
    agent: &mut AgentSummary,
    tasks: &Table<TaskSummary>,
    sessions: &Table<SessionSummary>,
    notes: &mut Vec<String>,
    now: Timestamp,
) -> (changed: bool)
    ensures
        ({
            let f = fix_agent(old(agent)@, tasks@, sessions@, now);
            &&& final(agent)@ == f.record
            &&& texts(final(notes)@) == texts(old(notes)@) + f.notes
            &&& changed == f.changed
        }),
{
    let before = agent.dup();
    let ghost n0 = texts(notes@);
    let unseated = drop_stale_session(agent, sessions, notes);
    let untasked = drop_stale_task(agent, tasks, notes);
    let restated = restate_agent(agent, tasks, before.state, notes);
    let changed = unseated || untasked || restated;
    proof {
        let f1 = fix_agent_session(before@, sessions@);
        let f2 = fix_agent_task(f1.record, tasks@);
        let f3 = fix_agent_state(f2.record, tasks@, before@.state);
        assert(texts(notes@) =~= n0 + both(both(f1, f2), f3).notes);
    }
    if changed && (!same_opt_text(&before.current_task_id, &agent.current_task_id)
        || !same_opt_text(&before.current_session_id, &agent.current_session_id) || before.state
        != agent.state) {
        agent.last_heartbeat_at = Some(now);
    }
    changed
}

fn restate_agent(
    agent: &mut AgentSummary,
    tasks: &Table<TaskSummary>,
    original: AgentSessionState,
    notes: &mut Vec<String>,
) -> (changed: bool)
    ensures
        ({
            let f = fix_agent_state(old(agent)@, tasks@, original);
            &&& final(agent)@ == f.record
            &&& texts(final(notes)@) == texts(old(notes)@) + f.notes
            &&& changed == f.changed
        }),
{
    let ghost start = agent@;
    let ghost n0 = texts(notes@);
    let mut changed = false;
    if agent.current_task_id.is_none() && agent.current_session_id.is_none() {
        let open = find_open_tasks(tasks, agent.name.as_str());
        assert(texts(open@).len() == open.len());
        if open.len() == 1 {
            assert(texts(open@)[0] == open@[0]@);
            agent.current_task_id = Some(open[0].clone());
            match tasks.get(open[0].as_str()) {
                Some(t) => {
                    agent.state = desired_agent_state_for_task(&t);
                },
                None => {},
            }
            changed = true;
            note(
                notes,
                text("agent ").concat(agent.name.as_str()).concat(
                    " had exactly one open task ",
                ).concat(open[0].as_str()).concat("; rebound current_task_id"),
            );
        } else if open.len() == 0 && agent.state != AgentSessionState::Idle {
            agent.state = AgentSessionState::Idle;
            changed = true;
            note(
                notes,
                text("agent ").concat(agent.name.as_str()).concat(
                    " had no task or session but state ",
                ).concat(original.as_shown()).concat("; normalized to idle"),
            );
        } else if open.len() > 1 {
            note(
                notes,
                text("agent ").concat(agent.name.as_str()).concat(" has ").concat(
                    to_decimal(open.len() as u64).as_str(),
                ).concat(" open tasks and was not auto-repaired"),
            );
        }
    } else if agent.current_session_id.is_some() {
        if agent.state != AgentSessionState::Busy {
            agent.state = AgentSessionState::Busy;
            changed = true;
            note(
                notes,
                text("agent ").concat(agent.name.as_str()).concat(
                    " had a live session but state ",
                ).concat(original.as_shown()).concat("; normalized to busy"),
            );
        }
    } else {
        match copy_text(&agent.current_task_id) {
            Some(id) => match tasks.get(id.as_str()) {
                Some(t) => {
                    let desired = desired_agent_state_for_task(&t);
                    if agent.state != desired {
                        agent.state = desired;
                        changed = true;
                        note(
                            notes,
                            text("agent ").concat(agent.name.as_str()).concat(" state ").concat(
                                original.as_shown(),
                            ).concat(" did not match task ").concat(id.as_str()).concat(
                                "; normalized to ",
                            ).concat(desired.as_shown()),
                        );
                    }
                },
                None => {},
            },
            None => {},
        }
    }
    assert(texts(notes@) =~= n0 + fix_agent_state(start, tasks@, original).notes);
    changed
}

impl AppShared {
    fn repair_all_tasks(&mut self, notes: &mut Vec<String>, now: Timestamp) -> (count: usize)
        ensures
            ({
                let r = repair_tasks(old(self)@.tasks, old(self)@.decisions, now);
                &&& final(self)@ == (World {
                    tasks: r.records,
                    outbox: old(self)@.outbox + r.effects,
                    ..old(self)@
                })
                &&& texts(final(notes)@) == texts(old(notes)@) + r.notes
                &&& count == r.count
            }),
    {
        let ghost start = self@;
        let ghost n0 = texts(notes@);
        let mut out: Vec<TaskSummary> = Vec::new();
        let mut count: usize = 0;
        let mut i: usize = 0;
        proof {
            let none = repair_tasks(start.tasks.take(0), start.decisions, now);
            assert(views(out@) =~= none.records);
            assert(n0 + none.notes =~= n0);
            assert(start.outbox + none.effects =~= start.outbox);
        }
        while i < self.state.tasks.len()
            invariant
                i <= start.tasks.len(),
                count <= i,
                ({
                    let r = repair_tasks(start.tasks.take(i as int), start.decisions, now);
                    &&& self@ == (World { outbox: start.outbox + r.effects, ..start })
                    &&& views(out@) == r.records
                    &&& texts(notes@) == n0 + r.notes
                    &&& count == r.count
                }),
            decreases start.tasks.len() - i,
        {
            let ghost done = repair_tasks(start.tasks.take(i as int), start.decisions, now);
            let mut task = self.state.tasks.at(i).dup();
            let ghost before = task@;
            let task_id = task.task_id.clone();
            let state = task.state;
            let latest = latest_decision_for_task(&self.state.decisions, task_id.as_str());
            let latest_ref = match &latest {
                Some(d) => Some(d),
                None => None,
            };
            let changed = repair_task(&mut task, latest_ref, notes, now, Ghost(start.decisions));
            if changed {
                self.emit(Effect::UpdateTask { task: task.dup() });
                self.emit(
                    Effect::InsertTaskEvent {
                        task_id,
                        event_type: text("task_repaired"),
                        from_state: Some(state),
                        to_state: Some(state),
                        payload: text("{}"),
                    },
                );
                count += 1;
            }
            let ghost rows = out@;
            out.push(task);
            i += 1;
            proof {
                let head = start.tasks.take(i as int);
                assert(head.drop_last() =~= start.tasks.take(i - 1));
                assert(head.last() == before);
                let next = repair_tasks(head, start.decisions, now);
                assert(views(out@) =~= views(rows).push(task@));
                assert(self@.outbox =~= start.outbox + next.effects);
                assert(texts(notes@) =~= n0 + next.notes);
            }
        }
        assert(start.tasks.take(i as int) =~= start.tasks);
        self.state.tasks = Table { rows: out };
        count
    }

    fn repair_all_sessions(&mut self, notes: &mut Vec<String>, now: Timestamp) -> (count: usize)
        ensures
            ({
                let r = repair_sessions(old(self)@.sessions, old(self)@.handles(), now);
                &&& final(self)@ == (World {
                    sessions: r.records,
                    outbox: old(self)@.outbox + r.effects,
                    ..old(self)@
                })
                &&& texts(final(notes)@) == texts(old(notes)@) + r.notes
                &&& count == r.count
            }),
    {
        let ghost start = self@;
        let ghost n0 = texts(notes@);
        let mut out: Vec<SessionSummary> = Vec::new();
        let mut count: usize = 0;
        let mut i: usize = 0;
        proof {
            let none = repair_sessions(start.sessions.take(0), start.handles(), now);
            assert(views(out@) =~= none.records);
            assert(n0 + none.notes =~= n0);
            assert(start.outbox + none.effects =~= start.outbox);
        }
        while i < self.state.sessions.len()
            invariant
                i <= start.sessions.len(),
                count <= i,
                ({
                    let r = repair_sessions(
                        start.sessions.take(i as int),
                        start.handles(),
                        now,
                    );
                    &&& self@ == (World { outbox: start.outbox + r.effects, ..start })
                    &&& views(out@) == r.records
                    &&& texts(notes@) == n0 + r.notes
                    &&& count == r.count
                }),
            decreases start.sessions.len() - i,
        {
            let mut session = self.state.sessions.at(i).dup();
            let ghost before = session@;
            let changed = repair_session(
                &mut session,
                &self.active_sessions,
                &self.active_managed_sessions,
                notes,
                now,
            );
            if changed {
                self.emit(Effect::SaveSession { session: session.dup() });
                count += 1;
            }
            let ghost rows = out@;
            out.push(session);
            i += 1;
            proof {
                let head = start.sessions.take(i as int);
                assert(head.drop_last() =~= start.sessions.take(i - 1));
                assert(head.last() == before);
                let next = repair_sessions(head, start.handles(), now);
                assert(views(out@) =~= views(rows).push(session@));
                assert(self@.outbox =~= start.outbox + next.effects);
                assert(texts(notes@) =~= n0 + next.notes);
            }
        }
        assert(start.sessions.take(i as int) =~= start.sessions);
        self.state.sessions = Table { rows: out };
        count
    }

    fn repair_all_agents(&mut self, notes: &mut Vec<String>, now: Timestamp) -> (count: usize)
        ensures
            ({
                let r = repair_agents(
                    old(self)@.agents,
                    old(self)@.tasks,
                    old(self)@.sessions,
                    now,
                );
                &&& final(self)@ == (World {
                    agents: r.records,
                    outbox: old(self)@.outbox + r.effects,
                    ..old(self)@
                })
                &&& texts(final(notes)@) == texts(old(notes)@) + r.notes
                &&& count == r.count
            }),
    {
        let ghost start = self@;
        let ghost n0 = texts(notes@);
        let mut out: Vec<AgentSummary> = Vec::new();
        let mut count: usize = 0;
        let mut i: usize = 0;
        proof {
            let none = repair_agents(start.agents.take(0), start.tasks, start.sessions, now);
            assert(views(out@) =~= none.records);
            assert(n0 + none.notes =~= n0);
            assert(start.outbox + none.effects =~= start.outbox);
        }
        while i < self.state.agents.len()
            invariant
                i <= start.agents.len(),
                count <= i,
                ({
                    let r = repair_agents(
                        start.agents.take(i as int),
                        start.tasks,
                        start.sessions,
                        now,
                    );
                    &&& self@ == (World { outbox: start.outbox + r.effects, ..start })
                    &&& views(out@) == r.records
                    &&& texts(notes@) == n0 + r.notes
                    &&& count == r.count
                }),
            decreases start.agents.len() - i,
        {
            let mut agent = self.state.agents.at(i).dup();
            let ghost before = agent@;
            let changed = repair_agent(
                &mut agent,
                &self.state.tasks,
                &self.state.sessions,
                notes,
                now,
            );
            if changed {
                self.emit(Effect::SaveAgent { agent: agent.dup() });
                count += 1;
            }
            let ghost rows = out@;
            out.push(agent);
            i += 1;
            proof {
                let head = start.agents.take(i as int);
                assert(head.drop_last() =~= start.agents.take(i - 1));
                assert(head.last() == before);
                let next = repair_agents(head, start.tasks, start.sessions, now);
                assert(views(out@) =~= views(rows).push(agent@));
                assert(self@.outbox =~= start.outbox + next.effects);
                assert(texts(notes@) =~= n0 + next.notes);
            }
        }
        assert(start.agents.take(i as int) =~= start.agents);
        self.state.agents = Table { rows: out };
        count
    }

    pub fn repair_runtime_state(&mut self, requested_by: &str, now: Timestamp) -> (r: Result<
        RepairSummary,
        Failure,
    >)
        ensures
            (final(self)@, seen(r)) == old(self)@.repair(requested_by@, now),
    {
        match self.registered_agent(requested_by) {
            Err(e) => {
                return Err(e);
            },
            Ok(_) => {},
        }
        let ghost start = self@;
        let mut notes: Vec<String> = Vec::new();
        let tasks: usize = self.repair_all_tasks(&mut notes, now);
        let sessions: usize = self.repair_all_sessions(&mut notes, now);
        let agents: usize = self.repair_all_agents(&mut notes, now);
        proof {
            let t = repair_tasks(start.tasks, start.decisions, now);
            let s = repair_sessions(start.sessions, start.handles(), now);
            let a = repair_agents(start.agents, t.records, s.records, now);
            assert(texts(notes@) =~= t.notes + s.notes + a.notes);
            assert(self@ =~= start.repaired_tables(now));
        }
        let content = text("[REPAIR_RUNTIME_STATE] agents=").concat(
            to_decimal(agents as u64).as_str(),
        ).concat(" tasks=").concat(to_decimal(tasks as u64).as_str()).concat(
            " sessions=",
        ).concat(to_decimal(sessions as u64).as_str());
        self.say(requested_by, content.as_str(), now);
        self.emit(Effect::PublishSnapshot);
        Ok(
            RepairSummary {
                requested_by: text(requested_by),
                repaired_agents: agents,
                repaired_tasks: tasks,
                repaired_sessions: sessions,
                notes,
            },
        )
    }
}

} // verus!
